pub mod clock;
pub mod codec;
pub mod phase;
pub mod session;
pub mod state;
pub mod text;
