use crate::phase::BREAKING_SECS;
use crate::phase::NAPPING_SECS;
use crate::phase::Notification;
use crate::phase::ROUNDS;
use crate::phase::Status;
use crate::phase::WORKING_SECS;
use crate::phase::step;
use crate::phase::step_note;
use crate::text::digit_char;
use crate::text::digit_str;
use crate::text::pad2;
use crate::text::push_pad2;
use vstd::prelude::*;

verus! {

/// The persisted unit of state: the pause flag and the current phase.
#[derive(Clone, Copy, PartialEq, Eq, Structural, Debug)]
pub struct Pomo {
    pub paused: bool,
    pub status: Status,
}

/// What advancing a session by `d` seconds yields: unchanged while paused,
/// the phase engine's step otherwise.
pub open spec fn advanced(p: Pomo, d: u64) -> Pomo {
    if p.paused {
        p
    } else {
        Pomo { paused: p.paused, status: step(p.status, d) }
    }
}

/// The alert the same advance emits: none while paused.
pub open spec fn advance_note(p: Pomo, d: u64) -> Option<Notification> {
    if p.paused {
        None
    } else {
        step_note(p.status, d)
    }
}

/// What toggling the pause flag yields: the flag flips, the phase stays.
pub open spec fn toggled(p: Pomo) -> Pomo {
    Pomo { paused: !p.paused, status: p.status }
}

/// The MM:SS rendering of a remaining time in seconds: whole minutes and
/// leftover seconds, each zero-padded to two digits.
pub open spec fn mmss(r: nat) -> Seq<char> {
    pad2(r / 60) + seq![':'] + pad2(r % 60)
}

/// The status line of a phase: its name, the 1-based round number for
/// working and resting (the counter itself is 0-based), and the remaining
/// time as MM:SS.
pub open spec fn status_text(s: Status) -> Seq<char> {
    match s {
        Status::Working(i, r) => "Working(round "@ + seq![digit_char((i + 1) as nat)]
            + "): remaining "@ + mmss(r as nat),
        Status::Resting(i, r) => "Resting(round "@ + seq![digit_char((i + 1) as nat)]
            + "): remaining "@ + mmss(r as nat),
        Status::Napping(r) => "Napping: remaining "@ + mmss(r as nat),
    }
}

/// The session line: the status text, with a paused marker appended while
/// paused.
pub open spec fn pomo_text(p: Pomo) -> Seq<char> {
    status_text(p.status) + if p.paused {
        " [paused]"@
    } else {
        Seq::<char>::empty()
    }
}

/// The keybinding hint line; the toggle key's label says what pressing it
/// would do next.
pub open spec fn hint_text(paused: bool) -> Seq<char> {
    "Tip: <space> => "@ + (if paused {
        "resume"@
    } else {
        "pause"@
    }) + ", <r> => reset"@
}

/// Append the MM:SS rendering of `r` seconds.
pub fn push_mmss(out: &mut String, r: u64)
    requires
        r < 6000,
    ensures
        final(out)@ == old(out)@ + mmss(r as nat),
{
    push_pad2(out, r / 60);
    out.append(":");
    push_pad2(out, r % 60);
    proof {
        reveal_strlit(":");
        assert(out@ =~= old(out)@ + mmss(r as nat));
    }
}

impl Status {
    /// Render the status line: phase name, 1-based round number, remaining
    /// time zero-padded as MM:SS.
    pub fn display_text(&self) -> (s: String)
        requires
            self.wf(),
        ensures
            s@ == status_text(*self),
    {
        let mut out = String::new();
        match *self {
            Status::Working(i, rem) => {
                out.append("Working(round ");
                out.append(digit_str(i + 1));
                out.append("): remaining ");
                push_mmss(&mut out, rem);
            },
            Status::Resting(i, rem) => {
                out.append("Resting(round ");
                out.append(digit_str(i + 1));
                out.append("): remaining ");
                push_mmss(&mut out, rem);
            },
            Status::Napping(rem) => {
                out.append("Napping: remaining ");
                push_mmss(&mut out, rem);
            },
        }
        proof {
            assert(out@ =~= status_text(*self));
        }
        out
    }
}

impl Pomo {
    /// The session's invariant is its phase's.
    pub open spec fn wf(self) -> bool {
        self.status.wf()
    }

    /// The fresh session: not paused, first round of work with the full
    /// working interval remaining.
    pub open spec fn fresh() -> Pomo {
        Pomo { paused: false, status: Status::Working(0, WORKING_SECS) }
    }

    pub fn new() -> (r: Pomo)
        ensures
            r == Pomo::fresh(),
            r.wf(),
    {
        Pomo { paused: false, status: Status::Working(0, WORKING_SECS) }
    }

    /// Decide the invariant at run time, for callers outside the verified
    /// world that must test it before relying on it.
    pub fn is_well_formed(&self) -> (b: bool)
        ensures
            b == self.wf(),
    {
        match self.status {
            Status::Working(i, r) => i < ROUNDS && r <= WORKING_SECS,
            Status::Resting(i, r) => i < ROUNDS && r <= BREAKING_SECS,
            Status::Napping(r) => r <= NAPPING_SECS,
        }
    }

    /// Advance the session by `dur` elapsed seconds: inert while paused
    /// (elapsed time is discarded, not buffered), otherwise the phase
    /// engine's step; the alert to deliver, if any, is returned.
    pub fn elapsed(&mut self, dur: u64) -> (note: Option<Notification>)
        requires
            old(self).wf(),
        ensures
            final(self).wf(),
            *final(self) == advanced(*old(self), dur),
            note == advance_note(*old(self), dur),
            old(self).paused ==> *final(self) == *old(self) && note is None,
    {
        if self.paused {
            return None;
        }
        let (st, note) = self.status.elapsed(dur);
        self.status = st;
        note
    }

    /// Flip the pause flag; the phase is untouched.
    pub fn toggle_pause(&mut self)
        ensures
            *final(self) == toggled(*old(self)),
    {
        self.paused = !self.paused;
    }

    /// Render the session: the status line, with " [paused]" appended while
    /// paused.
    pub fn format_status(&self) -> (s: String)
        requires
            self.wf(),
        ensures
            s@ == pomo_text(*self),
    {
        let mut out = self.status.display_text();
        if self.paused {
            out.append(" [paused]");
        }
        proof {
            assert(out@ =~= pomo_text(*self));
        }
        out
    }

    /// The keybinding hint, naming the pause/resume toggle and the reset
    /// key.
    pub fn shortcuts(&self) -> (s: String)
        ensures
            s@ == hint_text(self.paused),
    {
        let mut out = String::from_str("Tip: <space> => ");
        if self.paused {
            out.append("resume");
        } else {
            out.append("pause");
        }
        out.append(", <r> => reset");
        proof {
            assert(out@ =~= hint_text(self.paused));
        }
        out
    }
}

impl Default for Pomo {
    /// The fresh session.
    fn default() -> (r: Pomo)
        ensures
            r == Pomo::fresh(),
    {
        Pomo::new()
    }
}

/// Law: toggling pause twice returns any session to where it started.
pub proof fn lemma_toggle_involution(p: Pomo)
    ensures
        toggled(toggled(p)) == p,
{
}

/// Law: while paused, advancing is inert for every elapsed time, and emits
/// no alert.
pub proof fn lemma_pause_inert(p: Pomo, d: u64)
    requires
        p.paused,
    ensures
        advanced(p, d) == p,
        advance_note(p, d) is None,
{
}

} // verus!
