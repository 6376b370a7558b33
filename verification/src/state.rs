use crate::clock::ClockStamp;
use crate::clock::clock_text;
use crate::clock::format_clock;
use crate::codec::encode;
use crate::codec::encode_spec;
use crate::codec::restore;
use crate::codec::restore_spec;
use crate::phase::Notification;
use crate::session::Pomo;
use crate::session::advance_note;
use crate::session::advanced;
use crate::session::hint_text;
use crate::session::pomo_text;
use crate::session::toggled;
use vstd::prelude::*;

verus! {

/// A discrete event delivered by the host, reduced to plain values: the two
/// key bindings, a tick carrying whole elapsed seconds, the visibility
/// changes (on becoming visible, with whatever text storage held), and
/// anything else, which is ignored.
pub enum InputEvent {
    ResetKey,
    PauseKey,
    Tick(u64),
    Shown(Option<String>),
    Hidden,
    Other,
}

/// The side effects one update asks the host for: re-arm the 1-second
/// timer, persist the given text, deliver the given alert.
pub struct UpdateActions {
    pub rearm_timer: bool,
    pub save: Option<String>,
    pub notify: Option<Notification>,
}

/// The plugin's state: whether the pane is visible (ticks are re-armed and
/// counted only while it is), and the session.
pub struct State {
    pub active: bool,
    pub pomo: Pomo,
}

impl State {
    /// A fresh plugin: hidden, fresh session.
    pub open spec fn fresh() -> State {
        State { active: false, pomo: Pomo::fresh() }
    }

    pub fn new() -> (s: State)
        ensures
            s == State::fresh(),
    {
        State { active: false, pomo: Pomo::new() }
    }

    /// One step of the event loop, purely: mutate the state and return the
    /// actions the host should perform. The reset key discards the session
    /// for a fresh one; the pause key toggles the flag; a tick advances the
    /// session and re-arms the timer, but only while visible; becoming
    /// visible restores the session from storage and re-arms the timer;
    /// becoming hidden hands back the text to persist.
    pub fn update(&mut self, ev: InputEvent) -> (acts: UpdateActions)
        requires
            old(self).pomo.wf(),
        ensures
            final(self).pomo.wf(),
            match ev {
                InputEvent::ResetKey => {
                    &&& *final(self) == State { active: old(self).active, pomo: Pomo::fresh() }
                    &&& !acts.rearm_timer && acts.save is None && acts.notify is None
                },
                InputEvent::PauseKey => {
                    &&& *final(self) == State {
                        active: old(self).active,
                        pomo: toggled(old(self).pomo),
                    }
                    &&& !acts.rearm_timer && acts.save is None && acts.notify is None
                },
                InputEvent::Tick(d) => {
                    &&& old(self).active ==> *final(self) == State {
                        active: true,
                        pomo: advanced(old(self).pomo, d),
                    } && acts.rearm_timer && acts.notify == advance_note(old(self).pomo, d)
                    &&& !old(self).active ==> *final(self) == *old(self) && !acts.rearm_timer
                        && acts.notify is None
                    &&& acts.save is None
                },
                InputEvent::Shown(data) => {
                    &&& final(self).active
                    &&& final(self).pomo == restore_spec(
                        match data {
                            Some(t) => Some(t@),
                            None => None,
                        },
                    )
                    &&& acts.rearm_timer && acts.save is None && acts.notify is None
                },
                InputEvent::Hidden => {
                    &&& *final(self) == State { active: false, pomo: old(self).pomo }
                    &&& acts.save matches Some(t) && t@ == encode_spec(old(self).pomo)
                    &&& !acts.rearm_timer && acts.notify is None
                },
                InputEvent::Other => {
                    &&& *final(self) == *old(self)
                    &&& !acts.rearm_timer && acts.save is None && acts.notify is None
                },
            },
    {
        match ev {
            InputEvent::ResetKey => {
                self.pomo = Pomo::new();
                UpdateActions { rearm_timer: false, save: None, notify: None }
            },
            InputEvent::PauseKey => {
                self.pomo.toggle_pause();
                UpdateActions { rearm_timer: false, save: None, notify: None }
            },
            InputEvent::Tick(d) => {
                if self.active {
                    let note = self.pomo.elapsed(d);
                    UpdateActions { rearm_timer: true, save: None, notify: note }
                } else {
                    UpdateActions { rearm_timer: false, save: None, notify: None }
                }
            },
            InputEvent::Shown(data) => {
                self.active = true;
                self.pomo = match &data {
                    Some(t) => restore(Some(t.as_str())),
                    None => restore(None),
                };
                UpdateActions { rearm_timer: true, save: None, notify: None }
            },
            InputEvent::Hidden => {
                self.active = false;
                let t = encode(&self.pomo);
                UpdateActions { rearm_timer: false, save: Some(t), notify: None }
            },
            InputEvent::Other => {
                UpdateActions { rearm_timer: false, save: None, notify: None }
            },
        }
    }

    /// The lines to draw: the session and the clock on the first line, and
    /// the keybinding hint on a second line only when more than one row is
    /// available.
    pub fn render_lines(&self, rows: usize, clock: ClockStamp) -> (lines: Vec<String>)
        requires
            self.pomo.wf(),
            clock.wf(),
        ensures
            lines@.len() == (if rows > 1 {
                2int
            } else {
                1int
            }),
            lines@[0]@ == pomo_text(self.pomo) + " | "@ + clock_text(clock),
            rows > 1 ==> lines@[1]@ == hint_text(self.pomo.paused),
    {
        let mut first = self.pomo.format_status();
        first.append(" | ");
        let clock_line = format_clock(clock);
        first.append(clock_line.as_str());
        proof {
            assert(first@ =~= pomo_text(self.pomo) + " | "@ + clock_text(clock));
        }
        let mut lines: Vec<String> = Vec::new();
        lines.push(first);
        if rows > 1 {
            lines.push(self.pomo.shortcuts());
        }
        lines
    }
}

impl Default for State {
    /// A fresh plugin.
    fn default() -> (s: State)
        ensures
            s == State::fresh(),
    {
        State::new()
    }
}

} // verus!
