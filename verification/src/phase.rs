use vstd::prelude::*;

verus! {

/// Length of one working interval, in seconds (25 minutes).
pub const WORKING_SECS: u64 = 1500;

/// Length of one rest interval, in seconds (5 minutes).
pub const BREAKING_SECS: u64 = 300;

/// Length of one nap interval, in seconds (15 minutes).
pub const NAPPING_SECS: u64 = 900;

/// Number of work/rest rounds in one full cycle; after the last rest the
/// cycle ends in a nap instead of more work.
pub const ROUNDS: u64 = 4;

/// An alert to show the user when a phase boundary is crossed.
#[derive(Clone, Copy, PartialEq, Eq, Structural, Debug)]
pub enum Notification {
    TakeBreak,
    TakeNap,
    StartWorking,
}

/// The body text of an alert.
pub open spec fn body_text(n: Notification) -> Seq<char> {
    match n {
        Notification::TakeBreak => "Time to take a break"@,
        Notification::TakeNap => "Time to take some nap"@,
        Notification::StartWorking => "Time to start working"@,
    }
}

impl Notification {
    /// The title every alert is delivered under.
    pub fn title(&self) -> (s: String)
        ensures
            s@ == "pomodoro"@,
    {
        String::from_str("pomodoro")
    }

    /// The alert's body text.
    pub fn body(&self) -> (s: String)
        ensures
            s@ == body_text(*self),
    {
        match self {
            Notification::TakeBreak => String::from_str("Time to take a break"),
            Notification::TakeNap => String::from_str("Time to take some nap"),
            Notification::StartWorking => String::from_str("Time to start working"),
        }
    }
}

/// The current mode of the cycle. Working and Resting carry the 0-based
/// round counter; every variant carries the remaining time of the phase in
/// whole seconds.
#[derive(Clone, Copy, PartialEq, Eq, Structural, Debug)]
pub enum Status {
    Working(u64, u64),
    Resting(u64, u64),
    Napping(u64),
}

impl Status {
    /// The invariant of a settled phase: the round counter stays below
    /// `ROUNDS` and the remaining time never exceeds the interval length the
    /// phase started with.
    pub open spec fn wf(self) -> bool {
        match self {
            Status::Working(i, r) => i < ROUNDS && r <= WORKING_SECS,
            Status::Resting(i, r) => i < ROUNDS && r <= BREAKING_SECS,
            Status::Napping(r) => r <= NAPPING_SECS,
        }
    }

    /// The remaining time of the phase, in seconds.
    pub open spec fn remaining(self) -> u64 {
        match self {
            Status::Working(_, r) => r,
            Status::Resting(_, r) => r,
            Status::Napping(r) => r,
        }
    }
}

/// The transition function of the phase engine: the phase reached after `d`
/// seconds elapse. While `d` is below the remaining time the phase only
/// counts down; otherwise the phase is exhausted (equal counts as exhausted,
/// excess time is dropped) and the next phase of the cycle begins with its
/// full interval.
pub open spec fn step(s: Status, d: u64) -> Status {
    match s {
        Status::Working(i, r) => if d < r {
            Status::Working(i, (r - d) as u64)
        } else {
            Status::Resting(i, BREAKING_SECS)
        },
        Status::Resting(i, r) => if d < r {
            Status::Resting(i, (r - d) as u64)
        } else if i + 1 == ROUNDS {
            Status::Napping(NAPPING_SECS)
        } else {
            Status::Working((i + 1) as u64, WORKING_SECS)
        },
        Status::Napping(r) => if d < r {
            Status::Napping((r - d) as u64)
        } else {
            Status::Working(0, WORKING_SECS)
        },
    }
}

/// The alert emitted by the same transition: None while the phase only
/// counts down, and the alert of the boundary being crossed otherwise.
pub open spec fn step_note(s: Status, d: u64) -> Option<Notification> {
    match s {
        Status::Working(_, r) => if d < r {
            None
        } else {
            Some(Notification::TakeBreak)
        },
        Status::Resting(i, r) => if d < r {
            None
        } else if i + 1 == ROUNDS {
            Some(Notification::TakeNap)
        } else {
            Some(Notification::StartWorking)
        },
        Status::Napping(r) => if d < r {
            None
        } else {
            Some(Notification::StartWorking)
        },
    }
}

/// Driving a phase to exhaustion: advancing by exactly its remaining time.
pub open spec fn exhaust(s: Status) -> Status {
    step(s, s.remaining())
}

impl Status {
    /// Advance this phase by `d` elapsed seconds, returning the new phase
    /// and the alert to emit, if a phase boundary was crossed.
    pub fn elapsed(self, d: u64) -> (res: (Status, Option<Notification>))
        requires
            self.wf(),
        ensures
            res.0 == step(self, d),
            res.1 == step_note(self, d),
            res.0.wf(),
            (match self {
                Status::Working(i, r) => {
                    &&& d < r ==> res.0 == Status::Working(i, (r - d) as u64) && res.1 is None
                    &&& d >= r ==> res.0 == Status::Resting(i, BREAKING_SECS) && res.1 == Some(
                        Notification::TakeBreak,
                    )
                },
                _ => true,
            }),
    {
        match self {
            Status::Working(i, r) => {
                if d < r {
                    (Status::Working(i, r - d), None)
                } else {
                    (Status::Resting(i, BREAKING_SECS), Some(Notification::TakeBreak))
                }
            },
            Status::Resting(i, r) => {
                if d < r {
                    (Status::Resting(i, r - d), None)
                } else if i == ROUNDS - 1 {
                    (Status::Napping(NAPPING_SECS), Some(Notification::TakeNap))
                } else {
                    (Status::Working(i + 1, WORKING_SECS), Some(Notification::StartWorking))
                }
            },
            Status::Napping(r) => {
                if d < r {
                    (Status::Napping(r - d), None)
                } else {
                    (Status::Working(0, WORKING_SECS), Some(Notification::StartWorking))
                }
            },
        }
    }
}

impl Default for Status {
    /// A fresh cycle: first round of work, full working interval remaining.
    fn default() -> (r: Status)
        ensures
            r == Status::Working(0, WORKING_SECS),
    {
        Status::Working(0, WORKING_SECS)
    }
}

/// Law: while time remains, a working phase only counts down — for every
/// remaining time above the elapsed time, the round is kept, the difference
/// remains, and no alert is emitted.
pub proof fn lemma_working_countdown(i: u64, r: u64, d: u64)
    requires
        d < r,
    ensures
        step(Status::Working(i, r), d) == Status::Working(i, (r - d) as u64),
        step_note(Status::Working(i, r), d) is None,
{
}

/// Law: exhaustion is exact-inclusive — an elapsed time equal to the
/// remaining time already crosses the phase boundary, as does any larger
/// one, emitting the break alert.
pub proof fn lemma_exact_exhaustion(i: u64, r: u64, d: u64)
    requires
        d >= r,
    ensures
        step(Status::Working(i, r), d) == Status::Resting(i, BREAKING_SECS),
        step_note(Status::Working(i, r), d) == Some(Notification::TakeBreak),
{
}

/// Law: exhausting a phase steps through the four-round cycle. A working
/// phase of round `i` is followed by the rest of round `i`; the rest of a
/// round before the last by the next round's work; the last round's rest by
/// a nap; and a nap by a fresh first round of work. This holds whatever
/// remaining time the exhausted phase had.
pub proof fn lemma_cycle_order(i: u64, r: u64)
    requires
        i < ROUNDS,
    ensures
        exhaust(Status::Working(i, r)) == Status::Resting(i, BREAKING_SECS),
        i < ROUNDS - 1 ==> exhaust(Status::Resting(i, r)) == Status::Working(
            (i + 1) as u64,
            WORKING_SECS,
        ),
        i == ROUNDS - 1 ==> exhaust(Status::Resting(i, r)) == Status::Napping(NAPPING_SECS),
        exhaust(Status::Napping(r)) == Status::Working(0, WORKING_SECS),
{
}

/// Law: from a fresh cycle, repeatedly driving each phase to exhaustion
/// visits Working(0), Resting(0), Working(1), Resting(1), Working(2),
/// Resting(2), Working(3), Resting(3), Napping, and returns to the fresh
/// cycle after the nap.
pub proof fn lemma_round_cycle()
    ensures
        exhaust(Status::Working(0, WORKING_SECS)) == Status::Resting(0, BREAKING_SECS),
        exhaust(Status::Resting(0, BREAKING_SECS)) == Status::Working(1, WORKING_SECS),
        exhaust(Status::Working(1, WORKING_SECS)) == Status::Resting(1, BREAKING_SECS),
        exhaust(Status::Resting(1, BREAKING_SECS)) == Status::Working(2, WORKING_SECS),
        exhaust(Status::Working(2, WORKING_SECS)) == Status::Resting(2, BREAKING_SECS),
        exhaust(Status::Resting(2, BREAKING_SECS)) == Status::Working(3, WORKING_SECS),
        exhaust(Status::Working(3, WORKING_SECS)) == Status::Resting(3, BREAKING_SECS),
        exhaust(Status::Resting(3, BREAKING_SECS)) == Status::Napping(NAPPING_SECS),
        exhaust(Status::Napping(NAPPING_SECS)) == Status::Working(0, WORKING_SECS),
{
}

} // verus!
