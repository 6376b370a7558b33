use crate::text::dec_seq;
use crate::text::pad2;
use crate::text::push_dec;
use crate::text::push_pad2;
use vstd::prelude::*;

verus! {

/// A wall-clock reading, already converted to the display time zone by the
/// caller, held as plain calendar fields.
#[derive(Clone, Copy, PartialEq, Eq, Structural, Debug)]
pub struct ClockStamp {
    pub year: u64,
    pub month: u64,
    pub day: u64,
    pub hour: u64,
    pub minute: u64,
    /// Days since Monday, 0 to 6.
    pub weekday: u64,
}

impl ClockStamp {
    /// Plausible calendar fields, as far as the display needs them.
    pub open spec fn wf(self) -> bool {
        &&& 1 <= self.month <= 12
        &&& 1 <= self.day <= 31
        &&& self.hour < 24
        &&& self.minute < 60
        &&& self.weekday < 7
    }

    /// Decide the invariant at run time, for callers outside the verified
    /// world that must test it before relying on it.
    pub fn is_well_formed(&self) -> (b: bool)
        ensures
            b == self.wf(),
    {
        1 <= self.month && self.month <= 12 && 1 <= self.day && self.day <= 31 && self.hour < 24
            && self.minute < 60 && self.weekday < 7
    }
}

/// The three-letter weekday name, Monday first.
pub open spec fn weekday_name(w: nat) -> Seq<char> {
    if w == 0 {
        "Mon"@
    } else if w == 1 {
        "Tue"@
    } else if w == 2 {
        "Wed"@
    } else if w == 3 {
        "Thu"@
    } else if w == 4 {
        "Fri"@
    } else if w == 5 {
        "Sat"@
    } else {
        "Sun"@
    }
}

/// The clock line: HH:MM YYYY-MM-DD Weekday, with two-digit time, month and
/// day fields and the year unpadded.
pub open spec fn clock_text(c: ClockStamp) -> Seq<char> {
    pad2(c.hour as nat) + seq![':'] + pad2(c.minute as nat) + seq![' '] + dec_seq(c.year as nat)
        + seq!['-'] + pad2(c.month as nat) + seq!['-'] + pad2(c.day as nat) + seq![' ']
        + weekday_name(c.weekday as nat)
}

/// The weekday's three-letter name.
pub fn weekday_str(w: u64) -> (r: &'static str)
    requires
        w < 7,
    ensures
        r@ == weekday_name(w as nat),
{
    match w {
        0 => "Mon",
        1 => "Tue",
        2 => "Wed",
        3 => "Thu",
        4 => "Fri",
        5 => "Sat",
        _ => "Sun",
    }
}

/// Render the clock line for a converted wall-clock reading.
pub fn format_clock(c: ClockStamp) -> (s: String)
    requires
        c.wf(),
    ensures
        s@ == clock_text(c),
{
    let mut out = String::new();
    push_pad2(&mut out, c.hour);
    out.append(":");
    push_pad2(&mut out, c.minute);
    out.append(" ");
    push_dec(&mut out, c.year);
    out.append("-");
    push_pad2(&mut out, c.month);
    out.append("-");
    push_pad2(&mut out, c.day);
    out.append(" ");
    out.append(weekday_str(c.weekday));
    proof {
        reveal_strlit(":");
        reveal_strlit(" ");
        reveal_strlit("-");
        assert(out@ =~= clock_text(c));
    }
    out
}

} // verus!
