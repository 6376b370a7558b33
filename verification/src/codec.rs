use crate::phase::BREAKING_SECS;
use crate::phase::NAPPING_SECS;
use crate::phase::ROUNDS;
use crate::phase::Status;
use crate::phase::WORKING_SECS;
use crate::session::Pomo;
use crate::text::all_digits;
use crate::text::dec_seq;
use crate::text::dec_val;
use crate::text::digit_char;
use crate::text::digit_str;
use crate::text::digit_val;
use crate::text::is_canon_dec;
use crate::text::is_digit;
use crate::text::lemma_canon_dec_floor;
use crate::text::lemma_dec_seq_canon;
use crate::text::push_dec;
use vstd::prelude::*;

verus! {

/// The persisted text of a session: one character for the pause flag
/// ('0' running, '1' paused), one for the phase ('w' working, 'b' resting,
/// 'n' napping), one digit for the round counter ('0' for a nap), then the
/// remaining seconds in canonical decimal.
pub open spec fn encode_spec(p: Pomo) -> Seq<char> {
    seq![if p.paused { '1' } else { '0' }] + match p.status {
        Status::Working(i, r) => seq!['w', digit_char(i as nat)] + dec_seq(r as nat),
        Status::Resting(i, r) => seq!['b', digit_char(i as nat)] + dec_seq(r as nat),
        Status::Napping(r) => seq!['n', '0'] + dec_seq(r as nat),
    }
}

/// What parsing persisted text yields: the session it canonically encodes,
/// or nothing. Only exact canonical encodings of well-formed sessions are
/// accepted; anything else counts as malformed.
pub open spec fn parse_spec(s: Seq<char>) -> Option<Pomo> {
    if s.len() < 4 {
        None
    } else {
        let pc = s[0];
        let tc = s[1];
        let rc = s[2];
        let num = s.subrange(3, s.len() as int);
        if !((pc == '0' || pc == '1') && is_digit(rc) && is_canon_dec(num)) {
            None
        } else {
            let paused = pc == '1';
            let i = digit_val(rc);
            let r = dec_val(num);
            if tc == 'w' && i < ROUNDS && r <= WORKING_SECS {
                Some(Pomo { paused, status: Status::Working(i as u64, r as u64) })
            } else if tc == 'b' && i < ROUNDS && r <= BREAKING_SECS {
                Some(Pomo { paused, status: Status::Resting(i as u64, r as u64) })
            } else if tc == 'n' && rc == '0' && r <= NAPPING_SECS {
                Some(Pomo { paused, status: Status::Napping(r as u64) })
            } else {
                None
            }
        }
    }
}

/// The session restored from what storage held: the encoded session when
/// the text is a well-formed encoding, the fresh session when the text is
/// malformed or absent.
pub open spec fn restore_spec(data: Option<Seq<char>>) -> Pomo {
    match data {
        Some(s) => match parse_spec(s) {
            Some(p) => p,
            None => Pomo::fresh(),
        },
        None => Pomo::fresh(),
    }
}

/// Serialize a session for storage.
pub fn encode(p: &Pomo) -> (s: String)
    requires
        p.wf(),
    ensures
        s@ == encode_spec(*p),
{
    let mut out = String::new();
    if p.paused {
        out.append("1");
    } else {
        out.append("0");
    }
    match p.status {
        Status::Working(i, r) => {
            out.append("w");
            out.append(digit_str(i));
            push_dec(&mut out, r);
        },
        Status::Resting(i, r) => {
            out.append("b");
            out.append(digit_str(i));
            push_dec(&mut out, r);
        },
        Status::Napping(r) => {
            out.append("n");
            out.append(digit_str(0));
            push_dec(&mut out, r);
        },
    }
    proof {
        reveal_strlit("0");
        reveal_strlit("1");
        reveal_strlit("w");
        reveal_strlit("b");
        reveal_strlit("n");
        assert(out@ =~= encode_spec(*p));
    }
    out
}

/// Deserialize persisted text, accepting exactly the canonical encodings of
/// well-formed sessions.
pub fn parse(s: &str) -> (res: Option<Pomo>)
    ensures
        res == parse_spec(s@),
        res matches Some(p) ==> p.wf(),
{
    let n = s.unicode_len();
    if n < 4 {
        return None;
    }
    let ghost num = s@.subrange(3, s@.len() as int);
    if n > 7 {
        proof {
            if is_canon_dec(num) {
                lemma_canon_dec_floor(num);
            }
        }
        return None;
    }
    let pc = s.get_char(0);
    let tc = s.get_char(1);
    let rc = s.get_char(2);
    if !(pc == '0' || pc == '1') {
        return None;
    }
    if rc < '0' || rc > '9' {
        return None;
    }
    if n > 4 && s.get_char(3) == '0' {
        proof {
            assert(num[0] == s@[3]);
        }
        return None;
    }
    let mut val: u64 = 0;
    let mut j: usize = 3;
    while j < n
        invariant
            3 <= j <= n,
            n == s@.len(),
            4 <= n <= 7,
            num == s@.subrange(3, s@.len() as int),
            all_digits(s@.subrange(3, j as int)),
            val == dec_val(s@.subrange(3, j as int)),
            val < (if j <= 3 {
                1nat
            } else if j == 4 {
                10nat
            } else if j == 5 {
                100nat
            } else if j == 6 {
                1000nat
            } else {
                10000nat
            }),
        decreases n - j,
    {
        let c = s.get_char(j);
        if c < '0' || c > '9' {
            proof {
                assert(num[j - 3] == s@[j as int]);
                assert(!all_digits(num));
            }
            return None;
        }
        let d = (c as u32 - '0' as u32) as u64;
        proof {
            let pref = s@.subrange(3, j as int);
            let ext = s@.subrange(3, j + 1 as int);
            assert(ext.drop_last() =~= pref);
            assert(ext.last() == s@[j as int]);
            assert(digit_val(c) == d as nat);
        }
        val = val * 10 + d;
        j = j + 1;
    }
    proof {
        assert(num =~= s@.subrange(3, j as int));
        assert(is_canon_dec(num));
    }
    let paused = pc == '1';
    let i = (rc as u32 - '0' as u32) as u64;
    proof {
        assert(digit_val(s@[2]) == i as nat);
    }
    if tc == 'w' && i < ROUNDS && val <= WORKING_SECS {
        Some(Pomo { paused, status: Status::Working(i, val) })
    } else if tc == 'b' && i < ROUNDS && val <= BREAKING_SECS {
        Some(Pomo { paused, status: Status::Resting(i, val) })
    } else if tc == 'n' && rc == '0' && val <= NAPPING_SECS {
        Some(Pomo { paused, status: Status::Napping(val) })
    } else {
        None
    }
}

/// Restore a session from what storage held, falling back to the fresh
/// session when the text is malformed or absent.
pub fn restore(data: Option<&str>) -> (p: Pomo)
    ensures
        data matches Some(s) ==> p == restore_spec(Some(s@)),
        data is None ==> p == Pomo::fresh(),
        p.wf(),
{
    match data {
        Some(s) => match parse(s) {
            Some(p) => p,
            None => Pomo::new(),
        },
        None => Pomo::new(),
    }
}

/// Law: persistence round-trips. Serializing any well-formed session and
/// parsing the result yields that session back, identically.
pub proof fn lemma_round_trip(p: Pomo)
    requires
        p.wf(),
    ensures
        parse_spec(encode_spec(p)) == Some(p),
{
    let s = encode_spec(p);
    let pc = if p.paused {
        '1'
    } else {
        '0'
    };
    match p.status {
        Status::Working(i, r) => {
            lemma_dec_seq_canon(r as nat);
            let num = dec_seq(r as nat);
            assert(s =~= seq![pc, 'w', digit_char(i as nat)] + num);
            assert(s.subrange(3, s.len() as int) =~= num);
            assert(digit_val(digit_char(i as nat)) == i as nat);
            assert(is_digit(digit_char(i as nat)));
        },
        Status::Resting(i, r) => {
            lemma_dec_seq_canon(r as nat);
            let num = dec_seq(r as nat);
            assert(s =~= seq![pc, 'b', digit_char(i as nat)] + num);
            assert(s.subrange(3, s.len() as int) =~= num);
            assert(digit_val(digit_char(i as nat)) == i as nat);
            assert(is_digit(digit_char(i as nat)));
        },
        Status::Napping(r) => {
            lemma_dec_seq_canon(r as nat);
            let num = dec_seq(r as nat);
            assert(s =~= seq![pc, 'n', '0'] + num);
            assert(s.subrange(3, s.len() as int) =~= num);
        },
    }
}

} // verus!
