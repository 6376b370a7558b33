use vstd::prelude::*;

verus! {

/// The decimal digit character for `d` (0 to 9).
pub open spec fn digit_char(d: nat) -> char {
    if d == 0 {
        '0'
    } else if d == 1 {
        '1'
    } else if d == 2 {
        '2'
    } else if d == 3 {
        '3'
    } else if d == 4 {
        '4'
    } else if d == 5 {
        '5'
    } else if d == 6 {
        '6'
    } else if d == 7 {
        '7'
    } else if d == 8 {
        '8'
    } else {
        '9'
    }
}

/// The canonical decimal form of `n`: most significant digit first, no
/// leading zero except for the single digit of zero itself.
pub open spec fn dec_seq(n: nat) -> Seq<char>
    decreases n,
{
    if n < 10 {
        seq![digit_char(n)]
    } else {
        dec_seq(n / 10) + seq![digit_char(n % 10)]
    }
}

/// `n` zero-padded to two digits (meaningful for n < 100).
pub open spec fn pad2(n: nat) -> Seq<char> {
    seq![digit_char(n / 10), digit_char(n % 10)]
}

pub open spec fn is_digit(c: char) -> bool {
    '0' <= c <= '9'
}

/// The value of a single decimal digit character.
pub open spec fn digit_val(c: char) -> nat {
    (c as int - '0' as int) as nat
}

/// The numeric value of a string of decimal digits.
pub open spec fn dec_val(s: Seq<char>) -> nat
    decreases s.len(),
{
    if s.len() == 0 {
        0
    } else {
        dec_val(s.drop_last()) * 10 + digit_val(s.last())
    }
}

pub open spec fn all_digits(s: Seq<char>) -> bool {
    forall|k: int| 0 <= k < s.len() ==> is_digit(#[trigger] s[k])
}

/// A canonical decimal string: nonempty, all digits, and no leading zero
/// unless it is the single digit zero.
pub open spec fn is_canon_dec(s: Seq<char>) -> bool {
    &&& s.len() >= 1
    &&& all_digits(s)
    &&& s.len() > 1 ==> s[0] != '0'
}

/// The canonical decimal form of `n` is indeed canonical, reads back as `n`,
/// and starts with a nonzero digit whenever `n` is nonzero.
pub proof fn lemma_dec_seq_canon(n: nat)
    ensures
        is_canon_dec(dec_seq(n)),
        dec_val(dec_seq(n)) == n,
        n >= 1 ==> dec_seq(n)[0] != '0',
    decreases n,
{
    if n < 10 {
        let s = dec_seq(n);
        assert(s =~= seq![digit_char(n)]);
        assert(s.drop_last().len() == 0);
        assert(dec_val(s.drop_last()) == 0);
        assert(dec_val(s) == digit_val(digit_char(n)));
    } else {
        lemma_dec_seq_canon(n / 10);
        let s = dec_seq(n);
        assert(s =~= dec_seq(n / 10) + seq![digit_char(n % 10)]);
        assert(s.drop_last() =~= dec_seq(n / 10));
        assert(s.last() == digit_char(n % 10));
        assert(dec_val(s) == (n / 10) * 10 + n % 10);
        assert(s[0] == dec_seq(n / 10)[0]);
    }
}

/// A lower bound on the value of a canonical decimal string, by its length:
/// every extra digit multiplies the minimum value by ten (capped here at the
/// five-digit bound, which is all the callers need).
pub open spec fn dec_floor(k: nat) -> nat {
    if k < 2 {
        0
    } else if k == 2 {
        10
    } else if k == 3 {
        100
    } else if k == 4 {
        1000
    } else {
        10000
    }
}

pub proof fn lemma_canon_dec_floor(s: Seq<char>)
    requires
        is_canon_dec(s),
    ensures
        dec_val(s) >= dec_floor(s.len()),
    decreases s.len(),
{
    if s.len() == 1 {
    } else {
        let t = s.drop_last();
        assert(t.len() == s.len() - 1);
        assert(all_digits(t)) by {
            assert(forall|k: int| 0 <= k < t.len() ==> t[k] == s[k]);
        }
        assert(t[0] == s[0]);
        lemma_canon_dec_floor(t);
        if s.len() == 2 {
            assert(t.drop_last().len() == 0);
            assert(dec_val(t.drop_last()) == 0);
            assert(t.last() == t[0]);
            assert(dec_val(t) == digit_val(t[0]));
            assert(digit_val(s[0]) >= 1);
        }
        assert(dec_val(s) == dec_val(t) * 10 + digit_val(s.last()));
    }
}

/// The one-character string for the digit `d`.
pub fn digit_str(d: u64) -> (r: &'static str)
    requires
        d < 10,
    ensures
        r@ == seq![digit_char(d as nat)],
{
    let r: &'static str = match d {
        0 => "0",
        1 => "1",
        2 => "2",
        3 => "3",
        4 => "4",
        5 => "5",
        6 => "6",
        7 => "7",
        8 => "8",
        _ => "9",
    };
    proof {
        reveal_strlit("0");
        reveal_strlit("1");
        reveal_strlit("2");
        reveal_strlit("3");
        reveal_strlit("4");
        reveal_strlit("5");
        reveal_strlit("6");
        reveal_strlit("7");
        reveal_strlit("8");
        reveal_strlit("9");
        assert(r@ =~= seq![digit_char(d as nat)]);
    }
    r
}

/// Append the canonical decimal form of `n` to `out`.
pub fn push_dec(out: &mut String, n: u64)
    ensures
        final(out)@ == old(out)@ + dec_seq(n as nat),
    decreases n,
{
    if n >= 10 {
        push_dec(out, n / 10);
        out.append(digit_str(n % 10));
        proof {
            assert(out@ =~= old(out)@ + dec_seq(n as nat));
        }
    } else {
        out.append(digit_str(n));
        proof {
            assert(out@ =~= old(out)@ + dec_seq(n as nat));
        }
    }
}

/// Append `n` zero-padded to two digits (the MM and SS fields).
pub fn push_pad2(out: &mut String, n: u64)
    requires
        n < 100,
    ensures
        final(out)@ == old(out)@ + pad2(n as nat),
{
    out.append(digit_str(n / 10));
    out.append(digit_str(n % 10));
    proof {
        assert(out@ =~= old(out)@ + pad2(n as nat));
    }
}

} // verus!
