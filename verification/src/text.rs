//! Decimal rendering of shard and cluster ids, used for bus names and
//! for the heartbeat payload.

use vstd::prelude::*;
use vstd::arithmetic::div_mod::{
    lemma_div_decreases, lemma_div_pos_is_pos, lemma_mod_division_less_than_divisor,
    lemma_small_mod,
};
use vstd::string::StringExecFns;

verus! {

broadcast use lemma_mod_division_less_than_divisor, lemma_div_decreases, lemma_div_pos_is_pos;

/// The decimal digits of `n`, most significant first, as ASCII bytes.
pub open spec fn dec_digits(n: nat) -> Seq<u8>
    decreases n,
{
    if n < 10 {
        seq![(48 + n) as u8]
    } else {
        dec_digits(n / 10).push((48 + n % 10) as u8)
    }
}

/// The decimal digits of `n`, most significant first, as characters.
pub open spec fn dec_chars(n: nat) -> Seq<char>
    decreases n,
{
    if n < 10 {
        seq![digit_char(n)]
    } else {
        dec_chars(n / 10).push(digit_char(n % 10))
    }
}

/// The character for one decimal digit.
pub open spec fn digit_char(d: nat) -> char
    recommends
        d < 10,
{
    if d == 0 {
        '0'
    } else if d == 1 {
        '1'
    } else if d == 2 {
        '2'
    } else if d == 3 {
        '3'
    } else if d == 4 {
        '4'
    } else if d == 5 {
        '5'
    } else if d == 6 {
        '6'
    } else if d == 7 {
        '7'
    } else if d == 8 {
        '8'
    } else {
        '9'
    }
}

/// Renders `n` in decimal as ASCII bytes, most significant digit
/// first.
pub fn u64_to_decimal(n: u64) -> (s: Vec<u8>)
    ensures
        s@ == dec_digits(n as nat),
    decreases n,
{
    proof {
        if n >= 10 {
            lemma_div_pos_is_pos(n as int, 10);
        } else {
            lemma_small_mod(n as nat, 10);
        }
    }
    let mut s: Vec<u8> = if n >= 10 {
        u64_to_decimal(n / 10)
    } else {
        Vec::new()
    };
    s.push((n % 10) as u8 + 48);
    proof {
        if n < 10 {
            assert(s@ =~= dec_digits(n as nat));
        }
    }
    s
}

/// Appends the decimal rendering of `n` to `s`.
pub fn push_decimal(s: &mut String, n: u64)
    ensures
        final(s)@ == old(s)@ + dec_chars(n as nat),
    decreases n,
{
    if n >= 10 {
        push_decimal(s, n / 10);
    }
    let d = n % 10;
    match d {
        0 => s.append("0"),
        1 => s.append("1"),
        2 => s.append("2"),
        3 => s.append("3"),
        4 => s.append("4"),
        5 => s.append("5"),
        6 => s.append("6"),
        7 => s.append("7"),
        8 => s.append("8"),
        _ => s.append("9"),
    }
    proof {
        reveal_strlit("0");
        reveal_strlit("1");
        reveal_strlit("2");
        reveal_strlit("3");
        reveal_strlit("4");
        reveal_strlit("5");
        reveal_strlit("6");
        reveal_strlit("7");
        reveal_strlit("8");
        reveal_strlit("9");
        if n < 10 {
            lemma_small_mod(n as nat, 10);
        }
        assert(s@ =~= old(s)@ + dec_chars(n as nat));
    }
}

/// Renders `n` in decimal as a string.
pub fn u64_to_string(n: u64) -> (s: String)
    ensures
        s@ == dec_chars(n as nat),
{
    let mut s = String::new();
    push_decimal(&mut s, n);
    proof {
        assert(s@ =~= dec_chars(n as nat));
    }
    s
}

} // verus!
