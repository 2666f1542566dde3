//! Decimal rendering of numbers for query strings, proved against a
//! mathematical definition of the digit sequence.

use vstd::prelude::*;
use vstd::string::StringExecFns;

use crate::chars::{spec_name_char, all_path_chars};

verus! {

/// The character for one decimal digit.
pub open spec fn spec_digit_char(d: nat) -> char
    recommends
        d < 10,
{
    if d == 0 {
        '0'
    } else if d == 1 {
        '1'
    } else if d == 2 {
        '2'
    } else if d == 3 {
        '3'
    } else if d == 4 {
        '4'
    } else if d == 5 {
        '5'
    } else if d == 6 {
        '6'
    } else if d == 7 {
        '7'
    } else if d == 8 {
        '8'
    } else {
        '9'
    }
}

/// The decimal representation of `n`, most significant digit first, with no
/// leading zeros (a single `0` for zero).
pub open spec fn dec_str(n: nat) -> Seq<char>
    decreases n,
{
    if n < 10 {
        seq![spec_digit_char(n)]
    } else {
        dec_str(n / 10) + seq![spec_digit_char(n % 10)]
    }
}

/// Every digit character is a name character (and hence legal in a path).
pub proof fn lemma_dec_str_chars(n: nat)
    ensures
        dec_str(n).len() >= 1,
        forall|i: int| 0 <= i < dec_str(n).len() ==> spec_name_char(#[trigger] dec_str(n)[i]),
    decreases n,
{
    if n < 10 {
        assert(spec_name_char(spec_digit_char(n)));
    } else {
        lemma_dec_str_chars(n / 10);
        assert(spec_name_char(spec_digit_char(n % 10)));
        assert forall|i: int| 0 <= i < dec_str(n).len() implies spec_name_char(
            #[trigger] dec_str(n)[i],
        ) by {
            if i < dec_str(n / 10).len() {
                assert(dec_str(n)[i] == dec_str(n / 10)[i]);
            } else {
                assert(dec_str(n)[i] == spec_digit_char(n % 10));
            }
        }
    }
}

pub open spec fn spec_pow10(d: nat) -> nat
    decreases d,
{
    if d == 0 {
        1
    } else {
        10 * spec_pow10((d - 1) as nat)
    }
}

/// `n` below the `digits`-th power of ten takes at most `digits` characters.
pub proof fn lemma_dec_str_len(n: nat, digits: nat)
    requires
        digits >= 1,
        n < spec_pow10(digits),
    ensures
        dec_str(n).len() <= digits,
    decreases digits,
{
    if n < 10 {
    } else {
        let p = spec_pow10((digits - 1) as nat);
        assert(p >= 1) by {
            lemma_pow10_positive((digits - 1) as nat);
        }
        assert(n / 10 < p) by {
            vstd::arithmetic::div_mod::lemma_multiply_divide_lt(n as int, 10, p as int);
        }
        lemma_dec_str_len(n / 10, (digits - 1) as nat);
    }
}

pub proof fn lemma_pow10_positive(d: nat)
    ensures
        spec_pow10(d) >= 1,
    decreases d,
{
    if d > 0 {
        lemma_pow10_positive((d - 1) as nat);
    }
}

/// A `u32` never takes more than ten digits.
pub proof fn lemma_dec_str_len_u32(n: u32)
    ensures
        dec_str(n as nat).len() <= 10,
{
    assert(spec_pow10(10) == 10000000000) by {
        reveal_with_fuel(spec_pow10, 11);
    }
    lemma_dec_str_len(n as nat, 10);
}

/// The one-character string for one decimal digit.
fn digit_str(d: u32) -> (s: &'static str)
    requires
        d < 10,
    ensures
        s@ =~= seq![spec_digit_char(d as nat)],
{
    proof {
        reveal_strlit("0");
        reveal_strlit("1");
        reveal_strlit("2");
        reveal_strlit("3");
        reveal_strlit("4");
        reveal_strlit("5");
        reveal_strlit("6");
        reveal_strlit("7");
        reveal_strlit("8");
        reveal_strlit("9");
    }
    match d {
        0 => "0",
        1 => "1",
        2 => "2",
        3 => "3",
        4 => "4",
        5 => "5",
        6 => "6",
        7 => "7",
        8 => "8",
        _ => "9",
    }
}

/// Render `n` in decimal.
pub fn u32_to_string(n: u32) -> (s: String)
    ensures
        s@ == dec_str(n as nat),
    decreases n,
{
    if n < 10 {
        let s = String::from_str(digit_str(n));
        s
    } else {
        let mut s = u32_to_string(n / 10);
        s.append(digit_str(n % 10));
        proof {
            assert(s@ =~= dec_str(n as nat));
        }
        s
    }
}

} // verus!
