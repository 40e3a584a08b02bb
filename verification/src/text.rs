//! Text helpers: what the library assumes of string comparison in the
//! standard library, and numbers written in decimal.

use vstd::prelude::*;

verus! {

/// `str`'s `eq` (the standard library's comparison of two string slices):
/// it answers whether the two slices hold the same characters.
pub assume_specification[ <str as PartialEq>::eq ](left: &str, right: &str) -> (same: bool)
    ensures
        same == (left@ == right@),
;

/// The character that stands for a digit.
pub open spec fn digit(value: nat) -> char {
    if value == 0 {
        '0'
    } else if value == 1 {
        '1'
    } else if value == 2 {
        '2'
    } else if value == 3 {
        '3'
    } else if value == 4 {
        '4'
    } else if value == 5 {
        '5'
    } else if value == 6 {
        '6'
    } else if value == 7 {
        '7'
    } else if value == 8 {
        '8'
    } else {
        '9'
    }
}

/// A natural number in decimal, without leading zeros.
pub open spec fn decimal(value: nat) -> Seq<char>
    decreases value,
{
    if value < 10 {
        seq![digit(value)]
    } else {
        decimal(value / 10).push(digit(value % 10))
    }
}

/// An integer in decimal: a minus sign where it is negative, then its
/// magnitude.
pub open spec fn signed_decimal(value: int) -> Seq<char> {
    if value < 0 {
        seq!['-'] + decimal((-value) as nat)
    } else {
        decimal(value as nat)
    }
}

fn digit_text(value: u128) -> (text: &'static str)
    requires
        value < 10,
    ensures
        text@ == seq![digit(value as nat)],
{
    proof {
        reveal_strlit("0");
        reveal_strlit("1");
        reveal_strlit("2");
        reveal_strlit("3");
        reveal_strlit("4");
        reveal_strlit("5");
        reveal_strlit("6");
        reveal_strlit("7");
        reveal_strlit("8");
        reveal_strlit("9");
    }
    let text = if value == 0 {
        "0"
    } else if value == 1 {
        "1"
    } else if value == 2 {
        "2"
    } else if value == 3 {
        "3"
    } else if value == 4 {
        "4"
    } else if value == 5 {
        "5"
    } else if value == 6 {
        "6"
    } else if value == 7 {
        "7"
    } else if value == 8 {
        "8"
    } else {
        "9"
    };
    assert(text@ =~= seq![digit(value as nat)]);
    text
}

/// Appends a number in decimal.
pub fn push_decimal(out: &mut String, value: u128)
    ensures
        final(out)@ == old(out)@ + decimal(value as nat),
    decreases value,
{
    if value >= 10 {
        push_decimal(out, value / 10);
    }
    out.append(digit_text(value % 10));
    proof {
        let before = old(out)@;
        if value >= 10 {
            assert(before + decimal((value / 10) as nat) + seq![digit((value % 10) as nat)]
                =~= before + decimal((value / 10) as nat).push(digit((value % 10) as nat)));
        }
    }
}

/// Appends an integer in decimal.
pub fn push_signed_decimal(out: &mut String, value: i64)
    ensures
        final(out)@ == old(out)@ + signed_decimal(value as int),
{
    if value < 0 {
        proof {
            reveal_strlit("-");
            assert("-"@ =~= seq!['-']);
        }
        out.append("-");
        let magnitude: u128 = (0 - (value as i128)) as u128;
        push_decimal(out, magnitude);
        assert(old(out)@ + seq!['-'] + decimal(magnitude as nat) =~= old(out)@ + (seq!['-']
            + decimal(magnitude as nat)));
    } else {
        push_decimal(out, value as u128);
    }
}

} // verus!
