//! Decimal text: integer labels and the two-decimal mantissa strings shown
//! as y-axis tick labels.

use vstd::prelude::*;
use vstd::string::StringExecFns;
use crate::fixed::{Fixed, pow10, pow10_u128, MAX_UNITS};

verus! {

/// The character for one decimal digit.
pub open spec fn digit_char(d: int) -> char {
    if d == 0 {
        '0'
    } else if d == 1 {
        '1'
    } else if d == 2 {
        '2'
    } else if d == 3 {
        '3'
    } else if d == 4 {
        '4'
    } else if d == 5 {
        '5'
    } else if d == 6 {
        '6'
    } else if d == 7 {
        '7'
    } else if d == 8 {
        '8'
    } else {
        '9'
    }
}

/// The decimal digits of a non-negative integer, most significant first.
pub open spec fn dec_digits(n: int) -> Seq<char>
    recommends
        n >= 0,
    decreases n,
{
    if n < 10 {
        seq![digit_char(n)]
    } else {
        dec_digits(n / 10).push(digit_char(n % 10))
    }
}

/// The decimal text of an integer, with a leading minus sign when negative.
pub open spec fn int_text(n: int) -> Seq<char> {
    if n < 0 {
        seq!['-'] + dec_digits(-n)
    } else {
        dec_digits(n)
    }
}

fn digit_str(d: u128) -> (s: &'static str)
    requires
        d < 10,
    ensures
        s@ == seq![digit_char(d as int)],
{
    let s: &'static str = if d == 0 {
        "0"
    } else if d == 1 {
        "1"
    } else if d == 2 {
        "2"
    } else if d == 3 {
        "3"
    } else if d == 4 {
        "4"
    } else if d == 5 {
        "5"
    } else if d == 6 {
        "6"
    } else if d == 7 {
        "7"
    } else if d == 8 {
        "8"
    } else {
        "9"
    };
    proof {
        reveal_strlit("0");
        reveal_strlit("1");
        reveal_strlit("2");
        reveal_strlit("3");
        reveal_strlit("4");
        reveal_strlit("5");
        reveal_strlit("6");
        reveal_strlit("7");
        reveal_strlit("8");
        reveal_strlit("9");
        assert(s@ =~= seq![digit_char(d as int)]);
    }
    s
}

/// Writes a non-negative integer in decimal.
fn dec_string(n: u128) -> (s: String)
    ensures
        s@ == dec_digits(n as int),
    decreases n,
{
    if n < 10 {
        String::from_str(digit_str(n))
    } else {
        let mut s = dec_string(n / 10);
        s.append(digit_str(n % 10));
        proof {
            assert(s@ =~= dec_digits(n as int));
        }
        s
    }
}

/// Writes an integer in decimal, as the exponent annotation shows it.
pub fn int_string(n: i32) -> (s: String)
    ensures
        s@ == int_text(n as int),
{
    if n < 0 {
        let m: u128 = (-(n as i64)) as u128;
        let mut s = String::from_str("-");
        let digits = dec_string(m);
        s.append(digits.as_str());
        proof {
            reveal_strlit("-");
            assert(s@ =~= int_text(n as int));
        }
        s
    } else {
        dec_string(n as u128)
    }
}

/// Division rounded to the nearest integer, ties away from zero.
pub open spec fn round_div_half(a: int, d: int) -> int
    recommends
        d >= 1,
{
    if a >= 0 {
        (a + d / 2) / d
    } else {
        -((-a + d / 2) / d)
    }
}

/// The tick value `u * 10^-12` divided by `10^e`, expressed in rounded
/// hundredths.
pub open spec fn hundredths(u: int, e: int) -> int {
    let k = e + 10;
    if k >= 0 {
        round_div_half(u, pow10(k as nat))
    } else {
        u * pow10((-k) as nat)
    }
}

/// A count of hundredths written with two decimal places, without sign.
pub open spec fn decimal_2dp_nn(h: int) -> Seq<char>
    recommends
        h >= 0,
{
    dec_digits(h / 100) + seq!['.', digit_char((h / 10) % 10), digit_char(h % 10)]
}

/// A count of hundredths written with two decimal places.
pub open spec fn decimal_2dp(h: int) -> Seq<char> {
    if h < 0 {
        seq!['-'] + decimal_2dp_nn(-h)
    } else {
        decimal_2dp_nn(h)
    }
}

/// The text of a y tick label: the tick value divided by `10^exponent`,
/// written with two decimal places.
pub open spec fn mantissa_text(u: int, e: int) -> Seq<char> {
    decimal_2dp(hundredths(u, e))
}

/// Formats a y tick value as the mantissa shown on the axis: the value
/// divided by ten to the shared exponent, rounded to two decimal places.
pub fn format_mantissa(v: Fixed, exponent: i32) -> (s: String)
    requires
        v.wf(),
        -12 <= exponent <= 21,
    ensures
        s@ == mantissa_text(v.units as int, exponent as int),
{
    let k: i32 = exponent + 10;
    let neg = v.units < 0;
    let m: u128 = if neg {
        (-v.units) as u128
    } else {
        v.units as u128
    };
    let h: u128 = if k >= 0 {
        let d = pow10_u128(k as u32);
        proof {
            crate::fixed::lemma_pow10_pos(k as nat);
            crate::fixed::lemma_pow10_ge(k as nat, 31nat);
            assert(pow10(31nat) <= MAX_UNITS) by {
                reveal_with_fuel(pow10, 32);
            }
        }
        let q = (m + d / 2) / d;
        proof {
            assert(hundredths(v.units as int, exponent as int) == round_div_half(
                v.units as int,
                d as int,
            ));
        }
        q
    } else {
        proof {
            assert(pow10(1nat) == 10 && pow10(2nat) == 100) by {
                reveal_with_fuel(pow10, 3);
            }
        }
        if k == -1 {
            m * 10
        } else {
            m * 100
        }
    };
    proof {
        assert(hundredths(v.units as int, exponent as int) == if neg {
            -(h as int)
        } else {
            h as int
        });
    }
    let mut s = if neg && h > 0 {
        String::from_str("-")
    } else {
        String::new()
    };
    let int_part = dec_string(h / 100);
    s.append(int_part.as_str());
    s.append(".");
    s.append(digit_str((h / 10) % 10));
    s.append(digit_str(h % 10));
    proof {
        reveal_strlit("-");
        reveal_strlit(".");
        assert(s@ =~= mantissa_text(v.units as int, exponent as int));
    }
    s
}

} // verus!
