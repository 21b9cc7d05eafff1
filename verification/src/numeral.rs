//! Decimal numerals: how a natural number, or a count of tenths or
//! thousandths, reads as text.

use vstd::prelude::*;
use vstd::string::StringExecFns;

verus! {

/// The character that stands for a single decimal digit.
pub open spec fn digit_char(d: nat) -> char
    recommends
        d < 10,
{
    if d == 0 {
        '0'
    } else if d == 1 {
        '1'
    } else if d == 2 {
        '2'
    } else if d == 3 {
        '3'
    } else if d == 4 {
        '4'
    } else if d == 5 {
        '5'
    } else if d == 6 {
        '6'
    } else if d == 7 {
        '7'
    } else if d == 8 {
        '8'
    } else {
        '9'
    }
}

/// The decimal numeral of `n`, most significant digit first, with no
/// leading zero except for zero itself.
pub open spec fn decimal_text(n: nat) -> Seq<char>
    decreases n,
{
    if n < 10 {
        seq![digit_char(n)]
    } else {
        decimal_text(n / 10).push(digit_char(n % 10))
    }
}

/// The numeral of `n` counted in units of `10^-places`: the last `places`
/// digits of `n` stand behind a decimal point, and at least one digit
/// stands before it. With no places there is no point.
pub open spec fn fixed_text(n: nat, places: nat) -> Seq<char>
    decreases places,
{
    if places == 0 {
        decimal_text(n)
    } else if places == 1 {
        decimal_text(n / 10).push('.').push(digit_char(n % 10))
    } else {
        fixed_text(n / 10, (places - 1) as nat).push(digit_char(n % 10))
    }
}

/// Appends one decimal digit to `out`.
fn push_digit(out: &mut String, d: u8)
    requires
        d < 10,
    ensures
        final(out)@ == old(out)@.push(digit_char(d as nat)),
{
    proof {
        reveal_strlit("0");
        reveal_strlit("1");
        reveal_strlit("2");
        reveal_strlit("3");
        reveal_strlit("4");
        reveal_strlit("5");
        reveal_strlit("6");
        reveal_strlit("7");
        reveal_strlit("8");
        reveal_strlit("9");
    }
    let digit: &str = match d {
        0 => "0",
        1 => "1",
        2 => "2",
        3 => "3",
        4 => "4",
        5 => "5",
        6 => "6",
        7 => "7",
        8 => "8",
        _ => "9",
    };
    out.append(digit);
}

/// Appends the decimal numeral of `n` to `out`.
pub fn push_decimal(out: &mut String, n: u64)
    ensures
        final(out)@ == old(out)@ + decimal_text(n as nat),
    decreases n,
{
    if n >= 10 {
        push_decimal(out, n / 10);
    }
    push_digit(out, (n % 10) as u8);
}

/// Appends the numeral of `n` with its last `places` digits behind the
/// decimal point.
pub fn push_fixed(out: &mut String, n: u64, places: u32)
    ensures
        final(out)@ == old(out)@ + fixed_text(n as nat, places as nat),
    decreases places,
{
    if places == 0 {
        push_decimal(out, n);
    } else {
        if places == 1 {
            push_decimal(out, n / 10);
            out.append(".");
            proof {
                reveal_strlit(".");
            }
        } else {
            push_fixed(out, n / 10, places - 1);
        }
        push_digit(out, (n % 10) as u8);
    }
}

} // verus!
