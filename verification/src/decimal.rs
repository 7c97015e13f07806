//! Decimal text for amounts counted in hundredths.

use vstd::prelude::*;
use vstd::string::*;

verus! {

/// The character that writes the decimal digit `d`.
pub open spec fn digit_char(d: int) -> char
    recommends
        0 <= d <= 9,
{
    if d == 0 {
        '0'
    } else if d == 1 {
        '1'
    } else if d == 2 {
        '2'
    } else if d == 3 {
        '3'
    } else if d == 4 {
        '4'
    } else if d == 5 {
        '5'
    } else if d == 6 {
        '6'
    } else if d == 7 {
        '7'
    } else if d == 8 {
        '8'
    } else {
        '9'
    }
}

/// The decimal numeral of `n`: most significant digit first, no leading zero
/// except for zero itself.
pub open spec fn decimal_text(n: nat) -> Seq<char>
    decreases n,
{
    if n < 10 {
        seq![digit_char(n as int)]
    } else {
        decimal_text(n / 10).push(digit_char((n % 10) as int))
    }
}

/// The absolute value of `v`.
pub open spec fn magnitude(v: int) -> nat {
    if v < 0 {
        (-v) as nat
    } else {
        v as nat
    }
}

/// An amount of `hundredths` written with exactly two decimals: a minus sign
/// if it is negative, the whole part, a point, the tenths and the hundredths.
pub open spec fn amount_text(hundredths: int) -> Seq<char> {
    let m = magnitude(hundredths);
    let sign = if hundredths < 0 {
        seq!['-']
    } else {
        Seq::<char>::empty()
    };
    sign + decimal_text(m / 100) + seq![
        '.',
        digit_char((m / 10 % 10) as int),
        digit_char((m % 10) as int),
    ]
}

/// The one-character text of a decimal digit.
fn digit_str(d: u8) -> (s: &'static str)
    requires
        d <= 9,
    ensures
        s@ == seq![digit_char(d as int)],
{
    proof {
        reveal_strlit("0");
        reveal_strlit("1");
        reveal_strlit("2");
        reveal_strlit("3");
        reveal_strlit("4");
        reveal_strlit("5");
        reveal_strlit("6");
        reveal_strlit("7");
        reveal_strlit("8");
        reveal_strlit("9");
    }
    let s = match d {
        0 => "0",
        1 => "1",
        2 => "2",
        3 => "3",
        4 => "4",
        5 => "5",
        6 => "6",
        7 => "7",
        8 => "8",
        _ => "9",
    };
    assert(s@ =~= seq![digit_char(d as int)]);
    s
}

/// Appends the decimal numeral of `n` to `out`.
fn push_decimal(out: &mut String, n: u128)
    ensures
        final(out)@ == old(out)@ + decimal_text(n as nat),
    decreases n,
{
    if n >= 10 {
        push_decimal(out, n / 10);
    }
    let d: u8 = (n % 10) as u8;
    out.append(digit_str(d));
    assert(out@ =~= old(out)@ + decimal_text(n as nat));
}

/// Writes an amount counted in hundredths with two decimals, as in `251.20`.
pub fn format_amount(hundredths: i128) -> (text: String)
    ensures
        text@ == amount_text(hundredths as int),
{
    let mut text = String::new();
    let m: u128 = if hundredths < 0 {
        text.append("-");
        (-(hundredths + 1)) as u128 + 1
    } else {
        hundredths as u128
    };
    push_decimal(&mut text, m / 100);
    text.append(".");
    text.append(digit_str((m / 10 % 10) as u8));
    text.append(digit_str((m % 10) as u8));
    proof {
        reveal_strlit("-");
        reveal_strlit(".");
        assert(m == magnitude(hundredths as int));
        assert(text@ =~= amount_text(hundredths as int));
    }
    text
}

} // verus!
