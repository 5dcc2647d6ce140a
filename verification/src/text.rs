//! Building text from numbers: decimal digits and fixed-point fractions.

use vstd::prelude::*;
use vstd::string::StringExecFns;

verus! {

/// The character of a decimal digit.
pub open spec fn digit_char(d: int) -> char {
    if d == 0 {
        '0'
    } else if d == 1 {
        '1'
    } else if d == 2 {
        '2'
    } else if d == 3 {
        '3'
    } else if d == 4 {
        '4'
    } else if d == 5 {
        '5'
    } else if d == 6 {
        '6'
    } else if d == 7 {
        '7'
    } else if d == 8 {
        '8'
    } else {
        '9'
    }
}

/// The decimal numeral of `n`, without leading zeros.
pub open spec fn decimal(n: nat) -> Seq<char>
    decreases n,
{
    if n < 10 {
        seq![digit_char(n as int)]
    } else {
        decimal(n / 10).push(digit_char((n % 10) as int))
    }
}

/// `num / den` rounded to the nearest integer, ties to the even one.
pub open spec fn round_half_even(num: nat, den: nat) -> nat
    recommends
        den > 0,
{
    let q = num / den;
    let r = num % den;
    if 2 * r > den || (2 * r == den && q % 2 == 1) {
        q + 1
    } else {
        q
    }
}

/// `num / den` with one digit after the point.
pub open spec fn fixed1(num: nat, den: nat) -> Seq<char> {
    let s = round_half_even(num * 10, den);
    decimal(s / 10) + seq!['.', digit_char((s % 10) as int)]
}

/// `num / den` with two digits after the point.
pub open spec fn fixed2(num: nat, den: nat) -> Seq<char> {
    let s = round_half_even(num * 100, den);
    decimal(s / 100) + seq!['.', digit_char((s / 10 % 10) as int), digit_char((s % 10) as int)]
}

fn digit_str(d: u8) -> (s: &'static str)
    requires
        d < 10,
    ensures
        s@ == seq![digit_char(d as int)],
{
    proof {
        reveal_strlit("0");
        reveal_strlit("1");
        reveal_strlit("2");
        reveal_strlit("3");
        reveal_strlit("4");
        reveal_strlit("5");
        reveal_strlit("6");
        reveal_strlit("7");
        reveal_strlit("8");
        reveal_strlit("9");
    }
    let s = if d == 0 {
        "0"
    } else if d == 1 {
        "1"
    } else if d == 2 {
        "2"
    } else if d == 3 {
        "3"
    } else if d == 4 {
        "4"
    } else if d == 5 {
        "5"
    } else if d == 6 {
        "6"
    } else if d == 7 {
        "7"
    } else if d == 8 {
        "8"
    } else {
        "9"
    };
    assert(s@ =~= seq![digit_char(d as int)]);
    s
}

/// Appends one decimal digit.
pub fn push_digit(out: &mut String, d: u8)
    requires
        d < 10,
    ensures
        final(out)@ == old(out)@.push(digit_char(d as int)),
{
    out.append(digit_str(d));
    assert(out@ =~= old(out)@.push(digit_char(d as int)));
}

/// Appends the decimal numeral of `n`.
pub fn push_decimal(out: &mut String, n: u128)
    ensures
        final(out)@ == old(out)@ + decimal(n as nat),
    decreases n,
{
    if n >= 10 {
        push_decimal(out, n / 10);
    }
    push_digit(out, (n % 10) as u8);
    assert(out@ =~= old(out)@ + decimal(n as nat));
}

fn rounded_quotient(num: u128, den: u128) -> (q: u128)
    requires
        den > 0,
        den <= 0xffff_ffff_ffff_ffff,
        num < 0xffff_ffff_ffff_ffff_ffff_ffff_ffff_ffff,
    ensures
        q == round_half_even(num as nat, den as nat),
{
    let q = num / den;
    let r = num % den;
    if 2 * r > den || (2 * r == den && q % 2 == 1) {
        q + 1
    } else {
        q
    }
}

/// Appends `num / den` with one digit after the point, rounded half to even.
pub fn push_fixed1(out: &mut String, num: u128, den: u64)
    requires
        den > 0,
        num <= 0xffff_ffff_ffff_ffff_ffff_ffff,
    ensures
        final(out)@ == old(out)@ + fixed1(num as nat, den as nat),
{
    let s = rounded_quotient(num * 10, den as u128);
    push_decimal(out, s / 10);
    out.append(".");
    push_digit(out, (s % 10) as u8);
    proof {
        reveal_strlit(".");
        assert(out@ =~= old(out)@ + fixed1(num as nat, den as nat));
    }
}

/// Appends `num / den` with two digits after the point, rounded half to even.
pub fn push_fixed2(out: &mut String, num: u128, den: u64)
    requires
        den > 0,
        num <= 0xffff_ffff_ffff_ffff_ffff_ffff,
    ensures
        final(out)@ == old(out)@ + fixed2(num as nat, den as nat),
{
    let s = rounded_quotient(num * 100, den as u128);
    push_decimal(out, s / 100);
    out.append(".");
    push_digit(out, (s / 10 % 10) as u8);
    push_digit(out, (s % 10) as u8);
    proof {
        reveal_strlit(".");
        assert(out@ =~= old(out)@ + fixed2(num as nat, den as nat));
    }
}

} // verus!
