//! Numbers as text, for the line that reports a state's timings.
//!
//! The loop counts in integers of a small unit, and a reader wants the
//! larger unit: a timestep of `40000` microseconds reads `0.04` seconds.
//! The text of a number of millionths is its sign, its whole part, and,
//! where the rest is not zero, a point and the digits of the rest up to the
//! last one that is not zero.

use vstd::prelude::*;

verus! {

/// The character of one decimal digit.
pub open spec fn digit(d: nat) -> char {
    if d == 0 {
        '0'
    } else if d == 1 {
        '1'
    } else if d == 2 {
        '2'
    } else if d == 3 {
        '3'
    } else if d == 4 {
        '4'
    } else if d == 5 {
        '5'
    } else if d == 6 {
        '6'
    } else if d == 7 {
        '7'
    } else if d == 8 {
        '8'
    } else {
        '9'
    }
}

/// The decimal digits of a natural number, without leading zeros.
pub open spec fn digits(n: nat) -> Seq<char>
    decreases n,
{
    if n < 10 {
        seq![digit(n)]
    } else {
        digits(n / 10).push(digit(n % 10))
    }
}

/// The text of an integer: a minus sign where it is negative, and its digits.
pub open spec fn integer_text(value: int) -> Seq<char> {
    if value < 0 {
        seq!['-'] + digits((-value) as nat)
    } else {
        digits(value as nat)
    }
}

/// Whether `unit` is one of the powers of ten up to a million.
pub open spec fn decimal_unit(unit: nat) -> bool {
    unit == 1 || unit == 10 || unit == 100 || unit == 1_000 || unit == 10_000 || unit == 100_000
        || unit == 1_000_000
}

/// The digits after the point of `part / unit`, up to the last one that is
/// not zero; none where `part` is zero.
pub open spec fn fraction_digits(part: nat, unit: nat) -> Seq<char>
    decreases unit,
{
    if part == 0 || unit < 10 {
        Seq::empty()
    } else {
        seq![digit(part / (unit / 10))] + fraction_digits(part % (unit / 10), unit / 10)
    }
}

/// The text of a number of millionths, in units.
pub open spec fn millionths_text(value: int) -> Seq<char> {
    let size = if value < 0 {
        (-value) as nat
    } else {
        value as nat
    };
    let whole = digits(size / 1_000_000);
    let part = size % 1_000_000;
    let unsigned = if part == 0 {
        whole
    } else {
        whole + seq!['.'] + fraction_digits(part, 1_000_000)
    };
    if value < 0 {
        seq!['-'] + unsigned
    } else {
        unsigned
    }
}

/// The text of one decimal digit.
fn digit_text(d: u8) -> (text: &'static str)
    requires
        d < 10,
    ensures
        text@ == seq![digit(d as nat)],
{
    proof {
        reveal_strlit("0");
        reveal_strlit("1");
        reveal_strlit("2");
        reveal_strlit("3");
        reveal_strlit("4");
        reveal_strlit("5");
        reveal_strlit("6");
        reveal_strlit("7");
        reveal_strlit("8");
        reveal_strlit("9");
    }
    match d {
        0 => "0",
        1 => "1",
        2 => "2",
        3 => "3",
        4 => "4",
        5 => "5",
        6 => "6",
        7 => "7",
        8 => "8",
        _ => "9",
    }
}

/// The size of an integer: the number without its sign.
fn size_of(value: i128) -> (size: u128)
    ensures
        size == if value < 0 {
            -value
        } else {
            value as int
        },
{
    if value < 0 {
        ((-(value + 1)) as u128) + 1
    } else {
        value as u128
    }
}

/// Appends the decimal digits of `n` to `out`.
pub fn append_digits(out: &mut String, n: u128)
    ensures
        final(out)@ == old(out)@ + digits(n as nat),
    decreases n,
{
    if n >= 10 {
        append_digits(out, n / 10);
    }
    out.append(digit_text((n % 10) as u8));
}

/// Appends the text of `value` to `out`.
pub fn append_integer(out: &mut String, value: i128)
    ensures
        final(out)@ == old(out)@ + integer_text(value as int),
{
    proof {
        reveal_strlit("-");
    }
    if value < 0 {
        out.append("-");
    }
    append_digits(out, size_of(value));
}

/// Appends to `out` the digits after the point of `part / unit`.
fn append_fraction(out: &mut String, part: u128, unit: u128)
    requires
        part < unit,
        decimal_unit(unit as nat),
    ensures
        final(out)@ == old(out)@ + fraction_digits(part as nat, unit as nat),
    decreases unit,
{
    if part != 0 && unit >= 10 {
        let tenth: u128 = unit / 10;
        assert(part / tenth < 10 && part % tenth < tenth) by (nonlinear_arith)
            requires
                part < 10 * tenth,
                tenth > 0,
        ;
        out.append(digit_text((part / tenth) as u8));
        append_fraction(out, part % tenth, tenth);
    }
}

/// Appends to `out` the text of `value` millionths, in units: `40000` reads
/// `0.04`, `-1500000` reads `-1.5` and `2000000` reads `2`.
pub fn append_millionths(out: &mut String, value: i128)
    ensures
        final(out)@ == old(out)@ + millionths_text(value as int),
{
    proof {
        reveal_strlit("-");
        reveal_strlit(".");
    }
    if value < 0 {
        out.append("-");
    }
    let size: u128 = size_of(value);
    let part: u128 = size % 1_000_000;
    append_digits(out, size / 1_000_000);
    if part != 0 {
        out.append(".");
        append_fraction(out, part, 1_000_000);
    }
}

} // verus!
