//! Human-readable sequential codes such as `CASE-007` or `EVT-123`.

use vstd::prelude::*;
use vstd::string::*;

use crate::text::push_char;

verus! {

pub open spec fn digit_char(d: nat) -> char {
    if d == 0 { '0' } else if d == 1 { '1' } else if d == 2 { '2' } else if d == 3 { '3' } else if d == 4 { '4' }
    else if d == 5 { '5' } else if d == 6 { '6' } else if d == 7 { '7' } else if d == 8 { '8' } else { '9' }
}

/// Decimal digits of a natural number, without leading zeros.
pub open spec fn decimal(n: nat) -> Seq<char>
    decreases n,
{
    if n < 10 {
        seq![digit_char(n)]
    } else {
        decimal(n / 10).push(digit_char(n % 10))
    }
}

/// `s` with zeros in front up to `width` characters.
pub open spec fn zero_padded(s: Seq<char>, width: nat) -> Seq<char> {
    if s.len() >= width {
        s
    } else {
        Seq::new((width - s.len()) as nat, |i: int| '0') + s
    }
}

/// The text of `{n:03}`: at least three characters, zero-padded after the sign.
pub open spec fn padded3(n: int) -> Seq<char> {
    if n < 0 {
        seq!['-'] + zero_padded(decimal((-n) as nat), 2)
    } else {
        zero_padded(decimal(n as nat), 3)
    }
}

/// `{prefix}-{n:03}`.
pub open spec fn sequential_code(prefix: Seq<char>, n: int) -> Seq<char> {
    prefix + seq!['-'] + padded3(n)
}

fn digit(d: u64) -> (c: char)
    requires
        d < 10,
    ensures
        c == digit_char(d as nat),
{
    if d == 0 { '0' } else if d == 1 { '1' } else if d == 2 { '2' } else if d == 3 { '3' } else if d == 4 { '4' }
    else if d == 5 { '5' } else if d == 6 { '6' } else if d == 7 { '7' } else if d == 8 { '8' } else { '9' }
}

fn decimal_digits(n: u64) -> (v: Vec<char>)
    ensures
        v@ == decimal(n as nat),
    decreases n,
{
    if n < 10 {
        let mut v = Vec::new();
        v.push(digit(n));
        assert(v@ =~= decimal(n as nat));
        v
    } else {
        let mut v = decimal_digits(n / 10);
        v.push(digit(n % 10));
        v
    }
}

fn push_padded(out: &mut String, n: u64, width: usize)
    ensures
        final(out)@ == old(out)@ + zero_padded(decimal(n as nat), width as nat),
{
    let digits = decimal_digits(n);
    let ghost start = out@;
    let mut pad: usize = 0;
    let missing: usize = if digits.len() >= width { 0 } else { width - digits.len() };
    while pad < missing
        invariant
            pad <= missing,
            out@ == start + Seq::new(pad as nat, |i: int| '0'),
        decreases missing - pad,
    {
        push_char(out, '0');
        pad = pad + 1;
        assert(out@ =~= start + Seq::new(pad as nat, |i: int| '0'));
    }
    let mut i: usize = 0;
    let ghost padded = out@;
    while i < digits.len()
        invariant
            i <= digits.len(),
            out@ == padded + digits@.subrange(0, i as int),
        decreases digits.len() - i,
    {
        push_char(out, digits[i]);
        i = i + 1;
        assert(out@ =~= padded + digits@.subrange(0, i as int));
    }
    assert(digits@.subrange(0, digits@.len() as int) =~= digits@);
    assert(out@ =~= start + zero_padded(decimal(n as nat), width as nat));
}

/// Appends the decimal digits of `n`.
pub fn push_decimal(out: &mut String, n: u64)
    ensures
        final(out)@ == old(out)@ + decimal(n as nat),
{
    push_padded(out, n, 0);
}

/// Formats `{prefix}-{next_number:03}`, as in `CASE-007`.
pub fn format_sequential_code(prefix: &str, next_number: i64) -> (code: String)
    ensures
        code@ == sequential_code(prefix@, next_number as int),
{
    let mut out = prefix.to_owned();
    push_char(&mut out, '-');
    if next_number < 0 {
        push_char(&mut out, '-');
        let magnitude: u64 = if next_number == i64::MIN {
            9223372036854775808u64
        } else {
            (-next_number) as u64
        };
        push_padded(&mut out, magnitude, 2);
    } else {
        push_padded(&mut out, next_number as u64, 3);
    }
    assert(out@ =~= sequential_code(prefix@, next_number as int));
    out
}

} // verus!
