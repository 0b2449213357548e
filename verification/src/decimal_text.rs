//! Decimal rendering of integers into report text, as `{}` formatting renders them.
use vstd::prelude::*;

verus! {

/// The ASCII digit for `d < 10`.
pub open spec fn digit_char(d: nat) -> char {
    if d == 0 { '0' } else if d == 1 { '1' } else if d == 2 { '2' } else if d == 3 { '3' }
    else if d == 4 { '4' } else if d == 5 { '5' } else if d == 6 { '6' } else if d == 7 { '7' }
    else if d == 8 { '8' } else { '9' }
}

/// Decimal digits of `n`, most significant first, with no leading zeros (`"0"` for zero).
pub open spec fn decimal_nat(n: nat) -> Seq<char>
    decreases n,
{
    if n < 10 {
        seq![digit_char(n)]
    } else {
        decimal_nat(n / 10).push(digit_char(n % 10))
    }
}

/// Decimal text of an integer: a leading `-` for negatives.
pub open spec fn decimal_int(x: int) -> Seq<char> {
    if x < 0 {
        seq!['-'] + decimal_nat((-x) as nat)
    } else {
        decimal_nat(x as nat)
    }
}

/// Text of the digit `d < 10`.
fn digit_text(d: u64) -> (r: &'static str)
    requires
        d < 10,
    ensures
        r@ == seq![digit_char(d as nat)],
{
    proof {
        reveal_strlit("0");
        reveal_strlit("1");
        reveal_strlit("2");
        reveal_strlit("3");
        reveal_strlit("4");
        reveal_strlit("5");
        reveal_strlit("6");
        reveal_strlit("7");
        reveal_strlit("8");
        reveal_strlit("9");
    }
    if d == 0 { "0" } else if d == 1 { "1" } else if d == 2 { "2" } else if d == 3 { "3" }
    else if d == 4 { "4" } else if d == 5 { "5" } else if d == 6 { "6" } else if d == 7 { "7" }
    else if d == 8 { "8" } else { "9" }
}

/// Appends the decimal text of `n`.
pub fn push_decimal_u64(out: &mut String, n: u64)
    ensures
        final(out)@ == old(out)@ + decimal_nat(n as nat),
    decreases n,
{
    if n >= 10 {
        push_decimal_u64(out, n / 10);
    }
    let d = digit_text(n % 10);
    out.append(d);
    proof {
        if n >= 10 {
            assert(old(out)@ + decimal_nat(n as nat) == old(out)@ + decimal_nat((n / 10) as nat) + seq![digit_char((n % 10) as nat)]);
        } else {
            assert(old(out)@ + decimal_nat(n as nat) == old(out)@ + seq![digit_char(n as nat)]);
        }
    }
}

/// Appends the decimal text of `x`, with a leading `-` when negative.
pub fn push_decimal_i64(out: &mut String, x: i64)
    ensures
        final(out)@ == old(out)@ + decimal_int(x as int),
{
    if x < 0 {
        proof { reveal_strlit("-"); }
        out.append("-");
        let magnitude: u64 = if x == i64::MIN { 0x8000_0000_0000_0000u64 } else { (-x) as u64 };
        push_decimal_u64(out, magnitude);
        proof {
            assert(old(out)@ + decimal_int(x as int) == old(out)@ + seq!['-'] + decimal_nat(magnitude as nat));
        }
    } else {
        push_decimal_u64(out, x as u64);
    }
}

/// Appends literal text.
pub fn push_text(out: &mut String, text: &str)
    ensures
        final(out)@ == old(out)@ + text@,
{
    out.append(text);
}

/// Two decimal digits of `n < 100`, zero-padded (as `{:02}` renders them).
pub open spec fn two_digits(n: nat) -> Seq<char> {
    seq![digit_char(n / 10), digit_char(n % 10)]
}

/// Appends `n < 100` as two zero-padded digits.
pub fn push_two_digits(out: &mut String, n: u64)
    requires
        n < 100,
    ensures
        final(out)@ == old(out)@ + two_digits(n as nat),
{
    let tens = digit_text(n / 10);
    out.append(tens);
    let ones = digit_text(n % 10);
    out.append(ones);
    proof {
        assert(old(out)@ + two_digits(n as nat) == old(out)@ + seq![digit_char((n / 10) as nat)] + seq![digit_char((n % 10) as nat)]);
    }
}


/// `true` or `false`, as `{}` renders a `bool`.
pub open spec fn bool_text(b: bool) -> Seq<char> {
    if b { "true"@ } else { "false"@ }
}

/// Appends `true` or `false`.
pub fn push_bool(out: &mut String, b: bool)
    ensures
        final(out)@ == old(out)@ + bool_text(b),
{
    if b {
        out.append("true");
    } else {
        out.append("false");
    }
}

} // verus!
