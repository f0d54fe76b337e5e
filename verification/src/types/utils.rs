//! Utility functions for Zcash amounts.

use vstd::prelude::*;
use vstd::string::StringExecFns;

verus! {

/// Number of zatoshis in one ZEC.
pub const ZATOSHIS_PER_ZEC: u64 = 100_000_000;

/// The character that writes the digit `d` (for `d < 10`).
pub open spec fn digit_char(d: nat) -> char {
    if d == 0 {
        '0'
    } else if d == 1 {
        '1'
    } else if d == 2 {
        '2'
    } else if d == 3 {
        '3'
    } else if d == 4 {
        '4'
    } else if d == 5 {
        '5'
    } else if d == 6 {
        '6'
    } else if d == 7 {
        '7'
    } else if d == 8 {
        '8'
    } else {
        '9'
    }
}

/// Decimal notation of `n`, without leading zeros (`0` is written "0").
pub open spec fn decimal(n: nat) -> Seq<char>
    decreases n,
{
    if n < 10 {
        seq![digit_char(n)]
    } else {
        decimal(n / 10).push(digit_char(n % 10))
    }
}

/// Decimal notation of `n` in exactly `width` digits, padded on the left
/// with zeros; digits above the width are dropped.
pub open spec fn decimal_fixed(n: nat, width: nat) -> Seq<char>
    decreases width,
{
    if width == 0 {
        Seq::<char>::empty()
    } else {
        decimal_fixed(n / 10, (width - 1) as nat).push(digit_char(n % 10))
    }
}

/// The one-character string for a decimal digit.
fn digit_str(d: u64) -> (s: &'static str)
    requires
        d < 10,
    ensures
        s@ == seq![digit_char(d as nat)],
{
    proof {
        reveal_strlit("0");
        reveal_strlit("1");
        reveal_strlit("2");
        reveal_strlit("3");
        reveal_strlit("4");
        reveal_strlit("5");
        reveal_strlit("6");
        reveal_strlit("7");
        reveal_strlit("8");
        reveal_strlit("9");
    }
    let s = if d == 0 {
        "0"
    } else if d == 1 {
        "1"
    } else if d == 2 {
        "2"
    } else if d == 3 {
        "3"
    } else if d == 4 {
        "4"
    } else if d == 5 {
        "5"
    } else if d == 6 {
        "6"
    } else if d == 7 {
        "7"
    } else if d == 8 {
        "8"
    } else {
        "9"
    };
    assert(s@ =~= seq![digit_char(d as nat)]);
    s
}

/// Appends the decimal notation of `n` to `out`.
pub fn push_decimal(out: &mut String, n: u64)
    ensures
        final(out)@ == old(out)@ + decimal(n as nat),
    decreases n,
{
    if n >= 10 {
        push_decimal(out, n / 10);
    }
    out.append(digit_str(n % 10));
    assert(final(out)@ =~= old(out)@ + decimal(n as nat));
}

/// Appends `n` in exactly `width` digits, zero-padded on the left.
pub fn push_decimal_fixed(out: &mut String, n: u64, width: u32)
    ensures
        final(out)@ == old(out)@ + decimal_fixed(n as nat, width as nat),
    decreases width,
{
    if width > 0 {
        push_decimal_fixed(out, n / 10, width - 1);
        out.append(digit_str(n % 10));
    }
    assert(final(out)@ =~= old(out)@ + decimal_fixed(n as nat, width as nat));
}

/// Format a zatoshi amount as its decimal notation followed by " zatoshis"
/// (for example "123456789 zatoshis").
pub fn format_zatoshis(zatoshis: u64) -> (text: String)
    ensures
        text@ == decimal(zatoshis as nat) + " zatoshis"@,
{
    let mut text = String::new();
    push_decimal(&mut text, zatoshis);
    text.append(" zatoshis");
    assert(text@ =~= decimal(zatoshis as nat) + " zatoshis"@);
    text
}

/// Decimal notation of an integer, with a minus sign where it is negative.
pub open spec fn signed_decimal(n: int) -> Seq<char> {
    if n < 0 {
        "-"@ + decimal((-n) as nat)
    } else {
        decimal(n as nat)
    }
}

/// A zatoshi amount written in ZEC with exactly eight decimal places, with a
/// minus sign where it is negative (150000000 is written "1.50000000").
pub open spec fn zec_decimal(zatoshis: int) -> Seq<char> {
    let magnitude = if zatoshis < 0 { (-zatoshis) as nat } else { zatoshis as nat };
    (if zatoshis < 0 { "-"@ } else { ""@ }) + decimal(magnitude / 100_000_000) + "."@ + decimal_fixed(
        magnitude % 100_000_000,
        8,
    )
}

/// The magnitude of a signed amount.
pub fn magnitude_of(n: i64) -> (magnitude: u64)
    ensures
        n >= 0 ==> magnitude == n,
        n < 0 ==> magnitude == -n,
{
    if n >= 0 {
        n as u64
    } else {
        ((-(n + 1)) as u64) + 1
    }
}

/// Appends the decimal notation of a signed integer to `out`.
pub fn push_signed_decimal(out: &mut String, n: i64)
    ensures
        final(out)@ == old(out)@ + signed_decimal(n as int),
{
    if n < 0 {
        out.append("-");
    }
    push_decimal(out, magnitude_of(n));
    assert(final(out)@ =~= old(out)@ + signed_decimal(n as int));
}

/// Appends a zatoshi amount, written in ZEC with eight decimal places, to
/// `out`; `negative` asks for a minus sign before the magnitude.
pub fn push_zec(out: &mut String, negative: bool, magnitude: u64)
    requires
        negative ==> magnitude > 0,
    ensures
        final(out)@ == old(out)@ + zec_decimal(if negative { -(magnitude as int) } else { magnitude as int }),
{
    proof {
        reveal_strlit("");
    }
    if negative {
        out.append("-");
    }
    push_decimal(out, magnitude / ZATOSHIS_PER_ZEC);
    out.append(".");
    push_decimal_fixed(out, magnitude % ZATOSHIS_PER_ZEC, 8);
    assert(final(out)@ =~= old(out)@ + zec_decimal(if negative { -(magnitude as int) } else { magnitude as int }));
}

/// Format a zatoshi amount as ZEC with eight decimal places, followed by
/// " ZEC" (for example "1.23456789 ZEC").
pub fn format_zec(zatoshis: u64) -> (text: String)
    ensures
        text@ == zec_decimal(zatoshis as int) + " ZEC"@,
{
    let mut text = String::new();
    push_zec(&mut text, false, zatoshis);
    text.append(" ZEC");
    assert(text@ =~= zec_decimal(zatoshis as int) + " ZEC"@);
    text
}

} // verus!
