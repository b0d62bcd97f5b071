//! Decimal text for whole numbers and fixed-point quantities.

use vstd::prelude::*;
use vstd::string::StringExecFns;
use crate::fixed::{magnitude, magnitude_wide, ONE};

verus! {

/// The character of a single decimal digit.
pub open spec fn digit_text(d: int) -> Seq<char> {
    if d <= 0 {
        "0"@
    } else if d == 1 {
        "1"@
    } else if d == 2 {
        "2"@
    } else if d == 3 {
        "3"@
    } else if d == 4 {
        "4"@
    } else if d == 5 {
        "5"@
    } else if d == 6 {
        "6"@
    } else if d == 7 {
        "7"@
    } else if d == 8 {
        "8"@
    } else {
        "9"@
    }
}

/// A whole number in decimal, without leading zeros.
pub open spec fn natural_text(n: nat) -> Seq<char>
    decreases n,
{
    if n < 10 {
        digit_text(n as int)
    } else {
        natural_text(n / 10) + digit_text((n % 10) as int)
    }
}

/// The last `places` decimal digits of `n`, with leading zeros.
pub open spec fn padded_text(n: nat, places: nat) -> Seq<char>
    decreases places,
{
    if places == 0 {
        Seq::<char>::empty()
    } else {
        padded_text(n / 10, (places - 1) as nat) + digit_text((n % 10) as int)
    }
}

/// The last `places` decimal digits of `n` with leading zeros, after the
/// zeros at its end are dropped.
pub open spec fn trimmed_text(n: nat, places: nat) -> Seq<char>
    decreases places,
{
    if places == 0 {
        Seq::<char>::empty()
    } else if n % 10 == 0 {
        trimmed_text(n / 10, (places - 1) as nat)
    } else {
        padded_text(n, places)
    }
}

/// Ten to the power `k`.
pub open spec fn pow10(k: nat) -> nat
    decreases k,
{
    if k == 0 {
        1
    } else {
        10 * pow10((k - 1) as nat)
    }
}

/// The magnitude `m` of a quantity as a count of units of `10^-places`,
/// rounded to the nearest unit with halves rounded up.
pub open spec fn rounded_units(m: nat, places: nat) -> nat
    recommends
        places <= 9,
{
    let unit = pow10((9 - places) as nat);
    (m + unit / 2) / unit
}

/// A quantity with exactly `places` digits after the decimal point, rounded
/// half away from zero. A negative quantity keeps its minus sign even when
/// it rounds to zero; with no places there is no decimal point.
pub open spec fn decimal_text(v: int, places: nat) -> Seq<char>
    recommends
        places <= 9,
{
    let scaled = rounded_units(magnitude(v) as nat, places);
    let whole = natural_text(scaled / pow10(places));
    let body = if places == 0 {
        whole
    } else {
        whole + "."@ + padded_text(scaled % pow10(places), places)
    };
    if v < 0 {
        "-"@ + body
    } else {
        body
    }
}

/// As `decimal_text`, with a plus sign before a quantity that is not
/// negative.
pub open spec fn signed_decimal_text(v: int, places: nat) -> Seq<char>
    recommends
        places <= 9,
{
    if v < 0 {
        decimal_text(v, places)
    } else {
        "+"@ + decimal_text(v, places)
    }
}

/// A quantity with as many digits after the decimal point as it needs and
/// no more. A whole quantity ends in `.0` when `keep_point` is set and has
/// no decimal point otherwise.
pub open spec fn shortest_text(v: int, keep_point: bool) -> Seq<char> {
    let m = magnitude(v) as nat;
    let whole = natural_text(m / (ONE as nat));
    let fraction = m % (ONE as nat);
    let tail = if fraction == 0 {
        if keep_point {
            ".0"@
        } else {
            Seq::<char>::empty()
        }
    } else {
        "."@ + trimmed_text(fraction, 9)
    };
    if v < 0 {
        "-"@ + whole + tail
    } else {
        whole + tail
    }
}

fn digit_str(d: u128) -> (s: &'static str)
    requires
        d < 10,
    ensures
        s@ == digit_text(d as int),
{
    if d == 0 {
        "0"
    } else if d == 1 {
        "1"
    } else if d == 2 {
        "2"
    } else if d == 3 {
        "3"
    } else if d == 4 {
        "4"
    } else if d == 5 {
        "5"
    } else if d == 6 {
        "6"
    } else if d == 7 {
        "7"
    } else if d == 8 {
        "8"
    } else {
        "9"
    }
}

/// Appends a whole number in decimal.
pub fn push_natural(out: &mut String, n: u128)
    ensures
        final(out)@ == old(out)@ + natural_text(n as nat),
    decreases n,
{
    if n >= 10 {
        push_natural(out, n / 10);
    }
    out.append(digit_str(n % 10));
    assert(out@ =~= old(out)@ + natural_text(n as nat));
}

fn push_padded(out: &mut String, n: u128, places: u32)
    ensures
        final(out)@ == old(out)@ + padded_text(n as nat, places as nat),
    decreases places,
{
    if places > 0 {
        push_padded(out, n / 10, places - 1);
        out.append(digit_str(n % 10));
    }
    assert(out@ =~= old(out)@ + padded_text(n as nat, places as nat));
}

fn push_trimmed(out: &mut String, n: u128, places: u32)
    ensures
        final(out)@ == old(out)@ + trimmed_text(n as nat, places as nat),
    decreases places,
{
    if places > 0 {
        if n % 10 == 0 {
            push_trimmed(out, n / 10, places - 1);
        } else {
            push_padded(out, n, places);
        }
    }
    assert(out@ =~= old(out)@ + trimmed_text(n as nat, places as nat));
}

fn power_of_ten(k: u32) -> (p: u128)
    requires
        k <= 9,
    ensures
        p == pow10(k as nat),
        1 <= p <= 1_000_000_000,
{
    let mut p: u128 = 1;
    let mut i: u32 = 0;
    proof {
        lemma_pow10_bound(0);
    }
    while i < k
        invariant
            i <= k <= 9,
            p == pow10(i as nat),
            1 <= p <= 1_000_000_000,
        decreases k - i,
    {
        proof {
            lemma_pow10_bound(i as nat);
            lemma_pow10_bound((i + 1) as nat);
        }
        p = p * 10;
        i = i + 1;
    }
    p
}

/// The powers of ten up to the ninth do not exceed a billion.
pub proof fn lemma_pow10_bound(k: nat)
    requires
        k <= 9,
    ensures
        1 <= pow10(k) <= 1_000_000_000,
        k < 9 ==> pow10(k) <= 100_000_000,
    decreases k,
{
    reveal_with_fuel(pow10, 10);
}

/// Appends a quantity with exactly `places` digits after the decimal point.
pub fn push_decimal(out: &mut String, v: i64, places: u32)
    requires
        places <= 9,
    ensures
        final(out)@ == old(out)@ + decimal_text(v as int, places as nat),
{
    let m = magnitude_wide(v);
    let unit = power_of_ten(9 - places);
    let scale = power_of_ten(places);
    let scaled = (m + unit / 2) / unit;
    if v < 0 {
        out.append("-");
    }
    push_natural(out, scaled / scale);
    if places > 0 {
        out.append(".");
        push_padded(out, scaled % scale, places);
    }
    assert(out@ =~= old(out)@ + decimal_text(v as int, places as nat));
}

/// Appends a quantity with exactly `places` digits after the decimal point
/// and its sign, plus or minus, in front.
pub fn push_signed_decimal(out: &mut String, v: i64, places: u32)
    requires
        places <= 9,
    ensures
        final(out)@ == old(out)@ + signed_decimal_text(v as int, places as nat),
{
    if v >= 0 {
        out.append("+");
    }
    push_decimal(out, v, places);
    assert(out@ =~= old(out)@ + signed_decimal_text(v as int, places as nat));
}

/// Appends a quantity with no more digits after the decimal point than it
/// needs.
pub fn push_shortest(out: &mut String, v: i64, keep_point: bool)
    ensures
        final(out)@ == old(out)@ + shortest_text(v as int, keep_point),
{
    let m = magnitude_wide(v);
    let one = ONE as u128;
    let fraction = m % one;
    if v < 0 {
        out.append("-");
    }
    push_natural(out, m / one);
    if fraction == 0 {
        if keep_point {
            out.append(".0");
        }
    } else {
        out.append(".");
        push_trimmed(out, fraction, 9);
    }
    assert(out@ =~= old(out)@ + shortest_text(v as int, keep_point));
}

} // verus!
