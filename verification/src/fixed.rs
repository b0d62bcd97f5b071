//! Saturating fixed-point arithmetic.
//!
//! A quantity is held in an `i64` that counts billionths: the integer `n`
//! stands for the number `n / 1_000_000_000`. Lengths are therefore kept in
//! nanometres, angles in nanoradians and durations in nanoseconds. Every
//! operation is total; a result that does not fit is pinned to the nearest
//! end of the `i64` range, and quotients are rounded toward zero.

use vstd::prelude::*;

verus! {

/// The representation of 1.
pub const ONE: i64 = 1_000_000_000;

/// A quarter turn, π/2.
pub const HALF_PI: i64 = 1_570_796_327;

/// Half a turn, π. Exactly twice `HALF_PI`.
pub const PI: i64 = 3_141_592_654;

/// A full turn, 2π. Exactly twice `PI`.
pub const TAU: i64 = 6_283_185_308;

/// `v` pinned to the range of `i64`.
pub open spec fn saturate(v: int) -> int {
    if v < i64::MIN as int {
        i64::MIN as int
    } else if v > i64::MAX as int {
        i64::MAX as int
    } else {
        v
    }
}

/// The absolute value of `v`.
pub open spec fn magnitude(v: int) -> int {
    if v < 0 {
        -v
    } else {
        v
    }
}

/// The quotient `n / d` rounded toward zero.
pub open spec fn quotient(n: int, d: int) -> int
    recommends
        d != 0,
{
    let q = magnitude(n) / magnitude(d);
    if (n < 0) != (d < 0) {
        -q
    } else {
        q
    }
}

/// Saturating sum of two quantities.
pub open spec fn add_spec(a: int, b: int) -> int {
    saturate(a + b)
}

/// Saturating difference of two quantities.
pub open spec fn sub_spec(a: int, b: int) -> int {
    saturate(a - b)
}

/// Saturating negation.
pub open spec fn neg_spec(a: int) -> int {
    saturate(-a)
}

/// Saturating absolute value.
pub open spec fn abs_spec(a: int) -> int {
    saturate(magnitude(a))
}

/// `a * b / c` with a single rounding, saturated.
pub open spec fn mul_div_spec(a: int, b: int, c: int) -> int
    recommends
        c != 0,
{
    saturate(quotient(a * b, c))
}

/// Fixed-point product of two quantities.
pub open spec fn mul_spec(a: int, b: int) -> int {
    mul_div_spec(a, b, ONE as int)
}

/// Fixed-point quotient of two quantities.
pub open spec fn div_spec(a: int, b: int) -> int
    recommends
        b != 0,
{
    mul_div_spec(a, ONE as int, b)
}

fn saturate_wide(v: i128) -> (r: i64)
    ensures
        r as int == saturate(v as int),
{
    if v < i64::MIN as i128 {
        i64::MIN
    } else if v > i64::MAX as i128 {
        i64::MAX
    } else {
        v as i64
    }
}

/// The absolute value of a quantity in a type wide enough for every
/// input.
pub fn magnitude_wide(a: i64) -> (r: u128)
    ensures
        r as int == magnitude(a as int),
        r <= 0x8000_0000_0000_0000,
{
    let w: i128 = a as i128;
    if w < 0 {
        (-w) as u128
    } else {
        w as u128
    }
}

/// Adds two quantities, saturating at the ends of the range.
pub fn fx_add(a: i64, b: i64) -> (r: i64)
    ensures
        r as int == add_spec(a as int, b as int),
{
    saturate_wide(a as i128 + b as i128)
}

/// Subtracts `b` from `a`, saturating at the ends of the range.
pub fn fx_sub(a: i64, b: i64) -> (r: i64)
    ensures
        r as int == sub_spec(a as int, b as int),
{
    saturate_wide(a as i128 - b as i128)
}

/// Negates a quantity; the most negative value maps to the most positive.
pub fn fx_neg(a: i64) -> (r: i64)
    ensures
        r as int == neg_spec(a as int),
{
    saturate_wide(-(a as i128))
}

/// Absolute value; the most negative value maps to the most positive.
pub fn fx_abs(a: i64) -> (r: i64)
    ensures
        r as int == abs_spec(a as int),
        r >= 0,
{
    if a < 0 {
        fx_neg(a)
    } else {
        a
    }
}

proof fn lemma_magnitude_product(a: int, b: int)
    ensures
        magnitude(a * b) == magnitude(a) * magnitude(b),
        (a * b < 0) <==> (a != 0 && b != 0 && ((a < 0) != (b < 0))),
{
    assert(magnitude(a * b) == magnitude(a) * magnitude(b)) by (nonlinear_arith)
        requires
            magnitude(a) == (if a < 0 { -a } else { a }),
            magnitude(b) == (if b < 0 { -b } else { b }),
            magnitude(a * b) == (if a * b < 0 { -(a * b) } else { a * b }),
    ;
    assert((a * b < 0) <==> (a != 0 && b != 0 && ((a < 0) != (b < 0)))) by (nonlinear_arith);
}

/// Computes `a * b / c` with one rounding toward zero at the end.
pub fn fx_mul_div(a: i64, b: i64, c: i64) -> (r: i64)
    requires
        c != 0,
    ensures
        r as int == mul_div_spec(a as int, b as int, c as int),
{
    let ua = magnitude_wide(a);
    let ub = magnitude_wide(b);
    let uc = magnitude_wide(c);
    proof {
        lemma_magnitude_product(a as int, b as int);
        assert(ua * ub <= 0x8000_0000_0000_0000 * 0x8000_0000_0000_0000) by (nonlinear_arith)
            requires
                ua <= 0x8000_0000_0000_0000,
                ub <= 0x8000_0000_0000_0000,
        ;
    }
    let q = (ua * ub) / uc;
    let negative = ((a < 0) != (b < 0)) != (c < 0);
    proof {
        assert(q <= ua * ub) by (nonlinear_arith)
            requires
                q == (ua * ub) / (uc as int),
                uc >= 1,
        ;
    }
    let signed = if negative {
        -(q as i128)
    } else {
        q as i128
    };
    saturate_wide(signed)
}

/// Fixed-point product.
pub fn fx_mul(a: i64, b: i64) -> (r: i64)
    ensures
        r as int == mul_spec(a as int, b as int),
{
    fx_mul_div(a, b, ONE)
}

/// Fixed-point quotient.
pub fn fx_div(a: i64, b: i64) -> (r: i64)
    requires
        b != 0,
    ensures
        r as int == div_spec(a as int, b as int),
{
    fx_mul_div(a, ONE, b)
}

/// Whether `r` is the integer square root of `n`, rounded down.
pub open spec fn is_floor_sqrt(n: int, r: int) -> bool {
    0 <= r && r * r <= n < (r + 1) * (r + 1)
}

/// The integer square root of `n`, rounded down.
pub open spec fn floor_sqrt(n: int) -> int {
    choose|r: int| is_floor_sqrt(n, r)
}

/// At most one integer is the rounded-down square root of `n`.
pub proof fn lemma_floor_sqrt_unique(n: int, r1: int, r2: int)
    requires
        is_floor_sqrt(n, r1),
        is_floor_sqrt(n, r2),
    ensures
        r1 == r2,
{
    if r1 < r2 {
        assert((r1 + 1) * (r1 + 1) <= r2 * r2) by (nonlinear_arith)
            requires
                0 <= r1,
                r1 + 1 <= r2,
        ;
    } else if r2 < r1 {
        assert((r2 + 1) * (r2 + 1) <= r1 * r1) by (nonlinear_arith)
            requires
                0 <= r2,
                r2 + 1 <= r1,
        ;
    }
}

/// Integer square root, rounded down.
pub fn isqrt(n: u128) -> (r: u64)
    ensures
        is_floor_sqrt(n as int, r as int),
        r as int == floor_sqrt(n as int),
{
    let mut lo: u128 = 0;
    let mut hi: u128 = 0x1_0000_0000_0000_0000;
    assert(n < hi * hi) by (nonlinear_arith)
        requires
            n <= u128::MAX,
            hi == 0x1_0000_0000_0000_0000,
    ;
    while hi - lo > 1
        invariant
            lo < hi <= 0x1_0000_0000_0000_0000,
            lo * lo <= n < hi * hi,
        decreases hi - lo,
    {
        let mid = lo + (hi - lo) / 2;
        assert(mid * mid <= 0xffff_ffff_ffff_ffff * 0xffff_ffff_ffff_ffff) by (nonlinear_arith)
            requires
                mid <= 0xffff_ffff_ffff_ffff,
        ;
        if mid * mid <= n {
            lo = mid;
        } else {
            hi = mid;
        }
    }
    proof {
        lemma_floor_sqrt_unique(n as int, lo as int, floor_sqrt(n as int));
    }
    lo as u64
}

/// Square root of a fixed-point quantity that is not negative.
pub open spec fn sqrt_spec(v: int) -> int
    recommends
        v >= 0,
{
    floor_sqrt(v * ONE)
}

/// Square root of a quantity that is not negative, rounded down.
pub fn fx_sqrt(v: i64) -> (r: i64)
    requires
        v >= 0,
    ensures
        r as int == sqrt_spec(v as int),
        is_floor_sqrt(v * ONE, r as int),
{
    assert(v * ONE <= 0x7fff_ffff_ffff_ffff * 1_000_000_000) by (nonlinear_arith)
        requires
            0 <= v <= 0x7fff_ffff_ffff_ffff,
            ONE == 1_000_000_000,
    ;
    let wide = (v as u128) * (ONE as u128);
    let root = isqrt(wide);
    proof {
        // root * root <= v * ONE < 2^63 * 2^30, hence root < 2^47.
        if root >= 0x8000_0000_0000 {
            assert(root * root >= 0x8000_0000_0000 * 0x8000_0000_0000) by (nonlinear_arith)
                requires
                    root >= 0x8000_0000_0000,
            ;
        }
    }
    root as i64
}

/// Length of the vector `(dx, dy)`, saturated.
pub open spec fn hypot_spec(dx: int, dy: int) -> int {
    saturate(floor_sqrt(dx * dx + dy * dy))
}

/// Length of the vector `(dx, dy)`, rounded down and saturated.
pub fn fx_hypot(dx: i64, dy: i64) -> (r: i64)
    ensures
        r as int == hypot_spec(dx as int, dy as int),
        r >= 0,
{
    let ux = magnitude_wide(dx);
    let uy = magnitude_wide(dy);
    proof {
        assert(ux * ux <= 0x8000_0000_0000_0000 * 0x8000_0000_0000_0000) by (nonlinear_arith)
            requires
                ux <= 0x8000_0000_0000_0000,
        ;
        assert(uy * uy <= 0x8000_0000_0000_0000 * 0x8000_0000_0000_0000) by (nonlinear_arith)
            requires
                uy <= 0x8000_0000_0000_0000,
        ;
        assert(ux * ux == dx * dx) by (nonlinear_arith)
            requires
                ux == dx || ux == -dx,
        ;
        assert(uy * uy == dy * dy) by (nonlinear_arith)
            requires
                uy == dy || uy == -dy,
        ;
    }
    let root = isqrt(ux * ux + uy * uy);
    if root > i64::MAX as u64 {
        i64::MAX
    } else {
        root as i64
    }
}

/// Product of two quantities between 0 and 1, rounded down.
pub open spec fn unit_mul(a: int, b: int) -> int {
    a * b / (ONE as int)
}

/// The fifth power of an integer.
pub open spec fn pow5(r: int) -> int {
    r * r * r * r * r
}

/// `ONE` to the fourth power.
pub open spec fn one_pow4() -> int {
    1_000_000_000_000_000_000_000_000_000_000_000_000
}

/// Whether `r` is the fifth root of the quantity `x`, rounded down: in
/// fixed point, `(r / ONE)^5 <= x / ONE < ((r + 1) / ONE)^5`.
pub open spec fn is_fifth_root(x: int, r: int) -> bool {
    &&& 0 <= r
    &&& pow5(r) <= x * one_pow4()
    &&& x * one_pow4() < pow5(r + 1)
}

/// The fifth root of a quantity, rounded down.
pub open spec fn fifth_root(x: int) -> int {
    choose|r: int| is_fifth_root(x, r)
}

/// The product of quantities between 0 and 1 stays between 0 and 1 and grows
/// with either factor.
pub proof fn lemma_unit_mul_monotonic(a: int, b: int, c: int, d: int)
    requires
        0 <= a <= c <= ONE,
        0 <= b <= d <= ONE,
    ensures
        0 <= unit_mul(a, b) <= unit_mul(c, d) <= ONE,
{
    assert(0 <= a * b <= c * d <= ONE * ONE) by (nonlinear_arith)
        requires
            0 <= a <= c <= ONE,
            0 <= b <= d <= ONE,
    ;
}

/// The fifth power grows with its argument.
pub proof fn lemma_pow5_monotonic(a: int, b: int)
    requires
        0 <= a <= b,
    ensures
        0 <= pow5(a) <= pow5(b),
{
    assert(0 <= a * a <= b * b) by (nonlinear_arith)
        requires
            0 <= a <= b,
    ;
    let a2 = a * a;
    let b2 = b * b;
    assert(0 <= a2 * a <= b2 * b) by (nonlinear_arith)
        requires
            0 <= a <= b,
            0 <= a2 <= b2,
    ;
    let a3 = a2 * a;
    let b3 = b2 * b;
    assert(0 <= a3 * a <= b3 * b) by (nonlinear_arith)
        requires
            0 <= a <= b,
            0 <= a3 <= b3,
    ;
    let a4 = a3 * a;
    let b4 = b3 * b;
    assert(0 <= a4 * a <= b4 * b) by (nonlinear_arith)
        requires
            0 <= a <= b,
            0 <= a4 <= b4,
    ;
}

/// At most one integer is the fifth root of `x`.
pub proof fn lemma_fifth_root_unique(x: int, r1: int, r2: int)
    requires
        is_fifth_root(x, r1),
        is_fifth_root(x, r2),
    ensures
        r1 == r2,
{
    if r1 < r2 {
        lemma_pow5_monotonic(r1 + 1, r2);
    } else if r2 < r1 {
        lemma_pow5_monotonic(r2 + 1, r1);
    }
}

fn unit_product(a: i64, b: i64) -> (r: i64)
    requires
        0 <= a <= ONE,
        0 <= b <= ONE,
    ensures
        r as int == unit_mul(a as int, b as int),
        0 <= r <= ONE,
{
    proof {
        lemma_unit_mul_monotonic(a as int, b as int, ONE as int, ONE as int);
        assert(a * b <= ONE * ONE) by (nonlinear_arith)
            requires
                0 <= a <= ONE,
                0 <= b <= ONE,
        ;
    }
    a * b / ONE
}

/// Whether the fifth power of `r / ONE` is at most `x / ONE`, decided
/// without rounding.
fn fifth_power_at_most(r: u128, x: u128) -> (b: bool)
    requires
        r <= ONE + 1,
        x <= ONE,
    ensures
        b == (pow5(r as int) <= x * one_pow4()),
{
    let split: u128 = 1_000_000_000_000_000_000;
    assert(r * r <= 1_000_000_001 * 1_000_000_001) by (nonlinear_arith)
        requires
            r <= 1_000_000_001,
    ;
    let r2 = r * r;
    assert(r2 * r2 <= 1_000_000_002_000_000_001 * 1_000_000_002_000_000_001) by (nonlinear_arith)
        requires
            r2 <= 1_000_000_002_000_000_001,
    ;
    let r4 = r2 * r2;
    let upper = r4 / split;
    let lower = r4 % split;
    assert(lower * r <= 1_000_000_000_000_000_000 * 1_000_000_001) by (nonlinear_arith)
        requires
            lower <= 1_000_000_000_000_000_000,
            r <= 1_000_000_001,
    ;
    assert(upper * r <= 1_000_000_004_000_000_007 * 1_000_000_001) by (nonlinear_arith)
        requires
            upper <= 1_000_000_004_000_000_007,
            r <= 1_000_000_001,
    ;
    let carried = lower * r;
    let high = upper * r + carried / split;
    let low = carried % split;
    let bound = x * split;
    proof {
        assert(pow5(r as int) == high * split + low) by (nonlinear_arith)
            requires
                r2 == r * r,
                r4 == r2 * r2,
                r4 == upper * split + lower,
                carried == lower * r,
                carried == (carried / split) * split + low,
                high == upper * r + carried / split,
                pow5(r as int) == r * r * r * r * r,
        ;
        assert(x * one_pow4() == bound * split);
        assert((high * split + low <= bound * split) == (high < bound || (high == bound && low
            == 0))) by (nonlinear_arith)
            requires
                0 <= low < split,
                split > 0,
        ;
    }
    high < bound || (high == bound && low == 0)
}

/// Fifth root of a quantity between 0 and 1, rounded down.
pub fn fx_root5(x: i64) -> (r: i64)
    requires
        0 <= x <= ONE,
    ensures
        is_fifth_root(x as int, r as int),
        r as int == fifth_root(x as int),
        0 <= r <= ONE,
{
    let mut lo: i64 = 0;
    let mut hi: i64 = ONE + 1;
    proof {
        assert(pow5(0) == 0) by (nonlinear_arith)
            requires
                pow5(0) == 0 * 0 * 0 * 0 * 0,
        ;
        lemma_pow5_above_one(x as int);
    }
    while hi - lo > 1
        invariant
            0 <= lo < hi <= ONE + 1,
            0 <= x <= ONE,
            pow5(lo as int) <= x * one_pow4(),
            x * one_pow4() < pow5(hi as int),
        decreases hi - lo,
    {
        let mid = lo + (hi - lo) / 2;
        if fifth_power_at_most(mid as u128, x as u128) {
            lo = mid;
        } else {
            hi = mid;
        }
    }
    proof {
        lemma_fifth_root_unique(x as int, lo as int, fifth_root(x as int));
    }
    lo
}

/// The fifth power of the least quantity above 1 exceeds every quantity up
/// to 1.
proof fn lemma_pow5_above_one(x: int)
    requires
        0 <= x <= ONE,
    ensures
        x * one_pow4() < pow5(ONE + 1),
{
    let a: int = 1_000_000_001;
    let a2 = a * a;
    assert(a2 == 1_000_000_002_000_000_001);
    let a3 = a2 * a;
    assert(a3 == 1_000_000_003_000_000_003_000_000_001);
    let a4 = a3 * a;
    assert(a4 == 1_000_000_004_000_000_006_000_000_004_000_000_001);
    assert(pow5(a) == a4 * a);
    assert(a4 * a > 1_000_000_000_000_000_000_000_000_000_000_000_000_000_000_000);
}

/// A quantity between 0 and 1 raised to the power 0.7, taken as the product
/// of its square root and its fifth root.
pub open spec fn pow_seven_tenths_spec(x: int) -> int
    recommends
        0 <= x <= ONE,
{
    unit_mul(sqrt_spec(x), fifth_root(x))
}

/// Raises a quantity between 0 and 1 to the power 0.7.
pub fn fx_pow_seven_tenths(x: i64) -> (r: i64)
    requires
        0 <= x <= ONE,
    ensures
        r as int == pow_seven_tenths_spec(x as int),
        0 <= r <= ONE,
{
    let s = fx_sqrt(x);
    proof {
        // s * s <= x * ONE <= ONE * ONE, hence s <= ONE.
        if s > ONE {
            assert(s * s > ONE * ONE) by (nonlinear_arith)
                requires
                    s > ONE,
                    ONE > 0,
            ;
            assert(x * ONE <= ONE * ONE) by (nonlinear_arith)
                requires
                    0 <= x <= ONE,
                    ONE > 0,
            ;
        }
    }
    let f = fx_root5(x);
    unit_product(s, f)
}

/// An integer multiple of a quantity, saturated.
pub open spec fn scale_spec(a: int, k: int) -> int {
    saturate(a * k)
}

/// Multiplies a quantity by a plain integer.
pub fn fx_scale(a: i64, k: i64) -> (r: i64)
    ensures
        r as int == scale_spec(a as int, k as int),
{
    assert(-0x8000_0000_0000_0000 * 0x8000_0000_0000_0000 <= a * k <= 0x8000_0000_0000_0000
        * 0x8000_0000_0000_0000) by (nonlinear_arith)
        requires
            -0x8000_0000_0000_0000 <= a <= 0x8000_0000_0000_0000,
            -0x8000_0000_0000_0000 <= k <= 0x8000_0000_0000_0000,
    ;
    saturate_wide((a as i128) * (k as i128))
}

/// Multiplying by 1 changes nothing; multiplying by 0 gives 0.
pub proof fn lemma_mul_identities(a: int)
    requires
        i64::MIN <= a <= i64::MAX,
    ensures
        mul_spec(a, ONE as int) == a,
        mul_spec(ONE as int, a) == a,
        mul_spec(a, 0) == 0,
        mul_spec(0, a) == 0,
{
    lemma_magnitude_product(a, ONE as int);
    lemma_magnitude_product(ONE as int, a);
    assert(magnitude(a) * ONE / (ONE as int) == magnitude(a)) by (nonlinear_arith)
        requires
            ONE > 0,
    ;
    assert(ONE * magnitude(a) == magnitude(a) * ONE) by (nonlinear_arith);
    assert(a * 0 == 0 && 0 * a == 0) by (nonlinear_arith);
}

/// A product with a zero factor, divided by anything, is 0.
pub proof fn lemma_mul_div_zero(a: int, c: int)
    requires
        c != 0,
    ensures
        mul_div_spec(a, 0, c) == 0,
        mul_div_spec(0, a, c) == 0,
{
    assert(a * 0 == 0 && 0 * a == 0) by (nonlinear_arith);
    assert(0int / magnitude(c) == 0) by (nonlinear_arith)
        requires
            magnitude(c) > 0,
    ;
}

/// The product of two quantities that are not negative is not negative.
pub proof fn lemma_mul_div_nonnegative(a: int, b: int, c: int)
    requires
        a >= 0,
        b >= 0,
        c > 0,
    ensures
        mul_div_spec(a, b, c) >= 0,
{
    assert(a * b >= 0) by (nonlinear_arith)
        requires
            a >= 0,
            b >= 0,
    ;
    assert((a * b) / c >= 0) by (nonlinear_arith)
        requires
            a * b >= 0,
            c > 0,
    ;
}

} // verus!
