//! Sine, cosine and the two-argument arctangent on fixed-point angles.
//!
//! Angles are reduced to a quarter turn and fed to truncated power series
//! evaluated in integers; the spec functions below are those series.

use vstd::arithmetic::div_mod::lemma_mod_multiples_vanish;
use vstd::prelude::*;
use crate::fixed::{magnitude, magnitude_wide, HALF_PI, ONE, PI, TAU};

verus! {

/// The square of a quantity, rounded down.
pub open spec fn square(x: int) -> int {
    x * x / (ONE as int)
}

/// The nested factor of the sine series from term `k` on:
/// `1 - x²/((2k+2)(2k+3)) · (1 - x²/((2k+4)(2k+5)) · ...)`, eight terms in all.
pub open spec fn sin_factor(x2: int, k: nat) -> int
    decreases 8 - k,
{
    if k >= 8 {
        ONE as int
    } else {
        ONE - (x2 * sin_factor(x2, k + 1) / (ONE as int)) / ((2 * k + 2) * (2 * k + 3)) as int
    }
}

/// The nested factor of the cosine series from term `k` on:
/// `1 - x²/((2k+1)(2k+2)) · (1 - x²/((2k+3)(2k+4)) · ...)`, nine terms in all.
pub open spec fn cos_factor(x2: int, k: nat) -> int
    decreases 9 - k,
{
    if k >= 9 {
        ONE as int
    } else {
        ONE - (x2 * cos_factor(x2, k + 1) / (ONE as int)) / ((2 * k + 1) * (2 * k + 2)) as int
    }
}

/// Sine of an angle within a quarter turn of zero.
pub open spec fn sin_series(x: int) -> int
    recommends
        -HALF_PI <= x <= HALF_PI,
{
    let m = magnitude(x);
    let raw = m * sin_factor(square(m), 0) / (ONE as int);
    let v = if raw > ONE { ONE as int } else { raw };
    if x < 0 {
        -v
    } else {
        v
    }
}

/// Cosine of an angle within a quarter turn of zero.
pub open spec fn cos_series(x: int) -> int
    recommends
        -HALF_PI <= x <= HALF_PI,
{
    cos_factor(square(x), 0)
}

/// Sine of any angle.
pub open spec fn sin_spec(theta: int) -> int {
    let r = theta % (TAU as int);
    if r <= HALF_PI {
        sin_series(r)
    } else if r <= PI + HALF_PI {
        sin_series(PI - r)
    } else {
        sin_series(r - TAU)
    }
}

/// Cosine of any angle.
pub open spec fn cos_spec(theta: int) -> int {
    let r = theta % (TAU as int);
    if r <= HALF_PI {
        cos_series(r)
    } else if r <= PI + HALF_PI {
        -cos_series(PI - r)
    } else {
        cos_series(r - TAU)
    }
}

/// Every sine factor of a squared quarter-turn angle lies in `(0, 1]`.
pub proof fn lemma_sin_factor_bounds(x2: int, k: nat)
    requires
        0 <= x2 <= 2_467_401_102,
    ensures
        0 < sin_factor(x2, k) <= ONE,
    decreases 8 - k,
{
    if k < 8 {
        lemma_sin_factor_bounds(x2, k + 1);
        let t = sin_factor(x2, k + 1);
        assert(0 <= x2 * t <= 2_467_401_102 * ONE) by (nonlinear_arith)
            requires
                0 <= x2 <= 2_467_401_102,
                0 < t <= ONE,
        ;
        let d = ((2 * k + 2) * (2 * k + 3)) as int;
        assert(d >= 6) by (nonlinear_arith)
            requires
                d == (2 * k + 2) * (2 * k + 3),
                k >= 0,
        ;
        let q = x2 * t / (ONE as int);
        assert(0 <= q / d <= q / 6) by (nonlinear_arith)
            requires
                0 <= q,
                d >= 6,
        ;
    }
}

/// Every cosine factor but the outermost lies in `(0, 1]`; the outermost
/// lies in `[-1, 1]`.
pub proof fn lemma_cos_factor_bounds(x2: int, k: nat)
    requires
        0 <= x2 <= 2_467_401_102,
    ensures
        -ONE <= cos_factor(x2, k) <= ONE,
        k >= 1 ==> 0 < cos_factor(x2, k),
    decreases 9 - k,
{
    if k < 9 {
        lemma_cos_factor_bounds(x2, k + 1);
        let t = cos_factor(x2, k + 1);
        assert(0 <= x2 * t <= 2_467_401_102 * ONE) by (nonlinear_arith)
            requires
                0 <= x2 <= 2_467_401_102,
                0 < t <= ONE,
        ;
        let d = ((2 * k + 1) * (2 * k + 2)) as int;
        assert(d >= 2 && (k >= 1 ==> d >= 12)) by (nonlinear_arith)
            requires
                d == (2 * k + 1) * (2 * k + 2),
                k >= 0,
        ;
        let q = x2 * t / (ONE as int);
        assert(0 <= q / d <= q / 2 && (d >= 12 ==> q / d <= q / 12)) by (nonlinear_arith)
            requires
                0 <= q,
                d >= 2,
        ;
    }
}

/// With a zero argument every factor of either series is exactly 1.
pub proof fn lemma_factors_at_zero(k: nat)
    ensures
        sin_factor(0, k) == ONE,
        cos_factor(0, k) == ONE,
    decreases 9 - k,
{
    if k < 9 {
        lemma_factors_at_zero(k + 1);
        let ds = ((2 * k + 2) * (2 * k + 3)) as int;
        let dc = ((2 * k + 1) * (2 * k + 2)) as int;
        assert(0int / ds == 0 && 0int / dc == 0) by (nonlinear_arith)
            requires
                ds == (2 * k + 2) * (2 * k + 3),
                dc == (2 * k + 1) * (2 * k + 2),
                k >= 0,
        ;
        assert(0 * sin_factor(0, k + 1) == 0 && 0 * cos_factor(0, k + 1) == 0) by (nonlinear_arith);
    }
}

/// The sine of zero is 0 and its cosine is 1, exactly.
pub proof fn lemma_sin_cos_zero()
    ensures
        sin_spec(0) == 0,
        cos_spec(0) == ONE,
{
    lemma_factors_at_zero(0);
    assert(square(0) == 0);
    assert(0 * sin_factor(0, 0) == 0) by (nonlinear_arith);
}

/// Whole turns added to an angle change neither its sine nor its cosine.
pub proof fn lemma_sin_cos_periodic(theta: int, turns: int)
    ensures
        sin_spec(theta + turns * TAU) == sin_spec(theta),
        cos_spec(theta + turns * TAU) == cos_spec(theta),
{
    lemma_mod_multiples_vanish(turns, theta, TAU as int);
    assert(theta + turns * TAU == TAU * turns + theta) by (nonlinear_arith);
}

/// The square of an angle within a quarter turn of zero is bounded.
pub proof fn lemma_square_bound(x: int)
    requires
        -HALF_PI <= x <= HALF_PI,
    ensures
        0 <= square(x) <= 2_467_401_102,
        square(x) == square(magnitude(x)),
{
    assert(0 <= x * x <= HALF_PI * HALF_PI) by (nonlinear_arith)
        requires
            -HALF_PI <= x <= HALF_PI,
    ;
    assert(x * x == magnitude(x) * magnitude(x)) by (nonlinear_arith)
        requires
            magnitude(x) == x || magnitude(x) == -x,
    ;
}

fn square_of(m: i64) -> (x2: i64)
    requires
        0 <= m <= HALF_PI,
    ensures
        x2 as int == square(m as int),
        0 <= x2 <= 2_467_401_102,
{
    proof {
        lemma_square_bound(m as int);
        assert(0 <= m * m <= HALF_PI * HALF_PI) by (nonlinear_arith)
            requires
                0 <= m <= HALF_PI,
        ;
    }
    m * m / ONE
}

fn sin_quarter(x: i64) -> (r: i64)
    requires
        -HALF_PI <= x <= HALF_PI,
    ensures
        r as int == sin_series(x as int),
        -ONE <= r <= ONE,
{
    let m: i64 = if x < 0 { -x } else { x };
    let x2 = square_of(m);
    let mut t: i64 = ONE;
    let mut k: i64 = 8;
    while k > 0
        invariant
            0 <= k <= 8,
            0 <= x2 <= 2_467_401_102,
            t as int == sin_factor(x2 as int, k as nat),
            0 < t <= ONE,
        decreases k,
    {
        k = k - 1;
        proof {
            lemma_sin_factor_bounds(x2 as int, k as nat);
            assert(0 <= x2 * t <= 2_467_401_102 * ONE) by (nonlinear_arith)
                requires
                    0 <= x2 <= 2_467_401_102,
                    0 < t <= ONE,
            ;
            assert(6 <= (2 * k + 2) * (2 * k + 3) <= 16 * 17) by (nonlinear_arith)
                requires
                    0 <= k <= 7,
            ;
        }
        t = ONE - (x2 * t / ONE) / ((2 * k + 2) * (2 * k + 3));
    }
    proof {
        assert(0 <= m * t <= HALF_PI * ONE) by (nonlinear_arith)
            requires
                0 <= m <= HALF_PI,
                0 < t <= ONE,
        ;
    }
    let raw = m * t / ONE;
    let v = if raw > ONE { ONE } else { raw };
    if x < 0 {
        -v
    } else {
        v
    }
}

fn cos_quarter(x: i64) -> (r: i64)
    requires
        -HALF_PI <= x <= HALF_PI,
    ensures
        r as int == cos_series(x as int),
        -ONE <= r <= ONE,
{
    let m: i64 = if x < 0 { -x } else { x };
    let x2 = square_of(m);
    proof {
        lemma_square_bound(x as int);
    }
    let mut t: i64 = ONE;
    let mut k: i64 = 9;
    while k > 0
        invariant
            0 <= k <= 9,
            0 <= x2 <= 2_467_401_102,
            t as int == cos_factor(x2 as int, k as nat),
            -ONE <= t <= ONE,
            k >= 1 ==> 0 < t,
        decreases k,
    {
        k = k - 1;
        proof {
            lemma_cos_factor_bounds(x2 as int, k as nat);
            assert(0 <= x2 * t <= 2_467_401_102 * ONE) by (nonlinear_arith)
                requires
                    0 <= x2 <= 2_467_401_102,
                    0 < t <= ONE,
            ;
            assert(2 <= (2 * k + 1) * (2 * k + 2) <= 17 * 18) by (nonlinear_arith)
                requires
                    0 <= k <= 8,
            ;
        }
        t = ONE - (x2 * t / ONE) / ((2 * k + 1) * (2 * k + 2));
    }
    t
}

fn wrap_turn(theta: i64) -> (r: i64)
    ensures
        r as int == theta as int % (TAU as int),
        0 <= r < TAU,
{
    match theta.checked_rem_euclid(TAU) {
        Some(r) => r,
        None => 0,
    }
}

/// Sine of an angle.
pub fn fx_sin(theta: i64) -> (r: i64)
    ensures
        r as int == sin_spec(theta as int),
        -ONE <= r <= ONE,
{
    let r = wrap_turn(theta);
    if r <= HALF_PI {
        sin_quarter(r)
    } else if r <= PI + HALF_PI {
        sin_quarter(PI - r)
    } else {
        sin_quarter(r - TAU)
    }
}

/// Cosine of an angle.
pub fn fx_cos(theta: i64) -> (r: i64)
    ensures
        r as int == cos_spec(theta as int),
        -ONE <= r <= ONE,
{
    let r = wrap_turn(theta);
    if r <= HALF_PI {
        cos_quarter(r)
    } else if r <= PI + HALF_PI {
        let c = cos_quarter(PI - r);
        -c
    } else {
        cos_quarter(r - TAU)
    }
}


/// The spacing of the arctangent anchors, 1/4.
pub const QUARTER: i64 = 250_000_000;

/// Half the spacing of the arctangent anchors, 1/8.
pub const EIGHTH: i64 = 125_000_000;

/// The arctangent of `i / 4` for `i` from 0 to 4.
pub open spec fn atan_anchor(i: int) -> int {
    if i <= 0 {
        0
    } else if i == 1 {
        244_978_663
    } else if i == 2 {
        463_647_609
    } else if i == 3 {
        643_501_109
    } else {
        785_398_163
    }
}

/// The nested factor of the arctangent series from term `k` on:
/// `1/(2k+1) - w²·(1/(2k+3) - w²·(...))`, five terms in all.
pub open spec fn atan_factor(w2: int, k: nat) -> int
    decreases 4 - k,
{
    if k >= 4 {
        ONE / 9
    } else {
        (ONE as int) / ((2 * k + 1) as int) - w2 * atan_factor(w2, k + 1) / (ONE as int)
    }
}

/// Arctangent of a ratio between 0 and 1: the arctangent of the nearest
/// quarter plus the series applied to the remaining offset
/// `(z - c) / (1 + c·z)`.
pub open spec fn atan_unit(z: int) -> int
    recommends
        0 <= z <= ONE,
{
    let i = (z + EIGHTH) / (QUARTER as int);
    let c = i * QUARTER;
    let w = magnitude(z - c) * ONE / (ONE + c * z / (ONE as int));
    let s = w * atan_factor(square(w), 0) / (ONE as int);
    if z < c {
        atan_anchor(i) - s
    } else {
        atan_anchor(i) + s
    }
}

/// The angle of the vector `(x, y)` against the positive x axis, between
/// minus half a turn and half a turn. The zero vector has angle 0.
pub open spec fn atan2_spec(y: int, x: int) -> int {
    if x == 0 && y == 0 {
        0
    } else {
        let ax = magnitude(x);
        let ay = magnitude(y);
        let a = if ay <= ax {
            atan_unit(ay * ONE / ax)
        } else {
            HALF_PI - atan_unit(ax * ONE / ay)
        };
        let b = if x < 0 {
            PI - a
        } else {
            a
        };
        if y < 0 {
            -b
        } else {
            b
        }
    }
}

/// Every arctangent factor of a small squared offset lies in `(0, 1]`.
pub proof fn lemma_atan_factor_bounds(w2: int, k: nat)
    requires
        0 <= w2 <= 15_625_000,
    ensures
        0 < atan_factor(w2, k) <= ONE,
    decreases 4 - k,
{
    if k < 4 {
        lemma_atan_factor_bounds(w2, k + 1);
        let t = atan_factor(w2, k + 1);
        assert(0 <= w2 * t <= 15_625_000 * ONE) by (nonlinear_arith)
            requires
                0 <= w2 <= 15_625_000,
                0 < t <= ONE,
        ;
        let d = (2 * k + 1) as int;
        assert(ONE / 7 <= (ONE as int) / d <= ONE) by (nonlinear_arith)
            requires
                1 <= d <= 7,
                ONE == 1_000_000_000,
        ;
    }
}

/// The offset from the nearest quarter is at most an eighth, and the
/// arctangent of a ratio between 0 and 1 lies within a quarter turn.
pub proof fn lemma_atan_unit_bounds(z: int)
    requires
        0 <= z <= ONE,
    ensures
        0 <= atan_unit(z) <= HALF_PI,
        z == 0 ==> atan_unit(z) == 0,
{
    let i = (z + EIGHTH) / (QUARTER as int);
    let c = i * QUARTER;
    let m = magnitude(z - c);
    assert(0 <= c * z <= ONE * ONE) by (nonlinear_arith)
        requires
            0 <= c <= ONE,
            0 <= z <= ONE,
    ;
    let den = ONE + c * z / (ONE as int);
    assert(0 <= m * ONE / den <= m) by (nonlinear_arith)
        requires
            0 <= m,
            den >= ONE,
            ONE > 0,
    ;
    let w = m * ONE / den;
    assert(0 <= w * w <= 125_000_000 * 125_000_000) by (nonlinear_arith)
        requires
            0 <= w <= 125_000_000,
    ;
    lemma_atan_factor_bounds(square(w), 0);
    let t = atan_factor(square(w), 0);
    assert(0 <= w * t <= w * ONE) by (nonlinear_arith)
        requires
            0 <= w,
            0 < t <= ONE,
    ;
    if z == 0 {
        assert(w == 0);
        assert(w * t == 0) by (nonlinear_arith)
            requires
                w == 0,
        ;
    }
}

/// The angle of a vector lies between minus half a turn and half a turn;
/// along the positive x axis it is exactly 0.
pub proof fn lemma_atan2_range(y: int, x: int)
    ensures
        -PI <= atan2_spec(y, x) <= PI,
        y == 0 && x >= 0 ==> atan2_spec(y, x) == 0,
{
    if x != 0 || y != 0 {
        let ax = magnitude(x);
        let ay = magnitude(y);
        if ay <= ax {
            assert(0 <= ay * ONE / ax <= ONE) by (nonlinear_arith)
                requires
                    0 <= ay <= ax,
                    ax > 0,
                    ONE > 0,
            ;
            lemma_atan_unit_bounds(ay * ONE / ax);
            if y == 0 {
                assert(ay * ONE == 0);
                assert(0int / ax == 0) by (nonlinear_arith)
                    requires
                        ax > 0,
                ;
            }
        } else {
            assert(0 <= ax * ONE / ay <= ONE) by (nonlinear_arith)
                requires
                    0 <= ax <= ay,
                    ay > 0,
                    ONE > 0,
            ;
            lemma_atan_unit_bounds(ax * ONE / ay);
        }
    }
}

fn atan_table(i: i64) -> (r: i64)
    requires
        0 <= i <= 4,
    ensures
        r as int == atan_anchor(i as int),
{
    if i == 0 {
        0
    } else if i == 1 {
        244_978_663
    } else if i == 2 {
        463_647_609
    } else if i == 3 {
        643_501_109
    } else {
        785_398_163
    }
}

fn atan_of_unit(z: i64) -> (r: i64)
    requires
        0 <= z <= ONE,
    ensures
        r as int == atan_unit(z as int),
        0 <= r <= HALF_PI,
{
    proof {
        lemma_atan_unit_bounds(z as int);
    }
    let i = (z + EIGHTH) / QUARTER;
    let c = i * QUARTER;
    assert(0 <= c * z <= ONE * ONE) by (nonlinear_arith)
        requires
            0 <= c <= ONE,
            0 <= z <= ONE,
    ;
    let den = ONE + c * z / ONE;
    let m: i64 = if z < c { c - z } else { z - c };
    assert(0 <= m * ONE / (den as int) <= m) by (nonlinear_arith)
        requires
            0 <= m,
            den >= ONE,
            ONE > 0,
    ;
    let w = m * ONE / den;
    assert(0 <= w * w <= 125_000_000 * 125_000_000) by (nonlinear_arith)
        requires
            0 <= w <= 125_000_000,
    ;
    let w2 = w * w / ONE;
    let mut t: i64 = ONE / 9;
    let mut k: i64 = 4;
    proof {
        lemma_atan_factor_bounds(w2 as int, 4);
    }
    while k > 0
        invariant
            0 <= k <= 4,
            0 <= w2 <= 15_625_000,
            t as int == atan_factor(w2 as int, k as nat),
            0 < t <= ONE,
        decreases k,
    {
        k = k - 1;
        proof {
            lemma_atan_factor_bounds(w2 as int, k as nat);
            assert(0 <= w2 * t <= 15_625_000 * ONE) by (nonlinear_arith)
                requires
                    0 <= w2 <= 15_625_000,
                    0 < t <= ONE,
            ;
        }
        t = ONE / (2 * k + 1) - w2 * t / ONE;
    }
    assert(0 <= w * t <= 125_000_000 * ONE) by (nonlinear_arith)
        requires
            0 <= w <= 125_000_000,
            0 < t <= ONE,
    ;
    let s = w * t / ONE;
    if z < c {
        atan_table(i) - s
    } else {
        atan_table(i) + s
    }
}

fn unit_ratio(small: u128, large: u128) -> (z: i64)
    requires
        small <= large <= 0x8000_0000_0000_0000,
        large > 0,
    ensures
        z as int == small * ONE / (large as int),
        0 <= z <= ONE,
{
    assert(0 <= small * ONE / (large as int) <= ONE && small * ONE <= 0x8000_0000_0000_0000 * ONE)
        by (nonlinear_arith)
        requires
            0 <= small <= large <= 0x8000_0000_0000_0000,
            large > 0,
            ONE > 0,
    ;
    (small * (ONE as u128) / large) as i64
}

/// The angle of the vector `(x, y)` against the positive x axis.
pub fn fx_atan2(y: i64, x: i64) -> (r: i64)
    ensures
        r as int == atan2_spec(y as int, x as int),
        -PI <= r <= PI,
{
    proof {
        lemma_atan2_range(y as int, x as int);
    }
    if x == 0 && y == 0 {
        return 0;
    }
    let ax = magnitude_wide(x);
    let ay = magnitude_wide(y);
    let a = if ay <= ax {
        atan_of_unit(unit_ratio(ay, ax))
    } else {
        HALF_PI - atan_of_unit(unit_ratio(ax, ay))
    };
    let b = if x < 0 { PI - a } else { a };
    if y < 0 {
        -b
    } else {
        b
    }
}

} // verus!
