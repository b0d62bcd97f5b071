//! Stateless numeric helpers: clamping, interpolation, angle differences
//! and cubic Bézier curves, on fixed-point quantities.

use vstd::prelude::*;
use vstd::arithmetic::div_mod::lemma_mod_multiples_vanish;
use vstd::std_specs::cmp::PartialOrdIs;
use vstd::std_specs::cmp::PartialOrdSpec;
use crate::fixed::{
    add_spec, div_spec, fx_add, fx_div, fx_mul, fx_scale, fx_sub, lemma_mul_identities, mul_spec,
    scale_spec, sub_spec, ONE, PI, TAU,
};

verus! {

/// The value `clamp` settles on: the lower bound when `x` lies below it,
/// otherwise the upper bound when `x` lies above that, otherwise `x` itself.
pub open spec fn clamp_spec<T: PartialOrd>(x: T, bounds: (T, T)) -> T {
    if x.is_lt(&bounds.0) {
        bounds.0
    } else if x.is_gt(&bounds.1) {
        bounds.1
    } else {
        x
    }
}

/// Restricts `x` to the closed range `bounds`.
pub fn clamp<T: PartialOrd>(x: T, bounds: (T, T)) -> (r: T)
    ensures
        T::obeys_partial_cmp_spec() ==> r == clamp_spec(x, bounds),
        r == x || r == bounds.0 || r == bounds.1,
{
    let (min, max) = bounds;
    if x < min {
        min
    } else if x > max {
        max
    } else {
        x
    }
}

/// The point a fraction `t` of the way from `range.0` to `range.1`.
pub open spec fn lerp_spec(t: int, range: (int, int)) -> int {
    add_spec(mul_spec(t, sub_spec(range.1, range.0)), range.0)
}

/// Linear interpolation: `t * (max - min) + min`.
pub fn lerp(t: i64, range: (i64, i64)) -> (r: i64)
    ensures
        r as int == lerp_spec(t as int, (range.0 as int, range.1 as int)),
{
    fx_add(fx_mul(t, fx_sub(range.1, range.0)), range.0)
}

/// The fraction of the way from `range.0` to `range.1` at which `t` lies.
pub open spec fn invlerp_spec(t: int, range: (int, int)) -> int
    recommends
        range.0 != range.1,
{
    div_spec(sub_spec(t, range.0), sub_spec(range.1, range.0))
}

/// Inverse of linear interpolation: `(t - min) / (max - min)`.
pub fn invlerp(t: i64, range: (i64, i64)) -> (r: i64)
    requires
        range.0 != range.1,
    ensures
        r as int == invlerp_spec(t as int, (range.0 as int, range.1 as int)),
{
    fx_div(fx_sub(t, range.0), fx_sub(range.1, range.0))
}

/// The position in the range `o` that corresponds to `t` in the range `i`.
pub open spec fn map_spec(t: int, i: (int, int), o: (int, int)) -> int
    recommends
        i.0 != i.1,
{
    lerp_spec(invlerp_spec(t, i), o)
}

/// Maps `t` from the range `i` onto the range `o`.
pub fn map(t: i64, i: (i64, i64), o: (i64, i64)) -> (r: i64)
    requires
        i.0 != i.1,
    ensures
        r as int == map_spec(t as int, (i.0 as int, i.1 as int), (o.0 as int, o.1 as int)),
{
    lerp(invlerp(t, i), o)
}

/// The shortest signed rotation that turns the heading `source` into the
/// heading `target`: the one value congruent to `target - source` modulo a
/// full turn that is greater than minus half a turn and at most half a turn.
pub open spec fn signed_angle_difference_spec(source: int, target: int) -> int {
    PI - (PI - (target - source)) % (TAU as int)
}

/// Shortest signed rotation from `source` to `target`.
pub fn signed_angle_difference(source: i64, target: i64) -> (r: i64)
    ensures
        r as int == signed_angle_difference_spec(source as int, target as int),
        -PI < r <= PI,
        source == target ==> r == 0,
{
    let turned: i128 = PI as i128 - (target as i128 - source as i128);
    let rest: i128 = match turned.checked_rem_euclid(TAU as i128) {
        Some(rest) => rest,
        None => 0,
    };
    (PI as i128 - rest) as i64
}

/// The angle difference lies in `(-π, π]`, and it is 0 between equal
/// headings.
pub proof fn lemma_signed_angle_difference_range(source: int, target: int)
    ensures
        -PI < signed_angle_difference_spec(source, target) <= PI,
        signed_angle_difference_spec(source, source) == 0,
{
}

/// Adding whole turns to either heading leaves the angle difference
/// unchanged.
pub proof fn lemma_signed_angle_difference_periodic(source: int, target: int, turns: int)
    ensures
        signed_angle_difference_spec(source + turns * TAU, target) == signed_angle_difference_spec(
            source,
            target,
        ),
        signed_angle_difference_spec(source, target + turns * TAU) == signed_angle_difference_spec(
            source,
            target,
        ),
{
    let base = PI - (target - source);
    lemma_mod_multiples_vanish(turns, base, TAU as int);
    lemma_mod_multiples_vanish(-turns, base, TAU as int);
    assert(PI - (target - (source + turns * TAU)) == TAU * turns + base) by (nonlinear_arith)
        requires
            base == PI - (target - source),
    ;
    assert(PI - ((target + turns * TAU) - source) == TAU * (-turns) + base) by (nonlinear_arith)
        requires
            base == PI - (target - source),
    ;
}

/// One coordinate of the cubic Bézier curve with control values `p0` to
/// `p3` at parameter `t`:
/// `(1-t)³·p0 + 3·(1-t)²·t·p1 + 3·(1-t)·t²·p2 + t³·p3`.
pub open spec fn bezier_axis(p0: int, p1: int, p2: int, p3: int, t: int) -> int {
    let o = sub_spec(ONE as int, t);
    let w0 = mul_spec(mul_spec(mul_spec(p0, o), o), o);
    let w1 = scale_spec(mul_spec(mul_spec(mul_spec(p1, o), o), t), 3);
    let w2 = scale_spec(mul_spec(mul_spec(mul_spec(p2, o), t), t), 3);
    let w3 = mul_spec(mul_spec(mul_spec(p3, t), t), t);
    add_spec(add_spec(add_spec(w0, w1), w2), w3)
}

/// The point of the cubic Bézier curve at parameter `t`.
pub open spec fn cubic_bezier_spec(
    p0: (int, int),
    p1: (int, int),
    p2: (int, int),
    p3: (int, int),
    t: int,
) -> (int, int) {
    (bezier_axis(p0.0, p1.0, p2.0, p3.0, t), bezier_axis(p0.1, p1.1, p2.1, p3.1, t))
}

fn bezier_coordinate(p0: i64, p1: i64, p2: i64, p3: i64, t: i64) -> (r: i64)
    ensures
        r as int == bezier_axis(p0 as int, p1 as int, p2 as int, p3 as int, t as int),
{
    let o = fx_sub(ONE, t);
    let w0 = fx_mul(fx_mul(fx_mul(p0, o), o), o);
    let w1 = fx_scale(fx_mul(fx_mul(fx_mul(p1, o), o), t), 3);
    let w2 = fx_scale(fx_mul(fx_mul(fx_mul(p2, o), t), t), 3);
    let w3 = fx_mul(fx_mul(fx_mul(p3, t), t), t);
    fx_add(fx_add(fx_add(w0, w1), w2), w3)
}

/// Evaluates the cubic Bézier curve with control points `p0` to `p3` at
/// parameter `t`.
pub fn cubic_bezier(p0: (i64, i64), p1: (i64, i64), p2: (i64, i64), p3: (i64, i64), t: i64) -> (r: (
    i64,
    i64,
))
    ensures
        (r.0 as int, r.1 as int) == cubic_bezier_spec(
            (p0.0 as int, p0.1 as int),
            (p1.0 as int, p1.1 as int),
            (p2.0 as int, p2.1 as int),
            (p3.0 as int, p3.1 as int),
            t as int,
        ),
{
    (
        bezier_coordinate(p0.0, p1.0, p2.0, p3.0, t),
        bezier_coordinate(p0.1, p1.1, p2.1, p3.1, t),
    )
}

/// A Bézier coordinate starts at `p0` and ends at `p3`.
pub proof fn lemma_bezier_axis_endpoints(p0: int, p1: int, p2: int, p3: int)
    requires
        i64::MIN <= p0 <= i64::MAX,
        i64::MIN <= p1 <= i64::MAX,
        i64::MIN <= p2 <= i64::MAX,
        i64::MIN <= p3 <= i64::MAX,
    ensures
        bezier_axis(p0, p1, p2, p3, 0) == p0,
        bezier_axis(p0, p1, p2, p3, ONE as int) == p3,
{
    lemma_mul_identities(p0);
    lemma_mul_identities(p1);
    lemma_mul_identities(p2);
    lemma_mul_identities(p3);
    lemma_mul_identities(0);
}

/// A cubic Bézier curve starts at its first control point and ends at its
/// last.
pub proof fn lemma_cubic_bezier_endpoints(
    p0: (i64, i64),
    p1: (i64, i64),
    p2: (i64, i64),
    p3: (i64, i64),
)
    ensures
        cubic_bezier_spec(
            (p0.0 as int, p0.1 as int),
            (p1.0 as int, p1.1 as int),
            (p2.0 as int, p2.1 as int),
            (p3.0 as int, p3.1 as int),
            0,
        ) == (p0.0 as int, p0.1 as int),
        cubic_bezier_spec(
            (p0.0 as int, p0.1 as int),
            (p1.0 as int, p1.1 as int),
            (p2.0 as int, p2.1 as int),
            (p3.0 as int, p3.1 as int),
            ONE as int,
        ) == (p3.0 as int, p3.1 as int),
{
    lemma_bezier_axis_endpoints(p0.0 as int, p1.0 as int, p2.0 as int, p3.0 as int);
    lemma_bezier_axis_endpoints(p0.1 as int, p1.1 as int, p2.1 as int, p3.1 as int);
}

} // verus!
