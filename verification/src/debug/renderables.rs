//! Descriptions of shapes for a renderer, as text.

use vstd::prelude::*;
use vstd::string::StringExecFns;
use crate::text::{natural_text, push_natural, push_shortest, shortest_text};

verus! {

/// A point as `(x, y)`, each coordinate with a decimal point.
pub open spec fn point_text(p: (int, int)) -> Seq<char> {
    "("@ + shortest_text(p.0, true) + ", "@ + shortest_text(p.1, true) + ")"@
}

/// A colour as `(red, green, blue)`.
pub open spec fn color_text(color: (u8, u8, u8)) -> Seq<char> {
    "("@ + natural_text(color.0 as nat) + ", "@ + natural_text(color.1 as nat) + ", "@
        + natural_text(color.2 as nat) + ")"@
}

/// The description of a circle: `Circle(center, radius, color)`.
pub open spec fn circle_text(center: (int, int), radius: int, color: (u8, u8, u8)) -> Seq<char> {
    "Circle("@ + point_text(center) + ", "@ + shortest_text(radius, false) + ", "@ + color_text(
        color,
    ) + ")"@
}

/// The description of a line segment: `Line(p1, p2, width, color)`.
pub open spec fn line_text(p1: (int, int), p2: (int, int), width: int, color: (u8, u8, u8)) -> Seq<
    char,
> {
    "Line("@ + point_text(p1) + ", "@ + point_text(p2) + ", "@ + shortest_text(width, false)
        + ", "@ + color_text(color) + ")"@
}

fn push_point(out: &mut String, p: (i64, i64))
    ensures
        final(out)@ == old(out)@ + point_text((p.0 as int, p.1 as int)),
{
    out.append("(");
    push_shortest(out, p.0, true);
    out.append(", ");
    push_shortest(out, p.1, true);
    out.append(")");
    assert(out@ =~= old(out)@ + point_text((p.0 as int, p.1 as int)));
}

fn push_color(out: &mut String, color: (u8, u8, u8))
    ensures
        final(out)@ == old(out)@ + color_text(color),
{
    out.append("(");
    push_natural(out, color.0 as u128);
    out.append(", ");
    push_natural(out, color.1 as u128);
    out.append(", ");
    push_natural(out, color.2 as u128);
    out.append(")");
    assert(out@ =~= old(out)@ + color_text(color));
}

/// Describes a circle around `center`.
pub fn circle(center: (i64, i64), radius: i64, color: (u8, u8, u8)) -> (r: String)
    ensures
        r@ == circle_text((center.0 as int, center.1 as int), radius as int, color),
{
    let mut out = String::from_str("Circle(");
    push_point(&mut out, center);
    out.append(", ");
    push_shortest(&mut out, radius, false);
    out.append(", ");
    push_color(&mut out, color);
    out.append(")");
    assert(out@ =~= circle_text((center.0 as int, center.1 as int), radius as int, color));
    out
}

/// Describes a line segment from `p1` to `p2`.
pub fn line(p1: (i64, i64), p2: (i64, i64), width: i64, color: (u8, u8, u8)) -> (r: String)
    ensures
        r@ == line_text(
            (p1.0 as int, p1.1 as int),
            (p2.0 as int, p2.1 as int),
            width as int,
            color,
        ),
{
    let mut out = String::from_str("Line(");
    push_point(&mut out, p1);
    out.append(", ");
    push_point(&mut out, p2);
    out.append(", ");
    push_shortest(&mut out, width, false);
    out.append(", ");
    push_color(&mut out, color);
    out.append(")");
    assert(out@ =~= line_text(
        (p1.0 as int, p1.1 as int),
        (p2.0 as int, p2.1 as int),
        width as int,
        color,
    ));
    out
}

} // verus!
