//! Curves: pure mappings from a parameter to a point of the plane.
//!
//! Evaluation is total. It works in wider arithmetic and limits only its
//! final result to the range of a coordinate, which is far larger than any
//! screen; limiting to the screen is left to the mapper.

use vstd::prelude::*;
use crate::numeric::{
    magnitude, product, rescale, saturate, saturated, Coordinate, Parameter, ONE, TAU,
};
use crate::trig::{cordic_sin_cos, sin_cos};

verus! {

/// The value at `t` of the line through `a` at 0 and `b` at 1, all in units
/// of 1/256.
pub open spec fn interpolated(a: int, b: int, t: int) -> int {
    saturated(a + (t * (b - a)) / 256)
}

/// `center` moved by `radius` times `factor`, all in units of 1/256.
pub open spec fn displaced(center: int, radius: int, factor: int) -> int {
    saturated(center + saturated(product(radius, factor)))
}

/// The point on the circle round `center` whose angle has sine `sin` and
/// cosine `cos`.
pub open spec fn circular(
    center: (Coordinate, Coordinate),
    radius: Coordinate,
    sin: int,
    cos: int,
) -> (Coordinate, Coordinate) {
    (
        Coordinate { bits: displaced(center.0@, radius@, cos) as i32 },
        Coordinate { bits: displaced(center.1@, radius@, sin) as i32 },
    )
}

/// A curve, given by its kind and its numbers.
#[derive(Clone, Copy, Debug, PartialEq, Eq)]
pub enum Curve {
    /// The straight line from `a`, at parameter 0, to `b`, at parameter 1.
    Segment { a: (Coordinate, Coordinate), b: (Coordinate, Coordinate) },
    /// The part of a circle between the angles `t_0` and `t_1`, in radians.
    /// A negative radius mirrors the arc in its centre.
    Arc { center: (Coordinate, Coordinate), radius: Coordinate, t_0: Parameter, t_1: Parameter },
    /// A whole circle: the arc from 0 to a full turn.
    Circle { center: (Coordinate, Coordinate), radius: Coordinate },
    /// A single point, whatever the parameter.
    Point { p: (Coordinate, Coordinate) },
}

impl Curve {
    /// The point of the curve at parameter `t`.
    pub open spec fn point_at(self, t: Parameter) -> (Coordinate, Coordinate) {
        match self {
            Curve::Segment { a, b } => (
                Coordinate { bits: interpolated(a.0@, b.0@, t@) as i32 },
                Coordinate { bits: interpolated(a.1@, b.1@, t@) as i32 },
            ),
            Curve::Arc { center, radius, t_0, t_1 } => circular(
                center,
                radius,
                cordic_sin_cos(t.bits).0 as int,
                cordic_sin_cos(t.bits).1 as int,
            ),
            Curve::Circle { center, radius } => circular(
                center,
                radius,
                cordic_sin_cos(t.bits).0 as int,
                cordic_sin_cos(t.bits).1 as int,
            ),
            Curve::Point { p } => p,
        }
    }

    /// The parameters at which the curve starts and ends.
    pub open spec fn span(self) -> (Parameter, Parameter) {
        match self {
            Curve::Segment { a, b } => (Parameter { bits: 0 }, Parameter { bits: ONE }),
            Curve::Arc { center, radius, t_0, t_1 } => (t_0, t_1),
            Curve::Circle { center, radius } => (Parameter { bits: 0 }, Parameter { bits: TAU }),
            Curve::Point { p } => (Parameter { bits: 0 }, Parameter { bits: 0 }),
        }
    }

    /// The point of the curve at parameter `t`.
    pub fn evaluate(&self, t: Parameter) -> (r: (Coordinate, Coordinate))
        ensures
            r == self.point_at(t),
    {
        match self {
            Curve::Segment { a, b } => (lerp(a.0, b.0, t), lerp(a.1, b.1, t)),
            Curve::Arc { center, radius, t_0, t_1 } => {
                let (sin, cos) = sin_cos(t);
                arc_point(*center, *radius, sin, cos)
            },
            Curve::Circle { center, radius } => {
                let (sin, cos) = sin_cos(t);
                arc_point(*center, *radius, sin, cos)
            },
            Curve::Point { p } => *p,
        }
    }

    /// The parameters at which the curve starts and ends.
    pub fn domain(&self) -> (r: (Parameter, Parameter))
        ensures
            r == self.span(),
    {
        match self {
            Curve::Segment { a, b } => (Parameter::from_bits(0), Parameter::from_bits(ONE)),
            Curve::Arc { center, radius, t_0, t_1 } => (*t_0, *t_1),
            Curve::Circle { center, radius } => (Parameter::from_bits(0), Parameter::from_bits(TAU)),
            Curve::Point { p } => (Parameter::from_bits(0), Parameter::from_bits(0)),
        }
    }
}

/// The value at `t` of the line through `a` at 0 and `b` at 1.
pub fn lerp(a: Coordinate, b: Coordinate, t: Parameter) -> (r: Coordinate)
    ensures
        r@ == interpolated(a@, b@, t@),
{
    let rise: i64 = (b.bits as i64) - (a.bits as i64);
    assert(-0x7fff_ffff_8000_0000 <= (t.bits as int) * (rise as int) <= 0x7fff_ffff_8000_0000)
        by (nonlinear_arith)
        requires
            -0x8000_0000 <= t.bits as int <= 0x7fff_ffff,
            -0xffff_ffff <= rise as int <= 0xffff_ffff,
    ;
    let part: i64 = rescale((t.bits as i64) * rise);
    Coordinate { bits: saturate((a.bits as i64) + part) }
}

/// The point on the circle round `center` whose angle has sine `sin` and
/// cosine `cos`.
pub fn arc_point(
    center: (Coordinate, Coordinate),
    radius: Coordinate,
    sin: Parameter,
    cos: Parameter,
) -> (r: (Coordinate, Coordinate))
    ensures
        r == circular(center, radius, sin@, cos@),
{
    (center.0.saturating_add(radius.scale(cos)), center.1.saturating_add(radius.scale(sin)))
}

/// A segment is at its first end at parameter 0 and at its second end at
/// parameter 1.
pub proof fn lemma_segment_endpoints(a: (Coordinate, Coordinate), b: (Coordinate, Coordinate))
    ensures
        (Curve::Segment { a, b }).point_at(Parameter { bits: 0 }) == a,
        (Curve::Segment { a, b }).point_at(Parameter { bits: ONE }) == b,
{
    assert((256 * (b.0@ - a.0@)) / 256 == b.0@ - a.0@);
    assert((256 * (b.1@ - a.1@)) / 256 == b.1@ - a.1@);
    assert((0 * (b.0@ - a.0@)) / 256 == 0);
    assert((0 * (b.1@ - a.1@)) / 256 == 0);
}

/// Between its ends a segment never leaves the interval that they span, so
/// nothing is limited there.
pub proof fn lemma_segment_between(a: Coordinate, b: Coordinate, t: Parameter)
    requires
        0 <= t@ <= ONE,
    ensures
        a@ <= b@ ==> a@ <= interpolated(a@, b@, t@) <= b@,
        b@ <= a@ ==> b@ <= interpolated(a@, b@, t@) <= a@,
        interpolated(a@, b@, t@) == a@ + (t@ * (b@ - a@)) / 256,
{
    let rise = b@ - a@;
    let t = t@;
    if rise >= 0 {
        assert(0 <= (t * rise) / 256 <= rise) by (nonlinear_arith)
            requires
                0 <= t <= 256,
                rise >= 0,
        ;
    } else {
        assert(rise <= (t * rise) / 256 <= 0) by (nonlinear_arith)
            requires
                0 <= t <= 256,
                rise < 0,
        ;
    }
}

/// Where sine and cosine lie within the unit interval and the centre is at
/// least the radius away from both bounds of the range, nothing is limited:
/// the point is the centre plus the rounded product, no further from the
/// centre than the radius.
pub proof fn lemma_displaced_exact(center: Coordinate, radius: Coordinate, factor: int)
    requires
        -ONE <= factor <= ONE,
        i32::MIN <= center@ - magnitude(radius@),
        center@ + magnitude(radius@) <= i32::MAX,
    ensures
        displaced(center@, radius@, factor) == center@ + product(radius@, factor),
        -magnitude(radius@) <= product(radius@, factor) <= magnitude(radius@),
{
    let r = radius@;
    let m = magnitude(r);
    assert(-m <= (r * factor) / 256 <= m) by (nonlinear_arith)
        requires
            -256 <= factor <= 256,
            -m <= r <= m,
    ;
}

/// A negative radius mirrors the point in the centre, up to one unit of
/// resolution, which is what rounding towards negative infinity costs.
pub proof fn lemma_negative_radius_mirrors(radius: Coordinate, factor: int)
    ensures
        -product(radius@, factor) - 1 <= product(-radius@, factor) <= -product(radius@, factor),
{
    let a = radius@ * factor;
    assert((-radius@) * factor == -a) by (nonlinear_arith)
        requires
            a == radius@ * factor,
    ;
}

/// A circle is the arc over a full turn, and a point is the same at every
/// parameter.
pub proof fn lemma_circle_and_point(
    center: (Coordinate, Coordinate),
    radius: Coordinate,
    t: Parameter,
    u: Parameter,
)
    ensures
        (Curve::Circle { center, radius }).point_at(t) == (Curve::Arc {
            center,
            radius,
            t_0: Parameter { bits: 0 },
            t_1: Parameter { bits: TAU },
        }).point_at(t),
        (Curve::Circle { center, radius }).span() == (Curve::Arc {
            center,
            radius,
            t_0: Parameter { bits: 0 },
            t_1: Parameter { bits: TAU },
        }).span(),
        (Curve::Point { p: center }).point_at(t) == (Curve::Point { p: center }).point_at(u),
{
}

} // verus!
