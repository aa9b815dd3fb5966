//! Sine and cosine of a fixed-point angle.

use vstd::prelude::*;
use crate::numeric::Parameter;

verus! {

/// The sine and the cosine, in that order and in units of 1/256, that the
/// CORDIC iteration yields for an angle of `angle` units of 1/256 radians.
pub uninterp spec fn cordic_sin_cos(angle: i32) -> (i32, i32);

/// Calls `cordic::sin_cos` on the 32-bit fixed-point number with 8
/// fractional bits whose representation is `angle`, and hands back the
/// representations of the two numbers it returns, the sine first. That
/// function returns for every angle, and its result is a function of the
/// angle alone; nothing else is claimed of it, its accuracy least of all.
#[verifier::external_body]
fn sin_cos_bits(angle: i32) -> (r: (i32, i32))
    ensures
        r == cordic_sin_cos(angle),
{
    let (sin, cos) = cordic::sin_cos(fixed::types::I24F8::from_bits(angle));
    (sin.to_bits(), cos.to_bits())
}

/// The sine and the cosine of `angle`, an angle in radians.
pub fn sin_cos(angle: Parameter) -> (r: (Parameter, Parameter))
    ensures
        r.0.bits == cordic_sin_cos(angle.bits).0,
        r.1.bits == cordic_sin_cos(angle.bits).1,
{
    let (sin, cos) = sin_cos_bits(angle.to_bits());
    (Parameter::from_bits(sin), Parameter::from_bits(cos))
}

} // verus!
