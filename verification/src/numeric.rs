//! Fixed-point numbers.
//!
//! Parameters and coordinates are 32-bit signed fixed-point values with 8
//! fractional bits. A value is stored as its count of units of 1/256, so it
//! ranges over [-8388608, 8388608) with a resolution of 1/256. Arithmetic that
//! would leave that range saturates to the nearest bound; nothing here wraps
//! or panics. Products are rounded towards negative infinity.
//!
//! A fraction is an unsigned value of at least 0 and below 1 with 12
//! fractional bits, stored as its count of units of 1/4096.

use vstd::prelude::*;

verus! {

/// The number of units of 1/256 in 1.
pub const ONE: i32 = 256;

/// A full turn in radians, 2π, rounded to a whole number of units of 1/256.
pub const TAU: i32 = 1608;

/// `v`, limited to the range of the stored representation.
pub open spec fn saturated(v: int) -> int {
    if v < i32::MIN as int {
        i32::MIN as int
    } else if v > i32::MAX as int {
        i32::MAX as int
    } else {
        v
    }
}

/// The size of `v` without its sign.
pub open spec fn magnitude(v: int) -> int {
    if v < 0 {
        -v
    } else {
        v
    }
}

/// Whether `v` lies within the range of the stored representation.
pub open spec fn representable(v: int) -> bool {
    i32::MIN <= v <= i32::MAX
}

/// The product of two numbers given in units of 1/256, in the same units,
/// rounded towards negative infinity.
pub open spec fn product(a: int, b: int) -> int {
    (a * b) / 256
}

/// Limits `v` to the range of the stored representation.
pub fn saturate(v: i64) -> (r: i32)
    ensures
        r as int == saturated(v as int),
{
    if v < i32::MIN as i64 {
        i32::MIN
    } else if v > i32::MAX as i64 {
        i32::MAX
    } else {
        v as i32
    }
}

/// `wide` divided by 256, rounded towards negative infinity: a product of
/// two values in units of 1/256 brought back to those units.
pub fn rescale(wide: i64) -> (r: i64)
    ensures
        r as int == wide as int / 256,
{
    let quotient: i64 = wide / 256;
    let remainder: i64 = wide % 256;
    if remainder < 0 {
        quotient - 1
    } else {
        quotient
    }
}

/// The product of two stored values, still in units of 1/256, before any
/// limiting.
pub fn multiply(a: i32, b: i32) -> (r: i64)
    ensures
        r as int == product(a as int, b as int),
{
    assert(-0x4000_0000_0000_0000 <= (a as int) * (b as int) <= 0x4000_0000_0000_0000)
        by (nonlinear_arith)
        requires
            -0x8000_0000 <= a as int <= 0x7fff_ffff,
            -0x8000_0000 <= b as int <= 0x7fff_ffff,
    ;
    rescale((a as i64) * (b as i64))
}

/// A value that indexes along a curve: an angle in radians, or a fraction of
/// the way from one end of a segment to the other.
#[derive(Clone, Copy, Debug, PartialEq, Eq, Structural)]
pub struct Parameter {
    /// The value in units of 1/256.
    pub bits: i32,
}

impl View for Parameter {
    type V = int;

    /// The value in units of 1/256.
    open spec fn view(&self) -> int {
        self.bits as int
    }
}

impl Parameter {
    /// The parameter whose stored representation is `bits`.
    pub fn from_bits(bits: i32) -> (r: Parameter)
        ensures
            r@ == bits,
    {
        Parameter { bits }
    }

    /// The stored representation.
    pub fn to_bits(self) -> (r: i32)
        ensures
            r == self@,
    {
        self.bits
    }

    /// The whole number `n`, or the nearest bound of the range where `n` lies
    /// outside it.
    pub fn saturating_from_int(n: i32) -> (r: Parameter)
        ensures
            r@ == saturated(n * 256),
    {
        Parameter { bits: saturate((n as i64) * 256) }
    }

    /// Whether the value is greater than zero.
    pub fn is_positive(self) -> (r: bool)
        ensures
            r == (self@ > 0),
    {
        self.bits > 0
    }

    /// Whether the value is zero.
    pub fn is_zero(self) -> (r: bool)
        ensures
            r == (self@ == 0),
    {
        self.bits == 0
    }

    /// Whether `self` is less than `other`.
    pub fn lt(self, other: Parameter) -> (r: bool)
        ensures
            r == (self@ < other@),
    {
        self.bits < other.bits
    }

    /// Whether `self` is less than or equal to `other`.
    pub fn le(self, other: Parameter) -> (r: bool)
        ensures
            r == (self@ <= other@),
    {
        self.bits <= other.bits
    }

    /// `self + step`, or `None` where the sum lies outside the range.
    pub fn checked_add(self, step: Parameter) -> (r: Option<Parameter>)
        ensures
            representable(self@ + step@) ==> r == Some(Parameter { bits: (self@ + step@) as i32 }),
            !representable(self@ + step@) ==> r is None,
    {
        let wide: i64 = (self.bits as i64) + (step.bits as i64);
        if wide < i32::MIN as i64 || wide > i32::MAX as i64 {
            None
        } else {
            Some(Parameter { bits: wide as i32 })
        }
    }

    /// `self + step`, limited to the range.
    pub fn saturating_add(self, step: Parameter) -> (r: Parameter)
        ensures
            r@ == saturated(self@ + step@),
    {
        Parameter { bits: saturate((self.bits as i64) + (step.bits as i64)) }
    }
}

/// The number of units of 1/4096 in 1.
pub const FRACTION_ONE: u16 = 4096;

/// A value of at least 0 and below 1, with a resolution of 1/4096.
#[derive(Clone, Copy, Debug, PartialEq, Eq)]
pub struct Fraction {
    bits: u16,
}

impl View for Fraction {
    type V = int;

    /// The value in units of 1/4096.
    closed spec fn view(&self) -> int {
        self.bits as int
    }
}

impl Fraction {
    /// Whether the value is below 1. This holds of every fraction that
    /// exists at run time.
    #[verifier::type_invariant]
    pub open spec fn wf(self) -> bool {
        0 <= self@ < FRACTION_ONE
    }

    /// The fraction of `count` units of 1/4096, or the largest fraction
    /// where `count` would reach 1.
    pub fn saturating_from_count(count: u16) -> (r: Fraction)
        ensures
            r.wf(),
            count < FRACTION_ONE ==> r@ == count,
            count >= FRACTION_ONE ==> r@ == FRACTION_ONE - 1,
    {
        if count < FRACTION_ONE {
            Fraction { bits: count }
        } else {
            Fraction { bits: FRACTION_ONE - 1 }
        }
    }

    /// The stored representation: the value in units of 1/4096.
    pub fn to_bits(self) -> (r: u16)
        ensures
            r == self@,
            self.wf(),
    {
        proof {
            use_type_invariant(self);
        }
        self.bits
    }

    /// The value as a parameter, rounded down to a whole number of units of
    /// 1/256.
    pub fn to_parameter(self) -> (r: Parameter)
        ensures
            r@ == self@ / 16,
            0 <= r@ < ONE,
    {
        proof {
            use_type_invariant(self);
        }
        Parameter { bits: (self.bits / 16) as i32 }
    }
}

/// A logical position along one axis of the screen.
#[derive(Clone, Copy, Debug, PartialEq, Eq, Structural)]
pub struct Coordinate {
    /// The value in units of 1/256.
    pub bits: i32,
}

impl View for Coordinate {
    type V = int;

    /// The value in units of 1/256.
    open spec fn view(&self) -> int {
        self.bits as int
    }
}

impl Coordinate {
    /// The coordinate whose stored representation is `bits`.
    pub fn from_bits(bits: i32) -> (r: Coordinate)
        ensures
            r@ == bits,
    {
        Coordinate { bits }
    }

    /// The stored representation.
    pub fn to_bits(self) -> (r: i32)
        ensures
            r == self@,
    {
        self.bits
    }

    /// The whole number `n`, or the nearest bound of the range where `n` lies
    /// outside it.
    pub fn saturating_from_int(n: i32) -> (r: Coordinate)
        ensures
            r@ == saturated(n * 256),
    {
        Coordinate { bits: saturate((n as i64) * 256) }
    }

    /// The coordinate nearest to `units` units of 1/256.
    pub fn saturating_from_wide(units: i64) -> (r: Coordinate)
        ensures
            r@ == saturated(units as int),
    {
        Coordinate { bits: saturate(units) }
    }

    /// The coordinate with the value of `p`.
    pub fn from_parameter(p: Parameter) -> (r: Coordinate)
        ensures
            r@ == p@,
    {
        Coordinate { bits: p.bits }
    }

    /// `self + other`, limited to the range.
    pub fn saturating_add(self, other: Coordinate) -> (r: Coordinate)
        ensures
            r@ == saturated(self@ + other@),
    {
        Coordinate { bits: saturate((self.bits as i64) + (other.bits as i64)) }
    }

    /// `self - other`, limited to the range.
    pub fn saturating_sub(self, other: Coordinate) -> (r: Coordinate)
        ensures
            r@ == saturated(self@ - other@),
    {
        Coordinate { bits: saturate((self.bits as i64) - (other.bits as i64)) }
    }

    /// `self` times the scalar `k`, rounded towards negative infinity and
    /// limited to the range.
    pub fn scale(self, k: Parameter) -> (r: Coordinate)
        ensures
            r@ == saturated(product(self@, k@)),
    {
        Coordinate { bits: saturate(multiply(self.bits, k.bits)) }
    }
}

} // verus!
