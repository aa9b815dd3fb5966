//! From a logical coordinate to the actuation code of an output channel.
//!
//! The logical range of an axis is cut into as many equal shares as the axis
//! has codes, and a coordinate gets the number of the share it lies in: the
//! lower bound gives code 0, and the code grows by one with each share. The
//! mapping is clamped outside the range and at its upper end: the upper bound
//! and everything beyond it give the full scale, everything below the lower
//! bound gives code 0.
//!
//! Where the range is a whole number of coordinate units per code, this is
//! offset binary: the code is the coordinate counted in those units from the
//! lower bound. On the standard horizontal axis, 8 units wide with 256 codes,
//! the code of `x` is 32 times `x` plus 128 for every multiple of 1/32.

use vstd::prelude::*;
use crate::error::ConfigError;
use crate::numeric::Coordinate;

verus! {

/// `v`, limited to the interval from `lo` to `hi`.
pub open spec fn clamped(v: int, lo: int, hi: int) -> int {
    if v < lo {
        lo
    } else if v > hi {
        hi
    } else {
        v
    }
}

/// The code of the coordinate `x` on an axis whose logical range runs from
/// `min` to `max` and whose largest code is `full_scale`.
pub open spec fn affine_code(x: int, min: int, max: int, full_scale: int) -> int {
    clamped(((clamped(x, min, max) - min) * (full_scale + 1)) / (max - min), 0, full_scale)
}

/// What an axis is made of.
pub struct AxisView {
    /// The lower bound of the logical range, in units of 1/256.
    pub min: int,
    /// The upper bound of the logical range, in units of 1/256.
    pub max: int,
    /// The largest actuation code.
    pub full_scale: int,
}

/// One output channel: its logical range and its full scale.
#[derive(Clone, Copy, Debug)]
pub struct Axis {
    min: Coordinate,
    max: Coordinate,
    full_scale: u16,
}

impl View for Axis {
    type V = AxisView;

    closed spec fn view(&self) -> AxisView {
        AxisView { min: self.min@, max: self.max@, full_scale: self.full_scale as int }
    }
}

impl Axis {
    /// Whether the logical range is not empty and everything fits the
    /// representation. This holds of every axis that exists at run time.
    #[verifier::type_invariant]
    pub open spec fn wf(self) -> bool {
        &&& i32::MIN <= self@.min < self@.max <= i32::MAX
        &&& 0 <= self@.full_scale <= u16::MAX
    }

    /// The code that this axis gives to `x`.
    pub open spec fn code_of(self, x: Coordinate) -> int {
        affine_code(x@, self@.min, self@.max, self@.full_scale)
    }

    /// An axis whose logical range runs from `min` to `max`; rejected where
    /// `min` is not below `max`.
    pub fn new(min: Coordinate, max: Coordinate, full_scale: u16) -> (r: Result<Axis, ConfigError>)
        ensures
            min@ < max@ ==> r is Ok && r->Ok_0.wf() && r->Ok_0@ == (AxisView {
                min: min@,
                max: max@,
                full_scale: full_scale as int,
            }),
            min@ >= max@ ==> r == Err::<Axis, ConfigError>(ConfigError::EmptyRange),
    {
        if min.bits < max.bits {
            Ok(Axis { min, max, full_scale })
        } else {
            Err(ConfigError::EmptyRange)
        }
    }

    /// An axis whose logical range runs from `min` to `max`, both given in
    /// whole units; rejected where `min` is not below `max`.
    pub fn from_units(min: i8, max: i8, full_scale: u16) -> (r: Result<Axis, ConfigError>)
        ensures
            min < max ==> r is Ok && r->Ok_0.wf() && r->Ok_0@ == (AxisView {
                min: min * 256,
                max: max * 256,
                full_scale: full_scale as int,
            }),
            min >= max ==> r == Err::<Axis, ConfigError>(ConfigError::EmptyRange),
    {
        Axis::new(
            Coordinate::from_bits((min as i32) * 256),
            Coordinate::from_bits((max as i32) * 256),
            full_scale,
        )
    }

    /// The lower bound of the logical range.
    pub fn min(&self) -> (r: Coordinate)
        ensures
            r@ == self@.min,
    {
        self.min
    }

    /// The upper bound of the logical range.
    pub fn max(&self) -> (r: Coordinate)
        ensures
            r@ == self@.max,
    {
        self.max
    }

    /// The largest actuation code.
    pub fn full_scale(&self) -> (r: u16)
        ensures
            r == self@.full_scale,
    {
        self.full_scale
    }

    /// The actuation code of `x`.
    pub fn code(&self, x: Coordinate) -> (r: u16)
        ensures
            self.wf(),
            r == self.code_of(x),
            r <= self@.full_scale,
    {
        proof {
            use_type_invariant(self);
            lemma_code_in_range(*self, x);
        }
        let lo: i64 = self.min.bits as i64;
        let hi: i64 = self.max.bits as i64;
        let at: i64 = x.bits as i64;
        let inside: i64 = if at < lo {
            lo
        } else if at > hi {
            hi
        } else {
            at
        };
        let span: i64 = hi - lo;
        let offset: i64 = inside - lo;
        let codes: i64 = self.full_scale as i64 + 1;
        assert(0 <= offset * codes <= 0xffff_ffff * 0x1_0000) by (nonlinear_arith)
            requires
                0 <= offset <= 0xffff_ffff,
                0 <= codes <= 0x1_0000,
        ;
        let share: i64 = (offset * codes) / span;
        if share > self.full_scale as i64 {
            self.full_scale
        } else {
            share as u16
        }
    }
}

/// Every code lies between 0 and the full scale.
pub proof fn lemma_code_in_range(axis: Axis, x: Coordinate)
    requires
        axis.wf(),
    ensures
        0 <= axis.code_of(x) <= axis@.full_scale,
        0 <= ((clamped(x@, axis@.min, axis@.max) - axis@.min) * (axis@.full_scale + 1)) / (axis@.max
            - axis@.min),
{
    let span = axis@.max - axis@.min;
    let offset = clamped(x@, axis@.min, axis@.max) - axis@.min;
    let codes = axis@.full_scale + 1;
    assert(0 <= (offset * codes) / span) by (nonlinear_arith)
        requires
            0 <= offset,
            0 < span,
            0 < codes,
    ;
}

/// A coordinate further along the axis never gets a smaller code.
pub proof fn lemma_code_monotonic(axis: Axis, x1: Coordinate, x2: Coordinate)
    requires
        axis.wf(),
        x1@ < x2@,
    ensures
        axis.code_of(x1) <= axis.code_of(x2),
{
    let span = axis@.max - axis@.min;
    let o1 = clamped(x1@, axis@.min, axis@.max) - axis@.min;
    let o2 = clamped(x2@, axis@.min, axis@.max) - axis@.min;
    let codes = axis@.full_scale + 1;
    assert((o1 * codes) / span <= (o2 * codes) / span) by (nonlinear_arith)
        requires
            0 <= o1 <= o2,
            0 < span,
            0 < codes,
    ;
}

/// A coordinate at or below the lower bound gets code 0, and one at or above
/// the upper bound gets the full scale.
pub proof fn lemma_code_saturates(axis: Axis, x: Coordinate)
    requires
        axis.wf(),
    ensures
        x@ <= axis@.min ==> axis.code_of(x) == 0,
        x@ >= axis@.max ==> axis.code_of(x) == axis@.full_scale,
{
    let span = axis@.max - axis@.min;
    let codes = axis@.full_scale + 1;
    if x@ <= axis@.min {
        assert((0 * codes) / span == 0) by (nonlinear_arith)
            requires
                0 < span,
        ;
    }
    if x@ >= axis@.max {
        assert((span * codes) / span == codes) by (nonlinear_arith)
            requires
                0 < span,
        ;
    }
}

/// Where the logical range holds `unit` coordinate units for each code, the
/// code of a coordinate within the range is its distance from the lower
/// bound counted in whole units: offset binary. Coordinates a unit apart
/// then get codes that differ by one.
pub proof fn lemma_code_offset_binary(axis: Axis, x: Coordinate, unit: int)
    requires
        axis.wf(),
        unit > 0,
        axis@.max - axis@.min == unit * (axis@.full_scale + 1),
        axis@.min <= x@ < axis@.max,
    ensures
        axis.code_of(x) == (x@ - axis@.min) / unit,
        x@ + unit < axis@.max ==> affine_code(x@ + unit, axis@.min, axis@.max, axis@.full_scale)
            == axis.code_of(x) + 1,
{
    let offset = x@ - axis@.min;
    let codes = axis@.full_scale + 1;
    let span = axis@.max - axis@.min;
    assert((offset * codes) / span == offset / unit && offset / unit < codes
        && (offset + unit) / unit == offset / unit + 1) by (nonlinear_arith)
        requires
            0 <= offset < span,
            span == unit * codes,
            unit > 0,
            codes > 0,
    ;
    if x@ + unit < axis@.max {
        let further = offset + unit;
        assert((further * codes) / span == further / unit && further / unit < codes)
            by (nonlinear_arith)
            requires
                0 <= further < span,
                span == unit * codes,
                unit > 0,
                codes > 0,
        ;
    }
}

/// On an axis that runs from -4 to 4 with a full scale of 255, the code of a
/// coordinate within the range is its count of units of 1/32, rounded down,
/// plus 128.
pub proof fn lemma_code_of_standard_axis(axis: Axis, x: Coordinate)
    requires
        axis.wf(),
        axis@ == (AxisView { min: -1024, max: 1024, full_scale: 255 }),
        -1024 <= x@ < 1024,
    ensures
        axis.code_of(x) == x@ / 8 + 128,
        x@ % 8 == 0 ==> 8 * (axis.code_of(x) - 128) == x@,
{
    lemma_code_offset_binary(axis, x, 8);
}

} // verus!
