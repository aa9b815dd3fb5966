//! Vector graphics for a two-axis analog deflection display.
//!
//! A beam is swept through a sequence of positions, each held for a dwell
//! time, so that persistence of vision shows line segments, arcs and circles.
//!
//! - [`numeric`]: the fixed-point parameter and coordinate types.
//! - [`trig`]: sine and cosine of a fixed-point angle.
//! - [`curve`]: segments, arcs, circles and points, and their evaluation.
//! - [`mapper`]: from a logical coordinate to an actuation code.
//! - [`display`]: the two channels, the commands issued to them, the input.
//! - [`drawable`]: sweeps of a curve, drawn on a display.
//! - [`error`]: why a configuration is rejected.
//!
//! The library computes and never touches hardware: drawing yields a list of
//! commands, and input samples are handed in as plain counts.

pub mod curve;
pub mod display;
pub mod drawable;
pub mod error;
pub mod mapper;
pub mod numeric;
pub mod trig;

use vstd::prelude::*;

verus! {

/// Full scale of an output channel: the largest actuation code.
pub const TOP: u16 = 255;

/// Left edge of the screen, in whole logical units.
pub const X_MIN: i8 = -4;

/// Right edge of the screen, in whole logical units.
pub const X_MAX: i8 = 4;

/// Lower edge of the screen, in whole logical units.
pub const Y_MIN: i8 = -3;

/// Upper edge of the screen, in whole logical units.
pub const Y_MAX: i8 = 3;

} // verus!
