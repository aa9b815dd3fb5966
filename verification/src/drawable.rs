//! What can be drawn on a display.

use vstd::prelude::*;
use crate::display::{Display, DisplayView, Event};
use crate::mapper::Axis;

pub mod parametric;

verus! {

/// Something that a display can draw.
pub trait Drawable {
    /// The commands that drawing emits on a display with these channels, in
    /// order.
    spec fn trace(&self, x_axis: Axis, y_axis: Axis) -> Seq<Event>;

    /// Draws on `display`: appends `trace` to its commands and changes
    /// nothing else.
    fn draw(&self, display: &mut Display)
        ensures
            final(display)@ == (DisplayView {
                events: old(display)@.events + self.trace(old(display)@.x_axis, old(display)@.y_axis),
                ..old(display)@
            }),
    ;
}

} // verus!
