//! The display: two output channels, a list of the commands issued to them,
//! and a buffer of input samples.
//!
//! Nothing here touches hardware. Setting a position or waiting appends a
//! command to the list, in order; whoever owns the channels takes the list and
//! carries the commands out. Input samples are fed in from outside and read
//! back one per poll, oldest first.

use vstd::prelude::*;
use crate::drawable::Drawable;
use crate::mapper::{Axis, AxisView};
use crate::numeric::{Coordinate, Fraction, FRACTION_ONE};
use crate::{TOP, X_MAX, X_MIN, Y_MAX, Y_MIN};

verus! {

/// The largest count that the 12-bit input converter delivers.
pub const INPUT_MAX: u16 = 4095;

/// One command to the output channels.
#[derive(Clone, Copy, Debug, PartialEq, Eq, Structural)]
pub enum Event {
    /// Write these actuation codes to the two channels.
    Position { x: u16, y: u16 },
    /// Hold the outputs as they are for this many microseconds.
    Dwell { us: u32 },
}

/// The command that moves the beam to `(x, y)` on the given axes.
pub open spec fn position_event(x_axis: Axis, y_axis: Axis, x: Coordinate, y: Coordinate) -> Event {
    Event::Position { x: x_axis.code_of(x) as u16, y: y_axis.code_of(y) as u16 }
}

/// The input count `raw` as a fraction of the full input scale, in units of
/// 1/4096: the count itself, and the largest value below 1 for a count that
/// the converter cannot deliver.
pub open spec fn normalized(raw: u16) -> int {
    if raw > INPUT_MAX {
        INPUT_MAX as int
    } else {
        raw as int
    }
}

/// A count that the converter delivers is kept as it is, so a greater count
/// reads as a greater fraction; and every count reads as less than 1.
pub proof fn lemma_normalized(raw: u16, other: u16)
    ensures
        raw <= INPUT_MAX ==> normalized(raw) == raw,
        raw < other <= INPUT_MAX ==> normalized(raw) < normalized(other),
        raw <= other ==> normalized(raw) <= normalized(other),
        0 <= normalized(raw) < FRACTION_ONE,
{
}

/// What a display holds.
pub struct DisplayView {
    /// The horizontal channel.
    pub x_axis: Axis,
    /// The vertical channel.
    pub y_axis: Axis,
    /// The commands issued and not yet taken, oldest first.
    pub events: Seq<Event>,
    /// The input samples fed in and not yet read, oldest first.
    pub pending: Seq<u16>,
}

/// A two-axis display.
pub struct Display {
    x_axis: Axis,
    y_axis: Axis,
    events: Vec<Event>,
    pending: Vec<u16>,
}

impl View for Display {
    type V = DisplayView;

    closed spec fn view(&self) -> DisplayView {
        DisplayView {
            x_axis: self.x_axis,
            y_axis: self.y_axis,
            events: self.events@,
            pending: self.pending@,
        }
    }
}

impl Default for Display {
    /// The display of the standard screen: 8 units wide and 6 units high
    /// round the origin, both channels with the standard full scale.
    fn default() -> (r: Display)
        ensures
            r@.events == Seq::<Event>::empty(),
            r@.pending == Seq::<u16>::empty(),
            r@.x_axis@ == (AxisView { min: X_MIN * 256, max: X_MAX * 256, full_scale: TOP as int }),
            r@.y_axis@ == (AxisView { min: Y_MIN * 256, max: Y_MAX * 256, full_scale: TOP as int }),
            r@.x_axis.wf(),
            r@.y_axis.wf(),
    {
        let x_axis = Axis::from_units(X_MIN, X_MAX, TOP).unwrap();
        let y_axis = Axis::from_units(Y_MIN, Y_MAX, TOP).unwrap();
        Display::new(x_axis, y_axis)
    }
}

impl Display {
    /// A display with the given channels, no command issued and no sample
    /// buffered.
    pub fn new(x_axis: Axis, y_axis: Axis) -> (r: Display)
        ensures
            r@ == (DisplayView {
                x_axis,
                y_axis,
                events: Seq::<Event>::empty(),
                pending: Seq::<u16>::empty(),
            }),
    {
        Display { x_axis, y_axis, events: Vec::new(), pending: Vec::new() }
    }

    /// Moves the beam to `(x, y)`: appends the command that writes the codes
    /// of `x` and `y` to the channels.
    pub fn set_position(&mut self, x: Coordinate, y: Coordinate)
        ensures
            final(self)@ == (DisplayView {
                events: old(self)@.events.push(
                    position_event(old(self)@.x_axis, old(self)@.y_axis, x, y),
                ),
                ..old(self)@
            }),
    {
        let event = Event::Position { x: self.x_axis.code(x), y: self.y_axis.code(y) };
        self.events.push(event);
    }

    /// Holds the outputs for `us` microseconds: appends that command. Zero
    /// is a valid duration.
    pub fn wait_us(&mut self, us: u32)
        ensures
            final(self)@ == (DisplayView {
                events: old(self)@.events.push(Event::Dwell { us }),
                ..old(self)@
            }),
    {
        self.events.push(Event::Dwell { us });
    }

    /// Draws `img`: appends everything that `img` emits on these channels.
    pub fn draw<D: Drawable>(&mut self, img: &D)
        ensures
            final(self)@ == (DisplayView {
                events: old(self)@.events + img.trace(old(self)@.x_axis, old(self)@.y_axis),
                ..old(self)@
            }),
    {
        img.draw(self);
    }

    /// Buffers one input sample, the raw count `raw`.
    pub fn feed(&mut self, raw: u16)
        ensures
            final(self)@ == (DisplayView { pending: old(self)@.pending.push(raw), ..old(self)@ }),
    {
        self.pending.push(raw);
    }

    /// Reads the input without waiting: the oldest buffered sample as a
    /// fraction of the full scale, with all of its 12 bits, or `None` where
    /// nothing is buffered. At most one sample leaves the buffer.
    pub fn read_knob(&mut self) -> (r: Option<Fraction>)
        ensures
            old(self)@.pending.len() == 0 ==> r is None && final(self)@ == old(self)@,
            old(self)@.pending.len() > 0 ==> r is Some && r->Some_0.wf() && r->Some_0@
                == normalized(old(self)@.pending[0]) && final(self)@ == (DisplayView {
                pending: old(self)@.pending.drop_first(),
                ..old(self)@
            }),
    {
        if self.pending.len() > 0 {
            let raw: u16 = self.pending.remove(0);
            assert(self.pending@ =~= old(self).pending@.drop_first());
            Some(Fraction::saturating_from_count(raw))
        } else {
            None
        }
    }

    /// The commands issued and not yet taken, oldest first.
    pub fn events(&self) -> (r: &Vec<Event>)
        ensures
            r@ == self@.events,
    {
        &self.events
    }

    /// Hands out the commands issued so far, oldest first, and empties the
    /// list.
    pub fn take_events(&mut self) -> (r: Vec<Event>)
        ensures
            r@ == old(self)@.events,
            final(self)@ == (DisplayView { events: Seq::<Event>::empty(), ..old(self)@ }),
    {
        let mut taken: Vec<Event> = Vec::new();
        std::mem::swap(&mut self.events, &mut taken);
        taken
    }

    /// The horizontal channel.
    pub fn x_axis(&self) -> (r: Axis)
        ensures
            r == self@.x_axis,
            r.wf(),
    {
        proof {
            use_type_invariant(&self.x_axis);
        }
        self.x_axis
    }

    /// The vertical channel.
    pub fn y_axis(&self) -> (r: Axis)
        ensures
            r == self@.y_axis,
            r.wf(),
    {
        proof {
            use_type_invariant(&self.y_axis);
        }
        self.y_axis
    }
}

} // verus!
