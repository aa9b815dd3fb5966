//! Sweeps of a curve.
//!
//! A sweep visits the start parameter, then every further parameter that a
//! whole number of steps leads to without passing the end parameter. The side
//! on which the end lies is judged by the sign of the step alone, so a sweep
//! whose end lies behind its start visits the start only. At each visited
//! parameter the beam is moved to the point of the curve and held: before the
//! first step for one dwell time, after each step for another, and at the end
//! for a third.

use vstd::prelude::*;
use crate::curve::Curve;
use crate::display::{position_event, Display, DisplayView, Event};
use crate::drawable::Drawable;
use crate::error::ConfigError;
use crate::mapper::Axis;
use crate::numeric::{magnitude, Coordinate, Parameter, ONE, TAU};

verus! {

/// How many steps a sweep from `t_0` towards `t_1` takes, all in units of
/// 1/256: the largest `k` for which `t_0 + k * t_step` has not passed `t_1`.
pub open spec fn step_count(t_0: int, t_step: int, t_1: int) -> int {
    if t_step > 0 && t_1 >= t_0 {
        (t_1 - t_0) / t_step
    } else if t_step < 0 && t_1 <= t_0 {
        (t_0 - t_1) / (-t_step)
    } else {
        0
    }
}

/// Whether a sweep by `t_step` that has reached `t` has passed `t_1`.
pub open spec fn passed(t: int, t_step: int, t_1: int) -> bool {
    if t_step > 0 {
        t > t_1
    } else {
        t < t_1
    }
}

/// What a sweep is made of.
pub struct ParametricView {
    /// The parameter at which the sweep starts.
    pub t_0: Parameter,
    /// The step from one visited parameter to the next; never zero.
    pub t_step: Parameter,
    /// The parameter that the sweep does not pass.
    pub t_1: Parameter,
    /// The dwell time at the start, in microseconds.
    pub before_us: u32,
    /// The dwell time after each step, in microseconds.
    pub us: u32,
    /// The dwell time at the end, in microseconds.
    pub after_us: u32,
    /// The curve that is swept.
    pub function: Curve,
}

impl ParametricView {
    /// The number of steps taken beyond the start.
    pub open spec fn steps(self) -> int {
        step_count(self.t_0@, self.t_step@, self.t_1@)
    }

    /// The number of parameters visited, the start included.
    pub open spec fn visited(self) -> int {
        self.steps() + 1
    }

    /// The parameter visited after `k` steps.
    pub open spec fn parameter(self, k: int) -> Parameter {
        Parameter { bits: (self.t_0@ + k * self.t_step@) as i32 }
    }

    /// The command that moves the beam to the point visited after `k` steps.
    pub open spec fn position(self, k: int, x_axis: Axis, y_axis: Axis) -> Event {
        let point = self.function.point_at(self.parameter(k));
        position_event(x_axis, y_axis, point.0, point.1)
    }

    /// The commands of the first `n` steps: for each a move and a dwell.
    pub open spec fn stepping(self, n: int, x_axis: Axis, y_axis: Axis) -> Seq<Event> {
        Seq::new(
            (2 * n) as nat,
            |i: int|
                if i % 2 == 0 {
                    self.position(i / 2 + 1, x_axis, y_axis)
                } else {
                    Event::Dwell { us: self.us }
                },
        )
    }

    /// The commands of the start: a move and a dwell.
    pub open spec fn opening(self, x_axis: Axis, y_axis: Axis) -> Seq<Event> {
        seq![self.position(0, x_axis, y_axis), Event::Dwell { us: self.before_us }]
    }

    /// All the commands of the sweep, in order.
    pub open spec fn trace(self, x_axis: Axis, y_axis: Axis) -> Seq<Event> {
        self.opening(x_axis, y_axis) + self.stepping(self.steps(), x_axis, y_axis)
            + seq![Event::Dwell { us: self.after_us }]
    }
}

/// A request to draw: a curve and how to sweep it.
#[derive(Clone, Copy, Debug)]
pub struct Parametric {
    t_0: Parameter,
    t_step: Parameter,
    t_1: Parameter,
    before_us: u32,
    us: u32,
    after_us: u32,
    function: Curve,
}

impl View for Parametric {
    type V = ParametricView;

    closed spec fn view(&self) -> ParametricView {
        ParametricView {
            t_0: self.t_0,
            t_step: self.t_step,
            t_1: self.t_1,
            before_us: self.before_us,
            us: self.us,
            after_us: self.after_us,
            function: self.function,
        }
    }
}

impl Parametric {
    /// Whether the step is not zero. This holds of every sweep that exists
    /// at run time.
    #[verifier::type_invariant]
    pub open spec fn wf(self) -> bool {
        self@.t_step@ != 0
    }

    /// The sweep of `function` from `t_0` towards `t_1` by `t_step`;
    /// rejected where the step is zero.
    pub fn path(
        t_0: Parameter,
        t_step: Parameter,
        t_1: Parameter,
        before_us: u32,
        us: u32,
        after_us: u32,
        function: Curve,
    ) -> (r: Result<Parametric, ConfigError>)
        ensures
            t_step@ != 0 ==> r is Ok && r->Ok_0.wf() && r->Ok_0@ == (ParametricView {
                t_0,
                t_step,
                t_1,
                before_us,
                us,
                after_us,
                function,
            }),
            t_step@ == 0 ==> r == Err::<Parametric, ConfigError>(ConfigError::ZeroStep),
    {
        if t_step.is_zero() {
            Err(ConfigError::ZeroStep)
        } else {
            Ok(Parametric { t_0, t_step, t_1, before_us, us, after_us, function })
        }
    }

    /// The sweep of the arc round `o` with radius `r`, from the angle `t_0`
    /// towards the angle `t_1`; rejected where the step is zero.
    pub fn arc(
        o: (Coordinate, Coordinate),
        r: Coordinate,
        t_0: Parameter,
        t_step: Parameter,
        t_1: Parameter,
        before_us: u32,
        us: u32,
        after_us: u32,
    ) -> (res: Result<Parametric, ConfigError>)
        ensures
            t_step@ != 0 ==> res is Ok && res->Ok_0.wf() && res->Ok_0@ == (ParametricView {
                t_0,
                t_step,
                t_1,
                before_us,
                us,
                after_us,
                function: Curve::Arc { center: o, radius: r, t_0, t_1 },
            }),
            t_step@ == 0 ==> res == Err::<Parametric, ConfigError>(ConfigError::ZeroStep),
    {
        Parametric::path(
            t_0,
            t_step,
            t_1,
            before_us,
            us,
            after_us,
            Curve::Arc { center: o, radius: r, t_0, t_1 },
        )
    }

    /// The sweep of the circle round `o` with radius `r`, from angle 0
    /// towards a full turn; rejected where the step is zero.
    pub fn circle(
        o: (Coordinate, Coordinate),
        r: Coordinate,
        t_step: Parameter,
        before_us: u32,
        us: u32,
        after_us: u32,
    ) -> (res: Result<Parametric, ConfigError>)
        ensures
            t_step@ != 0 ==> res is Ok && res->Ok_0.wf() && res->Ok_0@ == (ParametricView {
                t_0: Parameter { bits: 0 },
                t_step,
                t_1: Parameter { bits: TAU },
                before_us,
                us,
                after_us,
                function: Curve::Circle { center: o, radius: r },
            }),
            t_step@ == 0 ==> res == Err::<Parametric, ConfigError>(ConfigError::ZeroStep),
    {
        Parametric::path(
            Parameter::from_bits(0),
            t_step,
            Parameter::from_bits(TAU),
            before_us,
            us,
            after_us,
            Curve::Circle { center: o, radius: r },
        )
    }

    /// The sweep of the segment from `a` to `b`, from parameter 0 towards
    /// parameter 1; rejected where the step is zero.
    pub fn segment(
        a: (Coordinate, Coordinate),
        b: (Coordinate, Coordinate),
        t_step: Parameter,
        before_us: u32,
        us: u32,
        after_us: u32,
    ) -> (res: Result<Parametric, ConfigError>)
        ensures
            t_step@ != 0 ==> res is Ok && res->Ok_0.wf() && res->Ok_0@ == (ParametricView {
                t_0: Parameter { bits: 0 },
                t_step,
                t_1: Parameter { bits: ONE },
                before_us,
                us,
                after_us,
                function: Curve::Segment { a, b },
            }),
            t_step@ == 0 ==> res == Err::<Parametric, ConfigError>(ConfigError::ZeroStep),
    {
        Parametric::path(
            Parameter::from_bits(0),
            t_step,
            Parameter::from_bits(ONE),
            before_us,
            us,
            after_us,
            Curve::Segment { a, b },
        )
    }

    /// The beam held at `p` for `us` microseconds: a sweep that visits its
    /// start only.
    pub fn point(p: (Coordinate, Coordinate), us: u32) -> (res: Parametric)
        ensures
            res.wf(),
            res@ == (ParametricView {
                t_0: Parameter { bits: 0 },
                t_step: Parameter { bits: ONE },
                t_1: Parameter { bits: 0 },
                before_us: us,
                us: 0,
                after_us: 0,
                function: Curve::Point { p },
            }),
    {
        Parametric {
            t_0: Parameter::from_bits(0),
            t_step: Parameter::from_bits(ONE),
            t_1: Parameter::from_bits(0),
            before_us: us,
            us: 0,
            after_us: 0,
            function: Curve::Point { p },
        }
    }

    /// The number of parameters that the sweep visits, the start included.
    pub fn visited(&self) -> (n: u64)
        ensures
            n == self@.visited(),
            1 <= n <= 0x1_0000_0000,
    {
        proof {
            use_type_invariant(self);
        }
        let start: i64 = self.t_0.bits as i64;
        let step: i64 = self.t_step.bits as i64;
        let end: i64 = self.t_1.bits as i64;
        if step > 0 && end >= start {
            proof {
                lemma_quotient_bounds((end - start) as int, step as int);
            }
            ((end - start) / step) as u64 + 1
        } else if step < 0 && end <= start {
            proof {
                lemma_quotient_bounds((start - end) as int, -step as int);
            }
            ((start - end) / (-step)) as u64 + 1
        } else {
            1
        }
    }

    /// The command at place `index` of what the sweep emits on these axes,
    /// counted from 0, or `None` past the last one. It is found without
    /// drawing the commands before it, so a sweep can be carried out one
    /// command at a time.
    pub fn command(&self, index: u64, x_axis: &Axis, y_axis: &Axis) -> (r: Option<Event>)
        ensures
            index < self@.trace(*x_axis, *y_axis).len() ==> r == Some(
                self@.trace(*x_axis, *y_axis)[index as int],
            ),
            index >= self@.trace(*x_axis, *y_axis).len() ==> r is None,
    {
        proof {
            use_type_invariant(self);
            lemma_trace_shape(*self, *x_axis, *y_axis, 0);
        }
        let visited: u64 = self.visited();
        if index > 2 * visited {
            return None;
        }
        if index == 2 * visited {
            return Some(Event::Dwell { us: self.after_us });
        }
        let k: u64 = index / 2;
        proof {
            lemma_trace_shape(*self, *x_axis, *y_axis, k as int);
        }
        if index % 2 == 1 {
            let us: u32 = if k == 0 {
                self.before_us
            } else {
                self.us
            };
            Some(Event::Dwell { us })
        } else {
            assert(-0x8000_0000_0000_0000 < (k as int) * (self.t_step.bits as int)
                < 0x8000_0000_0000_0000) by (nonlinear_arith)
                requires
                    0 <= k as int <= 0xffff_ffff,
                    -0x8000_0000 <= self.t_step.bits as int <= 0x7fff_ffff,
            ;
            let t: i64 = (self.t_0.bits as i64) + (k as i64) * (self.t_step.bits as i64);
            let (x, y) = self.function.evaluate(Parameter::from_bits(t as i32));
            Some(Event::Position { x: x_axis.code(x), y: y_axis.code(y) })
        }
    }

    /// The curve that is swept.
    pub fn function(&self) -> (r: Curve)
        ensures
            r == self@.function,
    {
        self.function
    }

    /// The parameters at which the sweep starts, by which it steps, and
    /// which it does not pass.
    pub fn range(&self) -> (r: (Parameter, Parameter, Parameter))
        ensures
            r == (self@.t_0, self@.t_step, self@.t_1),
            self.wf(),
    {
        proof {
            use_type_invariant(self);
        }
        (self.t_0, self.t_step, self.t_1)
    }

    /// The dwell times at the start, after each step and at the end, in
    /// microseconds.
    pub fn dwell_times(&self) -> (r: (u32, u32, u32))
        ensures
            r == (self@.before_us, self@.us, self@.after_us),
    {
        (self.before_us, self.us, self.after_us)
    }
}

impl Drawable for Parametric {
    open spec fn trace(&self, x_axis: Axis, y_axis: Axis) -> Seq<Event> {
        self@.trace(x_axis, y_axis)
    }

    fn draw(&self, display: &mut Display) {
        proof {
            use_type_invariant(self);
        }
        let ghost before = display@;
        let ghost x_axis = before.x_axis;
        let ghost y_axis = before.y_axis;
        let ghost steps = self@.steps();
        let (x, y) = self.function.evaluate(self.t_0);
        display.set_position(x, y);
        display.wait_us(self.before_us);
        let ghost opened = before.events + self@.opening(x_axis, y_axis);
        assert(display@.events =~= opened);
        assert(self@.stepping(0, x_axis, y_axis) =~= Seq::<Event>::empty());
        let mut t: Parameter = self.t_0;
        let ghost mut k: int = 0;
        loop
            invariant
                self@.t_step@ != 0,
                steps == self@.steps(),
                0 <= k <= steps,
                t@ == self@.t_0@ + k * self@.t_step@,
                display@ == (DisplayView {
                    events: opened + self@.stepping(k, x_axis, y_axis),
                    ..before
                }),
                x_axis == before.x_axis,
                y_axis == before.y_axis,
            ensures
                k == steps,
            decreases steps - k,
        {
            proof {
                lemma_step_count(self@.t_0@, self@.t_step@, self@.t_1@, k + 1);
                assert((k + 1) * self@.t_step@ == k * self@.t_step@ + self@.t_step@)
                    by (nonlinear_arith);
            }
            let sum: Option<Parameter> = t.checked_add(self.t_step);
            if sum.is_none() {
                break;
            }
            let next: Parameter = sum.unwrap();
            let beyond: bool = if self.t_step.is_positive() {
                self.t_1.lt(next)
            } else {
                next.lt(self.t_1)
            };
            if beyond {
                break;
            }
            let (x, y) = self.function.evaluate(next);
            display.set_position(x, y);
            display.wait_us(self.us);
            proof {
                assert(next == self@.parameter(k + 1));
                assert(display@.events =~= opened + self@.stepping(k + 1, x_axis, y_axis));
                k = k + 1;
            }
            t = next;
        }
        display.wait_us(self.after_us);
        assert(display@.events =~= before.events + self@.trace(x_axis, y_axis));
    }
}

/// After `k` steps, with `k` at least 1, a sweep has not passed its end
/// exactly when `k` is at most its number of steps.
pub proof fn lemma_step_count(t_0: int, t_step: int, t_1: int, k: int)
    requires
        t_step != 0,
        k >= 1,
    ensures
        k <= step_count(t_0, t_step, t_1) <==> !passed(t_0 + k * t_step, t_step, t_1),
{
    if t_step > 0 {
        if t_1 >= t_0 {
            assert(k <= (t_1 - t_0) / t_step <==> k * t_step <= t_1 - t_0) by (nonlinear_arith)
                requires
                    t_step > 0,
                    t_1 - t_0 >= 0,
            ;
        } else {
            assert(k * t_step > 0) by (nonlinear_arith)
                requires
                    t_step > 0,
                    k >= 1,
            ;
        }
    } else {
        if t_1 <= t_0 {
            assert(k <= (t_0 - t_1) / (-t_step) <==> k * t_step >= t_1 - t_0) by (nonlinear_arith)
                requires
                    t_step < 0,
                    t_0 - t_1 >= 0,
            ;
        } else {
            assert(k * t_step < 0) by (nonlinear_arith)
                requires
                    t_step < 0,
                    k >= 1,
            ;
        }
    }
}

/// A quotient of a distance by a positive step is neither negative nor above
/// the distance.
pub proof fn lemma_quotient_bounds(distance: int, step: int)
    requires
        distance >= 0,
        step > 0,
    ensures
        0 <= distance / step <= distance,
{
    assert(0 <= distance / step <= distance) by (nonlinear_arith)
        requires
            distance >= 0,
            step > 0,
    ;
}

/// The quotient of `distance` by `step`, rounded up.
pub open spec fn quotient_up(distance: int, step: int) -> int {
    (distance + step - 1) / step
}

/// Every sweep ends, and the number of parameters it visits is that of the
/// whole steps that fit between start and end, plus one for the start. That
/// is the rounded-up quotient of the distance by the step, plus one, or one
/// less than that. It holds where the step leads towards the end, and also
/// where it leads away from an end that is at most one step off.
pub proof fn lemma_visited_count(t_0: Parameter, t_step: Parameter, t_1: Parameter)
    requires
        t_step@ != 0,
        (t_step@ > 0 && t_1@ >= t_0@) || (t_step@ < 0 && t_1@ <= t_0@) || magnitude(t_1@ - t_0@)
            <= magnitude(t_step@),
    ensures
        (t_step@ > 0 && t_1@ >= t_0@) || (t_step@ < 0 && t_1@ <= t_0@) ==> step_count(
            t_0@,
            t_step@,
            t_1@,
        ) + 1 == magnitude(t_1@ - t_0@) / magnitude(t_step@) + 1,
        quotient_up(magnitude(t_1@ - t_0@), magnitude(t_step@)) <= step_count(t_0@, t_step@, t_1@)
            + 1 <= quotient_up(magnitude(t_1@ - t_0@), magnitude(t_step@)) + 1,
        1 <= step_count(t_0@, t_step@, t_1@) + 1 <= 0x1_0000_0000,
{
    let distance = magnitude(t_1@ - t_0@);
    let step = magnitude(t_step@);
    lemma_quotient_bounds(distance, step);
    assert(distance / step <= (distance + step - 1) / step <= distance / step + 1)
        by (nonlinear_arith)
        requires
            distance >= 0,
            step > 0,
    ;
    if !((t_step@ > 0 && t_1@ >= t_0@) || (t_step@ < 0 && t_1@ <= t_0@)) {
        assert((distance + step - 1) / step <= 1) by (nonlinear_arith)
            requires
                0 <= distance <= step,
                step > 0,
        ;
        assert((distance + step - 1) / step >= 0) by (nonlinear_arith)
            requires
                0 <= distance,
                step > 0,
        ;
    }
}

/// A sweep emits one move for each parameter it visits, each followed by a
/// dwell, and one more dwell at the end.
pub proof fn lemma_trace_shape(sweep: Parametric, x_axis: Axis, y_axis: Axis, k: int)
    requires
        sweep.wf(),
        0 <= k < sweep@.visited(),
    ensures
        sweep@.steps() >= 0,
        sweep@.trace(x_axis, y_axis).len() == 2 * sweep@.visited() + 1,
        sweep@.trace(x_axis, y_axis)[2 * k] == sweep@.position(k, x_axis, y_axis),
        sweep@.trace(x_axis, y_axis)[2 * k + 1] == (Event::Dwell {
            us: if k == 0 {
                sweep@.before_us
            } else {
                sweep@.us
            },
        }),
        sweep@.trace(x_axis, y_axis)[2 * sweep@.visited()] == (Event::Dwell {
            us: sweep@.after_us,
        }),
        i32::MIN <= sweep@.t_0@ + k * sweep@.t_step@ <= i32::MAX,
        !passed(sweep@.t_0@ + k * sweep@.t_step@, sweep@.t_step@, sweep@.t_1@) || k == 0,
{
    let v = sweep@;
    if v.t_step@ > 0 && v.t_1@ >= v.t_0@ {
        lemma_quotient_bounds(v.t_1@ - v.t_0@, v.t_step@);
    } else if v.t_step@ < 0 && v.t_1@ <= v.t_0@ {
        lemma_quotient_bounds(v.t_0@ - v.t_1@, -v.t_step@);
    }
    if k >= 1 {
        lemma_step_count(v.t_0@, v.t_step@, v.t_1@, k);
        assert(v.t_step@ > 0 ==> k * v.t_step@ > 0) by (nonlinear_arith)
            requires
                k >= 1,
        ;
        assert(v.t_step@ < 0 ==> k * v.t_step@ < 0) by (nonlinear_arith)
            requires
                k >= 1,
        ;
        assert((2 * k - 2) % 2 == 0);
        assert((2 * k - 2) / 2 + 1 == k);
        assert((2 * k - 1) % 2 == 1);
    }
}

} // verus!
