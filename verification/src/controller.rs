//! The controller that a host loop calls once per sampling tick.
//!
//! [`State`] is what a controller holds, and the spec functions on it say what
//! each call does to it. [`PID`] keeps a `State` to itself and changes it only
//! through the calls below. [`Step`] is what one tick takes in; every call
//! that computes an output, however it measures time, computes one and the
//! same tick.
//!
//! Conventions. `kp` is stored as entered; `ki` is stored multiplied by the
//! sample period and `kd` divided by it, so that a tick needs no division.
//! The stored gains carry no sign of direction: a reverse-acting controller
//! negates them when it uses them.

use crate::numeric::{clamp, clamp_spec, clamp_within_bounds, is_unit, obeys_arithmetic, total_order};
use crate::numeric::{Constants, Scalar};
use crate::terms::{error, P, PD};
use num_traits::{Bounded, One, Zero};
use std::ops::Neg;
use vstd::prelude::*;
use vstd::std_specs::cmp::{PartialOrdIs, PartialOrdSpec};
use vstd::std_specs::ops::{AddSpec, DivSpec, MulSpec, NegSpec, SubSpec};

verus! {

/// What the proportional term reacts to.
#[derive(Clone, Copy, Debug, PartialEq, Eq)]
pub enum ProportionalMode {
    /// To the error of this tick: `kp · error` is part of the output.
    OnError,
    /// To the change of the measurement: `kp · (measurement - last_input)` is
    /// taken off the integrator, and a step of the setpoint causes no jump.
    OnMeasurement,
}

/// Whether a rising output raises the measurement or lowers it.
#[derive(Clone, Copy, Debug, PartialEq, Eq)]
pub enum ActingDirection {
    /// A rising output raises the measurement: the gains act as stored.
    Direct,
    /// A rising output lowers the measurement: the gains act negated.
    Reverse,
}

/// What a time-gated call returns.
#[derive(Clone, Copy, Debug, PartialEq)]
pub enum Evaluation<T> {
    /// The call was due: this is the new output.
    Output(T),
    /// The sample period has not passed: keep using the previous output.
    Pending,
}

/// What one tick takes in.
#[derive(Clone, Copy, Debug, PartialEq)]
pub struct Step<T> {
    /// Setpoint minus measurement.
    pub error: T,
    /// The error as the integrator takes it: weighted with the length of the
    /// step where the caller gives one.
    pub weighted_error: T,
    /// How far the measurement has moved over the step.
    pub change: T,
    /// How fast the measurement moves.
    pub rate: T,
    /// The measurement, to be remembered as the last input.
    pub measurement: T,
}

/// What a controller holds.
#[derive(Clone, Copy, Debug, PartialEq)]
pub struct State<T> {
    /// Proportional gain, as entered.
    pub kp: T,
    /// Integral gain, multiplied by the sample period.
    pub ki: T,
    /// Derivative gain, divided by the sample period.
    pub kd: T,
    /// The value the measurement is to reach.
    pub setpoint: T,
    /// The measurement of the previous tick.
    pub last_input: T,
    /// The integrator.
    pub integral: T,
    /// Lower bound of the integrator and of the output.
    pub min: T,
    /// Upper bound of the integrator and of the output.
    pub max: T,
    /// What the proportional term reacts to.
    pub mode: ProportionalMode,
    /// Sign convention of the gains.
    pub direction: ActingDirection,
    /// Time between two ticks, in the unit of the time stamps.
    pub sample_period: T,
    /// Whether calls are held back until the sample period has passed.
    pub gated: bool,
    /// Time of the last tick that was computed on a clock.
    pub last_time: Option<T>,
    /// The zero of `T`: what gains are held against when tuning, and what the
    /// proportional term is reacting to the measurement.
    pub zero: T,
}

impl<T: Scalar> State<T> {
    /// The state of a new controller with the given stored gains: nothing
    /// integrated, setpoint and last input at zero, bounds as wide as the
    /// type's, reacting to the error, direct-acting, sample period one, not
    /// gated, never evaluated.
    pub open spec fn initial(c: Constants<T>, kp: T, ki: T, kd: T) -> State<T> {
        State {
            kp,
            ki,
            kd,
            setpoint: c.zero,
            last_input: c.zero,
            integral: c.zero,
            min: c.lowest,
            max: c.highest,
            mode: ProportionalMode::OnError,
            direction: ActingDirection::Direct,
            sample_period: c.one,
            gated: false,
            last_time: None,
            zero: c.zero,
        }
    }

    /// The bounds are in order: `min` is at most `max`.
    pub open spec fn bounds_ordered(self) -> bool {
        self.min.is_le(&self.max)
    }

    /// `x` lies within the bounds, both ends included.
    pub open spec fn within_bounds(self, x: T) -> bool {
        self.min.is_le(&x) && x.is_le(&self.max)
    }

    /// The stored gain `k` as it acts: negated in a reverse-acting controller.
    pub open spec fn acting(self, k: T) -> T {
        match self.direction {
            ActingDirection::Direct => k,
            ActingDirection::Reverse => k.neg_spec(),
        }
    }

    /// The step of a tick that takes its time from the sample period: the
    /// error as it is, and the change of the measurement since the last tick
    /// for both its change and its rate.
    pub open spec fn nominal(self, setpoint: T, measurement: T) -> Step<T> {
        Step {
            error: setpoint.sub_spec(measurement),
            weighted_error: setpoint.sub_spec(measurement),
            change: measurement.sub_spec(self.last_input),
            rate: measurement.sub_spec(self.last_input),
            measurement,
        }
    }

    /// The two differences of [`State::nominal`] are permitted.
    pub open spec fn nominal_defined(self, setpoint: T, measurement: T) -> bool {
        setpoint.sub_req(measurement) && measurement.sub_req(self.last_input)
    }

    /// The step of a tick whose caller gives the length `dt` of the step and
    /// the rate `actual_dot` of the measurement: the integrator takes
    /// `(target - actual) · dt`, and the measurement has moved by
    /// `actual_dot · dt`.
    pub open spec fn timed(target: T, actual: T, actual_dot: T, dt: T) -> Step<T> {
        Step {
            error: target.sub_spec(actual),
            weighted_error: target.sub_spec(actual).mul_spec(dt),
            change: actual_dot.mul_spec(dt),
            rate: actual_dot,
            measurement: actual,
        }
    }

    /// The difference and the two products of [`State::timed`] are permitted.
    pub open spec fn timed_defined(target: T, actual: T, actual_dot: T, dt: T) -> bool {
        &&& target.sub_req(actual)
        &&& target.sub_spec(actual).mul_req(dt)
        &&& actual_dot.mul_req(dt)
    }

    /// The integrator with this tick's error added, before it is clamped:
    /// `integral + ki · weighted_error`.
    pub open spec fn fed(self, step: Step<T>) -> T {
        self.integral.add_spec(self.acting(self.ki).mul_spec(step.weighted_error))
    }

    /// The integrator after this tick's error has been added and the sum
    /// clamped: `clamp(integral + ki · weighted_error)`.
    pub open spec fn integrated(self, step: Step<T>) -> T {
        clamp_spec(self.fed(step), self.min, self.max)
    }

    /// The integrator as the tick leaves it. Reacting to the measurement,
    /// `kp · change` is taken off the clamped sum, and the result is not
    /// clamped again.
    pub open spec fn accumulator(self, step: Step<T>) -> T {
        match self.mode {
            ProportionalMode::OnError => self.integrated(step),
            ProportionalMode::OnMeasurement => self.integrated(step).sub_spec(
                self.acting(self.kp).mul_spec(step.change),
            ),
        }
    }

    /// The proportional term: `kp · error` reacting to the error, zero
    /// reacting to the measurement.
    pub open spec fn proportional_term(self, step: Step<T>) -> T {
        match self.mode {
            ProportionalMode::OnError => self.acting(self.kp).mul_spec(step.error),
            ProportionalMode::OnMeasurement => self.zero,
        }
    }

    /// The derivative term, taken from the measurement and never from the
    /// error: `(-kd) · rate`.
    pub open spec fn derivative_term(self, step: Step<T>) -> T {
        self.acting(self.kd).neg_spec().mul_spec(step.rate)
    }

    /// The sum of the three terms, before it is clamped: `p + integrator + d`.
    pub open spec fn sum(self, step: Step<T>) -> T {
        self.proportional_term(step).add_spec(self.accumulator(step)).add_spec(
            self.derivative_term(step),
        )
    }

    /// The output of a tick: `clamp(p + integrator + d)`.
    pub open spec fn output(self, step: Step<T>) -> T {
        clamp_spec(self.sum(step), self.min, self.max)
    }

    /// The state after a tick: the integrator moved on, the measurement
    /// remembered, all else as before.
    pub open spec fn stepped(self, step: Step<T>) -> State<T> {
        State { integral: self.accumulator(step), last_input: step.measurement, ..self }
    }

    /// Every operation of a tick is permitted on these values.
    pub open spec fn step_defined(self, step: Step<T>) -> bool {
        let kp = self.acting(self.kp);
        let ki = self.acting(self.ki);
        let kd = self.acting(self.kd);
        let p = self.proportional_term(step);
        let acc = self.accumulator(step);
        &&& self.direction is Reverse ==> self.kp.neg_req() && self.ki.neg_req()
            && self.kd.neg_req()
        &&& ki.mul_req(step.weighted_error)
        &&& self.integral.add_req(ki.mul_spec(step.weighted_error))
        &&& match self.mode {
            ProportionalMode::OnError => kp.mul_req(step.error),
            ProportionalMode::OnMeasurement => {
                &&& kp.mul_req(step.change)
                &&& self.integrated(step).sub_req(kp.mul_spec(step.change))
            },
        }
        &&& kd.neg_req()
        &&& kd.neg_spec().mul_req(step.rate)
        &&& p.add_req(acc)
        &&& p.add_spec(acc).add_req(self.derivative_term(step))
    }

    /// Whether a call at the time `now` is due. Not gated, every call is.
    /// Gated, the first call is, and afterwards one whose time is not before
    /// the last one and no less than the sample period after it.
    pub open spec fn due(self, now: T) -> bool {
        !self.gated || match self.last_time {
            None => true,
            Some(last) => !now.is_lt(&last) && !now.sub_spec(last).is_lt(&self.sample_period),
        }
    }

    /// The elapsed time can be taken: `now - last` is permitted unless `now`
    /// lies before `last`, where it is not needed.
    pub open spec fn due_defined(self, now: T) -> bool {
        self.gated ==> match self.last_time {
            None => true,
            Some(last) => !now.is_lt(&last) ==> now.sub_req(last),
        }
    }

    /// The state after a call at the time `now`: where the call is due, a
    /// tick towards the stored setpoint with the time remembered; where it is
    /// not, the state as it was.
    pub open spec fn ticked(self, measurement: T, now: T) -> State<T> {
        if self.due(now) {
            State {
                last_time: Some(now),
                ..self.stepped(self.nominal(self.setpoint, measurement))
            }
        } else {
            self
        }
    }

    /// What a call at the time `now` returns: the output of the tick where
    /// the call is due, `Pending` where it is not.
    pub open spec fn answer(self, measurement: T, now: T) -> Evaluation<T> {
        if self.due(now) {
            Evaluation::Output(self.output(self.nominal(self.setpoint, measurement)))
        } else {
            Evaluation::Pending
        }
    }

    /// Whether a call that comes `dt` after the last computed tick is due.
    /// Not gated, every call is. Gated, the first call is, and afterwards one
    /// with `dt` no less than the sample period.
    pub open spec fn due_after(self, dt: T) -> bool {
        !self.gated || self.last_time is None || !dt.is_lt(&self.sample_period)
    }

    /// The time of the last computed tick after one that came `dt` after the
    /// one before. The clock runs only while the controller is gated, and
    /// starts at the first tick.
    pub open spec fn clock_after(self, dt: T) -> Option<T> {
        if self.gated {
            match self.last_time {
                None => Some(dt),
                Some(last) => Some(last.add_spec(dt)),
            }
        } else {
            self.last_time
        }
    }

    /// The clock can be moved on by `dt`.
    pub open spec fn clock_defined(self, dt: T) -> bool {
        self.gated ==> match self.last_time {
            None => true,
            Some(last) => last.add_req(dt),
        }
    }

    /// The state after a call that gives its own step: where the call is
    /// due, the tick and the clock moved on; where it is not, the state as it
    /// was.
    pub open spec fn controlled(self, target: T, actual: T, actual_dot: T, dt: T) -> State<T> {
        if self.due_after(dt) {
            State {
                last_time: self.clock_after(dt),
                ..self.stepped(Self::timed(target, actual, actual_dot, dt))
            }
        } else {
            self
        }
    }

    /// What a call that gives its own step returns: the output of the tick
    /// where the call is due, `Pending` where it is not.
    pub open spec fn response(self, target: T, actual: T, actual_dot: T, dt: T) -> Evaluation<T> {
        if self.due_after(dt) {
            Evaluation::Output(self.output(Self::timed(target, actual, actual_dot, dt)))
        } else {
            Evaluation::Pending
        }
    }

    /// Whether a tuning request is accepted: no gain is below zero, and the
    /// sample period is above zero.
    pub open spec fn accepts_tuning(self, kp: T, ki: T, kd: T, sample_period: T) -> bool {
        &&& !kp.is_lt(&self.zero)
        &&& !ki.is_lt(&self.zero)
        &&& !kd.is_lt(&self.zero)
        &&& sample_period.is_gt(&self.zero)
    }

    /// The state after a tuning request. Accepted, it stores `kp`,
    /// `ki · sample_period`, `kd / sample_period`, the mode and the period;
    /// rejected, it changes nothing.
    pub open spec fn tuned(
        self,
        kp: T,
        ki: T,
        kd: T,
        mode: ProportionalMode,
        sample_period: T,
    ) -> State<T> {
        if self.accepts_tuning(kp, ki, kd, sample_period) {
            State {
                kp,
                ki: ki.mul_spec(sample_period),
                kd: kd.div_spec(sample_period),
                mode,
                sample_period,
                ..self
            }
        } else {
            self
        }
    }

    /// The state after a request for new bounds. With `min` at most `max` the
    /// bounds are stored and the integrator is clamped into them; otherwise
    /// nothing changes.
    pub open spec fn bounded(self, min: T, max: T) -> State<T> {
        if min.is_le(&max) {
            State { min, max, integral: clamp_spec(self.integral, min, max), ..self }
        } else {
            self
        }
    }

    /// The state with the acting direction turned round.
    pub open spec fn reversed(self) -> State<T> {
        State {
            direction: match self.direction {
                ActingDirection::Direct => ActingDirection::Reverse,
                ActingDirection::Reverse => ActingDirection::Direct,
            },
            ..self
        }
    }

    /// With ordered bounds and a total order, the output of a tick lies
    /// within the bounds, both ends included, whatever the gains and inputs.
    pub proof fn output_within_bounds(self, step: Step<T>)
        requires
            total_order::<T>(),
            self.bounds_ordered(),
        ensures
            self.within_bounds(self.output(step)),
    {
        clamp_within_bounds(self.sum(step), self.min, self.max);
    }
}

/// Proportional-integral-derivative controller, with a clamped integrator and
/// a clamped output.
#[derive(Clone, Debug)]
pub struct PID<T> {
    state: State<T>,
}

impl<T> View for PID<T> {
    type V = State<T>;

    closed spec fn view(&self) -> State<T> {
        self.state
    }
}

impl<T: Scalar> PID<T> {
    /// The integral gain for a time constant: `1 / tc³`, the cube taken as
    /// `tc · tc · tc`, with `unit` for 1.
    pub open spec fn integral_gain(unit: T, time_constant: T) -> T {
        unit.div_spec(time_constant.mul_spec(time_constant).mul_spec(time_constant))
    }

    /// Every operation of [`PID::integral_gain`] is permitted on these values.
    pub open spec fn integral_gain_defined(unit: T, time_constant: T) -> bool {
        let square = time_constant.mul_spec(time_constant);
        &&& time_constant.mul_req(time_constant)
        &&& square.mul_req(time_constant)
        &&& unit.div_req(square.mul_spec(time_constant))
    }

    /// Every operation of the three gain formulas is permitted on these
    /// values.
    pub open spec fn gains_defined(unit: T, damping_ratio: T, time_constant: T) -> bool {
        &&& P::<T>::gain_defined(unit, damping_ratio, time_constant)
        &&& PD::<T>::rate_gain_defined(unit, time_constant)
        &&& Self::integral_gain_defined(unit, time_constant)
    }

    /// The state of a new controller whose gains are derived from a damping
    /// ratio and a time constant: `kp = (1 / tc²) · (1 + 2 · dr)`,
    /// `ki = 1 / tc³`, `kd = (1 / tc) · (1 + 2 · tc²)`.
    pub open spec fn initial_from_damping(
        c: Constants<T>,
        damping_ratio: T,
        time_constant: T,
    ) -> State<T> {
        State::initial(
            c,
            P::<T>::gain(c.one, damping_ratio, time_constant),
            Self::integral_gain(c.one, time_constant),
            PD::<T>::rate_gain(c.one, time_constant),
        )
    }

    /// A controller with the given stored gains, on the constants `c`.
    pub fn with_constants(c: Constants<T>, kp: T, ki: T, kd: T) -> (r: Self)
        ensures
            r@ == State::initial(c, kp, ki, kd),
    {
        PID {
            state: State {
                kp,
                ki,
                kd,
                setpoint: c.zero,
                last_input: c.zero,
                integral: c.zero,
                min: c.lowest,
                max: c.highest,
                mode: ProportionalMode::OnError,
                direction: ActingDirection::Direct,
                sample_period: c.one,
                gated: false,
                last_time: None,
                zero: c.zero,
            },
        }
    }

    /// A controller with the given stored gains, on the constants that
    /// `num_traits` gives for `T`: its zero and its one, which are identities
    /// of `T`, and its two extremes, of which nothing is known here.
    pub fn with_gains(kp: T, ki: T, kd: T) -> (r: Self) where T: Zero + One + Bounded
        ensures
            exists|c: Constants<T>| #[trigger] c.lawful() && r@ == State::initial(c, kp, ki, kd),
    {
        let c = Constants::of_type();
        let r = Self::with_constants(c, kp, ki, kd);
        assert(c.lawful() && r@ == State::initial(c, kp, ki, kd));
        r
    }

    /// A controller whose gains are derived from a damping ratio and a time
    /// constant, on the constants `c`. A damping ratio between 0.7 and 1 and
    /// a time constant above zero are the useful range; neither is checked.
    pub fn with_constants_from_damping(c: Constants<T>, damping_ratio: T, time_constant: T) -> (r:
        Self)
        requires
            P::<T>::gain_obeys(),
            Self::gains_defined(c.one, damping_ratio, time_constant),
        ensures
            r@ == Self::initial_from_damping(c, damping_ratio, time_constant),
    {
        let pd = PD::with_unit(c.one, damping_ratio, time_constant);
        let ki = c.one / (time_constant * time_constant * time_constant);
        Self::with_constants(c, pd.p.kp, ki, pd.kd)
    }

    /// A controller whose gains are derived from a damping ratio and a time
    /// constant, on the constants that `num_traits` gives for `T`. Its one is
    /// a multiplicative identity of `T`, so the operations need be permitted
    /// for such a unit only.
    pub fn new(damping_ratio: T, time_constant: T) -> (r: Self) where T: Zero + One + Bounded
        requires
            P::<T>::gain_obeys(),
            forall|u: T| #[trigger] is_unit(u) ==> Self::gains_defined(u, damping_ratio, time_constant),
        ensures
            exists|c: Constants<T>| #[trigger]
                c.lawful() && r@ == Self::initial_from_damping(c, damping_ratio, time_constant),
    {
        let c = Constants::of_type();
        assert(is_unit(c.one));
        let r = Self::with_constants_from_damping(c, damping_ratio, time_constant);
        assert(c.lawful() && r@ == Self::initial_from_damping(c, damping_ratio, time_constant));
        r
    }

    /// The stored gain `k` as it acts under `direction`.
    fn acting(direction: ActingDirection, k: T) -> (r: T)
        requires
            T::obeys_neg_spec(),
            direction is Reverse ==> k.neg_req(),
        ensures
            r == (match direction {
                ActingDirection::Direct => k,
                ActingDirection::Reverse => k.neg_spec(),
            }),
    {
        match direction {
            ActingDirection::Direct => k,
            ActingDirection::Reverse => k.neg(),
        }
    }

    /// The tick: what every call that computes an output does with its step.
    fn tick(&mut self, step: Step<T>) -> (out: T)
        requires
            obeys_arithmetic::<T>(),
            old(self)@.step_defined(step),
        ensures
            final(self)@ == old(self)@.stepped(step),
            out == old(self)@.output(step),
            total_order::<T>() && old(self)@.bounds_ordered() ==> old(self)@.within_bounds(out),
    {
        let s = self.state;
        let kp = Self::acting(s.direction, s.kp);
        let ki = Self::acting(s.direction, s.ki);
        let kd = Self::acting(s.direction, s.kd);
        let mut acc = clamp(s.integral + ki * step.weighted_error, s.min, s.max);
        let p = match s.mode {
            ProportionalMode::OnError => kp * step.error,
            ProportionalMode::OnMeasurement => {
                acc = acc - kp * step.change;
                s.zero
            },
        };
        let d = kd.neg() * step.rate;
        let out = clamp(p + acc + d, s.min, s.max);
        self.state.integral = acc;
        self.state.last_input = step.measurement;
        proof {
            if total_order::<T>() && s.bounds_ordered() {
                s.output_within_bounds(step);
            }
        }
        out
    }

    /// One tick towards `target`, for a caller that knows the length `dt` of
    /// the step and the rate `actual_dot` of the measurement.
    ///
    /// The integrator takes `ki · (target - actual) · dt` and is clamped; the
    /// derivative term is `-kd · actual_dot`; the output is the clamped sum.
    /// The derivative follows the measurement alone, so `target_dot` has no
    /// part in the result. A gated controller holds the call back, returns
    /// `Pending` and changes nothing, while `dt`, the time since its last
    /// computed tick, is below the sample period.
    #[allow(unused_variables)]
    pub fn control(&mut self, target: T, target_dot: T, actual: T, actual_dot: T, dt: T) -> (r:
        Evaluation<T>)
        requires
            obeys_arithmetic::<T>(),
            old(self)@.due_after(dt) ==> {
                &&& State::<T>::timed_defined(target, actual, actual_dot, dt)
                &&& old(self)@.step_defined(State::<T>::timed(target, actual, actual_dot, dt))
                &&& old(self)@.clock_defined(dt)
            },
        ensures
            final(self)@ == old(self)@.controlled(target, actual, actual_dot, dt),
            r == old(self)@.response(target, actual, actual_dot, dt),
            total_order::<T>() && old(self)@.bounds_ordered() ==> (r matches Evaluation::Output(out)
                ==> old(self)@.within_bounds(out)),
    {
        if self.state.gated {
            match self.state.last_time {
                Some(last) => {
                    if dt < self.state.sample_period {
                        return Evaluation::Pending;
                    }
                },
                None => {},
            }
        }
        let e = error(target, actual);
        let step = Step {
            error: e,
            weighted_error: e * dt,
            change: actual_dot * dt,
            rate: actual_dot,
            measurement: actual,
        };
        let out = self.tick(step);
        if self.state.gated {
            self.state.last_time = match self.state.last_time {
                Some(last) => Some(last + dt),
                None => Some(dt),
            };
        }
        Evaluation::Output(out)
    }

    /// One tick towards `setpoint`, which holds for this tick only: the
    /// stored setpoint is neither read nor changed. The step is one sample
    /// period, and the measurement's change since the last tick stands for
    /// its rate. This call is never held back.
    pub fn evaluate_for(&mut self, setpoint: T, measurement: T) -> (out: T)
        requires
            obeys_arithmetic::<T>(),
            old(self)@.nominal_defined(setpoint, measurement),
            old(self)@.step_defined(old(self)@.nominal(setpoint, measurement)),
        ensures
            final(self)@ == old(self)@.stepped(old(self)@.nominal(setpoint, measurement)),
            out == old(self)@.output(old(self)@.nominal(setpoint, measurement)),
            total_order::<T>() && old(self)@.bounds_ordered() ==> old(self)@.within_bounds(out),
    {
        let e = error(setpoint, measurement);
        let delta = measurement - self.state.last_input;
        self.tick(Step { error: e, weighted_error: e, change: delta, rate: delta, measurement })
    }

    /// One tick towards the stored setpoint. This call is never held back.
    pub fn evaluate(&mut self, measurement: T) -> (out: T)
        requires
            obeys_arithmetic::<T>(),
            old(self)@.nominal_defined(old(self)@.setpoint, measurement),
            old(self)@.step_defined(old(self)@.nominal(old(self)@.setpoint, measurement)),
        ensures
            final(self)@ == old(self)@.stepped(old(self)@.nominal(old(self)@.setpoint, measurement)),
            out == old(self)@.output(old(self)@.nominal(old(self)@.setpoint, measurement)),
            total_order::<T>() && old(self)@.bounds_ordered() ==> old(self)@.within_bounds(out),
    {
        let setpoint = self.state.setpoint;
        self.evaluate_for(setpoint, measurement)
    }

    /// A tick towards the stored setpoint if one is due at the time `now`.
    ///
    /// The host of a gated controller may call this more often than the
    /// sample period: a call that comes too early, or with a time before the
    /// last one, returns `Pending` and leaves the controller as it was.
    pub fn evaluate_at(&mut self, measurement: T, now: T) -> (r: Evaluation<T>)
        requires
            obeys_arithmetic::<T>(),
            old(self)@.due_defined(now),
            old(self)@.due(now) ==> {
                &&& old(self)@.nominal_defined(old(self)@.setpoint, measurement)
                &&& old(self)@.step_defined(old(self)@.nominal(old(self)@.setpoint, measurement))
            },
        ensures
            final(self)@ == old(self)@.ticked(measurement, now),
            r == old(self)@.answer(measurement, now),
            total_order::<T>() && old(self)@.bounds_ordered() ==> (r matches Evaluation::Output(out)
                ==> old(self)@.within_bounds(out)),
    {
        if self.state.gated {
            match self.state.last_time {
                Some(last) => {
                    if now < last {
                        return Evaluation::Pending;
                    }
                    if now - last < self.state.sample_period {
                        return Evaluation::Pending;
                    }
                },
                None => {},
            }
        }
        let out = self.evaluate(measurement);
        self.state.last_time = Some(now);
        Evaluation::Output(out)
    }

    /// Asks for new gains, a new mode and a new sample period.
    ///
    /// The request is rejected, and nothing changes, if a gain is below zero
    /// or the sample period is not above zero. The answer says which; a
    /// caller need not look at it.
    pub fn tune(
        &mut self,
        kp: T,
        ki: T,
        kd: T,
        mode: ProportionalMode,
        sample_period: T,
    ) -> (accepted: bool)
        requires
            T::obeys_mul_spec() && T::obeys_div_spec() && T::obeys_partial_cmp_spec(),
            old(self)@.accepts_tuning(kp, ki, kd, sample_period) ==> ki.mul_req(sample_period)
                && kd.div_req(sample_period),
        ensures
            accepted == old(self)@.accepts_tuning(kp, ki, kd, sample_period),
            final(self)@ == old(self)@.tuned(kp, ki, kd, mode, sample_period),
            kp.is_lt(&old(self)@.zero) || ki.is_lt(&old(self)@.zero) || kd.is_lt(&old(self)@.zero)
                ==> final(self)@ == old(self)@,
    {
        let zero = self.state.zero;
        if kp < zero || ki < zero || kd < zero {
            return false;
        }
        if !(sample_period > zero) {
            return false;
        }
        self.state.kp = kp;
        self.state.ki = ki * sample_period;
        self.state.kd = kd / sample_period;
        self.state.mode = mode;
        self.state.sample_period = sample_period;
        true
    }

    /// Asks for new bounds of the integrator and the output.
    ///
    /// With `min` at most `max` the bounds are taken and the integrator is
    /// clamped into them at once. Otherwise the request is rejected and
    /// nothing changes.
    pub fn set_bounds(&mut self, min: T, max: T) -> (accepted: bool)
        requires
            T::obeys_partial_cmp_spec(),
        ensures
            accepted == min.is_le(&max),
            final(self)@ == old(self)@.bounded(min, max),
            accepted ==> final(self)@.bounds_ordered(),
            total_order::<T>() && accepted ==> final(self)@.within_bounds(final(self)@.integral),
    {
        if min <= max {
            self.state.integral = clamp(self.state.integral, min, max);
            self.state.min = min;
            self.state.max = max;
            proof {
                if total_order::<T>() {
                    clamp_within_bounds(old(self)@.integral, min, max);
                }
            }
            true
        } else {
            false
        }
    }

    /// Turns the acting direction round: from now on the gains act with the
    /// other sign. The stored gains stay as they are.
    pub fn reverse(&mut self)
        ensures
            final(self)@ == old(self)@.reversed(),
    {
        self.state.direction = match self.state.direction {
            ActingDirection::Direct => ActingDirection::Reverse,
            ActingDirection::Reverse => ActingDirection::Direct,
        };
    }

    /// Stores the setpoint that `evaluate` and `evaluate_at` steer towards.
    pub fn set_setpoint(&mut self, setpoint: T)
        ensures
            final(self)@ == (State { setpoint, ..old(self)@ }),
    {
        self.state.setpoint = setpoint;
    }

    /// Makes the controller gated or not. A gated controller holds calls back until
    /// the sample period has passed since its last computed tick.
    pub fn set_gated(&mut self, gated: bool)
        ensures
            final(self)@ == (State { gated, ..old(self)@ }),
    {
        self.state.gated = gated;
    }

    /// All that the controller holds, for diagnostics.
    pub fn state(&self) -> (r: State<T>)
        ensures
            r == self@,
    {
        self.state
    }

    /// The stored proportional gain: as entered, without the sign of the
    /// direction.
    pub fn kp(&self) -> (r: T)
        ensures
            r == self@.kp,
    {
        self.state.kp
    }

    /// The stored integral gain: the entered one times the sample period,
    /// without the sign of the direction.
    pub fn ki(&self) -> (r: T)
        ensures
            r == self@.ki,
    {
        self.state.ki
    }

    /// The stored derivative gain: the entered one divided by the sample
    /// period, without the sign of the direction.
    pub fn kd(&self) -> (r: T)
        ensures
            r == self@.kd,
    {
        self.state.kd
    }

    /// The lower bound of the integrator and the output.
    pub fn min(&self) -> (r: T)
        ensures
            r == self@.min,
    {
        self.state.min
    }

    /// The upper bound of the integrator and the output.
    pub fn max(&self) -> (r: T)
        ensures
            r == self@.max,
    {
        self.state.max
    }
}

} // verus!
