//! What holds of a controller over every numeric type, stated on [`State`] and
//! proved from the definitions of a tick, of tuning, of reversing and of the
//! gate.
//!
//! The laws that speak of bounds ask for a total order on `T` and for bounds
//! in order; the others ask for nothing.

use crate::controller::{Evaluation, ProportionalMode, State, Step};
use crate::numeric::{clamp_saturates, clamp_within_bounds, is_unit, total_order, Scalar};
use vstd::prelude::*;
use vstd::std_specs::cmp::{PartialOrdIs, PartialOrdSpec};
use vstd::std_specs::ops::{AddSpec, MulSpec, NegSpec, SubSpec};

verus! {

impl<T: Scalar> State<T> {
    /// The state after a run of ticks, the first tick first.
    pub open spec fn run(self, steps: Seq<Step<T>>) -> State<T>
        decreases steps.len(),
    {
        if steps.len() == 0 {
            self
        } else {
            self.run(steps.drop_last()).stepped(steps.last())
        }
    }

    /// A run of ticks changes the integrator and the last input, and nothing
    /// else.
    pub proof fn run_keeps_configuration(self, steps: Seq<Step<T>>)
        ensures
            self.run(steps) == (State {
                integral: self.run(steps).integral,
                last_input: self.run(steps).last_input,
                ..self
            }),
        decreases steps.len(),
    {
        if steps.len() > 0 {
            self.run_keeps_configuration(steps.drop_last());
        }
    }

    /// One tick, two ways to it. A tick that takes its time from the sample
    /// period is the tick of a caller who gives a step of length one and the
    /// measurement's change since the last tick as its rate.
    pub proof fn nominal_is_timed_by_one(self, setpoint: T, measurement: T, one: T)
        requires
            is_unit(one),
        ensures
            Self::timed(setpoint, measurement, measurement.sub_spec(self.last_input), one)
                == self.nominal(setpoint, measurement),
    {
        assert(setpoint.sub_spec(measurement).mul_spec(one) == setpoint.sub_spec(measurement));
        assert(measurement.sub_spec(self.last_input).mul_spec(one) == measurement.sub_spec(
            self.last_input,
        ));
    }

    /// The derivative follows the measurement alone: what a tick does depends
    /// on target and measurement through its step, where no rate of the
    /// target has a place.
    pub proof fn target_rate_has_no_part(self, target: T, actual: T, actual_dot: T, dt: T)
        ensures
            self.derivative_term(Self::timed(target, actual, actual_dot, dt)) == self.acting(
                self.kd,
            ).neg_spec().mul_spec(actual_dot),
    {
    }

    /// Anti-windup over any number of ticks: reacting to the error, the
    /// integrator lies within the bounds after every tick of every run,
    /// however long and whatever its steps.
    pub proof fn integrator_within_bounds_after_run(self, steps: Seq<Step<T>>)
        requires
            total_order::<T>(),
            self.bounds_ordered(),
            self.mode is OnError,
            steps.len() > 0,
        ensures
            self.run(steps).within_bounds(self.run(steps).integral),
            self.run(steps).min == self.min,
            self.run(steps).max == self.max,
    {
        let before = self.run(steps.drop_last());
        self.run_keeps_configuration(steps.drop_last());
        before.integrator_within_bounds(steps.last());
    }

    /// Anti-windup: after the error has been added, the integrator lies
    /// within the bounds. Reacting to the error, that is how the tick leaves
    /// it.
    pub proof fn integrator_within_bounds(self, step: Step<T>)
        requires
            total_order::<T>(),
            self.bounds_ordered(),
        ensures
            self.within_bounds(self.integrated(step)),
            self.mode is OnError ==> self.within_bounds(self.stepped(step).integral),
    {
        clamp_within_bounds(self.fed(step), self.min, self.max);
    }

    /// Anti-windup: an error that would carry the integrator above the upper
    /// bound leaves it at that bound, and one that would carry it below the
    /// lower bound leaves it at that one, however large the error is.
    pub proof fn integrator_saturates(self, step: Step<T>)
        requires
            total_order::<T>(),
            self.bounds_ordered(),
        ensures
            self.fed(step).is_gt(&self.max) ==> self.integrated(step) == self.max,
            self.fed(step).is_lt(&self.min) ==> self.integrated(step) == self.min,
    {
        clamp_saturates(self.fed(step), self.min, self.max);
    }

    /// Reacting to the measurement, the proportional term is zero whatever
    /// the error is; reacting to the error, it is `kp · error` at once.
    pub proof fn proportional_term_by_mode(self, step: Step<T>)
        ensures
            self.mode is OnMeasurement ==> self.proportional_term(step) == self.zero,
            self.mode is OnError ==> self.proportional_term(step) == self.acting(self.kp).mul_spec(
                step.error,
            ),
    {
    }

    /// Reacting to the measurement, the setpoint reaches a tick through the
    /// integrator alone: two steps on one measurement that leave the
    /// integrator at one value give one output and one state, so a step of
    /// the setpoint cannot make the output jump by `kp` times the step.
    pub proof fn setpoint_acts_through_integrator(self, first: Step<T>, second: Step<T>)
        requires
            self.mode is OnMeasurement,
            first.change == second.change,
            first.rate == second.rate,
            first.measurement == second.measurement,
            self.integrated(first) == self.integrated(second),
        ensures
            self.output(first) == self.output(second),
            self.stepped(first) == self.stepped(second),
    {
    }

    /// Bounds in order stay in order under every call: a tick, a call on a
    /// clock, tuning and reversing leave them alone, and new bounds are taken
    /// only in order.
    pub proof fn bounds_stay_ordered(
        self,
        step: Step<T>,
        now: T,
        dt: T,
        kp: T,
        ki: T,
        kd: T,
        mode: ProportionalMode,
        sample_period: T,
        min: T,
        max: T,
    )
        requires
            self.bounds_ordered(),
        ensures
            self.stepped(step).bounds_ordered(),
            self.ticked(step.measurement, now).bounds_ordered(),
            self.controlled(step.error, step.measurement, step.rate, dt).bounds_ordered(),
            self.tuned(kp, ki, kd, mode, sample_period).bounds_ordered(),
            self.reversed().bounds_ordered(),
            self.bounded(min, max).bounds_ordered(),
    {
    }

    /// New bounds hold the integrator at once: after an accepted request it
    /// lies within them, wherever it was before.
    pub proof fn new_bounds_hold_integrator(self, min: T, max: T)
        requires
            total_order::<T>(),
            min.is_le(&max),
        ensures
            self.bounded(min, max).within_bounds(self.bounded(min, max).integral),
    {
        clamp_within_bounds(self.integral, min, max);
    }

    /// Reversing twice gives the state back: each gain acts with its first
    /// sign again.
    pub proof fn reverse_twice_restores(self)
        ensures
            self.reversed().reversed() == self,
            self.reversed().reversed().acting(self.kp) == self.acting(self.kp),
            self.reversed().reversed().acting(self.ki) == self.acting(self.ki),
            self.reversed().reversed().acting(self.kd) == self.acting(self.kd),
    {
    }

    /// Reversing stores no other gains: only the direction changes.
    pub proof fn reverse_keeps_stored_gains(self)
        ensures
            self.reversed().kp == self.kp,
            self.reversed().ki == self.ki,
            self.reversed().kd == self.kd,
            self.reversed().direction != self.direction,
    {
    }

    /// A tuning request with a gain below zero changes nothing, whatever the
    /// other arguments are.
    pub proof fn negative_gain_is_rejected(
        self,
        kp: T,
        ki: T,
        kd: T,
        mode: ProportionalMode,
        sample_period: T,
    )
        requires
            kp.is_lt(&self.zero) || ki.is_lt(&self.zero) || kd.is_lt(&self.zero),
        ensures
            !self.accepts_tuning(kp, ki, kd, sample_period),
            self.tuned(kp, ki, kd, mode, sample_period) == self,
    {
    }

    /// Tuning keeps the direction: a reverse-acting controller stays
    /// reverse-acting, and the new gains act negated like the old ones.
    pub proof fn tuning_keeps_direction(
        self,
        kp: T,
        ki: T,
        kd: T,
        mode: ProportionalMode,
        sample_period: T,
    )
        ensures
            self.tuned(kp, ki, kd, mode, sample_period).direction == self.direction,
            self.tuned(kp, ki, kd, mode, sample_period).integral == self.integral,
            self.tuned(kp, ki, kd, mode, sample_period).last_input == self.last_input,
    {
    }

    /// Gating by time stamps. A call that is not due returns `Pending` and
    /// changes nothing; one that is due remembers its time. On a gated
    /// controller a time before the last one is never due, and the first
    /// call always is.
    pub proof fn gate_holds_early_calls(self, measurement: T, now: T)
        ensures
            !self.due(now) ==> self.ticked(measurement, now) == self && self.answer(
                measurement,
                now,
            ) is Pending,
            self.due(now) ==> self.ticked(measurement, now).last_time == Some(now) && self.answer(
                measurement,
                now,
            ) is Output,
            self.gated ==> (self.last_time matches Some(last) && now.is_lt(&last) ==> !self.due(
                now,
            )),
            self.last_time is None ==> self.due(now),
    {
    }

    /// Gating by steps. On a gated controller that has computed a tick, a
    /// call whose `dt` is below the sample period returns `Pending` and
    /// changes nothing: integrator, last input and clock are as the tick
    /// before left them.
    pub proof fn gate_holds_early_steps(self, target: T, actual: T, actual_dot: T, dt: T)
        requires
            self.gated,
            self.last_time is Some,
            dt.is_lt(&self.sample_period),
        ensures
            self.controlled(target, actual, actual_dot, dt) == self,
            self.response(target, actual, actual_dot, dt) is Pending,
    {
    }

    /// Due at the period. On a gated controller a call whose `dt`
    /// is the sample period, or more, computes the tick and moves the clock
    /// on by `dt`.
    pub proof fn gate_opens_at_the_period(self, target: T, actual: T, actual_dot: T, dt: T)
        requires
            total_order::<T>(),
            self.gated,
            self.last_time is Some,
            self.sample_period.is_le(&dt),
        ensures
            self.response(target, actual, actual_dot, dt) == Evaluation::Output(
                self.output(Self::timed(target, actual, actual_dot, dt)),
            ),
            self.controlled(target, actual, actual_dot, dt).last_time == Some(
                self.last_time->0.add_spec(dt),
            ),
            self.controlled(target, actual, actual_dot, dt).integral == self.accumulator(
                Self::timed(target, actual, actual_dot, dt),
            ),
    {
        assert(dt.partial_cmp_spec(&self.sample_period) is Some);
        assert(self.sample_period.partial_cmp_spec(&dt) is Some);
    }
}

} // verus!
