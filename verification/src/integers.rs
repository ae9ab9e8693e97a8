//! The laws that need arithmetic, shown on `i64`, where every operator is the
//! integer one as long as nothing overflows.

use crate::controller::{ActingDirection, ProportionalMode, State, Step};
use crate::numeric::{clamp_spec, is_unit, is_zero, total_order};
use vstd::prelude::*;
use vstd::std_specs::ops::{AddSpec, MulSpec};

verus! {

/// `i64` is totally ordered.
pub proof fn i64_total_order()
    ensures
        total_order::<i64>(),
{
}

/// On `i64` the identities are 1 and 0, and nothing else.
pub proof fn i64_identities(u: i64, z: i64)
    ensures
        is_unit(1i64),
        is_zero(0i64),
        is_unit(u) ==> u == 1,
        is_zero(z) ==> z == 0,
{
    if is_unit(u) {
        assert(1i64.mul_spec(u) == 1);
    }
    if is_zero(z) {
        assert(0i64.add_spec(z) == 0);
    }
}

/// `x` is at most a billion in size.
pub open spec fn within_a_billion(x: i64) -> bool {
    -1_000_000_000 <= x <= 1_000_000_000
}

/// `x` is at most two billion in size.
pub open spec fn within_two_billion(x: i64) -> bool {
    -2_000_000_000 <= x <= 2_000_000_000
}

/// The product of a number within a billion and a number within two billion
/// is within two times ten to the eighteenth.
proof fn product_bound(a: int, b: int)
    requires
        -1_000_000_000 <= a <= 1_000_000_000,
        -2_000_000_000 <= b <= 2_000_000_000,
    ensures
        -2_000_000_000_000_000_000 <= a * b <= 2_000_000_000_000_000_000,
{
    assert(-2_000_000_000_000_000_000 <= a * b <= 2_000_000_000_000_000_000) by (nonlinear_arith)
        requires
            -1_000_000_000 <= a <= 1_000_000_000,
            -2_000_000_000 <= b <= 2_000_000_000,
    ;
}

/// `x` brought into `[lo, hi]`, on the integers.
pub open spec fn clamp_int(x: int, lo: int, hi: int) -> int {
    if x < lo {
        lo
    } else if x > hi {
        hi
    } else {
        x
    }
}

impl State<i64> {
    /// The stored gain `k` as it acts, as an integer: `-k` in a
    /// reverse-acting controller.
    pub open spec fn acting_int(self, k: i64) -> int {
        match self.direction {
            ActingDirection::Direct => k as int,
            ActingDirection::Reverse => -k,
        }
    }

    /// The integrator after a tick's error has been added and the sum
    /// clamped, in integer arithmetic: `clamp(integral + ki · weighted_error)`.
    pub open spec fn integrated_int(self, step: Step<i64>) -> int {
        clamp_int(
            self.integral + self.acting_int(self.ki) * step.weighted_error,
            self.min as int,
            self.max as int,
        )
    }

    /// The integrator as a tick leaves it, in integer arithmetic.
    pub open spec fn accumulator_int(self, step: Step<i64>) -> int {
        match self.mode {
            ProportionalMode::OnError => self.integrated_int(step),
            ProportionalMode::OnMeasurement => self.integrated_int(step) - self.acting_int(self.kp)
                * step.change,
        }
    }

    /// The output of a tick, in integer arithmetic:
    /// `clamp(p + integrator - kd · rate)`, where `p` is `kp · error` reacting
    /// to the error and 0 reacting to the measurement.
    pub open spec fn output_int(self, step: Step<i64>) -> int {
        let p = match self.mode {
            ProportionalMode::OnError => self.acting_int(self.kp) * step.error,
            ProportionalMode::OnMeasurement => 0,
        };
        clamp_int(
            p + self.accumulator_int(step) + (-self.acting_int(self.kd)) * step.rate,
            self.min as int,
            self.max as int,
        )
    }

    /// On `i64` a tick is the textbook formula in integer arithmetic, as long
    /// as no operation overflows and the stored zero is 0.
    pub proof fn tick_is_integer_arithmetic(self, step: Step<i64>)
        requires
            self.step_defined(step),
            self.zero == 0,
        ensures
            self.stepped(step).integral == self.accumulator_int(step),
            self.output(step) == self.output_int(step),
    {
    }

    /// The tick of a caller who gives its own step, in integer arithmetic.
    /// On a direct-acting controller that reacts to the error, the output is
    /// `clamp(kp · e + clamp(integral + ki · e · dt) - kd · actual_dot)` with
    /// `e = target - actual`: the proportional term enters once, and the
    /// derivative follows the rate of the measurement.
    pub proof fn timed_tick_is_integer_arithmetic(
        self,
        target: i64,
        actual: i64,
        actual_dot: i64,
        dt: i64,
    )
        requires
            Self::timed_defined(target, actual, actual_dot, dt),
            self.step_defined(Self::timed(target, actual, actual_dot, dt)),
            self.mode is OnError,
            self.direction is Direct,
            self.zero == 0,
        ensures
            self.output(Self::timed(target, actual, actual_dot, dt)) == clamp_int(
                self.kp * (target - actual) + clamp_int(
                    self.integral + self.ki * ((target - actual) * dt),
                    self.min as int,
                    self.max as int,
                ) - self.kd * actual_dot,
                self.min as int,
                self.max as int,
            ),
            self.stepped(Self::timed(target, actual, actual_dot, dt)).integral == clamp_int(
                self.integral + self.ki * ((target - actual) * dt),
                self.min as int,
                self.max as int,
            ),
    {
        self.tick_is_integer_arithmetic(Self::timed(target, actual, actual_dot, dt));
        assert((-(self.kd as int)) * actual_dot == -(self.kd * actual_dot)) by (nonlinear_arith);
    }

    /// Room enough. Where gains, integrator, bounds and zero are each at most
    /// a billion in size, and the four numbers of a step at most two billion,
    /// no operation of the tick overflows.
    pub proof fn tick_within_a_billion_is_defined(self, step: Step<i64>)
        requires
            within_a_billion(self.kp) && within_a_billion(self.ki) && within_a_billion(self.kd),
            within_a_billion(self.integral),
            within_a_billion(self.min) && within_a_billion(self.max),
            within_a_billion(self.zero),
            within_two_billion(step.error) && within_two_billion(step.weighted_error),
            within_two_billion(step.change) && within_two_billion(step.rate),
        ensures
            self.step_defined(step),
    {
        product_bound(self.kp as int, step.error as int);
        product_bound(self.ki as int, step.weighted_error as int);
        product_bound(self.kp as int, step.change as int);
        product_bound(self.kd as int, step.rate as int);
        product_bound(-self.kp, step.error as int);
        product_bound(-self.ki, step.weighted_error as int);
        product_bound(-self.kp, step.change as int);
        product_bound(-self.kd, step.rate as int);
    }

    /// No windup lock. A direct-acting controller that reacts to the error,
    /// with an integral gain above zero, holds its integrator at most at the
    /// upper bound; so the first tick whose error is below zero, while the
    /// measurement does not fall, brings integrator and output below that
    /// bound, however long the output was held there before.
    pub proof fn unwinds_from_upper_bound(self, step: Step<i64>)
        requires
            self.step_defined(step),
            self.mode is OnError,
            self.direction is Direct,
            self.kp >= 0 && self.ki > 0 && self.kd >= 0,
            self.min < self.max,
            self.integral <= self.max,
            step.error <= 0,
            step.weighted_error < 0,
            step.rate >= 0,
        ensures
            self.stepped(step).integral < self.max,
            self.output(step) < self.max,
    {
        assert(self.ki * step.weighted_error < 0) by (nonlinear_arith)
            requires
                self.ki > 0,
                step.weighted_error < 0,
        ;
        assert(self.kp * step.error <= 0) by (nonlinear_arith)
            requires
                self.kp >= 0,
                step.error <= 0,
        ;
        assert((-self.kd) * step.rate <= 0) by (nonlinear_arith)
            requires
                self.kd >= 0,
                step.rate >= 0,
        ;
    }

    /// The same at the lower bound: the first tick whose error is above zero,
    /// while the measurement does not rise, brings integrator and output
    /// above that bound.
    pub proof fn unwinds_from_lower_bound(self, step: Step<i64>)
        requires
            self.step_defined(step),
            self.mode is OnError,
            self.direction is Direct,
            self.kp >= 0 && self.ki > 0 && self.kd >= 0,
            self.min < self.max,
            self.min <= self.integral,
            step.error >= 0,
            step.weighted_error > 0,
            step.rate <= 0,
        ensures
            self.stepped(step).integral > self.min,
            self.output(step) > self.min,
    {
        assert(self.ki * step.weighted_error > 0) by (nonlinear_arith)
            requires
                self.ki > 0,
                step.weighted_error > 0,
        ;
        assert(self.kp * step.error >= 0) by (nonlinear_arith)
            requires
                self.kp >= 0,
                step.error >= 0,
        ;
        assert((-self.kd) * step.rate >= 0) by (nonlinear_arith)
            requires
                self.kd >= 0,
                step.rate <= 0,
        ;
    }

    /// Held at the bound. A direct-acting controller that reacts to the
    /// error and whose integrator sits at the upper bound keeps it there on
    /// every tick whose error is not below zero.
    pub proof fn holds_at_upper_bound(self, step: Step<i64>)
        requires
            self.step_defined(step),
            self.mode is OnError,
            self.direction is Direct,
            self.ki >= 0,
            self.min <= self.max,
            self.integral == self.max,
            step.weighted_error >= 0,
        ensures
            self.stepped(step).integral == self.max,
    {
        assert(self.ki * step.weighted_error >= 0) by (nonlinear_arith)
            requires
                self.ki >= 0,
                step.weighted_error >= 0,
        ;
    }

    /// No windup lock after any run. However many ticks have driven the
    /// output to the upper bound, the first tick after them whose error is
    /// below zero, while the measurement does not fall, brings the output
    /// below that bound: the number of ticks before does not count.
    pub proof fn unwinds_after_any_run(self, steps: Seq<Step<i64>>, step: Step<i64>)
        requires
            self.mode is OnError,
            self.direction is Direct,
            self.kp >= 0 && self.ki > 0 && self.kd >= 0,
            self.min < self.max,
            steps.len() > 0,
            self.run(steps).step_defined(step),
            step.error <= 0,
            step.weighted_error < 0,
            step.rate >= 0,
        ensures
            self.run(steps).output(step) < self.max,
            self.run(steps).stepped(step).integral < self.max,
    {
        i64_total_order();
        self.integrator_within_bounds_after_run(steps);
        self.run_keeps_configuration(steps);
        self.run(steps).unwinds_from_upper_bound(step);
    }

    /// A step of the setpoint while the measurement stands still. Reacting to
    /// the error, the output takes `kp · error` at once; reacting to the
    /// measurement, the proportional gain has no part in the output, which is
    /// the clamped integrator alone, moved on by `ki · weighted_error`.
    pub proof fn setpoint_step_on_still_measurement(self, step: Step<i64>)
        requires
            self.step_defined(step),
            self.direction is Direct,
            self.zero == 0,
            step.change == 0,
            step.rate == 0,
        ensures
            self.mode is OnError ==> self.output(step) == clamp_int(
                self.kp * step.error + self.integrated_int(step),
                self.min as int,
                self.max as int,
            ),
            self.mode is OnMeasurement ==> self.output(step) == clamp_int(
                self.integrated_int(step),
                self.min as int,
                self.max as int,
            ),
            self.stepped(step).integral == self.integrated_int(step),
    {
        self.tick_is_integer_arithmetic(step);
        assert(self.kp * step.change == 0) by (nonlinear_arith)
            requires
                step.change == 0,
        ;
        assert((-(self.kd as int)) * step.rate == 0) by (nonlinear_arith)
            requires
                step.rate == 0,
        ;
    }

    /// No windup lock for a caller who gives its own step: with the error
    /// below zero, a step of positive length and a measurement that does not
    /// fall, the output lies below the upper bound after one tick.
    pub proof fn timed_tick_unwinds_from_upper_bound(
        self,
        target: i64,
        actual: i64,
        actual_dot: i64,
        dt: i64,
    )
        requires
            Self::timed_defined(target, actual, actual_dot, dt),
            self.step_defined(Self::timed(target, actual, actual_dot, dt)),
            self.mode is OnError,
            self.direction is Direct,
            self.kp >= 0 && self.ki > 0 && self.kd >= 0,
            self.min < self.max,
            self.integral <= self.max,
            target < actual,
            dt > 0,
            actual_dot >= 0,
        ensures
            self.output(Self::timed(target, actual, actual_dot, dt)) < self.max,
            self.stepped(Self::timed(target, actual, actual_dot, dt)).integral < self.max,
    {
        assert((target - actual) * dt < 0) by (nonlinear_arith)
            requires
                target < actual,
                dt > 0,
        ;
        self.unwinds_from_upper_bound(Self::timed(target, actual, actual_dot, dt));
    }

    /// A step of the setpoint for a caller who gives its own step, while the
    /// measurement stands still and its rate is zero. Reacting to the
    /// measurement, the output is the clamped integrator alone, which the
    /// step has moved by `ki · (target - actual) · dt`: the proportional gain
    /// has no part in it. Reacting to the error, `kp · (target - actual)`
    /// comes on top at once.
    pub proof fn timed_setpoint_step_on_still_measurement(self, target: i64, actual: i64, dt: i64)
        requires
            Self::timed_defined(target, actual, 0, dt),
            self.step_defined(Self::timed(target, actual, 0, dt)),
            self.direction is Direct,
            self.zero == 0,
        ensures
            self.stepped(Self::timed(target, actual, 0, dt)).integral == clamp_int(
                self.integral + self.ki * ((target - actual) * dt),
                self.min as int,
                self.max as int,
            ),
            self.mode is OnMeasurement ==> self.output(Self::timed(target, actual, 0, dt))
                == clamp_int(
                self.stepped(Self::timed(target, actual, 0, dt)).integral as int,
                self.min as int,
                self.max as int,
            ),
            self.mode is OnError ==> self.output(Self::timed(target, actual, 0, dt)) == clamp_int(
                self.kp * (target - actual) + self.stepped(
                    Self::timed(target, actual, 0, dt),
                ).integral,
                self.min as int,
                self.max as int,
            ),
    {
        assert(0 * dt == 0) by (nonlinear_arith);
        self.setpoint_step_on_still_measurement(Self::timed(target, actual, 0, dt));
    }

    /// A proportional controller. With integral and derivative gain at zero
    /// the integrator is only clamped, and the output is `kp · error` on top
    /// of it: on a new controller, `kp · error` alone.
    pub proof fn proportional_only_output(self, step: Step<i64>)
        requires
            self.step_defined(step),
            self.mode is OnError,
            self.direction is Direct,
            self.ki == 0 && self.kd == 0,
        ensures
            self.stepped(step).integral == clamp_spec(self.integral, self.min, self.max),
            self.output(step) == clamp_spec(
                (self.kp * step.error + clamp_spec(self.integral, self.min, self.max)) as i64,
                self.min,
                self.max,
            ),
    {
        assert(self.ki * step.weighted_error == 0) by (nonlinear_arith)
            requires
                self.ki == 0,
        ;
        assert((-self.kd) * step.rate == 0) by (nonlinear_arith)
            requires
                self.kd == 0,
        ;
    }

    /// Along falling errors the output of a proportional controller never
    /// rises: with integral and derivative gain at zero and a proportional
    /// gain not below zero, a tick whose error is not above that of the tick
    /// before gives an output not above the one before. With a fixed setpoint
    /// that is every tick whose measurement has not fallen.
    pub proof fn proportional_output_falls_as_measurement_rises(
        self,
        first: Step<i64>,
        second: Step<i64>,
    )
        requires
            self.step_defined(first),
            self.stepped(first).step_defined(second),
            self.mode is OnError,
            self.direction is Direct,
            self.kp >= 0 && self.ki == 0 && self.kd == 0,
            self.min <= self.max,
            second.error <= first.error,
        ensures
            self.stepped(first).output(second) <= self.output(first),
    {
        self.proportional_only_output(first);
        self.stepped(first).proportional_only_output(second);
        assert(self.kp * second.error <= self.kp * first.error) by (nonlinear_arith)
            requires
                self.kp >= 0,
                second.error <= first.error,
        ;
    }

    /// From one state, a higher measurement never gives a higher output,
    /// whatever the mode: a direct-acting controller with gains not below
    /// zero pushes against the measurement.
    pub proof fn higher_measurement_never_raises_output(self, setpoint: i64, lower: i64, higher: i64)
        requires
            self.nominal_defined(setpoint, lower),
            self.nominal_defined(setpoint, higher),
            self.step_defined(self.nominal(setpoint, lower)),
            self.step_defined(self.nominal(setpoint, higher)),
            self.direction is Direct,
            self.kp >= 0 && self.ki >= 0 && self.kd >= 0,
            self.min <= self.max,
            self.zero == 0,
            lower <= higher,
        ensures
            self.output(self.nominal(setpoint, higher)) <= self.output(
                self.nominal(setpoint, lower),
            ),
    {
        assert(self.ki * (setpoint - higher) <= self.ki * (setpoint - lower)) by (nonlinear_arith)
            requires
                self.ki >= 0,
                lower <= higher,
        ;
        assert(self.kp * (setpoint - higher) <= self.kp * (setpoint - lower)) by (nonlinear_arith)
            requires
                self.kp >= 0,
                lower <= higher,
        ;
        assert(self.kp * (higher - self.last_input) >= self.kp * (lower - self.last_input))
            by (nonlinear_arith)
            requires
                self.kp >= 0,
                lower <= higher,
        ;
        assert((-self.kd) * (higher - self.last_input) <= (-self.kd) * (lower - self.last_input))
            by (nonlinear_arith)
            requires
                self.kd >= 0,
                lower <= higher,
        ;
    }
}

} // verus!
