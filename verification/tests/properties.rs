use pid_controller::{ActingDirection, Constants, Evaluation, ProportionalMode, PID};

fn ramp() -> Vec<f32> {
    (-25..=25).map(|x| x as f32 / 25.0).collect()
}

#[test]
fn output_stays_within_the_bounds() {
    let modes = [ProportionalMode::OnError, ProportionalMode::OnMeasurement];
    for mode in modes {
        for reverse in [false, true] {
            let mut c: PID<f32> = PID::with_gains(0.0, 0.0, 0.0);
            assert!(c.tune(3.0, 2.0, 1.5, mode, 0.5));
            assert!(c.set_bounds(-2.0, 5.0));
            if reverse {
                c.reverse();
            }
            c.set_setpoint(1.0);
            for k in 0..200 {
                let measurement = ((k * 37) % 41) as f32 - 20.0;
                let out = c.evaluate(measurement);
                assert!(-2.0 <= out && out <= 5.0);
            }
        }
    }
}

#[test]
fn output_stays_within_the_bounds_on_integers() {
    let k = Constants { zero: 0i64, one: 1, lowest: -50, highest: 70 };
    let mut c = PID::with_constants(k, 4, 3, 2);
    for t in 0..300i64 {
        let setpoint = (t * 13) % 29 - 14;
        let measurement = (t * 7) % 23 - 11;
        let out = c.evaluate_for(setpoint, measurement);
        assert!(-50 <= out && out <= 70);
        assert!(-50 <= c.state().integral && c.state().integral <= 70);
    }
}

#[test]
fn integrator_does_not_wind_up() {
    let mut c: PID<f32> = PID::with_gains(0.5, 1.0, 0.0);
    assert!(c.set_bounds(-10.0, 10.0));
    c.set_setpoint(100.0);
    // a large error for many ticks: integrator and output sit at the bound
    for _ in 0..1000 {
        assert_eq!(c.evaluate(0.0), 10.0);
        assert_eq!(c.state().integral, 10.0);
    }
    // the error turns round: the very next output has left the bound
    c.set_setpoint(-1.0);
    let out = c.evaluate(0.0);
    assert_eq!(c.state().integral, 9.0);
    assert_eq!(out, 8.5);
    // and the same at the lower bound
    c.set_setpoint(-100.0);
    for _ in 0..1000 {
        assert_eq!(c.evaluate(0.0), -10.0);
        assert_eq!(c.state().integral, -10.0);
    }
    c.set_setpoint(1.0);
    assert_eq!(c.evaluate(0.0), -8.5);
    assert_eq!(c.state().integral, -9.0);
}

#[test]
fn setpoint_step_reaches_the_output_by_mode() {
    let mut on_error: PID<f32> = PID::with_gains(0.0, 0.0, 0.0);
    assert!(on_error.tune(4.0, 0.5, 2.0, ProportionalMode::OnError, 1.0));
    let mut on_measurement: PID<f32> = PID::with_gains(0.0, 0.0, 0.0);
    assert!(on_measurement.tune(4.0, 0.5, 2.0, ProportionalMode::OnMeasurement, 1.0));
    // both have settled at a measurement of 3 with the setpoint at 3
    assert_eq!(on_error.evaluate_for(3.0, 3.0), -6.0);
    assert_eq!(on_error.evaluate_for(3.0, 3.0), 0.0);
    assert_eq!(on_measurement.evaluate_for(3.0, 3.0), -18.0);
    assert_eq!(on_measurement.evaluate_for(3.0, 3.0), -12.0);
    // the setpoint steps to 13, the measurement stands still: error 10
    // reacting to the error: kp · error = 40 at once, plus ki · error = 5
    assert_eq!(on_error.evaluate_for(13.0, 3.0), 45.0);
    // reacting to the measurement: no proportional part, only ki · error = 5 more
    assert_eq!(on_measurement.evaluate_for(13.0, 3.0), -7.0);
}

#[test]
fn reverse_twice_restores_the_gains() {
    let mut c: PID<f32> = PID::with_gains(2.0, 0.5, 0.25);
    let before = c.state();
    c.reverse();
    assert_eq!(c.state().direction, ActingDirection::Reverse);
    assert_eq!((c.kp(), c.ki(), c.kd()), (2.0, 0.5, 0.25));
    c.reverse();
    assert_eq!(c.state(), before);
    assert_eq!(c.evaluate_for(10.0, 4.0), 14.0);
}

#[test]
fn negative_gain_leaves_the_gains_as_they_were() {
    let mut c: PID<f32> = PID::with_gains(2.0, 0.5, 0.25);
    assert!(!c.tune(-1.0, 0.0, 0.0, ProportionalMode::OnError, 1.0));
    assert_eq!((c.kp(), c.ki(), c.kd()), (2.0, 0.5, 0.25));
    assert!(!c.tune(0.0, -1.0, 0.0, ProportionalMode::OnError, 1.0));
    assert_eq!((c.kp(), c.ki(), c.kd()), (2.0, 0.5, 0.25));
    assert!(!c.tune(0.0, 0.0, -1.0, ProportionalMode::OnError, 1.0));
    assert_eq!((c.kp(), c.ki(), c.kd()), (2.0, 0.5, 0.25));
}

#[test]
fn ramp_has_fifty_one_samples_from_minus_one_to_one() {
    let r = ramp();
    assert_eq!(r.len(), 51);
    assert_eq!(r[0], -1.0);
    assert_eq!(r[1], -0.96);
    assert_eq!(r[50], 1.0);
}

#[test]
fn ramp_scenario_first_tick() {
    let mut c: PID<f32> = PID::with_gains(0.1, 0.05, 0.0);
    assert_eq!((c.min(), c.max()), (f32::MIN, f32::MAX));
    let first = c.evaluate(-1.0);
    // the proportional term is kp · (0 - (-1)) = 0.1; the integrator takes
    // the error of this very tick, ki · 1 = 0.05; the derivative gain is zero
    assert_eq!(c.state().integral, 0.05);
    assert_eq!(first, 0.1f32 + 0.05f32);
    assert!(first > 0.1);
}

#[test]
fn ramp_scenario_proportional_part_never_rises() {
    // without an integral gain the output is the proportional term alone
    let mut c: PID<f32> = PID::with_gains(0.1, 0.0, 0.0);
    let mut last = f32::MAX;
    for (k, x) in ramp().into_iter().enumerate() {
        let out = c.evaluate(x);
        if k == 0 {
            assert_eq!(out, 0.1);
        }
        assert_eq!(out, 0.1 * (0.0 - x));
        assert!(out <= last);
        last = out;
    }
    assert_eq!(last, -0.1);
}

#[test]
fn ramp_scenario_integrator_carries_the_past_error() {
    let mut c: PID<f32> = PID::with_gains(0.1, 0.05, 0.0);
    let mut integral = 0.0f32;
    let mut last = 0.0f32;
    let mut outputs = Vec::new();
    for x in ramp() {
        let e = 0.0 - x;
        integral = integral + 0.05 * e;
        let out = c.evaluate(x);
        assert_eq!(c.state().integral, integral);
        assert_eq!(out, (0.1 * e + integral) + (-0.0f32) * (x - last));
        last = x;
        outputs.push(out);
    }
    // while the error is above zero the integrator grows faster than the
    // proportional term shrinks, so the output rises at first
    assert!(outputs[1] > outputs[0]);
    // after the error has changed sign the output falls
    assert!(outputs[50] < outputs[30]);
}

#[test]
fn time_gated_scenario() {
    let mut c: PID<f32> = PID::with_gains(0.0, 0.0, 0.0);
    // times in milliseconds, sample period 100 ms
    assert!(c.tune(2.0, 0.0, 0.0, ProportionalMode::OnError, 100.0));
    c.set_gated(true);
    c.set_setpoint(1.0);
    assert_eq!(c.evaluate_at(0.0, 1000.0), Evaluation::Output(2.0));
    let after_first = c.state();
    assert_eq!(after_first.last_time, Some(1000.0));
    // 10 ms later
    assert_eq!(c.evaluate_at(0.5, 1010.0), Evaluation::Pending);
    assert_eq!(c.state(), after_first);
    // 100 ms after the first
    assert_eq!(c.evaluate_at(0.5, 1100.0), Evaluation::Output(1.0));
    assert_eq!(c.state().last_time, Some(1100.0));
    assert_eq!(c.state().last_input, 0.5);
}

#[test]
fn first_tick_against_the_bound_leaves_it_on_integers() {
    let k = Constants { zero: 0i64, one: 1, lowest: -100, highest: 100 };
    let mut c = PID::with_constants(k, 2, 3, 1);
    // many ticks with a large error: the output is held at the upper bound
    for _ in 0..500 {
        assert_eq!(c.evaluate_for(40, 0), 100);
        assert_eq!(c.state().integral, 100);
    }
    // error -1, measurement rising by one: integrator 97, p = -2, d = -1
    assert_eq!(c.evaluate_for(0, 1), 94);
    assert_eq!(c.state().integral, 97);
}

#[test]
fn higher_measurement_never_gives_a_higher_output() {
    for mode in [ProportionalMode::OnError, ProportionalMode::OnMeasurement] {
        let k = Constants { zero: 0i64, one: 1, lowest: -500, highest: 500 };
        let mut base = PID::with_constants(k, 0, 0, 0);
        assert!(base.tune(3, 2, 4, mode, 1));
        base.evaluate_for(5, 2);
        let mut last = i64::MAX;
        for measurement in -60..60 {
            let mut c = base.clone();
            let out = c.evaluate_for(7, measurement);
            assert!(out <= last);
            last = out;
        }
        assert!(last < 0);
    }
}

#[test]
fn time_gated_scenario_by_steps() {
    let mut c: PID<f32> = PID::with_gains(0.0, 0.0, 0.0);
    // times in milliseconds, sample period 100 ms
    assert!(c.tune(2.0, 0.0, 0.0, ProportionalMode::OnError, 100.0));
    c.set_gated(true);
    assert_eq!(c.control(1.0, 0.0, 0.0, 0.0, 1000.0), Evaluation::Output(2.0));
    let after_first = c.state();
    assert_eq!(after_first.last_time, Some(1000.0));
    // 10 ms after the first
    assert_eq!(c.control(1.0, 0.0, 0.5, 0.0, 10.0), Evaluation::Pending);
    assert_eq!(c.state(), after_first);
    // 100 ms after the first
    assert_eq!(c.control(1.0, 0.0, 0.5, 0.0, 100.0), Evaluation::Output(1.0));
    assert_eq!(c.state().last_time, Some(1100.0));
    assert_eq!(c.state().last_input, 0.5);
}

#[test]
fn control_stays_within_the_bounds() {
    for mode in [ProportionalMode::OnError, ProportionalMode::OnMeasurement] {
        let mut c: PID<f32> = PID::with_gains(0.0, 0.0, 0.0);
        assert!(c.tune(3.0, 2.0, 1.5, mode, 0.5));
        assert!(c.set_bounds(-2.0, 5.0));
        for k in 0..200 {
            let actual = ((k * 37) % 41) as f32 - 20.0;
            let rate = ((k * 11) % 7) as f32 - 3.0;
            match c.control(1.0, 0.0, actual, rate, 0.25) {
                Evaluation::Output(out) => assert!(-2.0 <= out && out <= 5.0),
                Evaluation::Pending => panic!("a controller that is not gated computes every call"),
            }
        }
    }
}

#[test]
fn control_does_not_wind_up() {
    let mut c: PID<f32> = PID::with_gains(0.5, 1.0, 0.0);
    assert!(c.set_bounds(-10.0, 10.0));
    for _ in 0..1000 {
        assert_eq!(c.control(100.0, 0.0, 0.0, 0.0, 1.0), Evaluation::Output(10.0));
        assert_eq!(c.state().integral, 10.0);
    }
    // the error turns round: the very next output has left the bound
    assert_eq!(c.control(-1.0, 0.0, 0.0, 0.0, 1.0), Evaluation::Output(8.5));
    assert_eq!(c.state().integral, 9.0);
    for _ in 0..1000 {
        assert_eq!(c.control(-100.0, 0.0, 0.0, 0.0, 1.0), Evaluation::Output(-10.0));
        assert_eq!(c.state().integral, -10.0);
    }
    assert_eq!(c.control(1.0, 0.0, 0.0, 0.0, 1.0), Evaluation::Output(-8.5));
}

#[test]
fn control_on_a_setpoint_step_by_mode() {
    let mut on_error: PID<f32> = PID::with_gains(0.0, 0.0, 0.0);
    assert!(on_error.tune(4.0, 0.5, 2.0, ProportionalMode::OnError, 1.0));
    let mut on_measurement: PID<f32> = PID::with_gains(0.0, 0.0, 0.0);
    assert!(on_measurement.tune(4.0, 0.5, 2.0, ProportionalMode::OnMeasurement, 1.0));
    // settled: measurement 3, setpoint 3, nothing moves
    assert_eq!(on_error.control(3.0, 0.0, 3.0, 0.0, 2.0), Evaluation::Output(0.0));
    assert_eq!(on_measurement.control(3.0, 0.0, 3.0, 0.0, 2.0), Evaluation::Output(0.0));
    // the setpoint steps to 13, the measurement stands still: error 10, dt 2
    // reacting to the error: kp · error = 40 at once, plus ki · error · dt = 10
    assert_eq!(on_error.control(13.0, 0.0, 3.0, 0.0, 2.0), Evaluation::Output(50.0));
    // reacting to the measurement: only the integrator's ki · error · dt = 10
    assert_eq!(on_measurement.control(13.0, 0.0, 3.0, 0.0, 2.0), Evaluation::Output(10.0));
}
