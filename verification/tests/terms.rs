use pid_controller::{error, P, PD, PID};

#[test]
fn it_works() {
    let result = 2 + 2;
    assert_eq!(result, 4);
}

#[test]
fn error_is_target_minus_actual() {
    assert_eq!(error(5i64, 7i64), -2);
    assert_eq!(error(7i64, 5i64), 2);
    assert_eq!(error(1.5f32, 0.25f32), 1.25);
}

#[test]
fn proportional_response_is_gain_times_error() {
    let p = P { kp: 2.0f32 };
    assert_eq!(p.control_with_error(1.5f32), 3.0);
    assert_eq!(p.control(4.0f32, 1.0f32), 6.0);
    assert_eq!(p.control(1.0f32, 4.0f32), -6.0);
    let q = P { kp: 3i64 };
    assert_eq!(q.control(10, 4), 18);
}

#[test]
fn proportional_gain_from_damping() {
    // (1 / 2²) · (1 + 2 · 1) = 0.75
    let p: P<f64> = P::new(1.0, 2.0);
    assert_eq!(p.kp, 0.75);
    // (1 / 4²) · (1 + 2 · 0.75) = 0.15625
    let q: P<f32> = P::new(0.75, 4.0);
    assert_eq!(q.kp, 0.15625);
    // with another unit the same formula is followed: (3 / 4) · (3 + 6 · 1)
    let r = P::with_unit(3.0f64, 1.0, 2.0);
    assert_eq!(r.kp, 6.75);
}

#[test]
fn derivative_gain_from_damping() {
    // (1 / 2) · (1 + 2 · 2 · 2) = 4.5
    let pd: PD<f64> = PD::new(1.0, 2.0);
    assert_eq!(pd.kd, 4.5);
    assert_eq!(pd.p.kp, 0.75);
    let with = PD::with_unit(1.0f64, 1.0, 2.0);
    assert_eq!(with.kd, 4.5);
    assert_eq!(with.p.kp, 0.75);
}

#[test]
fn proportional_derivative_response() {
    let pd = PD { p: P { kp: 2.0f32 }, kd: 0.5f32 };
    // p = 2 · (3 - 1) = 4, d = 0.5 · (0 - 4) = -2
    assert_eq!(pd.control(3.0, 0.0, 1.0, 4.0), 2.0);
    assert_eq!(pd.control_with_p(4.0, 0.0, 4.0), 2.0);
    assert_eq!(pd.control_with_p(0.0, 1.0, 0.0), 0.5);
}

#[test]
fn integral_gain_from_damping() {
    // 1 / 2³ = 0.125
    let pid: PID<f64> = PID::new(1.0, 2.0);
    assert_eq!(pid.ki(), 0.125);
    assert_eq!(pid.kp(), 0.75);
    assert_eq!(pid.kd(), 4.5);
    assert_eq!(pid.state().integral, 0.0);
}

#[test]
fn unit_gain_is_one() {
    let p: P<f32> = P::with_unit_gain();
    assert_eq!(p.kp, 1.0);
    let q: P<i64> = P::with_unit_gain();
    assert_eq!(q.kp, 1);
    assert_eq!(q.control(7, 4), 3);
}
