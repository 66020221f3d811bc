use dc_motor_speed_control::experiment::{sample_count, sample_plan, ExpType, SamplePlan};
use dc_motor_speed_control::pid::DerivativeMode;
use dc_motor_speed_control::ramp::{RampPhase, Trapezoid};
use dc_motor_speed_control::sweep::{hysteresis_midpoint, mean_duty, DutySweep};

#[test]
fn trapezoid_full_cycle() {
    let mut t = Trapezoid::new();
    let mut duties = Vec::new();
    for _ in 0..280 {
        duties.push(t.step());
    }
    assert_eq!(duties[0], 2);
    assert_eq!(duties[49], 100);
    assert_eq!(t.phase(), RampPhase::RiseToForward);
    assert_eq!(t.duty(), 0);
    assert_eq!(duties[89], 100);
    assert_eq!(duties[90], 98);
    assert_eq!(duties[189], -100);
    assert_eq!(duties[229], -100);
    assert_eq!(duties[230], -98);
    assert_eq!(duties[279], 0);
    for w in duties.windows(2) {
        assert!((w[1] - w[0]).abs() <= 2);
    }
}

#[test]
fn sweep_finds_second_consecutive_crossing() {
    let mut s = DutySweep::new(0, 100);
    let readings = [false, true, false, true, true];
    let mut found = None;
    for r in readings {
        let d = s.current().unwrap();
        assert!(d <= 4);
        found = s.observe(r);
    }
    assert_eq!(found, Some(4));
}

#[test]
fn sweep_downward_and_exhausted() {
    let mut s = DutySweep::new(0, -2);
    assert_eq!(s.current(), Some(0));
    assert_eq!(s.observe(false), None);
    assert_eq!(s.current(), Some(-1));
    assert_eq!(s.observe(true), None);
    assert_eq!(s.current(), Some(-2));
    assert_eq!(s.observe(false), None);
    assert_eq!(s.current(), None);
    assert_eq!(s.exhausted_boundary(), -2);
}

#[test]
fn midpoint_and_mean() {
    assert_eq!(hysteresis_midpoint(23, 18), 20);
    assert_eq!(hysteresis_midpoint(-23, -18), -20);
    assert_eq!(mean_duty(&[]), 0);
    assert_eq!(mean_duty(&[20, 21, 21]), 20);
    assert_eq!(mean_duty(&[-20, -21, -21]), -20);
}

#[test]
fn experiment_plans() {
    assert_eq!(sample_count(ExpType::Step), 150);
    assert_eq!(sample_count(ExpType::Disturbance), 200);
    assert_eq!(
        sample_plan(ExpType::Step, 290, 29),
        SamplePlan { setpoint_on: false, disturbance_on: false, control_now: false }
    );
    assert_eq!(
        sample_plan(ExpType::Step, 300, 30),
        SamplePlan { setpoint_on: true, disturbance_on: false, control_now: true }
    );
    assert_eq!(
        sample_plan(ExpType::Disturbance, 500, 50),
        SamplePlan { setpoint_on: true, disturbance_on: true, control_now: true }
    );
    assert_eq!(
        sample_plan(ExpType::Disturbance, 1000, 101),
        SamplePlan { setpoint_on: true, disturbance_on: false, control_now: false }
    );
}

#[test]
fn derivative_modes_differ() {
    assert_ne!(DerivativeMode::OnError, DerivativeMode::OnFeedback);
}
