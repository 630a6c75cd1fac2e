use emg_claw::claw::ClawController;
use emg_claw::control::{ConfigError, Control1, Control2, ControlLaw};

/// Thousandths nearest to `x`, as an `f32` would hold it.
fn milli(x: f32) -> i32 {
    (x * 1000.0).round() as i32
}

/// Millionths nearest to `x`.
fn micro(x: f64) -> i64 {
    (x * 1_000_000.0).round() as i64
}

#[test]
#[allow(non_snake_case)]
fn test_Compute1_case1() {
    let controller = Control1::new(milli(0.5), milli(0.1));

    assert_eq!(controller.compute_target_angle(milli(0.0)), micro(0.0));
    assert_eq!(controller.compute_target_angle(milli(0.05)), micro(0.0));
    assert_eq!(controller.compute_target_angle(milli(-0.09)), micro(0.0));
    assert_eq!(controller.compute_target_angle(milli(0.1)), micro(0.0));
    assert_eq!(controller.compute_target_angle(milli(-0.1)), micro(0.0));
    assert_eq!(controller.compute_target_angle(milli(0.09999999999999)), micro(0.0));
}

#[test]
#[allow(non_snake_case)]
fn test_Compute2_case1() {
    let mut controller = Control2::new(milli(0.5), milli(0.1), milli(0.5)).unwrap();

    assert_eq!(controller.compute_target_angle(milli(1.0)), micro(0.25));
}

#[test]
fn undamped_scenario_with_boundaries() {
    let c = Control1::new(500, 100);
    assert_eq!(c.compute_target_angle(0), 0);
    assert_eq!(c.compute_target_angle(50), 0);
    assert_eq!(c.compute_target_angle(-90), 0);
    assert_eq!(c.compute_target_angle(100), 0);
    assert_eq!(c.compute_target_angle(-100), 0);
    assert_eq!(c.compute_target_angle(300), 150_000);
}

#[test]
fn undamped_proportional_on_both_sides() {
    let c = Control1::new(500, 100);
    assert_eq!(c.compute_target_angle(101), 50_500);
    assert_eq!(c.compute_target_angle(-101), 50_500);
    assert_eq!(c.compute_target_angle(-1000), 500_000);
    assert_eq!(c.compute_target_angle(2000), 1_000_000);
}

#[test]
fn undamped_extreme_values_do_not_overflow() {
    let c = Control1::new(i32::MIN, 0);
    assert_eq!(c.compute_target_angle(i32::MIN), -(1i64 << 62));
    assert_eq!(c.compute_target_angle(i32::MAX), i32::MAX as i64 * i32::MIN as i64);
}

#[test]
fn damped_first_call_is_a_quarter() {
    let mut c = Control2::new(500, 100, 500).unwrap();
    assert_eq!(c.compute_target_angle(1000), 250_000);
    assert_eq!(c.compute_target_angle(1000), 375_000);
    assert_eq!(c.compute_target_angle(0), 187_500);
}

#[test]
fn damped_rounds_toward_the_held_angle() {
    let mut c = Control2::new(1, 0, 300).unwrap();
    // desired 1, 30% of the way is 0.3, rounded toward the held angle 0.
    assert_eq!(c.compute_target_angle(1), 0);
    let mut d = Control2::new(1, 0, 300).unwrap();
    assert_eq!(d.compute_target_angle(10), 3);
    assert_eq!(d.compute_target_angle(0), 3);
    // a negative activation beyond the deadzone aims at the positive angle 10.
    assert_eq!(d.compute_target_angle(-10), 5);
}

#[test]
fn damped_stays_between_held_and_desired() {
    let mut c = Control2::new(500, 100, 250).unwrap();
    let mut held: i64 = 0;
    for a in [1000, 300, -800, 0, 50, 2000, -2000] {
        let undamped = Control1::new(500, 100).compute_target_angle(a);
        let r = c.compute_target_angle(a);
        assert!(held.min(undamped) <= r && r <= held.max(undamped));
        held = r;
    }
}

#[test]
fn full_responsiveness_matches_undamped() {
    let mut damped = Control2::new(500, 100, 1000).unwrap();
    let undamped = Control1::new(500, 100);
    for a in [0, 1000, 300, -800, 100, -101, 50, 2000, -2000, 7] {
        assert_eq!(damped.compute_target_angle(a), undamped.compute_target_angle(a));
    }
}

#[test]
fn responsiveness_out_of_range_is_refused() {
    assert_eq!(Control2::new(500, 100, 0).err(), Some(ConfigError::ResponsivenessOutOfRange));
    assert_eq!(Control2::new(500, 100, -5).err(), Some(ConfigError::ResponsivenessOutOfRange));
    assert_eq!(Control2::new(500, 100, 1001).err(), Some(ConfigError::ResponsivenessOutOfRange));
    assert!(Control2::new(500, 100, 1).is_ok());
    assert!(Control2::new(500, 100, 1000).is_ok());
}

#[test]
fn law_variants_share_one_capability() {
    let mut undamped = ControlLaw::Undamped(Control1::new(500, 100));
    let mut damped = ControlLaw::Damped(Control2::new(500, 100, 500).unwrap());
    assert_eq!(undamped.compute_target_angle(1000), 500_000);
    assert_eq!(undamped.compute_target_angle(1000), 500_000);
    assert_eq!(damped.compute_target_angle(1000), 250_000);
    assert_eq!(damped.compute_target_angle(1000), 375_000);
}

#[test]
fn torque_is_gain_times_error() {
    let mut claw = ClawController::new(10_000);
    assert_eq!(claw.compute_torque(0), 0);
    claw.set_target(150_000);
    assert_eq!(claw.target(), 150_000);
    assert_eq!(claw.compute_torque(50_000), 1_000_000_000);
    assert_eq!(claw.compute_torque(150_000), 0);
    assert_eq!(claw.compute_torque(250_000), -1_000_000_000);
    assert_eq!(claw.compute_torque(100_000) - claw.compute_torque(120_000), 10_000 * 20_000);
}

#[test]
fn torque_extremes_do_not_overflow() {
    let mut claw = ClawController::new(i32::MIN);
    claw.set_target(i64::MAX);
    assert_eq!(claw.compute_torque(i64::MIN), i32::MIN as i128 * (u64::MAX as i128));
}
