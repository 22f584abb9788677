use rm32::input_mapping::{BidirResult, dshot_bidir, dshot_rc_car, servo_bidir, servo_rc_car, SINE_DEAD_BAND, SINE_MID_THROTTLE, SINE_SLOW_STEP_MIN, SINE_DUTY_OFFSET, sine_start_map, throttle_to_setpoint, clamp_startup_duty};

#[test]
fn sine_start_map_below_deadband() {
    assert_eq!(sine_start_map(20, 10), 0);
}

#[test]
fn sine_start_map_in_range() {
    let v = sine_start_map(100, 10); // changeover = 200
    assert!(v >= 47 && v <= 160);
}

#[test]
fn sine_start_map_above_changeover() {
    let v = sine_start_map(500, 10); // changeover = 200
    assert!(v > 160);
}

#[test]
fn throttle_to_setpoint_normal() {
    let sp = throttle_to_setpoint(1000, false, 50);
    assert!(sp > 50 && sp < 2000);
}

#[test]
fn throttle_to_setpoint_sine() {
    let sp = throttle_to_setpoint(1000, true, 50);
    assert!(sp > 50 && sp < 2000);
}

#[test]
fn dshot_bidir_forward() {
    let r = dshot_bidir(1500, true, false, 5000, 100, false, 1500);
    assert!(r.adjusted > 0);
    assert!(!r.reverse);
}

#[test]
fn dshot_bidir_zero_input() {
    let r = dshot_bidir(0, true, false, 5000, 100, false, 1500);
    assert_eq!(r.adjusted, 0);
}

#[test]
fn clamp_startup_limits() {
    // During startup (low zero_crosses), clamp to min_startup
    assert_eq!(clamp_startup_duty(10, 100, 5, 0, 120, 200, 2000), 120);
    // Above startup_max
    assert_eq!(clamp_startup_duty(300, 100, 5, 0, 120, 200, 2000), 200);
    // After startup (high zero_crosses), no clamping
    assert_eq!(clamp_startup_duty(300, 100, 100, 0, 120, 200, 2000), 300);
}
