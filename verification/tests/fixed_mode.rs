use rm32::fixed_mode::{fixed_duty_input, fixed_speed_target};

#[test]
fn fixed_duty_100_percent() {
    assert_eq!(fixed_duty_input(100), 2047);
}

#[test]
fn fixed_duty_0_percent() {
    assert_eq!(fixed_duty_input(0), 47);
}

#[test]
fn fixed_speed_1000rpm_14pole() {
    let target = fixed_speed_target(1000, 14);
    // 60_000_000 / 1000 / 7 = 8571
    assert_eq!(target, 8571);
}
