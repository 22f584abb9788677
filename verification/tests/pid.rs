use rm32::pid::{Pid};

#[test]
fn proportional_response() {
    let mut pid = Pid::new(100, 0, 0, 10000, 50000);
    let out = pid.calculate(500, 400);
    assert_eq!(out, 10000);
    assert_eq!(pid.error, 100);
}

#[test]
fn output_clamping() {
    let mut pid = Pid::new(1000, 0, 0, 10000, 5000);
    assert_eq!(pid.calculate(500, 400), 5000);
    assert_eq!(pid.calculate(400, 500), -5000);
}

#[test]
fn integral_accumulation() {
    let mut pid = Pid::new(0, 10, 0, 10000, 50000);
    pid.calculate(150, 100);
    pid.calculate(150, 100);
    let out = pid.calculate(150, 100);
    assert_eq!(pid.integral, 1500);
    assert_eq!(out, 1500);
}

#[test]
fn integral_anti_windup() {
    let mut pid = Pid::new(0, 100, 0, 1000, 50000);
    pid.calculate(200, 100); // integral = 10000 -> clamped to 1000
    assert_eq!(pid.integral, 1000);

    let mut pid = Pid::new(0, 100, 0, 1000, 50000);
    pid.calculate(100, 200); // integral = -10000 -> clamped to -1000
    assert_eq!(pid.integral, -1000);
}

#[test]
fn reset_clears_state() {
    let mut pid = Pid::new(100, 10, 10, 10000, 50000);
    pid.calculate(500, 400);
    pid.calculate(500, 400);
    pid.reset();
    assert_eq!(pid.integral, 0);
    assert_eq!(pid.last_error, 0);
    assert_eq!(pid.pid_output, 0);
}

#[test]
fn zero_gains_zero_output() {
    let mut pid = Pid::new(0, 0, 0, 10000, 50000);
    assert_eq!(pid.calculate(500, 400), 0);
}

#[test]
fn negative_error() {
    let mut pid = Pid::new(100, 0, 0, 10000, 50000);
    let out = pid.calculate(200, 500);
    assert_eq!(out, -30000); // (200-500)*100
}

#[test]
fn derivative_response() {
    let mut pid = Pid::new(0, 0, 10, 10000, 50000);
    pid.calculate(150, 100); // derivative = 10*(50-0) = 500
    assert_eq!(pid.derivative, 500);
    let out = pid.calculate(170, 100); // derivative = 10*(70-50) = 200
    assert_eq!(pid.derivative, 200);
    assert_eq!(out, 200);
}
