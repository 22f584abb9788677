use rm32::signal::{SignalType, detect_input, compute_servo_unidirectional};

#[test]
fn detect_dshot600() {
    let mut buf = [0u32; 32];
    for i in 0..32 { buf[i] = 100 + i as u32 * 3; }
    assert_eq!(detect_input(&buf, 48), SignalType::Dshot600);
}

#[test]
fn detect_servo() {
    let mut buf = [0u32; 32];
    for i in 0..32 { buf[i] = 100 + i as u32 * 1000; }
    assert_eq!(detect_input(&buf, 48), SignalType::ServoPwm);
}

#[test]
fn detect_out_of_range() {
    let buf = [0u32; 32]; // all zeros, no valid pulses
    assert_eq!(detect_input(&buf, 48), SignalType::NoSignal);
}

#[test]
fn signal_servo_unidirectional_mid() {
    let val = compute_servo_unidirectional(1500, 1100, 1900);
    assert!(val > 900 && val < 1200); // roughly mid-range
}

#[test]
fn servo_unidirectional_below_threshold() {
    let val = compute_servo_unidirectional(1050, 1100, 1900);
    assert_eq!(val, 0);
}

#[test]
fn servo_unidirectional_max() {
    let val = compute_servo_unidirectional(1900, 1100, 1900);
    assert_eq!(val, 2047);
}

#[test]
fn detect_dshot300() {
    let mut buf = [0u32; 32];
    for i in 0..32 { buf[i] = 100 + i as u32 * 5; }
    assert_eq!(detect_input(&buf, 48), SignalType::Dshot300);
}

#[test]
fn detect_rejects_ambiguous() {
    let mut buf = [0u32; 32];
    for i in 0..32 { buf[i] = 100 + i as u32 * 12; } // smallest=12, >8
    // average = 12*31/32 ~ 11, not matching servo (>200) either
    assert_eq!(detect_input(&buf, 48), SignalType::NoSignal);
}

#[test]
fn servo_mid_range_bidir_below_neutral() {
    // Below neutral: maps 0-1000
    let val = compute_servo_unidirectional(1300, 1100, 1900);
    assert!(val > 0 && val < 2047);
}

#[test]
fn servo_at_threshold_is_zero() {
    // Exactly at low threshold: map returns out_min=47, then 47 <= 48 -> 0
    let val = compute_servo_unidirectional(1100, 1100, 1900);
    assert_eq!(val, 0);
}
