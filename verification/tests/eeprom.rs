use rm32::control::state::{BemfState, DutyState, PidState, ProtectionState, Measurements, RawMeasurements, TimingState, TelemetryState, MotorInput, MotorState};
use rm32::config::{InputType, EEPROM_VERSION, EEPROM_SIZE, EepromConfig};

fn setup_valid_config(state: &mut MotorState) {
    let cfg = &mut state.config;
    cfg.eeprom_version = EEPROM_VERSION;
    cfg.motor_kv = 50;
    cfg.motor_poles = 14;
    cfg.advance_level = 16;
    cfg.beep_volume = 5;
    cfg.temperature_limit = 80;
    cfg.drag_brake_strength = 5;
    cfg.driving_brake_strength = 10;
    cfg.sine_mode_power = 5;
    cfg.sine_mode_changeover_throttle_level = 10;
    cfg.input_type = 0; // Auto
    cfg.max_ramp = 50;
}

#[test]
fn applies_defaults_for_old_version() {
    let mut state = MotorState::default();
    state.config.eeprom_version = 0;
    state.load_settings();
    assert_eq!(state.config.max_ramp, 160);
    assert_eq!(state.config.minimum_duty_cycle, 1);
    assert_eq!(state.config.current_p, 100);
    assert_eq!(state.config.current_d, 100);
}

#[test]
fn skips_defaults_for_current_version() {
    let mut state = MotorState::default();
    setup_valid_config(&mut state);
    state.config.max_ramp = 50;
    state.load_settings();
    assert_eq!(state.config.max_ramp, 50);
}

#[test]
fn advance_level_old_format_conversion() {
    let mut state = MotorState::default();
    setup_valid_config(&mut state);
    state.config.advance_level = 2;
    state.load_settings();
    assert_eq!(state.bemf.temp_advance, 16); // 2 << 3
    assert_eq!(state.config.advance_level, 26); // 16 + 10
}

#[test]
fn advance_level_new_format() {
    let mut state = MotorState::default();
    setup_valid_config(&mut state);
    state.config.advance_level = 20;
    state.load_settings();
    assert_eq!(state.bemf.temp_advance, 10); // 20 - 10
}

#[test]
fn advance_level_out_of_range() {
    let mut state = MotorState::default();
    setup_valid_config(&mut state);
    state.config.advance_level = 50;
    state.load_settings();
    assert_eq!(state.bemf.temp_advance, 16); // default
}

#[test]
fn input_type_auto() {
    let mut state = MotorState::default();
    setup_valid_config(&mut state);
    state.config.input_type = 0;
    state.load_settings();
    assert!(!state.input.dshot);
    assert!(!state.input.servo_pwm);
    assert!(state.input.edt_armed);
}

#[test]
fn input_type_dshot() {
    let mut state = MotorState::default();
    setup_valid_config(&mut state);
    state.config.input_type = 1;
    state.load_settings();
    assert!(state.input.dshot);
    assert!(state.input.edt_armed);
}

#[test]
fn input_type_servo() {
    let mut state = MotorState::default();
    setup_valid_config(&mut state);
    state.config.input_type = 2;
    state.load_settings();
    assert!(state.input.servo_pwm);
}

#[test]
fn input_type_edtarm() {
    let mut state = MotorState::default();
    setup_valid_config(&mut state);
    state.config.input_type = 4;
    state.load_settings();
    assert!(state.input.edt_arm_enable);
    assert!(!state.input.edt_armed);
    assert!(state.input.dshot);
}

#[test]
fn servo_thresholds() {
    let mut state = MotorState::default();
    setup_valid_config(&mut state);
    state.config.servo_low_threshold = 100;
    state.config.servo_high_threshold = 50;
    state.config.servo_neutral = 126;
    state.load_settings();
    assert_eq!(state.input.servo_low_threshold, 950); // 100*2 + 750
    assert_eq!(state.input.servo_high_threshold, 1850); // 50*2 + 1750
    assert_eq!(state.input.servo_neutral, 1500); // 126 + 1374
}

#[test]
fn current_limit_pid() {
    let mut state = MotorState::default();
    setup_valid_config(&mut state);
    state.config.current_p = 80;
    state.config.current_i = 10;
    state.config.current_d = 40;
    state.config.current_limit = 50;
    state.load_settings();
    assert_eq!(state.pid.current.kp, 160);
    assert_eq!(state.pid.current.ki, 10);
    assert_eq!(state.pid.current.kd, 80);
    assert!(state.pid.use_current_limit);
}
