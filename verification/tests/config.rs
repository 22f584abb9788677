use rm32::config::{InputType, EEPROM_VERSION, EEPROM_SIZE, EepromConfig};

#[test]
fn blank_flash_is_invalid() {
    // All 0xFF simulates erased flash
    let mut cfg = EepromConfig::default();
    for i in 0..EEPROM_SIZE {
        cfg.set_byte(i, 0xFF);
    }
    assert!(!cfg.is_valid()); // eeprom_version=255 > EEPROM_VERSION
}

#[test]
fn zero_init_is_valid() {
    let cfg = EepromConfig::default();
    assert!(cfg.is_valid()); // eeprom_version=0 <= EEPROM_VERSION
}

#[test]
fn current_version_is_valid() {
    let mut cfg = EepromConfig::default();
    cfg.eeprom_version = EEPROM_VERSION;
    assert!(cfg.is_valid());
}

#[test]
fn future_version_is_invalid() {
    let mut cfg = EepromConfig::default();
    cfg.eeprom_version = EEPROM_VERSION + 1;
    assert!(!cfg.is_valid());
}

#[test]
fn version_defaults_applied_for_old_config() {
    let mut cfg = EepromConfig::default(); // version=0
    cfg.apply_version_defaults();
    assert_eq!(cfg.eeprom_version, EEPROM_VERSION);
    assert_eq!(cfg.max_ramp, 160);
    assert_eq!(cfg.minimum_duty_cycle, 1);
    assert_eq!(cfg.current_p, 100);
    assert_eq!(cfg.current_d, 100);
    assert_eq!(cfg.absolute_voltage_cutoff, 10);
}

#[test]
fn version_defaults_not_applied_for_current_config() {
    let mut cfg = EepromConfig::default();
    cfg.eeprom_version = EEPROM_VERSION;
    cfg.max_ramp = 42; // custom value
    cfg.apply_version_defaults();
    assert_eq!(cfg.max_ramp, 42); // should NOT be overwritten
}

#[test]
fn blank_flash_fallback_produces_safe_defaults() {
    // Simulate the full main.rs load path
    let mut cfg = EepromConfig::default();
    for i in 0..EEPROM_SIZE {
        cfg.set_byte(i, 0xFF);
    }
    if !cfg.is_valid() {
        cfg = EepromConfig::default();
    }
    cfg.apply_version_defaults();
    assert_eq!(cfg.eeprom_version, EEPROM_VERSION);
    assert_eq!(cfg.max_ramp, 160);
    assert_eq!(cfg.motor_kv, 0); // zero-init default
}
