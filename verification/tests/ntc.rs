use rm32::ntc::{ntc_degrees};
use rm32::units::{MilliVolts, MilliAmps, DegreesCelsius, TimerTicks, AdcCount, calc_temperature_pure};

#[test]
fn ntc_cold_is_low() {
    // High ADC = cold (NTC resistance high, voltage divider pulls high)
    let t = ntc_degrees(3500);
    assert!(t.0 <= 10, "expected cold, got {}", t.0);
}

#[test]
fn ntc_hot_is_high() {
    // Low ADC = hot (NTC resistance low)
    let t = ntc_degrees(100);
    assert!(t.0 >= 100, "expected hot, got {}", t.0);
}

#[test]
fn ntc_midrange() {
    let t = ntc_degrees(1000);
    assert!(t.0 > 30 && t.0 < 80, "expected midrange, got {}", t.0);
}
