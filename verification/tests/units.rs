use rm32::units::{MilliVolts, MilliAmps, DegreesCelsius, TimerTicks, AdcCount, calc_temperature_pure};

#[test]
fn millivolts_centivolts() {
    assert_eq!(MilliVolts(16800).to_centivolts(), 1680);
}

#[test]
fn millivolts_cell_threshold() {
    let v = MilliVolts(10000); // 10V
    assert!(v.below_cell_threshold(3, 3700)); // 3 * 3.7V = 11.1V > 10V
    assert!(!v.below_cell_threshold(2, 3700)); // 2 * 3.7V = 7.4V < 10V
}

#[test]
fn adc_to_millivolts() {
    let count = AdcCount(2048); // mid-range
    let mv = count.to_millivolts(110); // 11:1 divider
    assert!(mv.0 > 1500 && mv.0 < 2000);
}

#[test]
fn adc_to_milliamps() {
    let count = AdcCount(2048);
    let ma = count.to_milliamps(498, 20);
    assert!(ma.0 > 5000 && ma.0 < 6000); // ~5750mA
}

#[test]
fn timer_ticks_to_erpm() {
    assert_eq!(TimerTicks(600).to_erpm_100(), 1000); // 100k eRPM
    assert_eq!(TimerTicks(0).to_erpm_100(), 0);
}

// --- Temperature calculation tests (pure math, no hardware) ---

#[test]
fn temp_at_cal1_returns_cal1_temp() {
    // raw == ts_cal1 → should return cal1_temp exactly
    assert_eq!(calc_temperature_pure(1000, 1000, 1500, 30, 130), DegreesCelsius(30));
}

#[test]
fn temp_at_cal2_returns_cal2_temp() {
    assert_eq!(calc_temperature_pure(1500, 1000, 1500, 30, 130), DegreesCelsius(130));
}

#[test]
fn temp_midpoint() {
    // Midpoint between cal1 and cal2
    let mid = calc_temperature_pure(1250, 1000, 1500, 30, 130);
    assert_eq!(mid, DegreesCelsius(80)); // (30+130)/2 = 80
}

#[test]
fn temp_equal_cals_returns_25() {
    assert_eq!(calc_temperature_pure(1234, 1000, 1000, 30, 130), DegreesCelsius(25));
}

#[test]
fn temp_f051_range() {
    // F051: cal1=30C, cal2=110C. Typical cal values ~700, ~900
    let t = calc_temperature_pure(800, 700, 900, 30, 110);
    assert_eq!(t, DegreesCelsius(70)); // 50% of range = (30+110)/2 = 70
}

#[test]
fn adc_zero_offset_current() {
    // Zero offset, 20 mv/A: mid-range ADC = ~4024 mA
    let ma = AdcCount(2048).to_milliamps(0, 20);
    assert!(ma.0 > 8000, "expected high mA with zero offset, got {}", ma.0);
}

#[test]
fn adc_zero_mvperamp_returns_zero() {
    assert_eq!(AdcCount(2048).to_milliamps(498, 0), MilliAmps(0));
}
