use std::cell::RefCell;
use std::rc::Rc;

use rm32::board::BoardConfig;
use rm32::commutation::Commutation;
use rm32::config::EepromConfig;
use rm32::control::state::PidState;
use rm32::hal::{HalLog, PhaseOutput, PwmOutput, System};
use rm32::motor_mode::MotorMode;
use rm32::shared_comm::{SharedComm, SharedData};
use rm32::sounds::Sounds;
use rm32::system::SystemTick;
use rm32::units::{DegreesCelsius, MilliAmps};

type Log = Rc<RefCell<Vec<String>>>;

struct Pwm(Log);
struct Phase(Log);
struct Sys(Log);

impl HalLog for Pwm {}

impl PwmOutput for Pwm {
    fn set_duty_all(&mut self, duty: u16) {
        self.0.borrow_mut().push(format!("duty {}", duty));
    }
    fn set_auto_reload(&mut self, arr: u16) {
        self.0.borrow_mut().push(format!("arr {}", arr));
    }
    fn set_prescaler(&mut self, psc: u16) {
        self.0.borrow_mut().push(format!("psc {}", psc));
    }
    fn set_compare1(&mut self, _val: u16) {}
    fn set_compare2(&mut self, _val: u16) {}
    fn set_compare3(&mut self, _val: u16) {}
    fn generate_update_event(&mut self) {}
}

impl HalLog for Phase {}

impl PhaseOutput for Phase {
    fn com_step(&mut self, step: u8) {
        self.0.borrow_mut().push(format!("step {}", step));
    }
    fn all_off(&mut self) {
        self.0.borrow_mut().push("off".to_string());
    }
    fn full_brake(&mut self) {}
    fn all_pwm(&mut self) {}
    fn proportional_brake(&mut self) {}
}

impl HalLog for Sys {}

impl System for Sys {
    fn enable_irq(&mut self) {
        self.0.borrow_mut().push("irq on".to_string());
    }
    fn disable_irq(&mut self) {
        self.0.borrow_mut().push("irq off".to_string());
    }
    fn reload_watchdog(&mut self) {
        self.0.borrow_mut().push("wdt".to_string());
    }
    fn delay_micros(&mut self, us: u32) {
        self.0.borrow_mut().push(format!("us {}", us));
    }
    fn delay_millis(&mut self, ms: u32) {
        self.0.borrow_mut().push(format!("ms {}", ms));
    }
}

fn devices() -> (Log, Pwm, Phase, Sys) {
    let log: Log = Rc::new(RefCell::new(Vec::new()));
    (log.clone(), Pwm(log.clone()), Phase(log.clone()), Sys(log))
}

fn note(arr: u16, psc: u16, vol: u16, step: u8, ms: u32) -> Vec<String> {
    vec![
        format!("arr {}", arr),
        format!("psc {}", psc),
        format!("duty {}", vol),
        format!("step {}", step),
        format!("ms {}", ms),
        "wdt".to_string(),
    ]
}

fn silence(arr: u16) -> Vec<String> {
    vec!["off".to_string(), "psc 0".to_string(), format!("arr {}", arr)]
}

#[test]
fn startup_tune_plays_three_notes_with_interrupts_off() {
    let (log, mut pwm, mut phase, mut sys) = devices();
    let s = Sounds::new(1999);
    s.play_startup(&mut pwm, &mut phase, &mut sys);
    let mut expected = vec!["irq off".to_string()];
    expected.extend(note(1999, 55, 15, 3, 200));
    expected.extend(note(1999, 40, 15, 5, 200));
    expected.extend(note(1999, 25, 15, 1, 200));
    expected.extend(silence(1999));
    expected.push("irq on".to_string());
    assert_eq!(*log.borrow(), expected);
}

#[test]
fn default_and_changed_tones_differ() {
    let (log, mut pwm, mut phase, mut sys) = devices();
    let s = Sounds::new(1999);
    s.play_default(&mut pwm, &mut phase, &mut sys);
    let mut expected = note(1999, 50, 15, 2, 150);
    expected.extend(note(1999, 30, 15, 2, 150));
    expected.extend(silence(1999));
    assert_eq!(*log.borrow(), expected);
    log.borrow_mut().clear();
    s.play_changed(&mut pwm, &mut phase, &mut sys);
    let mut expected = note(1999, 40, 15, 2, 150);
    expected.extend(note(1999, 80, 15, 2, 150));
    expected.extend(silence(1999));
    assert_eq!(*log.borrow(), expected);
}

#[test]
fn beacon_sweeps_sixty_notes() {
    let (log, mut pwm, mut phase, mut sys) = devices();
    let s = Sounds::new(1999);
    s.play_beacon(&mut pwm, &mut phase, &mut sys);
    let log = log.borrow();
    assert_eq!(log.iter().filter(|e| e.starts_with("step")).count(), 60);
    assert_eq!(log[0], "irq off");
    assert_eq!(log[1], "wdt");
    assert_eq!(&log[2..8], &note(1999, 69, 15, 5, 10)[..]);
    let n = log.len();
    assert_eq!(&log[n - 10..n - 4], &note(1999, 10, 15, 0, 10)[..]);
    assert_eq!(log[n - 1], "irq on");
}

#[test]
fn brushed_startup_and_dusking_tunes() {
    let (log, mut pwm, mut phase, mut sys) = devices();
    let mut s = Sounds::new(1000);
    s.set_volume(2);
    s.play_brushed_startup(&mut pwm, &mut phase, &mut sys);
    let mut expected = vec!["irq off".to_string()];
    for (psc, step) in [(40u16, 1u8), (30, 2), (25, 3), (20, 4)] {
        expected.extend(note(1000, psc, 6, step, 300));
    }
    expected.extend(silence(1000));
    expected.push("irq on".to_string());
    assert_eq!(*log.borrow(), expected);
    log.borrow_mut().clear();
    s.play_dusking(&mut pwm, &mut phase, &mut sys);
    assert_eq!(log.borrow().iter().filter(|e| e.starts_with("step")).count(), 8);
}

#[test]
fn input_tunes_have_their_notes() {
    let (log, mut pwm, mut phase, mut sys) = devices();
    let s = Sounds::new(1999);
    s.play_input(&mut pwm, &mut phase, &mut sys);
    let mut expected = vec!["irq off".to_string()];
    for psc in [80u16, 70, 40] {
        expected.extend(note(1999, psc, 15, 3, 100));
    }
    expected.extend(silence(1999));
    expected.push("irq on".to_string());
    assert_eq!(*log.borrow(), expected);
    log.borrow_mut().clear();
    s.play_input2(&mut pwm, &mut phase, &mut sys);
    let mut expected = vec!["irq off".to_string()];
    for psc in [60u16, 80, 90] {
        expected.extend(note(1999, psc, 15, 1, 75));
    }
    expected.extend(silence(1999));
    expected.push("irq on".to_string());
    assert_eq!(*log.borrow(), expected);
}

#[test]
fn note_at_a_frequency() {
    let (log, mut pwm, mut phase, mut sys) = devices();
    let s = Sounds::new(1999);
    assert_eq!(s.note_timing(1000, 48), (4800, 36));
    s.play_note_freq(&mut pwm, &mut phase, &mut sys, 1000, 250, 48);
    let expected: Vec<String> = ["psc 9", "arr 4800", "duty 36", "step 3", "ms 250"].iter().map(|e| e.to_string()).collect();
    assert_eq!(*log.borrow(), expected);
}

#[test]
fn volume_is_capped() {
    let mut s = Sounds::new(1999);
    s.set_volume(5);
    assert_eq!(s.volume, 15);
    s.set_volume(20);
    assert_eq!(s.volume, 33);
    s.set_volume(0);
    assert_eq!(s.volume, 0);
    assert_eq!(s.tim1_autoreload, 1999);
}

#[test]
fn unit_conversions() {
    assert_eq!(MilliAmps(1234).to_centiamps(), 123);
    assert_eq!(MilliAmps(-25).to_centiamps(), 65534);
    assert_eq!(DegreesCelsius(-5).to_i8(), -5);
    assert_eq!(DegreesCelsius(300).to_i8(), 44);
}

#[test]
fn config_flag_accessors() {
    let mut c = EepromConfig::default();
    c.dir_reversed = 1;
    c.bi_direction = 0;
    c.comp_pwm = 2;
    c.stuck_rotor_protection = 0;
    c.stall_protection = 1;
    c.low_voltage_cut_off = 2;
    c.disable_stick_calibration = 1;
    c.rc_car_reverse = 0;
    assert!(c.is_dir_reversed());
    assert!(!c.is_bidirectional());
    assert!(c.use_comp_pwm());
    assert!(!c.has_stuck_rotor_protection());
    assert!(c.has_stall_protection());
    assert!(c.has_low_voltage_cutoff());
    assert!(c.is_lvc_absolute());
    assert!(!c.is_lvc_per_cell());
    assert!(c.disable_stick_cal());
    assert!(!c.is_rc_car_reverse());
    c.low_voltage_cut_off = 1;
    assert!(c.is_lvc_per_cell() && !c.is_lvc_absolute());
    c.low_voltage_cut_off = 0;
    assert!(!c.has_low_voltage_cutoff() && !c.is_lvc_per_cell() && !c.is_lvc_absolute());
}

#[test]
fn board_presets() {
    let g = BoardConfig::generic();
    assert_eq!((g.dead_time, g.voltage_divider, g.millivolt_per_amp, g.current_offset), (60, 110, 20, 0));
    assert_eq!((g.current_adc_channel, g.voltage_adc_channel, g.stall_protect_interval, g.min_bemf_counts), (4, 6, 6500, 2));
    assert!(!g.has_led && g.led_pin.is_none());
    let b = BoardConfig::gen_64k_g071();
    assert!(b.has_led && b.led_pin == Some(8));
    let b = BoardConfig::tbs_4in1_g071();
    assert_eq!((b.current_adc_channel, b.voltage_adc_channel), (5, 6));
    for b in [BoardConfig::tbs_12s_g071(), BoardConfig::iflight_12s_g071()] {
        assert_eq!((b.dead_time, b.voltage_divider, b.millivolt_per_amp), (80, 210, 25));
    }
    for b in [BoardConfig::flycolor_g071(), BoardConfig::mamba_f55_g071()] {
        assert_eq!(b.dead_time, 40);
    }
    for b in [BoardConfig::siskin_f051(), BoardConfig::wraith32v2_f051()] {
        assert_eq!((b.dead_time, b.current_adc_channel, b.voltage_adc_channel, b.millivolt_per_amp), (45, 6, 3, 20));
    }
    let b = BoardConfig::iflight_f051();
    assert_eq!((b.dead_time, b.millivolt_per_amp, b.current_adc_channel, b.voltage_adc_channel), (45, 30, 6, 3));
    let b = BoardConfig::neutron_l431();
    assert_eq!((b.voltage_divider, b.millivolt_per_amp, b.current_offset, b.current_adc_channel, b.voltage_adc_channel), (210, 16, 498, 8, 11));
    let b = BoardConfig::vimdrones_l431();
    assert_eq!((b.voltage_divider, b.millivolt_per_amp, b.current_offset), (210, 8, 498));
}

#[test]
fn commutation_records_interval_of_current_step() {
    let mut c = Commutation::new();
    c.advance();
    let step = c.step;
    c.record_interval(1234);
    assert_eq!(c.intervals[step as usize - 1], 1234);
    assert_eq!(c.intervals.iter().filter(|v| **v != 0).count(), 1);
    assert_eq!(c.step, step);
}

#[test]
fn motor_mode_queries() {
    assert!(MotorMode::OldRoutine.is_old_routine());
    assert!(!MotorMode::Running.is_old_routine());
    assert!(MotorMode::StepperSine.is_stepper_sine());
    assert!(!MotorMode::Armed.is_stepper_sine());
}

#[test]
fn sine_idle_brake_policy() {
    let mut c = EepromConfig::default();
    c.brake_on_stop = 1;
    c.drag_brake_strength = 5;
    assert!(SystemTick::handle_sine_idle(&c, 1999));
    c.drag_brake_strength = 10;
    assert!(!SystemTick::handle_sine_idle(&c, 1999));
    c.brake_on_stop = 0;
    c.drag_brake_strength = 5;
    assert!(!SystemTick::handle_sine_idle(&c, 1999));
    c.brake_on_stop = 1;
    c.drag_brake_strength = 11;
    assert!(!SystemTick::handle_sine_idle(&c, 5));
    c.drag_brake_strength = 0;
    assert!(SystemTick::handle_sine_idle(&c, 100));
    assert!(!SystemTick::handle_sine_idle(&c, 99));
}

#[test]
fn stall_protection_boosts_slow_motor() {
    let mut p = PidState::with_stall_target(6500);
    assert_eq!(p.stall_protect_target_interval, 6500);
    assert_eq!(p.tick_stall(20000), 5);
    assert_eq!(p.stall_adjust, 50000);
    assert_eq!(p.tick_stall(20000), 6);
    assert_eq!(p.stall_adjust, 63500);
    let mut p = PidState::with_stall_target(6500);
    assert_eq!(p.tick_stall(1000), 0);
    assert_eq!(p.stall_adjust, 0);
}

#[test]
fn current_limit_lowers_ceiling() {
    let mut p = PidState::default();
    assert_eq!(p.tick_current_limit(500, 300, 100, true), 2000);
    p.set_use_current_limit(true);
    p.set_current_gains(400, 0, 1000);
    assert_eq!(p.tick_current_limit(500, 300, 100, true), 1990);
    assert_eq!(p.tick_current_limit(500, 300, 100, true), 1982);
    assert_eq!(p.tick_current_limit(500, 300, 100, false), 2000);
    assert_eq!(p.current_limit_adjust, 2000);
}

#[test]
fn speed_control_overrides_throttle_when_enabled() {
    let mut p = PidState::default();
    p.target_e_com_time = 1000;
    assert_eq!(p.tick_speed_control(3000, 200, true), None);
    p.set_use_speed_control(true);
    assert_eq!(p.tick_speed_control(3000, 200, false), None);
    assert_eq!(p.tick_speed_control(3000, 50, true), Some(5));
    assert_eq!(p.input_override, 50000);
}

#[test]
fn shared_data_published_values_have_defaults() {
    let mut s = SharedData::new();
    assert_eq!(s.tim1_arr(), 1999);
    assert_eq!(s.duty_maximum(), 2000);
    assert_eq!(s.filter_level(), 5);
    assert_eq!(s.min_bemf_counts(), 2);
    assert_eq!(s.auto_advance(), 0);
    assert_eq!(s.interval_timer_count(), 0);
    assert!(!s.is_dshot() && !s.save_settings_flag() && !s.send_esc_info_flag());
    assert!(s.forward());
    assert_eq!(s.duty_cycle(), 0);
    assert_eq!(s.e_com_time(), 0);
    assert_eq!(s.commutation_interval(), 12500);
    s.set_tim1_arr(1000);
    s.set_duty_maximum(10);
    s.set_e_com_time(5);
    s.set_battery_voltage(16800);
    assert_eq!(s.tim1_arr(), 1000);
    assert_eq!(s.duty_maximum(), 10);
    assert_eq!(s.e_com_time(), 5);
    assert_eq!(s.battery_voltage(), 16800);
}
