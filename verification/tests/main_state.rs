use rm32::motor_mode::MotorMode;
use rm32::shared_comm::{SharedComm, SharedData};
use rm32::main_state::{variable_pwm_mode1, variable_pwm_mode2, duty_ceiling, NoLed};

// --- Variable PWM mode 2 ---

#[test]
fn vpwm2_clamps_low() {
    // avg < 100 → floor at 100 * scale
    assert_eq!(variable_pwm_mode2(50, 64), (100 * (64 / 9)) as u16);
}

#[test]
fn vpwm2_clamps_high() {
    // avg >= 250 → ceiling at 250 * scale
    assert_eq!(variable_pwm_mode2(300, 64), (250 * (64 / 9)) as u16);
}

#[test]
fn vpwm2_scales_mid() {
    // 100 <= avg < 250 → avg * scale
    assert_eq!(variable_pwm_mode2(150, 64), (150 * (64 / 9)) as u16);
}

#[test]
fn vpwm2_zero_interval_clamps_high() {
    assert_eq!(variable_pwm_mode2(0, 64), (250 * (64 / 9)) as u16);
}

// --- Variable PWM mode 1 ---

#[test]
fn vpwm1_fast_interval() {
    let arr = variable_pwm_mode1(96, 1999);
    assert_eq!(arr, 999); // maps to max_arr/2
}

#[test]
fn vpwm1_slow_interval() {
    let arr = variable_pwm_mode1(200, 1999);
    assert_eq!(arr, 1999); // maps to max_arr
}

// --- Duty ceiling ---

#[test]
fn duty_ceiling_no_limits() {
    assert_eq!(duty_ceiling(0, 2000, 14, 25, 80), 2000);
}

#[test]
fn duty_ceiling_temp_reduces() {
    let dc = duty_ceiling(0, 2000, 14, 85, 80);
    assert!(dc < 2000, "expected reduced duty, got {}", dc);
}

#[test]
fn duty_ceiling_high_poles_no_panic() {
    // motor_poles > 32 must not divide by zero
    let dc = duty_ceiling(1000, 2000, 40, 25, 80);
    assert!(dc > 0);
}

#[test]
fn duty_ceiling_takes_minimum() {
    // Both limits active → should return the lower one
    let dc = duty_ceiling(100, 2000, 14, 85, 80);
    assert!(dc < 2000);
}

fn main_state_for_tick() -> rm32::main_state::MainState {
    rm32::main_state::MainState {
        protection: rm32::control::state::ProtectionState::default(),
        measurements: rm32::control::state::Measurements::default(),
        telemetry: rm32::control::state::TelemetryState::default(),
        config: rm32::config::EepromConfig::default(),
        current_pid: rm32::pid::Pid::new(400, 0, 1000, 20000, 100000),
        speed_pid: rm32::pid::Pid::new(10, 0, 100, 10000, 50000),
        stall_pid: rm32::pid::Pid::new(1, 0, 50, 10000, 50000),
        e_rpm: 0,
        average_interval: 0,
        last_average_interval: 0,
        commutation_intervals: [1000; 6],
        cell_count: 0,
        motor_kv: 2000,
        low_cell_volt_cutoff: 330,
        voltage_divider: 110,
        millivolt_per_amp: 20,
        current_offset: 0,
        stall_protection_adjust: 0,
        stall_protect_target_interval: 6500,
        use_speed_control_loop: false,
        speed_input_override: 0,
        target_e_com_time: 0,
        desync_check: false,
        current_filter: rm32::current::CurrentFilter::new(),
        voltage_filter: rm32::filter::EwmaPow2::new(),
        last_armed: false,
        just_armed: false,
        use_ntc: true,
        led_counter: 0,
        timer1_max_arr: 1999,
        cpu_mhz: 64,
        ten_khz_counter: 0,
    }
}

#[test]
fn main_tick_step_publishes_timing_and_limits() {
    let mut m = main_state_for_tick();
    let mut s = SharedData::new();
    s.zero_crosses = 200;
    s.adjusted_input = 500;
    s.send_telemetry = true;
    let r = rm32::main_state::AdcReadings {
        raw_voltage: 1000,
        raw_current: 0,
        raw_temperature: 4000,
        internal_temperature: rm32::units::DegreesCelsius(30),
    };
    let a = m.tick_step(&mut s, r);
    // e_com_time = (6000 + 4) / 2
    assert_eq!(s.e_com_time(), 3002);
    assert_eq!(m.average_interval, 1000);
    assert_eq!(m.protection.bemf_timeout, 10);
    assert_eq!(s.min_bemf_counts(), 2);
    assert_eq!(s.tim1_arr(), 1999);
    assert_eq!(m.measurements.degrees_celsius.0, 0);
    assert!(a.telemetry.is_some());
    assert!(!s.send_telemetry);
    assert_eq!(m.led_counter, 1);
    assert!(!a.led_high);
    assert_eq!(m.ten_khz_counter, 1);
}

#[test]
fn main_tick_signal_loss_disarms() {
    let mut m = main_state_for_tick();
    let mut s = SharedData::new();
    s.mode = MotorMode::Armed;
    s.signal_timeout = 10001;
    s.input_set = true;
    let r = rm32::main_state::AdcReadings { raw_voltage: 0, raw_current: 0, raw_temperature: 0, internal_temperature: rm32::units::DegreesCelsius(0) };
    m.tick_step(&mut s, r);
    assert_eq!(s.motor_mode(), MotorMode::Disarmed);
    assert!(!s.input_set());
}

struct TestAdc {
    voltage: u16,
    current: u16,
    temperature: u16,
    conversions: u32,
}

impl rm32::hal::Adc for TestAdc {
    fn raw_voltage(&mut self) -> u16 {
        self.voltage
    }
    fn raw_current(&mut self) -> u16 {
        self.current
    }
    fn raw_temperature(&mut self) -> u16 {
        self.temperature
    }
    fn calc_temperature(&mut self, raw: u16) -> rm32::units::DegreesCelsius {
        rm32::units::DegreesCelsius((raw / 100) as i16)
    }
    fn start_conversion(&mut self) {
        self.conversions += 1;
    }
}

struct TestUart {
    sent: Vec<Vec<u8>>,
}

impl rm32::hal::TelemetryUart for TestUart {
    fn send_dma(&mut self, data: &[u8]) {
        self.sent.push(data.to_vec());
    }
}

#[test]
fn main_tick_reads_adc_and_sends_telemetry() {
    let mut m = main_state_for_tick();
    m.use_ntc = false;
    let mut s = SharedData::new();
    s.send_telemetry = true;
    let mut adc = TestAdc { voltage: 2000, current: 0, temperature: 3500, conversions: 0 };
    let mut uart = TestUart { sent: Vec::new() };
    let led = m.tick(&mut s, &mut adc, &mut uart);
    assert!(!led);
    assert_eq!(adc.conversions, 1);
    assert_eq!(m.measurements.degrees_celsius.0, 35);
    assert_eq!(s.battery_voltage(), rm32::units::AdcCount(2000).to_millivolts(110).0);
    assert_eq!(uart.sent.len(), 1);
    assert_eq!(uart.sent[0].len(), 10);
    assert_eq!(uart.sent[0][0], 35);
    assert_eq!(rm32::functions::get_crc8(&uart.sent[0]), 0);
}

#[test]
fn sine_changeover_hands_over_to_bemf() {
    let mut sys = rm32::system::SystemTick::new();
    sys.input_state.prop_brake_active = true;
    let mut m = main_state_for_tick();
    let mut s = SharedData::new();
    s.mode = MotorMode::StepperSine;
    sys.apply_sine_changeover(&mut s, &mut m, 3000);
    assert_eq!(s.motor_mode(), MotorMode::OldRoutine);
    assert_eq!(s.commutation_interval(), 3000);
    assert_eq!(s.zero_crosses(), 20);
    assert!(!sys.input_state.prop_brake_active);
    assert_eq!(m.average_interval, 3000);
    assert_eq!(m.last_average_interval, 3000);
}
