//! The main loop's own state and its tick: electrical commutation time, BEMF
//! timeout policy, desync detection, signal loss, eRPM, low-voltage cutoff,
//! measurements, cell detection, stall and speed PID loops, telemetry, variable PWM
//! frequency, the duty ceiling from the eRPM and temperature limits, BEMF filter
//! settings, auto advance and the status LED.
use vstd::prelude::*;
use crate::config::EepromConfig;
use crate::constants::{
    BEMF_LENIENT_THROTTLE, BEMF_TIMEOUT_LENIENT, BEMF_TIMEOUT_STRICT, DESYNC_MAX_INTERVAL, DESYNC_RESET_INTERVAL,
    LED_BLINK_HALF_PERIOD, LED_HIGH_THROTTLE, LVC_NORMAL_THRESHOLD, LVC_STARTUP_THRESHOLD, SIGNAL_TIMEOUT_DISARM,
    SINE_BEMF_CLEAR_THROTTLE,
};
use crate::control::state::{clamp_int, Measurements, ProtectionState, TelemetryState};
use crate::current::{sum_readings, CurrentFilter};
use crate::filter::{ewma_step, ewma_step_ok, EwmaPow2};
use crate::functions::{crc8_spec, map_spec, min_int, tdiv};
use crate::hal::{Adc, TelemetryUart};
use crate::motor_mode::{transition_spec, MotorEvent, MotorMode};
use crate::ntc::{ntc_curve, ntc_index};
use crate::pid::{fits_i32, pid_calc_ok, pid_step, Pid};
use crate::shared_comm::{is_armed_mode, is_running_mode, with_mode, SharedComm, SharedView};
use crate::telemetry::telem_data;
use crate::units::{adc_milliamps, adc_millivolts, AdcCount, DegreesCelsius, MilliAmps, MilliVolts};

verus! {

/// Variable PWM mode 1: the auto-reload value follows the commutation interval,
/// 96..200 ticks onto `max_arr / 2..max_arr`.
pub open spec fn variable_pwm_mode1_spec(commutation_interval: u32, timer1_max_arr: u16) -> u16 {
    map_spec((commutation_interval as i32) as int, 96, 200, (timer1_max_arr / 2) as int, timer1_max_arr as int) as u16
}

/// Compute the variable PWM auto-reload value for mode 1 (interval-scaled).
pub fn variable_pwm_mode1(commutation_interval: u32, timer1_max_arr: u16) -> (r: u16)
    ensures
        r == variable_pwm_mode1_spec(commutation_interval, timer1_max_arr),
        timer1_max_arr / 2 <= r <= timer1_max_arr,
{
    crate::functions::map(commutation_interval as i32, 96, 200, timer1_max_arr as i32 / 2, timer1_max_arr as i32) as u16
}

/// Variable PWM mode 2: the average interval, held within 100..=250 (0 counts as
/// slow), times `cpu_mhz / 9`.
pub open spec fn variable_pwm_mode2_spec(average_interval: u32, cpu_mhz: u8) -> u16 {
    let scale = cpu_mhz / 9;
    if average_interval < 100 && average_interval > 0 {
        (100 * scale) as u16
    } else if average_interval >= 250 || average_interval == 0 {
        (250 * scale) as u16
    } else {
        (average_interval * scale) as u16
    }
}

/// Compute the variable PWM auto-reload value for mode 2 (CPU-scaled).
pub fn variable_pwm_mode2(average_interval: u32, cpu_mhz: u8) -> (r: u16)
    ensures
        r == variable_pwm_mode2_spec(average_interval, cpu_mhz),
{
    let scale = cpu_mhz as u32 / 9;
    if average_interval < 100 && average_interval > 0 {
        (100 * scale) as u16
    } else if average_interval >= 250 || average_interval == 0 {
        (250 * scale) as u16
    } else {
        assert(average_interval * scale <= 250 * 28) by (nonlinear_arith) requires average_interval < 250, scale <= 28;
        (average_interval * scale) as u16
    }
}

/// The eRPM ceiling: with a known speed (in units of 1000 eRPM from the
/// commutation time) and a usable kv window (`kv * poles / 3200` to
/// `kv * poles / 384`), the speed maps onto 600..2000; otherwise 2000.
pub open spec fn erpm_ceiling(e_com_time: i32, motor_kv: u16, motor_poles: u8) -> int {
    let k_erpm: int = if e_com_time > 0 { (600000int / (e_com_time as int)) / 10 } else { 0 };
    let poles: int = if motor_poles < 2 { 2 } else { motor_poles as int };
    let low_rpm = motor_kv * poles / 3200;
    let high_rpm = motor_kv * poles / 384;
    if k_erpm > 0 && high_rpm > low_rpm {
        map_spec(k_erpm, low_rpm, high_rpm, 600, 2000)
    } else {
        2000
    }
}

/// The temperature ceiling: above the limit, the temperature maps from
/// `limit - 10..limit + 10` onto 1000..1; otherwise 2000.
pub open spec fn temperature_ceiling(degrees_celsius: i16, temperature_limit: u8) -> int {
    if degrees_celsius > temperature_limit as i16 {
        map_spec(degrees_celsius as int, temperature_limit - 10, temperature_limit + 10, 1000, 1)
    } else {
        2000
    }
}

/// Compute the duty ceiling: the more restrictive of the eRPM and temperature
/// limits (2000 when neither applies).
pub fn duty_ceiling(e_com_time: i32, motor_kv: u16, motor_poles: u8, degrees_celsius: i16, temperature_limit: u8) -> (r: u16)
    ensures
        r == min_int(erpm_ceiling(e_com_time, motor_kv, motor_poles), temperature_ceiling(degrees_celsius, temperature_limit)),
        1 <= r <= 2000,
{
    let k_erpm = if e_com_time > 0 { (600000 / e_com_time) / 10 } else { 0 };
    let poles: i32 = if motor_poles < 2 { 2 } else { motor_poles as i32 };
    assert(motor_kv as i32 * poles <= 65535 * 255) by (nonlinear_arith) requires 0 <= poles <= 255, motor_kv <= 65535;
    let low_rpm = motor_kv as i32 * poles / 3200;
    let high_rpm = motor_kv as i32 * poles / 384;
    let erpm_max: u16 = if k_erpm > 0 && high_rpm > low_rpm {
        crate::functions::map(k_erpm, low_rpm, high_rpm, 600, 2000) as u16
    } else {
        2000
    };
    let temp_max: u16 = if degrees_celsius > temperature_limit as i16 {
        crate::functions::map(degrees_celsius as i32, temperature_limit as i32 - 10, temperature_limit as i32 + 10, 1000, 1) as u16
    } else {
        2000
    };
    if erpm_max < temp_max { erpm_max } else { temp_max }
}

/// The values the ADC gives one main-loop tick: raw voltage, current and
/// temperature readings, and the board's conversion of the raw temperature for
/// its internal sensor.
#[derive(Clone, Copy)]
pub struct AdcReadings {
    pub raw_voltage: u16,
    pub raw_current: u16,
    pub raw_temperature: u16,
    pub internal_temperature: DegreesCelsius,
}

/// What one main-loop tick asks of the board: the LED level, and the telemetry
/// packet to send when one is due.
pub struct MainTickActions {
    pub led_high: bool,
    pub telemetry: Option<[u8; 10]>,
}

/// Main-loop exclusive state. The LED pin itself stays with the board: the tick
/// returns the level to drive it to.
pub struct MainState {
    pub protection: ProtectionState,
    pub measurements: Measurements,
    pub telemetry: TelemetryState,
    pub config: EepromConfig,
    pub current_pid: Pid,
    pub speed_pid: Pid,
    pub stall_pid: Pid,
    pub e_rpm: u16,
    pub average_interval: u32,
    pub last_average_interval: u32,
    pub commutation_intervals: [u16; 6],
    pub cell_count: u8,
    pub motor_kv: u16,
    pub low_cell_volt_cutoff: u16,
    pub voltage_divider: u16,
    pub millivolt_per_amp: u16,
    pub current_offset: i16,
    pub stall_protection_adjust: i32,
    pub stall_protect_target_interval: u16,
    pub use_speed_control_loop: bool,
    pub speed_input_override: i32,
    pub target_e_com_time: u32,
    pub desync_check: bool,
    pub current_filter: CurrentFilter,
    pub voltage_filter: EwmaPow2<3>,
    pub last_armed: bool,
    pub just_armed: bool,
    pub use_ntc: bool,
    pub led_counter: u16,
    pub timer1_max_arr: u16,
    pub cpu_mhz: u8,
    pub ten_khz_counter: u32,
}

/// The electrical commutation time: half the sum of the six step intervals, rounded.
pub open spec fn main_e_com_time(m: MainState) -> i32 {
    let c = m.commutation_intervals;
    ((c[0] + c[1] + c[2] + c[3] + c[4] + c[5] + 4) / 2) as i32
}

/// The BEMF timeout is cleared when the motor runs well (over 1000 zero crosses,
/// or over 100 below throttle 200), at zero throttle, and in sine start below
/// its changeover throttle.
pub open spec fn bemf_timeout_cleared(m: MainState, zc: u32, adj: u16) -> bool {
    zc > 1000 || adj == 0 || (zc > 100 && adj < 200) || (m.config.use_sine_start != 0 && adj < SINE_BEMF_CLEAR_THROTTLE)
}

/// The average interval jumped by more than half of itself while fast enough to judge.
pub open spec fn desync_detected(m: MainState, zc: u32) -> bool {
    let a = m.last_average_interval as i32;
    let b = m.average_interval as i32;
    let diff = if a >= b { a - b } else { b - a };
    &&& m.desync_check
    &&& zc > 10
    &&& diff > m.average_interval / 2
    &&& m.average_interval < DESYNC_MAX_INTERVAL
}

/// Timing stage: the electrical commutation time is published and the average
/// interval is a third of it; the BEMF timeout is cleared or kept and its
/// threshold is lenient below throttle 150, strict above; a detected desync
/// resets the interval (to 5000 once past 100 zero crosses), clears the zero
/// crosses, counts the desync, stops the motor when driven or slow, and falls
/// back to polling; signal loss while armed disarms and drops the input; the eRPM
/// follows the commutation time when not sine stepping (0 when stopped).
pub open spec fn main_timing_spec(m: MainState, v: SharedView) -> (MainState, SharedView) {
    let (m1, v1) = timing_ecom_spec(m, v);
    let (m2, v2) = timing_desync_spec(m1, v1, v.zero_crosses);
    let v3 = timing_signal_spec(v2);
    (timing_erpm_spec(m2, v3, main_e_com_time(m)), v3)
}

/// Electrical commutation time, average interval and BEMF timeout policy.
pub open spec fn timing_ecom_spec(m: MainState, v: SharedView) -> (MainState, SharedView) {
    let e = main_e_com_time(m);
    let zc = v.zero_crosses;
    let adj = v.adjusted_input;
    (
        MainState {
            average_interval: (e / 3) as u32,
            protection: ProtectionState {
                bemf_timeout_happened: if bemf_timeout_cleared(m, zc, adj) { 0 } else { m.protection.bemf_timeout_happened },
                bemf_timeout: if adj < BEMF_LENIENT_THROTTLE { BEMF_TIMEOUT_LENIENT } else { BEMF_TIMEOUT_STRICT },
                ..m.protection
            },
            ..m
        },
        SharedView { e_com_time: e, ..v },
    )
}

/// Desync handling for the zero-cross count `zc` read at the start of the tick.
pub open spec fn timing_desync_spec(m: MainState, v: SharedView, zc: u32) -> (MainState, SharedView) {
    if m.desync_check && zc > 10 {
        if desync_detected(m, zc) {
            let avg2 = if zc > 100 { DESYNC_RESET_INTERVAL } else { m.average_interval };
            let va = SharedView { zero_crosses: 0, ..v };
            let stop = (m.config.bi_direction == 0 && va.adjusted_input > 47) || va.commutation_interval > 1000;
            let mode1 = if stop { transition_spec(va.mode, MotorEvent::StopMotor) } else { va.mode };
            (
                MainState {
                    average_interval: avg2,
                    last_average_interval: avg2,
                    desync_check: false,
                    protection: ProtectionState { desync_happened: (m.protection.desync_happened + 1) as u16, ..m.protection },
                    ..m
                },
                with_mode(va, transition_spec(mode1, MotorEvent::DesyncFallback)),
            )
        } else {
            (MainState { desync_check: false, last_average_interval: m.average_interval, ..m }, v)
        }
    } else {
        (m, v)
    }
}

/// Signal loss while armed disarms and drops the input.
pub open spec fn timing_signal_spec(v: SharedView) -> SharedView {
    if v.signal_timeout > SIGNAL_TIMEOUT_DISARM && is_armed_mode(v.mode) {
        SharedView { input_set: false, ..with_mode(v, transition_spec(v.mode, MotorEvent::Disarm)) }
    } else {
        v
    }
}

/// The eRPM follows the commutation time `e` when not sine stepping (0 when stopped).
pub open spec fn timing_erpm_spec(m: MainState, v: SharedView, e: i32) -> MainState {
    if v.mode != MotorMode::StepperSine && e > 0 {
        MainState { e_rpm: if is_running_mode(v.mode) { (600000int / (e as int)) as u16 } else { 0u16 }, ..m }
    } else {
        m
    }
}

/// The EWMA filter after one sample, and the value it returns.
pub open spec fn ewma3_update(f: EwmaPow2<3>, x: u16) -> (EwmaPow2<3>, u16) {
    if !f.initialized {
        (EwmaPow2 { state_bits: (x * 65536) as u32, initialized: true }, x)
    } else {
        let b = ewma_step(f.state_bits, x, 3);
        (EwmaPow2 { state_bits: b, initialized: true }, (b / 65536) as u16)
    }
}

/// The current window after one reading, and its average.
pub open spec fn current_window_update(f: CurrentFilter, raw: u16) -> (CurrentFilter, u16) {
    let rd = vstd::array::spec_array_update(f.readings, f.index as int, raw);
    let total = sum_readings(rd@);
    (CurrentFilter { readings: rd, index: ((f.index + 1) % 50) as usize, total: total as u32 }, (total / 50) as u16)
}

/// The low-voltage threshold: cells times the per-cell cutoff.
pub open spec fn lvc_threshold(m: MainState) -> int {
    m.cell_count * m.low_cell_volt_cutoff
}

/// Whether the battery reads below a nonzero low-voltage threshold.
pub open spec fn battery_low(m: MainState) -> bool {
    m.measurements.battery_voltage.0 < lvc_threshold(m) && lvc_threshold(m) > 0
}

/// Measurement stage: with the low-voltage cutoff on, a low battery counts up
/// (else the count resets unless already cut off), and past the limit (1000 in
/// sine stepping, 10000 otherwise) the cutoff latches and the ESC disarms; the
/// ADC readings are filtered and converted to battery voltage, current and
/// temperature (from the NTC table or the board's conversion), which are
/// published; on the arming edge an unknown cell count is taken as voltage / 370
/// (per-cell cutoff mode).
pub open spec fn main_measure_spec(m: MainState, v: SharedView, r: AdcReadings) -> (MainState, SharedView) {
    let (m1, v1) = if m.config.low_voltage_cut_off != 0 {
        let count = if battery_low(m) {
            (m.protection.low_voltage_count + 1) as u16
        } else if !m.protection.low_voltage_cutoff {
            0u16
        } else {
            m.protection.low_voltage_count
        };
        let limit = if v.mode == MotorMode::StepperSine { LVC_STARTUP_THRESHOLD } else { LVC_NORMAL_THRESHOLD };
        if count > limit {
            (
                MainState { protection: ProtectionState { low_voltage_count: count, low_voltage_cutoff: true, ..m.protection }, ..m },
                with_mode(v, transition_spec(v.mode, MotorEvent::Disarm)),
            )
        } else {
            (MainState { protection: ProtectionState { low_voltage_count: count, ..m.protection }, ..m }, v)
        }
    } else {
        (m, v)
    };
    let (vf, sv) = ewma3_update(m1.voltage_filter, r.raw_voltage);
    let (cf, sc) = current_window_update(m1.current_filter, r.raw_current);
    let battery = MilliVolts(adc_millivolts(sv, m1.voltage_divider));
    let current = MilliAmps(adc_milliamps(sc, m1.current_offset, m1.millivolt_per_amp));
    let deg = if m1.use_ntc { DegreesCelsius(ntc_curve(ntc_index(r.raw_temperature) * 16) as i16) } else { r.internal_temperature };
    let v2 = SharedView { actual_current: current.0, battery_voltage: battery.0, degrees_celsius: deg.0, ..v1 };
    let armed = is_armed_mode(v2.mode);
    let just = armed && !m1.last_armed;
    let cells = if just && m1.cell_count == 0 && m1.config.low_voltage_cut_off == 1 { (battery.0 / 370) as u8 } else { m1.cell_count };
    (
        MainState {
            voltage_filter: vf,
            current_filter: cf,
            measurements: Measurements { battery_voltage: battery, actual_current: current, degrees_celsius: deg, ..m1.measurements },
            just_armed: just,
            cell_count: cells,
            last_armed: armed,
            ..m1
        },
        v2,
    )
}

/// The telemetry packet from the measurements: temperature, voltage in 10 mV,
/// current in 10 mA, consumption in mAh and eRPM, with its CRC.
pub open spec fn main_telemetry_packet(m: MainState) -> Seq<u8> {
    let d = telem_data(
        m.measurements.degrees_celsius.0 as i8,
        m.measurements.battery_voltage.0 / 10,
        tdiv(m.measurements.actual_current.0 as int, 10) as u16,
        tdiv(m.measurements.consumed_current as int, 1000) as u16,
        m.e_rpm,
    );
    d.push(crc8_spec(d))
}

/// PID and telemetry stage: while running, the stall PID accumulates its output
/// into the stall adjustment (0..=1_500_000), published divided by 10000; the
/// speed PID accumulates into the throttle override (0..=20_470_000), its integral
/// cleared below 100 zero crosses, and the override divided by 10000 (held to
/// 48..=2047) becomes the new input; a due telemetry packet is made and the
/// request cleared; every tick is counted and past 20000 ticks the current is
/// added to the consumption.
pub open spec fn main_pid_spec(m: MainState, v: SharedView) -> (MainState, SharedView, Option<Seq<u8>>) {
    let running = is_running_mode(v.mode);
    let (m1, v1) = pid_stall_spec(m, v, running);
    let (m2, v2) = pid_speed_spec(m1, v1, running);
    let pkt = if v2.send_telemetry { Some(main_telemetry_packet(m2)) } else { None };
    let v3 = if v2.send_telemetry { SharedView { send_telemetry: false, ..v2 } } else { v2 };
    (pid_consumed_spec(m2), v3, pkt)
}

/// Stall PID step while running with stall protection on.
pub open spec fn pid_stall_spec(m: MainState, v: SharedView, running: bool) -> (MainState, SharedView) {
    if m.config.stall_protection != 0 && running {
        let p = pid_step(m.stall_pid, v.commutation_interval as i32, m.stall_protect_target_interval as i32);
        let adj = clamp_int(m.stall_protection_adjust + p.pid_output, 0, 1_500_000) as i32;
        (MainState { stall_pid: p, stall_protection_adjust: adj, ..m }, SharedView { stall_protection_adjust: (adj / 10000) as u16, ..v })
    } else {
        (m, v)
    }
}

/// Speed PID step while running with speed control on.
pub open spec fn pid_speed_spec(m: MainState, v: SharedView, running: bool) -> (MainState, SharedView) {
    if m.use_speed_control_loop && running {
        let p = pid_step(m.speed_pid, v.e_com_time, m.target_e_com_time as i32);
        let o = clamp_int(m.speed_input_override + p.pid_output, 0, 20_470_000) as i32;
        let p2 = if v.zero_crosses < 100 { Pid { integral: 0, ..p } } else { p };
        let oi = (o / 10000) as u16;
        (
            MainState { speed_pid: p2, speed_input_override: o, ..m },
            SharedView { newinput: clamp_int(oi as int, 48, 2047) as u16, ..v },
        )
    } else {
        (m, v)
    }
}

/// Tick counting and consumption: past 20000 ticks the current is added.
pub open spec fn pid_consumed_spec(m: MainState) -> MainState {
    let cnt = m.ten_khz_counter + 1;
    if cnt > 20000 {
        MainState {
            measurements: Measurements { consumed_current: (m.measurements.consumed_current + m.measurements.actual_current.0) as i32, ..m.measurements },
            ten_khz_counter: 0,
            ..m
        }
    } else {
        MainState { ten_khz_counter: cnt as u32, ..m }
    }
}

/// The LED for an input and the incremented blink counter: in 47..1947 it blinks
/// (high for the second half of each period), above the high throttle it is lit,
/// otherwise dark. Returns the new counter and the level.
pub open spec fn led_spec(counter: u16, input: u16) -> (u16, bool) {
    let lc = ((counter + 1) % 65536) as u16;
    if 47 <= input < 1947 {
        (if lc > LED_BLINK_HALF_PERIOD * 2 { 0u16 } else { lc }, lc > LED_BLINK_HALF_PERIOD)
    } else if input > LED_HIGH_THROTTLE {
        (lc, true)
    } else {
        (lc, false)
    }
}

/// Publishing stage: the PWM auto-reload (variable PWM modes 1 and 2, else the
/// maximum), the duty ceiling, the BEMF counts (3 or 4 during the first 5 zero
/// crosses, 2 after), the BEMF filter level (12 at startup, 2 when very fast,
/// else scaled from the average interval), the auto advance level from the duty
/// setpoint when enabled, and the LED. `zc` is the zero-cross count read at the
/// start of the tick, `e` the electrical commutation time.
pub open spec fn main_publish_spec(m: MainState, v: SharedView, zc: u32, e: i32) -> (MainState, SharedView, bool) {
    let v1 = publish_limits_spec(m, v, zc, e);
    let (lc, led) = led_spec(m.led_counter, v1.adjusted_input);
    (MainState { led_counter: lc, ..m }, v1, led)
}

/// The PWM auto-reload for the variable PWM mode.
pub open spec fn main_tim1_arr(m: MainState, v: SharedView) -> u16 {
    if m.config.variable_pwm == 1 {
        variable_pwm_mode1_spec(v.commutation_interval, m.timer1_max_arr)
    } else if m.config.variable_pwm == 2 {
        variable_pwm_mode2_spec(m.average_interval, m.cpu_mhz)
    } else {
        m.timer1_max_arr
    }
}

/// The BEMF filter level: 12 at startup, 2 when very fast, else scaled from the
/// average interval.
pub open spec fn main_filter_level(m: MainState, v: SharedView, zc: u32) -> u8 {
    let ci = v.commutation_interval;
    if zc < 100 && ci > 500 { 12 } else if ci < 50 { 2 } else { map_spec((m.average_interval as i32) as int, 100, 500, 3, 12) as u8 }
}

/// The published limits and settings of the main loop.
pub open spec fn publish_limits_spec(m: MainState, v: SharedView, zc: u32, e: i32) -> SharedView {
    SharedView {
        tim1_arr: main_tim1_arr(m, v),
        duty_maximum: min_int(erpm_ceiling(e, m.motor_kv, m.config.motor_poles), temperature_ceiling(m.measurements.degrees_celsius.0, m.config.temperature_limit)) as u16,
        min_bemf_counts: if zc < 5 { if m.config.bi_direction != 0 { 3u8 } else { 4u8 } } else { 2u8 },
        filter_level: main_filter_level(m, v, zc),
        auto_advance: if m.config.auto_advance != 0 { map_spec(v.duty_cycle_setpoint as int, 100, 2000, 13, 23) as u8 } else { v.auto_advance },
        ..v
    }
}

/// The readings an ADC gives one tick: its voltage, current and temperature
/// conversions, and (without an NTC) the board's conversion of the temperature.
pub open spec fn adc_readings<A: Adc>(a: A, use_ntc: bool) -> AdcReadings {
    AdcReadings {
        raw_voltage: a.voltage_reading(),
        raw_current: a.current_reading(),
        raw_temperature: a.temperature_reading(),
        internal_temperature: if use_ntc { DegreesCelsius(0) } else { a.temperature_of(a.temperature_reading()) },
    }
}

/// One main-loop tick: the stages in order. Returns the new state, the shared
/// values, the LED level and the telemetry packet sent, if any.
pub open spec fn main_tick_spec(m: MainState, v: SharedView, r: AdcReadings) -> (MainState, SharedView, bool, Option<Seq<u8>>) {
    let (m1, v1) = main_timing_spec(m, v);
    let (m2, v2) = main_measure_spec(m1, v1, r);
    let (m3, v3, pkt) = main_pid_spec(m2, v2);
    let (m4, v4, led) = main_publish_spec(m3, v3, v.zero_crosses, main_e_com_time(m));
    (m4, v4, led, pkt)
}

/// What a tick asks: no counter or accumulator overflows (the
/// desync count, the low-voltage threshold and count, the tick counter, the
/// consumption, the PID accumulators), the jump test fits in 32 bits, the filters
/// are consistent and the voltage filter's step fits in 32 bits.
pub open spec fn main_tick_ok(m: MainState, v: SharedView, r: AdcReadings) -> bool {
    let (m1, v1) = main_timing_spec(m, v);
    let (m2, v2) = main_measure_spec(m1, v1, r);
    let avg = (main_e_com_time(m) / 3) as u32;
    let running = is_running_mode(v2.mode);
    let sp = pid_step(m2.stall_pid, v2.commutation_interval as i32, m2.stall_protect_target_interval as i32);
    let (m3, v3) = if m2.config.stall_protection != 0 && running {
        (MainState { stall_pid: sp, ..m2 }, v2)
    } else {
        (m2, v2)
    };
    &&& m.desync_check && v.zero_crosses > 10 ==> fits_i32(m.last_average_interval as i32 - avg as i32)
    &&& desync_detected(MainState { average_interval: avg, ..m }, v.zero_crosses) ==> m.protection.desync_happened < u16::MAX
    &&& m.config.low_voltage_cut_off != 0 ==> lvc_threshold(m) <= u16::MAX
    &&& m.config.low_voltage_cut_off != 0 && battery_low(m) ==> m.protection.low_voltage_count < u16::MAX
    &&& m.voltage_filter.initialized ==> ewma_step_ok(m.voltage_filter.state_bits, r.raw_voltage, 3)
    &&& m.current_filter.wf()
    &&& m2.config.stall_protection != 0 && running ==> {
        &&& pid_calc_ok(m2.stall_pid, v2.commutation_interval as i32, m2.stall_protect_target_interval as i32)
        &&& fits_i32(m2.stall_protection_adjust + sp.pid_output)
    }
    &&& m2.use_speed_control_loop && running ==> {
        &&& pid_calc_ok(m2.speed_pid, v2.e_com_time, m2.target_e_com_time as i32)
        &&& fits_i32(m2.speed_input_override + pid_step(m2.speed_pid, v2.e_com_time, m2.target_e_com_time as i32).pid_output)
    }
    &&& m.ten_khz_counter < u32::MAX
    &&& m.ten_khz_counter + 1 > 20000 ==> fits_i32(m2.measurements.consumed_current + m2.measurements.actual_current.0)
}

impl MainState {
    fn timing_ecom<S: SharedComm>(&mut self, shared: &mut S) -> (e: i32)
        ensures
            (*final(self), final(shared).shared()) == timing_ecom_spec(*old(self), old(shared).shared()),
            e == main_e_com_time(*old(self)),
    {
        let c = self.commutation_intervals;
        let sum: u32 = c[0] as u32 + c[1] as u32 + c[2] as u32 + c[3] as u32 + c[4] as u32 + c[5] as u32;
        let e = ((sum + 4) / 2) as i32;
        shared.set_e_com_time(e);
        self.average_interval = (e / 3) as u32;
        let zc = shared.zero_crosses();
        let adj_input = shared.adjusted_input();
        let mut p = self.protection;
        if zc > 1000 || adj_input == 0 {
            p.bemf_timeout_happened = 0;
        }
        if zc > 100 && adj_input < 200 {
            p.bemf_timeout_happened = 0;
        }
        if self.config.use_sine_start != 0 && adj_input < SINE_BEMF_CLEAR_THROTTLE {
            p.bemf_timeout_happened = 0;
        }
        if adj_input < BEMF_LENIENT_THROTTLE {
            p.bemf_timeout = BEMF_TIMEOUT_LENIENT;
        } else {
            p.bemf_timeout = BEMF_TIMEOUT_STRICT;
        }
        self.protection = p;
        e
    }

    fn timing_desync<S: SharedComm>(&mut self, shared: &mut S, zc: u32)
        requires
            old(self).desync_check && zc > 10 ==> fits_i32(old(self).last_average_interval as i32 - old(self).average_interval as i32),
            desync_detected(*old(self), zc) ==> old(self).protection.desync_happened < u16::MAX,
        ensures
            (*final(self), final(shared).shared()) == timing_desync_spec(*old(self), old(shared).shared(), zc),
    {
        if self.desync_check && zc > 10 {
            let diff = crate::functions::get_abs_dif(self.last_average_interval as i32, self.average_interval as i32);
            if diff > self.average_interval / 2 && self.average_interval < DESYNC_MAX_INTERVAL {
                if zc > 100 {
                    self.average_interval = DESYNC_RESET_INTERVAL;
                }
                shared.set_zero_crosses(0);
                self.protection.desync_happened = self.protection.desync_happened + 1;
                if (self.config.bi_direction == 0 && shared.adjusted_input() > 47) || shared.commutation_interval() > 1000 {
                    shared.transition(MotorEvent::StopMotor);
                }
                shared.transition(MotorEvent::DesyncFallback);
            }
            self.desync_check = false;
            self.last_average_interval = self.average_interval;
        }
    }

    fn timing_signal_erpm<S: SharedComm>(&mut self, shared: &mut S, e: i32)
        ensures
            final(shared).shared() == timing_signal_spec(old(shared).shared()),
            *final(self) == timing_erpm_spec(*old(self), final(shared).shared(), e),
    {
        if shared.signal_timeout() > SIGNAL_TIMEOUT_DISARM && shared.armed() {
            shared.transition(MotorEvent::Disarm);
            shared.set_input_set(false);
        }
        if !shared.stepper_sine() && e > 0 {
            self.e_rpm = if shared.running() { (600000 / e) as u16 } else { 0 };
        }
    }

    fn tick_timing<S: SharedComm>(&mut self, shared: &mut S) -> (e: i32)
        requires
            old(self).desync_check && old(shared).shared().zero_crosses > 10
                ==> fits_i32(old(self).last_average_interval as i32 - ((main_e_com_time(*old(self)) / 3) as u32) as i32),
            desync_detected(MainState { average_interval: (main_e_com_time(*old(self)) / 3) as u32, ..*old(self) }, old(shared).shared().zero_crosses)
                ==> old(self).protection.desync_happened < u16::MAX,
        ensures
            (*final(self), final(shared).shared()) == main_timing_spec(*old(self), old(shared).shared()),
            e == main_e_com_time(*old(self)),
    {
        let zc = shared.zero_crosses();
        let e = self.timing_ecom(shared);
        self.timing_desync(shared, zc);
        self.timing_signal_erpm(shared, e);
        e
    }

    #[verifier::rlimit(100)]
    fn tick_measure<S: SharedComm>(&mut self, shared: &mut S, r: AdcReadings)
        requires
            old(self).config.low_voltage_cut_off != 0 ==> lvc_threshold(*old(self)) <= u16::MAX,
            old(self).config.low_voltage_cut_off != 0 && battery_low(*old(self)) ==> old(self).protection.low_voltage_count < u16::MAX,
            old(self).voltage_filter.initialized ==> ewma_step_ok(old(self).voltage_filter.state_bits, r.raw_voltage, 3),
            old(self).current_filter.wf(),
        ensures
            (*final(self), final(shared).shared()) == main_measure_spec(*old(self), old(shared).shared(), r),
    {
        if self.config.low_voltage_cut_off != 0 {
            let threshold = self.cell_count as u16 * self.low_cell_volt_cutoff;
            if self.measurements.battery_voltage.0 < threshold && threshold > 0 {
                self.protection.low_voltage_count = self.protection.low_voltage_count + 1;
            } else if !self.protection.low_voltage_cutoff {
                self.protection.low_voltage_count = 0;
            }
            let lvc_limit = if shared.stepper_sine() { LVC_STARTUP_THRESHOLD } else { LVC_NORMAL_THRESHOLD };
            if self.protection.low_voltage_count > lvc_limit {
                self.protection.low_voltage_cutoff = true;
                shared.transition(MotorEvent::Disarm);
            }
        }
        let ghost idx = self.current_filter.index;
        let ghost readings0 = self.current_filter.readings;
        let smoothed_v = AdcCount(self.voltage_filter.update(r.raw_voltage));
        let smoothed_c = AdcCount(self.current_filter.update(r.raw_current));
        assert(self.current_filter.readings =~= vstd::array::spec_array_update(readings0, idx as int, r.raw_current));
        self.measurements.battery_voltage = smoothed_v.to_millivolts(self.voltage_divider);
        self.measurements.actual_current = smoothed_c.to_milliamps(self.current_offset, self.millivolt_per_amp);
        self.measurements.degrees_celsius = if self.use_ntc { crate::ntc::ntc_degrees(r.raw_temperature) } else { r.internal_temperature };
        shared.set_actual_current(self.measurements.actual_current.0);
        shared.set_battery_voltage(self.measurements.battery_voltage.0);
        shared.set_degrees_celsius(self.measurements.degrees_celsius.0);
        let armed = shared.armed();
        self.just_armed = armed && !self.last_armed;
        if self.just_armed && self.cell_count == 0 && self.config.low_voltage_cut_off == 1 {
            self.cell_count = (self.measurements.battery_voltage.0 / 370) as u8;
        }
        self.last_armed = armed;
    }

    fn pid_stall<S: SharedComm>(&mut self, shared: &mut S, running: bool)
        requires
            old(self).config.stall_protection != 0 && running ==> {
                &&& pid_calc_ok(old(self).stall_pid, old(shared).shared().commutation_interval as i32, old(self).stall_protect_target_interval as i32)
                &&& fits_i32(old(self).stall_protection_adjust
                    + pid_step(old(self).stall_pid, old(shared).shared().commutation_interval as i32, old(self).stall_protect_target_interval as i32).pid_output)
            },
        ensures
            (*final(self), final(shared).shared()) == pid_stall_spec(*old(self), old(shared).shared(), running),
    {
        if self.config.stall_protection != 0 && running {
            let ci = shared.commutation_interval() as i32;
            let target = self.stall_protect_target_interval as i32;
            let out = self.stall_pid.calculate(ci, target);
            let mut a = self.stall_protection_adjust + out;
            if a < 0 {
                a = 0;
            }
            if a > 1_500_000 {
                a = 1_500_000;
            }
            self.stall_protection_adjust = a;
            shared.set_stall_protection_adjust((a / 10000) as u16);
        }
    }

    fn pid_speed<S: SharedComm>(&mut self, shared: &mut S, running: bool)
        requires
            old(self).use_speed_control_loop && running ==> {
                &&& pid_calc_ok(old(self).speed_pid, old(shared).shared().e_com_time, old(self).target_e_com_time as i32)
                &&& fits_i32(old(self).speed_input_override
                    + pid_step(old(self).speed_pid, old(shared).shared().e_com_time, old(self).target_e_com_time as i32).pid_output)
            },
        ensures
            (*final(self), final(shared).shared()) == pid_speed_spec(*old(self), old(shared).shared(), running),
    {
        if self.use_speed_control_loop && running {
            let e_com = shared.e_com_time();
            let out = self.speed_pid.calculate(e_com, self.target_e_com_time as i32);
            let mut o = self.speed_input_override + out;
            if o < 0 {
                o = 0;
            }
            if o > 20_470_000 {
                o = 20_470_000;
            }
            self.speed_input_override = o;
            if shared.zero_crosses() < 100 {
                self.speed_pid.integral = 0;
            }
            let oi = (o / 10000) as u16;
            let ni = if oi < 48 { 48 } else if oi > 2047 { 2047 } else { oi };
            shared.set_newinput(ni);
        }
    }

    fn pid_telemetry<S: SharedComm>(&self, shared: &mut S) -> (pkt: Option<[u8; 10]>)
        ensures
            final(shared).shared() == (if old(shared).shared().send_telemetry {
                SharedView { send_telemetry: false, ..old(shared).shared() }
            } else {
                old(shared).shared()
            }),
            (pkt is Some) == old(shared).shared().send_telemetry,
            pkt is Some ==> pkt->0@ == main_telemetry_packet(*self),
    {
        if shared.send_telemetry() {
            let mut buf = [0u8; 10];
            let voltage_cv = self.measurements.battery_voltage.to_centivolts();
            let current_ca = self.measurements.actual_current.to_centiamps();
            crate::telemetry::make_telem_package(
                &mut buf,
                self.measurements.degrees_celsius.to_i8(),
                voltage_cv,
                current_ca,
                (self.measurements.consumed_current / 1000) as u16,
                self.e_rpm,
            );
            shared.set_send_telemetry(false);
            Some(buf)
        } else {
            None
        }
    }

    fn pid_consumed(&mut self)
        requires
            old(self).ten_khz_counter < u32::MAX,
            old(self).ten_khz_counter + 1 > 20000 ==> fits_i32(old(self).measurements.consumed_current + old(self).measurements.actual_current.0),
        ensures
            *final(self) == pid_consumed_spec(*old(self)),
    {
        self.ten_khz_counter = self.ten_khz_counter + 1;
        if self.ten_khz_counter > 20000 {
            self.measurements.consumed_current = self.measurements.consumed_current + self.measurements.actual_current.0 as i32;
            self.ten_khz_counter = 0;
        }
    }

    fn tick_pids<S: SharedComm>(&mut self, shared: &mut S) -> (pkt: Option<[u8; 10]>)
        requires
            old(self).config.stall_protection != 0 && is_running_mode(old(shared).shared().mode) ==> {
                &&& pid_calc_ok(old(self).stall_pid, old(shared).shared().commutation_interval as i32, old(self).stall_protect_target_interval as i32)
                &&& fits_i32(old(self).stall_protection_adjust
                    + pid_step(old(self).stall_pid, old(shared).shared().commutation_interval as i32, old(self).stall_protect_target_interval as i32).pid_output)
            },
            old(self).use_speed_control_loop && is_running_mode(old(shared).shared().mode) ==> {
                &&& pid_calc_ok(old(self).speed_pid, old(shared).shared().e_com_time, old(self).target_e_com_time as i32)
                &&& fits_i32(old(self).speed_input_override
                    + pid_step(old(self).speed_pid, old(shared).shared().e_com_time, old(self).target_e_com_time as i32).pid_output)
            },
            old(self).ten_khz_counter < u32::MAX,
            old(self).ten_khz_counter + 1 > 20000 ==> fits_i32(old(self).measurements.consumed_current + old(self).measurements.actual_current.0),
        ensures
            ({
                let t = main_pid_spec(*old(self), old(shared).shared());
                &&& *final(self) == t.0
                &&& final(shared).shared() == t.1
                &&& (pkt is Some) == (t.2 is Some)
                &&& pkt is Some ==> pkt->0@ == t.2->0
            }),
    {
        let running = shared.running();
        self.pid_stall(shared, running);
        self.pid_speed(shared, running);
        let pkt = self.pid_telemetry(shared);
        self.pid_consumed();
        pkt
    }

    fn publish_limits<S: SharedComm>(&self, shared: &mut S, zc: u32, e: i32)
        ensures
            final(shared).shared() == publish_limits_spec(*self, old(shared).shared(), zc, e),
    {
        let ci = shared.commutation_interval();
        let tim = if self.config.variable_pwm == 1 {
            variable_pwm_mode1(ci, self.timer1_max_arr)
        } else if self.config.variable_pwm == 2 {
            variable_pwm_mode2(self.average_interval, self.cpu_mhz)
        } else {
            self.timer1_max_arr
        };
        shared.set_tim1_arr(tim);
        shared.set_duty_maximum(duty_ceiling(
            e,
            self.motor_kv,
            self.config.motor_poles,
            self.measurements.degrees_celsius.0,
            self.config.temperature_limit,
        ));
        if zc < 5 {
            let counts: u8 = if self.config.bi_direction != 0 { 3 } else { 4 };
            shared.set_min_bemf_counts(counts);
        } else {
            shared.set_min_bemf_counts(2);
        }
        let filter: u8 = if zc < 100 && ci > 500 {
            12
        } else if ci < 50 {
            2
        } else {
            crate::functions::map(self.average_interval as i32, 100, 500, 3, 12) as u8
        };
        shared.set_filter_level(filter);
        if self.config.auto_advance != 0 {
            let dcs = shared.duty_cycle_setpoint();
            let level = crate::functions::map(dcs as i32, 100, 2000, 13, 23) as u8;
            shared.set_auto_advance(level);
        }
    }

    fn publish_led(&mut self, input: u16) -> (led: bool)
        ensures
            (final(self).led_counter, led) == led_spec(old(self).led_counter, input),
            *final(self) == (MainState { led_counter: final(self).led_counter, ..*old(self) }),
    {
        self.led_counter = self.led_counter.wrapping_add(1);
        if 47 <= input && input < 1947 {
            let high = self.led_counter > LED_BLINK_HALF_PERIOD;
            if self.led_counter > LED_BLINK_HALF_PERIOD * 2 {
                self.led_counter = 0;
            }
            high
        } else if input > LED_HIGH_THROTTLE {
            true
        } else {
            false
        }
    }

    fn tick_publish<S: SharedComm>(&mut self, shared: &mut S, zc: u32, e: i32) -> (led: bool)
        ensures
            (*final(self), final(shared).shared(), led) == main_publish_spec(*old(self), old(shared).shared(), zc, e),
    {
        self.publish_limits(shared, zc, e);
        let input = shared.adjusted_input();
        self.publish_led(input)
    }

    /// One main-loop tick on the given ADC readings (see `main_tick_spec` for the
    /// stages): updates the main state and the shared values, and returns the LED
    /// level and the telemetry packet to send, if one is due.
    pub fn tick_step<S: SharedComm>(&mut self, shared: &mut S, readings: AdcReadings) -> (a: MainTickActions)
        requires
            main_tick_ok(*old(self), old(shared).shared(), readings),
        ensures
            ({
                let t = main_tick_spec(*old(self), old(shared).shared(), readings);
                &&& *final(self) == t.0
                &&& final(shared).shared() == t.1
                &&& a.led_high == t.2
                &&& (a.telemetry is Some) == (t.3 is Some)
                &&& a.telemetry is Some ==> a.telemetry->0@ == t.3->0
            }),
    {
        let zc = shared.zero_crosses();
        let e = self.tick_timing(shared);
        self.tick_measure(shared, readings);
        let telemetry = self.tick_pids(shared);
        let led_high = self.tick_publish(shared, zc, e);
        MainTickActions { led_high, telemetry }
    }

    /// One main-loop tick: reads the ADC (voltage, current, temperature, with the
    /// board's conversion when there is no NTC), starts the next conversion, runs
    /// the tick on those readings, sends the telemetry packet when one is due, and
    /// returns the LED level.
    pub fn tick<S: SharedComm, A: Adc, T: TelemetryUart>(&mut self, shared: &mut S, adc: &mut A, telem: &mut T) -> (led_high: bool)
        requires
            main_tick_ok(*old(self), old(shared).shared(), adc_readings(*old(adc), old(self).use_ntc)),
        ensures
            ({
                let t = main_tick_spec(*old(self), old(shared).shared(), adc_readings(*old(adc), old(self).use_ntc));
                &&& *final(self) == t.0
                &&& final(shared).shared() == t.1
                &&& led_high == t.2
                &&& final(telem).sent() == old(telem).sent() + (if t.3 is Some { seq![t.3->0] } else { Seq::<Seq<u8>>::empty() })
            }),
    {
        let raw_voltage = adc.raw_voltage();
        let raw_current = adc.raw_current();
        let raw_temperature = adc.raw_temperature();
        let internal_temperature = if self.use_ntc { DegreesCelsius(0) } else { adc.calc_temperature(raw_temperature) };
        adc.start_conversion();
        let readings = AdcReadings { raw_voltage, raw_current, raw_temperature, internal_temperature };
        assert(readings == adc_readings(*old(adc), old(self).use_ntc));
        let actions = self.tick_step(shared, readings);
        match actions.telemetry {
            Some(pkt) => {
                telem.send_dma(&pkt);
            },
            None => {},
        }
        assert(telem.sent() =~= old(telem).sent() + (if actions.telemetry is Some { seq![actions.telemetry->0@] } else { Seq::<Seq<u8>>::empty() }));
        actions.led_high
    }
}

/// Marker type for boards without a custom LED.
pub struct NoLed;

/// The duty ceiling never exceeds the temperature ceiling, so an overheated ESC
/// gets at most 1000 out of 2000.
pub proof fn lemma_overheat_limits_duty(e_com_time: i32, motor_kv: u16, motor_poles: u8, degrees_celsius: i16, temperature_limit: u8)
    requires
        degrees_celsius > temperature_limit as i16,
    ensures
        min_int(erpm_ceiling(e_com_time, motor_kv, motor_poles), temperature_ceiling(degrees_celsius, temperature_limit)) <= 1000,
{
    crate::functions::lemma_map_in_output_range(degrees_celsius as int, temperature_limit - 10, temperature_limit + 10, 1000, 1);
}

} // verus!
