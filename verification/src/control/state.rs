//! Motor controller state, decomposed into focused sub-structs.
use vstd::prelude::*;
use crate::commutation::Commutation;
use crate::config::EepromConfig;
use crate::current::CurrentFilter;
use crate::filter::EwmaPow2;
use crate::functions::tdiv;
use crate::pid::{Pid, pid_calc_ok, pid_output, pid_step, fits_i32};
use crate::units::{DegreesCelsius, MilliAmps, MilliVolts};

verus! {

/// `v` clamped into `[lo, hi]`.
pub open spec fn clamp_int(v: int, lo: int, hi: int) -> int {
    if v < lo {
        lo
    } else if v > hi {
        hi
    } else {
        v
    }
}

/// BEMF zero-cross detection state.
#[derive(Clone, Copy)]
pub struct BemfState {
    pub counter: u8,
    pub zc_found: bool,
    pub min_counts_up: u8,
    pub min_counts_down: u8,
    pub bad_count: u8,
    pub bad_count_threshold: u8,
    pub filter_level: u8,
    pub wait_time: u16,
    pub last_zc_time: u16,
    pub this_zc_time: u16,
    pub advance: u16,
    pub temp_advance: u8,
    pub auto_advance_level: u8,
}

/// Duty cycle and ramp control.
#[derive(Clone, Copy)]
pub struct DutyState {
    pub cycle: u16,
    pub maximum: u16,
    pub last: u16,
    pub adjusted: u16,
    pub setpoint: u16,
    pub min_startup: u16,
    pub startup_max: u16,
    pub minimum: u16,
    pub max_change: u8,
    pub ramp_count: u16,
    pub ramp_divider: u8,
    pub max_ramp_startup: u8,
    pub max_ramp_low_rpm: u8,
    pub max_ramp_high_rpm: u8,
}

/// PID controllers (current limit, speed control, stall protection) and their
/// output accumulators.
#[derive(Clone, Copy)]
pub struct PidState {
    pub current: Pid,
    pub speed: Pid,
    pub stall: Pid,
    pub use_current_limit: bool,
    pub current_limit_adjust: i16,
    pub stall_adjust: i32,
    pub stall_protect_target_interval: u16,
    pub use_speed_control: bool,
    pub input_override: i32,
    pub target_e_com_time: u32,
}

impl PidState {
    /// PidState with a board-specific stall protection target interval.
    pub fn with_stall_target(stall_protect_target_interval: u16) -> (r: Self)
        ensures
            r == (PidState { stall_protect_target_interval, ..pid_state_default() }),
    {
        let mut s = Self::default();
        s.stall_protect_target_interval = stall_protect_target_interval;
        s
    }

    /// Update current-limit PID gains (resetting its accumulated state).
    pub fn set_current_gains(&mut self, kp: u32, ki: u32, kd: u32)
        ensures
            final(self).current == (Pid { kp, ki, kd, error: 0, integral: 0, derivative: 0, last_error: 0, pid_output: 0, ..old(self).current }),
            *final(self) == (PidState { current: final(self).current, ..*old(self) }),
    {
        self.current.set_gains(kp, ki, kd);
    }

    /// Set whether current limiting is active.
    pub fn set_use_current_limit(&mut self, v: bool)
        ensures
            *final(self) == (PidState { use_current_limit: v, ..*old(self) }),
    {
        self.use_current_limit = v;
    }

    /// Set whether closed-loop speed control is active.
    pub fn set_use_speed_control(&mut self, v: bool)
        ensures
            *final(self) == (PidState { use_speed_control: v, ..*old(self) }),
    {
        self.use_speed_control = v;
    }

    /// Stall protection PID tick: accumulates the PID output into `stall_adjust`,
    /// clamped to 0..=1_500_000, and returns the boost `stall_adjust / 10000` (0-150).
    pub fn tick_stall(&mut self, commutation_interval: i32) -> (r: u16)
        requires
            pid_calc_ok(old(self).stall, commutation_interval, old(self).stall_protect_target_interval as i32),
            fits_i32(old(self).stall_adjust + pid_output(old(self).stall, commutation_interval, old(self).stall_protect_target_interval as i32)),
        ensures
            final(self).stall == pid_step(old(self).stall, commutation_interval, old(self).stall_protect_target_interval as i32),
            final(self).stall_adjust == clamp_int(old(self).stall_adjust + pid_output(old(self).stall, commutation_interval, old(self).stall_protect_target_interval as i32), 0, 1_500_000),
            r == final(self).stall_adjust / 10000,
            r <= 150,
            *final(self) == (PidState { stall: final(self).stall, stall_adjust: final(self).stall_adjust, ..*old(self) }),
    {
        let out = self.stall.calculate(commutation_interval, self.stall_protect_target_interval as i32);
        let mut a = self.stall_adjust + out;
        if a < 0 {
            a = 0;
        } else if a > 1_500_000 {
            a = 1_500_000;
        }
        self.stall_adjust = a;
        (a / 10000) as u16
    }

    /// Current limit PID tick. With current limiting active and the motor running,
    /// subtracts the PID output (divided by 10000) from the duty ceiling, clamped to
    /// `min_duty..=2000`; otherwise resets the ceiling to 2000 (no limit).
    pub fn tick_current_limit(&mut self, actual_current: i16, target: i32, min_duty: i16, running: bool) -> (r: u16)
        requires
            min_duty <= 2000,
            old(self).use_current_limit && running ==> pid_calc_ok(old(self).current, actual_current as i32, target),
            old(self).use_current_limit && running ==> i16::MIN <= old(self).current_limit_adjust
                - (tdiv(pid_output(old(self).current, actual_current as i32, target), 10000) as i16) <= i16::MAX,
        ensures
            old(self).use_current_limit && running ==> {
                &&& final(self).current == pid_step(old(self).current, actual_current as i32, target)
                &&& final(self).current_limit_adjust == clamp_int(old(self).current_limit_adjust
                    - (tdiv(pid_output(old(self).current, actual_current as i32, target), 10000) as i16), min_duty as int, 2000)
                &&& r == final(self).current_limit_adjust as u16
            },
            !(old(self).use_current_limit && running) ==> {
                &&& final(self).current == old(self).current
                &&& final(self).current_limit_adjust == 2000
                &&& r == 2000
            },
            *final(self) == (PidState { current: final(self).current, current_limit_adjust: final(self).current_limit_adjust, ..*old(self) }),
    {
        if self.use_current_limit && running {
            let out = self.current.calculate(actual_current as i32, target);
            let adj = out / 10000;
            let mut c = self.current_limit_adjust - adj as i16;
            if c < min_duty {
                c = min_duty;
            } else if c > 2000 {
                c = 2000;
            }
            self.current_limit_adjust = c;
            c as u16
        } else {
            self.current_limit_adjust = 2000;
            2000
        }
    }

    /// Speed control PID tick. Returns the throttle override (accumulator / 10000,
    /// the accumulator clamped to 0..=20_470_000) when speed control is active and the
    /// motor runs, None otherwise. The PID is reset below 100 zero crosses.
    pub fn tick_speed_control(&mut self, e_com_time: i32, zero_crosses: u32, running: bool) -> (r: Option<u16>)
        requires
            old(self).use_speed_control && running ==> pid_calc_ok(old(self).speed, e_com_time, old(self).target_e_com_time as i32),
            old(self).use_speed_control && running ==> fits_i32(old(self).input_override + pid_output(old(self).speed, e_com_time, old(self).target_e_com_time as i32)),
        ensures
            !(old(self).use_speed_control && running) ==> r.is_none() && *final(self) == *old(self),
            old(self).use_speed_control && running ==> {
                let stepped = pid_step(old(self).speed, e_com_time, old(self).target_e_com_time as i32);
                &&& final(self).input_override == clamp_int(old(self).input_override + pid_output(old(self).speed, e_com_time, old(self).target_e_com_time as i32), 0, 20_470_000)
                &&& final(self).speed == if zero_crosses < 100 {
                    Pid { error: 0, integral: 0, derivative: 0, last_error: 0, pid_output: 0, ..stepped }
                } else {
                    stepped
                }
                &&& r == Some((final(self).input_override / 10000) as u16)
                &&& *final(self) == (PidState { speed: final(self).speed, input_override: final(self).input_override, ..*old(self) })
            },
    {
        if !self.use_speed_control || !running {
            return None;
        }
        let out = self.speed.calculate(e_com_time, self.target_e_com_time as i32);
        let mut o = self.input_override + out;
        if o < 0 {
            o = 0;
        } else if o > 2047 * 10000 {
            o = 2047 * 10000;
        }
        self.input_override = o;
        if zero_crosses < 100 {
            self.speed.reset();
        }
        Some((o / 10000) as u16)
    }
}

/// The default PID configuration: current limit (400, 0, 1000), speed (10, 0, 100),
/// stall (1, 0, 50), no limits active, full duty ceiling.
pub open spec fn pid_state_default() -> PidState {
    PidState {
        current: Pid::new_spec(400, 0, 1000, 20000, 100000),
        speed: Pid::new_spec(10, 0, 100, 10000, 50000),
        stall: Pid::new_spec(1, 0, 50, 10000, 50000),
        use_current_limit: false,
        current_limit_adjust: 2000,
        stall_adjust: 0,
        stall_protect_target_interval: 0,
        use_speed_control: false,
        input_override: 0,
        target_e_com_time: 0,
    }
}

/// Protection system state.
#[derive(Clone, Copy)]
pub struct ProtectionState {
    pub bemf_timeout_happened: u8,
    pub bemf_timeout: u8,
    pub low_voltage_count: u16,
    pub low_voltage_cutoff: bool,
    pub desync_happened: u16,
}

/// Sensor measurements with their filters.
pub struct Measurements {
    pub battery_voltage: MilliVolts,
    pub actual_current: MilliAmps,
    pub degrees_celsius: DegreesCelsius,
    pub consumed_current: i32,
    pub voltage_filter: EwmaPow2<3>,
    pub current_filter: CurrentFilter,
}

/// Raw sensor measurements in plain integers (millivolts, milliamps, degrees).
#[derive(Clone, Copy)]
pub struct RawMeasurements {
    pub battery_voltage: u16,
    pub actual_current: i16,
    pub degrees_celsius: i16,
    pub consumed_current: i32,
}

/// eRPM and commutation interval tracking.
#[derive(Clone, Copy)]
pub struct TimingState {
    pub average_interval: u32,
    pub last_average_interval: u32,
    pub e_rpm: u16,
    pub commutation_interval: u32,
    pub commutation_intervals: [u16; 6],
    pub zero_crosses: u32,
    pub e_com_time: i32,
    pub polling_mode_changeover: u32,
}

/// Telemetry scheduling state.
#[derive(Clone, Copy)]
pub struct TelemetryState {
    pub ms_count: u16,
    pub send_telemetry: bool,
    pub send_esc_info: bool,
}

/// Throttle input state of the motor controller.
#[derive(Clone, Copy)]
pub struct MotorInput {
    pub newinput: u16,
    pub adjusted: u16,
    pub input: u16,
    pub dshot: bool,
    pub servo_pwm: bool,
    pub dshot_telemetry: bool,
    pub edt_armed: bool,
    pub edt_arm_enable: bool,
    pub input_set: bool,
    pub signal_timeout: u16,
    pub zero_input_count: u16,
    pub servo_low_threshold: u16,
    pub servo_high_threshold: u16,
    pub servo_neutral: u16,
}

/// The whole motor controller state driven by the tick methods.
pub struct MotorState {
    pub config: EepromConfig,
    pub commutation: Commutation,
    pub bemf: BemfState,
    pub duty: DutyState,
    pub pid: PidState,
    pub protection: ProtectionState,
    pub measurements: RawMeasurements,
    pub timing: TimingState,
    pub telemetry: TelemetryState,
    pub input: MotorInput,
    pub running: bool,
    pub armed: bool,
    pub old_routine: bool,
    pub stepper_sine: bool,
    pub prop_brake_active: bool,
    pub return_to_center: bool,
    pub reverse_speed_threshold: u16,
    pub play_tone_flag: u8,
    pub prop_brake_duty_cycle: u16,
    pub ten_khz_counter: u32,
    pub one_khz_loop_counter: u16,
    pub armed_timeout_count: u32,
    pub tim1_arr: u16,
    pub timer1_max_arr: u16,
    pub cpu_mhz: u8,
    pub cell_count: u8,
    pub motor_kv: u16,
    pub telemetry_interval_ms: u8,
}

impl Default for BemfState {
    fn default() -> (r: Self)
        ensures
            r == bemf_state_default(),
    {
        Self {
            counter: 0,
            zc_found: false,
            min_counts_up: 2,
            min_counts_down: 2,
            bad_count: 0,
            bad_count_threshold: 2,
            filter_level: 5,
            wait_time: 0,
            last_zc_time: 0,
            this_zc_time: 0,
            advance: 0,
            temp_advance: 0,
            auto_advance_level: 0,
        }
    }
}

pub open spec fn bemf_state_default() -> BemfState {
    BemfState {
        counter: 0,
        zc_found: false,
        min_counts_up: 2,
        min_counts_down: 2,
        bad_count: 0,
        bad_count_threshold: 2,
        filter_level: 5,
        wait_time: 0,
        last_zc_time: 0,
        this_zc_time: 0,
        advance: 0,
        temp_advance: 0,
        auto_advance_level: 0,
    }
}

pub open spec fn duty_state_default() -> DutyState {
    DutyState {
        cycle: 0,
        maximum: 2000,
        last: 0,
        adjusted: 0,
        setpoint: 0,
        min_startup: 120,
        startup_max: 200,
        minimum: 5,
        max_change: 2,
        ramp_count: 0,
        ramp_divider: 0,
        max_ramp_startup: 2,
        max_ramp_low_rpm: 6,
        max_ramp_high_rpm: 16,
    }
}

impl Default for DutyState {
    fn default() -> (r: Self)
        ensures
            r == duty_state_default(),
    {
        Self {
            cycle: 0,
            maximum: 2000,
            last: 0,
            adjusted: 0,
            setpoint: 0,
            min_startup: 120,
            startup_max: 200,
            minimum: 5,
            max_change: 2,
            ramp_count: 0,
            ramp_divider: 0,
            max_ramp_startup: 2,
            max_ramp_low_rpm: 6,
            max_ramp_high_rpm: 16,
        }
    }
}

impl Default for PidState {
    fn default() -> (r: Self)
        ensures
            r == pid_state_default(),
    {
        Self {
            current: Pid::new(400, 0, 1000, 20000, 100000),
            speed: Pid::new(10, 0, 100, 10000, 50000),
            stall: Pid::new(1, 0, 50, 10000, 50000),
            use_current_limit: false,
            current_limit_adjust: 2000,
            stall_adjust: 0,
            stall_protect_target_interval: 0,
            use_speed_control: false,
            input_override: 0,
            target_e_com_time: 0,
        }
    }
}

impl Default for ProtectionState {
    fn default() -> (r: Self)
        ensures
            r.bemf_timeout_happened == 0,
            r.bemf_timeout == 10,
            r.low_voltage_count == 0,
            !r.low_voltage_cutoff,
            r.desync_happened == 0,
    {
        Self { bemf_timeout_happened: 0, bemf_timeout: 10, low_voltage_count: 0, low_voltage_cutoff: false, desync_happened: 0 }
    }
}

impl Default for Measurements {
    fn default() -> (r: Self)
        ensures
            r.battery_voltage.0 == 0,
            r.actual_current.0 == 0,
            r.degrees_celsius.0 == 0,
            r.consumed_current == 0,
            r.voltage_filter.wf(),
            !r.voltage_filter.initialized,
            r.current_filter.wf(),
    {
        Self {
            battery_voltage: MilliVolts(0),
            actual_current: MilliAmps(0),
            degrees_celsius: DegreesCelsius(0),
            consumed_current: 0,
            voltage_filter: EwmaPow2::new(),
            current_filter: CurrentFilter::new(),
        }
    }
}

impl Default for RawMeasurements {
    fn default() -> (r: Self)
        ensures
            r.battery_voltage == 0,
            r.actual_current == 0,
            r.degrees_celsius == 0,
            r.consumed_current == 0,
    {
        Self { battery_voltage: 0, actual_current: 0, degrees_celsius: 0, consumed_current: 0 }
    }
}

impl Default for TimingState {
    fn default() -> (r: Self)
        ensures
            r.average_interval == 0,
            r.last_average_interval == 0,
            r.e_rpm == 0,
            r.commutation_interval == 12500,
            r.commutation_intervals@ == seq![0u16, 0, 0, 0, 0, 0],
            r.zero_crosses == 0,
            r.e_com_time == 0,
            r.polling_mode_changeover == 2000,
    {
        let r = Self {
            average_interval: 0,
            last_average_interval: 0,
            e_rpm: 0,
            commutation_interval: 12500,
            commutation_intervals: [0u16; 6],
            zero_crosses: 0,
            e_com_time: 0,
            polling_mode_changeover: 2000,
        };
        assert(r.commutation_intervals@ =~= seq![0u16, 0, 0, 0, 0, 0]);
        r
    }
}

impl Default for TelemetryState {
    fn default() -> (r: Self)
        ensures
            r.ms_count == 0,
            !r.send_telemetry,
            !r.send_esc_info,
    {
        Self { ms_count: 0, send_telemetry: false, send_esc_info: false }
    }
}

impl Default for MotorInput {
    fn default() -> (r: Self)
        ensures
            r.newinput == 0 && r.adjusted == 0 && r.input == 0,
            !r.dshot && !r.servo_pwm && !r.dshot_telemetry && !r.edt_armed && !r.edt_arm_enable && !r.input_set,
            r.signal_timeout == 0 && r.zero_input_count == 0,
            r.servo_low_threshold == 1100 && r.servo_high_threshold == 1900 && r.servo_neutral == 1500,
    {
        Self {
            newinput: 0,
            adjusted: 0,
            input: 0,
            dshot: false,
            servo_pwm: false,
            dshot_telemetry: false,
            edt_armed: false,
            edt_arm_enable: false,
            input_set: false,
            signal_timeout: 0,
            zero_input_count: 0,
            servo_low_threshold: 1100,
            servo_high_threshold: 1900,
            servo_neutral: 1500,
        }
    }
}

impl Default for MotorState {
    /// Power-on state: all-zero settings, disarmed, stopped, default sub-states.
    fn default() -> (r: Self)
        ensures
            r.config.bytes_spec() == Seq::new(192, |i: int| 0u8),
            r.commutation.step == 1 && r.commutation.forward && r.commutation.rising && !r.commutation.desync_check,
            r.bemf == bemf_state_default(),
            r.duty == duty_state_default(),
            r.pid == pid_state_default(),
            !r.running && !r.armed && !r.old_routine && !r.stepper_sine,
            !r.prop_brake_active && !r.return_to_center,
            r.reverse_speed_threshold == 1500,
            r.tim1_arr == 1999 && r.timer1_max_arr == 1999,
            r.cpu_mhz == 64,
            r.telemetry_interval_ms == 30,
            r.ten_khz_counter == 0 && r.one_khz_loop_counter == 0 && r.armed_timeout_count == 0,
            r.cell_count == 0 && r.motor_kv == 0 && r.play_tone_flag == 0 && r.prop_brake_duty_cycle == 0,
            r.protection == (ProtectionState { bemf_timeout_happened: 0, bemf_timeout: 10, low_voltage_count: 0, low_voltage_cutoff: false, desync_happened: 0 }),
            r.measurements == (RawMeasurements { battery_voltage: 0, actual_current: 0, degrees_celsius: 0, consumed_current: 0 }),
            r.timing.average_interval == 0 && r.timing.last_average_interval == 0 && r.timing.e_rpm == 0,
            r.timing.commutation_interval == 12500 && r.timing.zero_crosses == 0 && r.timing.e_com_time == 0,
            r.timing.commutation_intervals@ == seq![0u16, 0, 0, 0, 0, 0] && r.timing.polling_mode_changeover == 2000,
            r.telemetry == (TelemetryState { ms_count: 0, send_telemetry: false, send_esc_info: false }),
            r.input.newinput == 0 && r.input.adjusted == 0 && r.input.input == 0,
            !r.input.dshot && !r.input.servo_pwm && !r.input.dshot_telemetry && !r.input.edt_armed && !r.input.edt_arm_enable && !r.input.input_set,
            r.input.signal_timeout == 0 && r.input.zero_input_count == 0,
            r.input.servo_low_threshold == 1100 && r.input.servo_high_threshold == 1900 && r.input.servo_neutral == 1500,
    {
        Self {
            config: EepromConfig::default(),
            commutation: Commutation::new(),
            bemf: BemfState::default(),
            duty: DutyState::default(),
            pid: PidState::default(),
            protection: ProtectionState::default(),
            measurements: RawMeasurements::default(),
            timing: TimingState::default(),
            telemetry: TelemetryState::default(),
            input: MotorInput::default(),
            running: false,
            armed: false,
            old_routine: false,
            stepper_sine: false,
            prop_brake_active: false,
            return_to_center: false,
            reverse_speed_threshold: 1500,
            play_tone_flag: 0,
            prop_brake_duty_cycle: 0,
            ten_khz_counter: 0,
            one_khz_loop_counter: 0,
            armed_timeout_count: 0,
            tim1_arr: 1999,
            timer1_max_arr: 1999,
            cpu_mhz: 64,
            cell_count: 0,
            motor_kv: 0,
            telemetry_interval_ms: 30,
        }
    }
}

} // verus!
