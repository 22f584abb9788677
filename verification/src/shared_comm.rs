//! State shared between the interrupt handlers and the main loop: the motor mode
//! and the input, timing and telemetry values both sides read and write.
//! Hardware implements it with atomics; `SharedData` is a plain implementation.
use vstd::prelude::*;
use crate::motor_mode::{mode_code, transition_spec, MotorEvent, MotorMode};

verus! {

/// The values behind a shared-state implementation.
#[derive(Clone, Copy)]
pub struct SharedView {
    pub mode: MotorMode,
    pub input_set: bool,
    pub dshot_telemetry: bool,
    pub newinput: u16,
    pub adjusted_input: u16,
    pub duty_cycle_setpoint: u16,
    pub zero_crosses: u32,
    pub commutation_interval: u32,
    pub e_com_time: i32,
    pub signal_timeout: u16,
    pub send_telemetry: bool,
    pub stall_protection_adjust: u16,
    pub battery_voltage: u16,
    pub is_dshot: bool,
    pub duty_cycle: u16,
    pub forward: bool,
    pub save_settings_flag: bool,
    pub send_esc_info_flag: bool,
    pub tim1_arr: u16,
    pub duty_maximum: u16,
    pub filter_level: u8,
    pub min_bemf_counts: u8,
    pub auto_advance: u8,
    pub interval_timer_count: u32,
    pub actual_current: i16,
    pub degrees_celsius: i16,
}

pub open spec fn is_armed_mode(m: MotorMode) -> bool {
    mode_code(m) >= 1
}

pub open spec fn is_running_mode(m: MotorMode) -> bool {
    m == MotorMode::OldRoutine || m == MotorMode::Running
}

/// Arming enters Armed from Disarmed (an armed mode stays); disarming always
/// goes to Disarmed.
pub open spec fn set_armed_mode(m: MotorMode, v: bool) -> MotorMode {
    if v && !is_armed_mode(m) { MotorMode::Armed } else if !v { MotorMode::Disarmed } else { m }
}

/// Starting enters polling mode from a stopped mode; stopping a running mode
/// returns to Armed.
pub open spec fn set_running_mode(m: MotorMode, v: bool) -> MotorMode {
    if v && !is_running_mode(m) {
        MotorMode::OldRoutine
    } else if !v && is_running_mode(m) {
        MotorMode::Armed
    } else {
        m
    }
}

/// A running motor enters polling mode; leaving polling mode means interrupt-driven
/// running.
pub open spec fn set_old_routine_mode(m: MotorMode, v: bool) -> MotorMode {
    if v && is_running_mode(m) {
        MotorMode::OldRoutine
    } else if !v && m == MotorMode::OldRoutine {
        MotorMode::Running
    } else {
        m
    }
}

/// Sine stepping is entered from any mode; leaving it returns to Armed.
pub open spec fn set_stepper_sine_mode(m: MotorMode, v: bool) -> MotorMode {
    if v {
        MotorMode::StepperSine
    } else if m == MotorMode::StepperSine {
        MotorMode::Armed
    } else {
        m
    }
}

pub open spec fn with_mode(v: SharedView, mode: MotorMode) -> SharedView {
    SharedView { mode, ..v }
}

/// Communication interface between the interrupt and main-loop contexts.
pub trait SharedComm {
    /// The values currently held.
    spec fn shared(&self) -> SharedView;

    fn motor_mode(&self) -> (r: MotorMode)
        ensures
            r == self.shared().mode,
    ;

    fn set_motor_mode(&mut self, mode: MotorMode)
        ensures
            final(self).shared() == with_mode(old(self).shared(), mode),
    ;

    /// Apply a state transition event.
    fn transition(&mut self, event: MotorEvent)
        ensures
            final(self).shared() == with_mode(old(self).shared(), transition_spec(old(self).shared().mode, event)),
    {
        let m = self.motor_mode();
        let new = m.transition(event);
        if new != m {
            self.set_motor_mode(new);
        }
    }

    fn armed(&self) -> (r: bool)
        ensures
            r == is_armed_mode(self.shared().mode),
    {
        self.motor_mode().is_armed()
    }

    fn running(&self) -> (r: bool)
        ensures
            r == is_running_mode(self.shared().mode),
    {
        self.motor_mode().is_running()
    }

    fn old_routine(&self) -> (r: bool)
        ensures
            r == (self.shared().mode == MotorMode::OldRoutine),
    {
        self.motor_mode().is_old_routine()
    }

    fn stepper_sine(&self) -> (r: bool)
        ensures
            r == (self.shared().mode == MotorMode::StepperSine),
    {
        self.motor_mode().is_stepper_sine()
    }

    fn set_armed(&mut self, v: bool)
        ensures
            final(self).shared() == with_mode(old(self).shared(), set_armed_mode(old(self).shared().mode, v)),
    {
        if v && !self.armed() {
            self.set_motor_mode(MotorMode::Armed);
        } else if !v {
            self.set_motor_mode(MotorMode::Disarmed);
        }
    }

    fn set_running(&mut self, v: bool)
        ensures
            final(self).shared() == with_mode(old(self).shared(), set_running_mode(old(self).shared().mode, v)),
    {
        if v && !self.running() {
            self.set_motor_mode(MotorMode::OldRoutine);
        } else if !v && self.running() {
            self.set_motor_mode(MotorMode::Armed);
        }
    }

    fn set_old_routine(&mut self, v: bool)
        ensures
            final(self).shared() == with_mode(old(self).shared(), set_old_routine_mode(old(self).shared().mode, v)),
    {
        if v && self.running() {
            self.set_motor_mode(MotorMode::OldRoutine);
        } else if !v && self.old_routine() {
            self.set_motor_mode(MotorMode::Running);
        }
    }

    fn set_stepper_sine(&mut self, v: bool)
        ensures
            final(self).shared() == with_mode(old(self).shared(), set_stepper_sine_mode(old(self).shared().mode, v)),
    {
        if v {
            self.set_motor_mode(MotorMode::StepperSine);
        } else if self.stepper_sine() {
            self.set_motor_mode(MotorMode::Armed);
        }
    }

    fn input_set(&self) -> (r: bool)
        ensures
            r == self.shared().input_set,
    ;

    fn set_input_set(&mut self, v: bool)
        ensures
            final(self).shared() == (SharedView { input_set: v, ..old(self).shared() }),
    ;

    fn dshot_telemetry(&self) -> (r: bool)
        ensures
            r == self.shared().dshot_telemetry,
    ;

    fn newinput(&self) -> (r: u16)
        ensures
            r == self.shared().newinput,
    ;

    fn set_newinput(&mut self, v: u16)
        ensures
            final(self).shared() == (SharedView { newinput: v, ..old(self).shared() }),
    ;

    fn adjusted_input(&self) -> (r: u16)
        ensures
            r == self.shared().adjusted_input,
    ;

    fn set_adjusted_input(&mut self, v: u16)
        ensures
            final(self).shared() == (SharedView { adjusted_input: v, ..old(self).shared() }),
    ;

    fn duty_cycle_setpoint(&self) -> (r: u16)
        ensures
            r == self.shared().duty_cycle_setpoint,
    ;

    fn set_duty_cycle_setpoint(&mut self, v: u16)
        ensures
            final(self).shared() == (SharedView { duty_cycle_setpoint: v, ..old(self).shared() }),
    ;

    fn zero_crosses(&self) -> (r: u32)
        ensures
            r == self.shared().zero_crosses,
    ;

    fn set_zero_crosses(&mut self, v: u32)
        ensures
            final(self).shared() == (SharedView { zero_crosses: v, ..old(self).shared() }),
    ;

    /// Count a zero cross, up to 10000.
    fn increment_zero_crosses(&mut self)
        ensures
            final(self).shared() == (SharedView {
                zero_crosses: if old(self).shared().zero_crosses < 10000 { (old(self).shared().zero_crosses + 1) as u32 } else { old(self).shared().zero_crosses },
                ..old(self).shared()
            }),
    ;

    fn commutation_interval(&self) -> (r: u32)
        ensures
            r == self.shared().commutation_interval,
    ;

    fn set_commutation_interval(&mut self, v: u32)
        ensures
            final(self).shared() == (SharedView { commutation_interval: v, ..old(self).shared() }),
    ;

    fn e_com_time(&self) -> (r: i32)
        ensures
            r == self.shared().e_com_time,
    ;

    fn signal_timeout(&self) -> (r: u16)
        ensures
            r == self.shared().signal_timeout,
    ;

    /// Count a tick without signal, saturating.
    fn increment_signal_timeout(&mut self)
        ensures
            final(self).shared() == (SharedView {
                signal_timeout: if old(self).shared().signal_timeout < u16::MAX { (old(self).shared().signal_timeout + 1) as u16 } else { old(self).shared().signal_timeout },
                ..old(self).shared()
            }),
    ;

    fn send_telemetry(&self) -> (r: bool)
        ensures
            r == self.shared().send_telemetry,
    ;

    fn set_send_telemetry(&mut self, v: bool)
        ensures
            final(self).shared() == (SharedView { send_telemetry: v, ..old(self).shared() }),
    ;

    /// Stall protection boost published by the main loop.
    fn stall_protection_adjust(&self) -> (r: u16)
        ensures
            r == self.shared().stall_protection_adjust,
    ;

    fn battery_voltage(&self) -> (r: u16)
        ensures
            r == self.shared().battery_voltage,
    ;

    /// Whether the detected input is DShot.
    fn is_dshot(&self) -> (r: bool)
        ensures
            r == self.shared().is_dshot,
    ;

    fn set_is_dshot(&mut self, v: bool)
        ensures
            final(self).shared() == (SharedView { is_dshot: v, ..old(self).shared() }),
    ;

    /// Duty cycle published by the interrupt.
    fn duty_cycle(&self) -> (r: u16)
        ensures
            r == self.shared().duty_cycle,
    ;

    fn set_duty_cycle(&mut self, v: u16)
        ensures
            final(self).shared() == (SharedView { duty_cycle: v, ..old(self).shared() }),
    ;

    /// Motor direction.
    fn forward(&self) -> (r: bool)
        ensures
            r == self.shared().forward,
    ;

    fn set_forward(&mut self, v: bool)
        ensures
            final(self).shared() == (SharedView { forward: v, ..old(self).shared() }),
    ;

    /// Request to save the settings.
    fn save_settings_flag(&self) -> (r: bool)
        ensures
            r == self.shared().save_settings_flag,
    ;

    fn set_save_settings_flag(&mut self, v: bool)
        ensures
            final(self).shared() == (SharedView { save_settings_flag: v, ..old(self).shared() }),
    ;

    /// Request to send the ESC info packet.
    fn send_esc_info_flag(&self) -> (r: bool)
        ensures
            r == self.shared().send_esc_info_flag,
    ;

    fn set_send_esc_info_flag(&mut self, v: bool)
        ensures
            final(self).shared() == (SharedView { send_esc_info_flag: v, ..old(self).shared() }),
    ;

    /// PWM auto-reload published by the main loop.
    fn tim1_arr(&self) -> (r: u16)
        ensures
            r == self.shared().tim1_arr,
    ;

    fn set_tim1_arr(&mut self, v: u16)
        ensures
            final(self).shared() == (SharedView { tim1_arr: v, ..old(self).shared() }),
    ;

    /// Duty ceiling published by the main loop.
    fn duty_maximum(&self) -> (r: u16)
        ensures
            r == self.shared().duty_maximum,
    ;

    fn set_duty_maximum(&mut self, v: u16)
        ensures
            final(self).shared() == (SharedView { duty_maximum: v, ..old(self).shared() }),
    ;

    /// BEMF filter level.
    fn filter_level(&self) -> (r: u8)
        ensures
            r == self.shared().filter_level,
    ;

    fn set_filter_level(&mut self, v: u8)
        ensures
            final(self).shared() == (SharedView { filter_level: v, ..old(self).shared() }),
    ;

    /// Minimum BEMF counts for a zero cross.
    fn min_bemf_counts(&self) -> (r: u8)
        ensures
            r == self.shared().min_bemf_counts,
    ;

    fn set_min_bemf_counts(&mut self, v: u8)
        ensures
            final(self).shared() == (SharedView { min_bemf_counts: v, ..old(self).shared() }),
    ;

    /// Auto advance level.
    fn auto_advance(&self) -> (r: u8)
        ensures
            r == self.shared().auto_advance,
    ;

    fn set_auto_advance(&mut self, v: u8)
        ensures
            final(self).shared() == (SharedView { auto_advance: v, ..old(self).shared() }),
    ;

    /// Interval timer count published by the interrupt.
    fn interval_timer_count(&self) -> (r: u32)
        ensures
            r == self.shared().interval_timer_count,
    ;

    fn set_interval_timer_count(&mut self, v: u32)
        ensures
            final(self).shared() == (SharedView { interval_timer_count: v, ..old(self).shared() }),
    ;

    fn set_actual_current(&mut self, v: i16)
        ensures
            final(self).shared() == (SharedView { actual_current: v, ..old(self).shared() }),
    ;

    fn set_degrees_celsius(&mut self, v: i16)
        ensures
            final(self).shared() == (SharedView { degrees_celsius: v, ..old(self).shared() }),
    ;

    fn set_stall_protection_adjust(&mut self, v: u16)
        ensures
            final(self).shared() == (SharedView { stall_protection_adjust: v, ..old(self).shared() }),
    ;

    fn set_battery_voltage(&mut self, v: u16)
        ensures
            final(self).shared() == (SharedView { battery_voltage: v, ..old(self).shared() }),
    ;

    fn set_e_com_time(&mut self, v: i32)
        ensures
            final(self).shared() == (SharedView { e_com_time: v, ..old(self).shared() }),
    ;
}

/// A plain shared-state implementation (single context, or tests).
#[derive(Clone, Copy)]
pub struct SharedData {
    pub mode: MotorMode,
    pub input_set: bool,
    pub dshot_telemetry: bool,
    pub newinput: u16,
    pub adjusted_input: u16,
    pub duty_cycle_setpoint: u16,
    pub zero_crosses: u32,
    pub commutation_interval: u32,
    pub e_com_time: i32,
    pub signal_timeout: u16,
    pub send_telemetry: bool,
    pub stall_protection_adjust: u16,
    pub battery_voltage: u16,
    pub is_dshot: bool,
    pub duty_cycle: u16,
    pub forward: bool,
    pub save_settings_flag: bool,
    pub send_esc_info_flag: bool,
    pub tim1_arr: u16,
    pub duty_maximum: u16,
    pub filter_level: u8,
    pub min_bemf_counts: u8,
    pub auto_advance: u8,
    pub interval_timer_count: u32,
    pub actual_current: i16,
    pub degrees_celsius: i16,
}

impl SharedData {
    /// Disarmed, no input, the slow initial commutation interval (12500).
    pub fn new() -> (r: Self)
        ensures
            r.shared() == (SharedView {
                mode: MotorMode::Disarmed,
                input_set: false,
                dshot_telemetry: false,
                newinput: 0,
                adjusted_input: 0,
                duty_cycle_setpoint: 0,
                zero_crosses: 0,
                commutation_interval: 12500,
                e_com_time: 0,
                signal_timeout: 0,
                send_telemetry: false,
                stall_protection_adjust: 0,
                battery_voltage: 0,
                is_dshot: false,
                duty_cycle: 0,
                forward: true,
                save_settings_flag: false,
                send_esc_info_flag: false,
                tim1_arr: 1999,
                duty_maximum: 2000,
                filter_level: 5,
                min_bemf_counts: 2,
                auto_advance: 0,
                interval_timer_count: 0,
                actual_current: 0,
                degrees_celsius: 0,
            }),
    {
        SharedData {
            mode: MotorMode::Disarmed,
            input_set: false,
            dshot_telemetry: false,
            newinput: 0,
            adjusted_input: 0,
            duty_cycle_setpoint: 0,
            zero_crosses: 0,
            commutation_interval: 12500,
            e_com_time: 0,
            signal_timeout: 0,
            send_telemetry: false,
            stall_protection_adjust: 0,
            battery_voltage: 0,
            is_dshot: false,
            duty_cycle: 0,
            forward: true,
            save_settings_flag: false,
            send_esc_info_flag: false,
            tim1_arr: 1999,
            duty_maximum: 2000,
            filter_level: 5,
            min_bemf_counts: 2,
            auto_advance: 0,
            interval_timer_count: 0,
            actual_current: 0,
            degrees_celsius: 0,
        }
    }
}

impl SharedComm for SharedData {
    open spec fn shared(&self) -> SharedView {
        SharedView {
            mode: self.mode,
            input_set: self.input_set,
            dshot_telemetry: self.dshot_telemetry,
            newinput: self.newinput,
            adjusted_input: self.adjusted_input,
            duty_cycle_setpoint: self.duty_cycle_setpoint,
            zero_crosses: self.zero_crosses,
            commutation_interval: self.commutation_interval,
            e_com_time: self.e_com_time,
            signal_timeout: self.signal_timeout,
            send_telemetry: self.send_telemetry,
            stall_protection_adjust: self.stall_protection_adjust,
            battery_voltage: self.battery_voltage,
            is_dshot: self.is_dshot,
            duty_cycle: self.duty_cycle,
            forward: self.forward,
            save_settings_flag: self.save_settings_flag,
            send_esc_info_flag: self.send_esc_info_flag,
            tim1_arr: self.tim1_arr,
            duty_maximum: self.duty_maximum,
            filter_level: self.filter_level,
            min_bemf_counts: self.min_bemf_counts,
            auto_advance: self.auto_advance,
            interval_timer_count: self.interval_timer_count,
            actual_current: self.actual_current,
            degrees_celsius: self.degrees_celsius,
        }
    }

    fn motor_mode(&self) -> (r: MotorMode) {
        self.mode
    }

    fn set_motor_mode(&mut self, mode: MotorMode) {
        self.mode = mode;
    }

    fn input_set(&self) -> (r: bool) {
        self.input_set
    }

    fn set_input_set(&mut self, v: bool) {
        self.input_set = v;
    }

    fn dshot_telemetry(&self) -> (r: bool) {
        self.dshot_telemetry
    }

    fn newinput(&self) -> (r: u16) {
        self.newinput
    }

    fn set_newinput(&mut self, v: u16) {
        self.newinput = v;
    }

    fn adjusted_input(&self) -> (r: u16) {
        self.adjusted_input
    }

    fn set_adjusted_input(&mut self, v: u16) {
        self.adjusted_input = v;
    }

    fn duty_cycle_setpoint(&self) -> (r: u16) {
        self.duty_cycle_setpoint
    }

    fn set_duty_cycle_setpoint(&mut self, v: u16) {
        self.duty_cycle_setpoint = v;
    }

    fn zero_crosses(&self) -> (r: u32) {
        self.zero_crosses
    }

    fn set_zero_crosses(&mut self, v: u32) {
        self.zero_crosses = v;
    }

    fn increment_zero_crosses(&mut self) {
        let v = self.zero_crosses;
        if v < 10000 {
            self.zero_crosses = v + 1;
        }
    }

    fn commutation_interval(&self) -> (r: u32) {
        self.commutation_interval
    }

    fn set_commutation_interval(&mut self, v: u32) {
        self.commutation_interval = v;
    }

    fn e_com_time(&self) -> (r: i32) {
        self.e_com_time
    }

    fn signal_timeout(&self) -> (r: u16) {
        self.signal_timeout
    }

    fn increment_signal_timeout(&mut self) {
        let v = self.signal_timeout;
        if v < u16::MAX {
            self.signal_timeout = v + 1;
        }
    }

    fn send_telemetry(&self) -> (r: bool) {
        self.send_telemetry
    }

    fn set_send_telemetry(&mut self, v: bool) {
        self.send_telemetry = v;
    }

    fn stall_protection_adjust(&self) -> (r: u16) {
        self.stall_protection_adjust
    }

    fn battery_voltage(&self) -> (r: u16) {
        self.battery_voltage
    }

    fn is_dshot(&self) -> (r: bool) {
        self.is_dshot
    }

    fn set_is_dshot(&mut self, v: bool) {
        self.is_dshot = v;
    }

    fn duty_cycle(&self) -> (r: u16) {
        self.duty_cycle
    }

    fn set_duty_cycle(&mut self, v: u16) {
        self.duty_cycle = v;
    }

    fn forward(&self) -> (r: bool) {
        self.forward
    }

    fn set_forward(&mut self, v: bool) {
        self.forward = v;
    }

    fn save_settings_flag(&self) -> (r: bool) {
        self.save_settings_flag
    }

    fn set_save_settings_flag(&mut self, v: bool) {
        self.save_settings_flag = v;
    }

    fn send_esc_info_flag(&self) -> (r: bool) {
        self.send_esc_info_flag
    }

    fn set_send_esc_info_flag(&mut self, v: bool) {
        self.send_esc_info_flag = v;
    }

    fn tim1_arr(&self) -> (r: u16) {
        self.tim1_arr
    }

    fn set_tim1_arr(&mut self, v: u16) {
        self.tim1_arr = v;
    }

    fn duty_maximum(&self) -> (r: u16) {
        self.duty_maximum
    }

    fn set_duty_maximum(&mut self, v: u16) {
        self.duty_maximum = v;
    }

    fn filter_level(&self) -> (r: u8) {
        self.filter_level
    }

    fn set_filter_level(&mut self, v: u8) {
        self.filter_level = v;
    }

    fn min_bemf_counts(&self) -> (r: u8) {
        self.min_bemf_counts
    }

    fn set_min_bemf_counts(&mut self, v: u8) {
        self.min_bemf_counts = v;
    }

    fn auto_advance(&self) -> (r: u8) {
        self.auto_advance
    }

    fn set_auto_advance(&mut self, v: u8) {
        self.auto_advance = v;
    }

    fn interval_timer_count(&self) -> (r: u32) {
        self.interval_timer_count
    }

    fn set_interval_timer_count(&mut self, v: u32) {
        self.interval_timer_count = v;
    }

    fn set_actual_current(&mut self, v: i16) {
        self.actual_current = v;
    }

    fn set_degrees_celsius(&mut self, v: i16) {
        self.degrees_celsius = v;
    }

    fn set_stall_protection_adjust(&mut self, v: u16) {
        self.stall_protection_adjust = v;
    }

    fn set_battery_voltage(&mut self, v: u16) {
        self.battery_voltage = v;
    }

    fn set_e_com_time(&mut self, v: i32) {
        self.e_com_time = v;
    }
}

/// Arming and disarming through the setters agree with the transition table:
/// arming a disarmed motor is the Arm event, disarming is the Disarm event.
pub proof fn lemma_setters_match_transitions(m: MotorMode)
    ensures
        m == MotorMode::Disarmed ==> set_armed_mode(m, true) == transition_spec(m, MotorEvent::Arm),
        set_armed_mode(m, false) == transition_spec(m, MotorEvent::Disarm),
        m == MotorMode::Armed ==> set_running_mode(m, true) == transition_spec(m, MotorEvent::StartMotor),
        is_running_mode(m) ==> set_running_mode(m, false) == transition_spec(m, MotorEvent::StopMotor),
        m == MotorMode::OldRoutine ==> set_old_routine_mode(m, false) == transition_spec(m, MotorEvent::BemfLocked),
{
}

} // verus!
