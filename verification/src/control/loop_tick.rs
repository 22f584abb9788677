//! The 20 kHz control tick on the motor state: counters, telemetry scheduling,
//! arming, the 1 kHz PID loops, duty ramp limiting and the PWM output.
use vstd::prelude::*;
use crate::commutation::Commutation;
use crate::control::state::{clamp_int, BemfState, MotorState, DutyState, PidState, MotorInput, ProtectionState, RawMeasurements, TelemetryState, TimingState};
use crate::functions::{get_abs_dif, map_spec};
use crate::main_state::{variable_pwm_mode1, variable_pwm_mode1_spec, variable_pwm_mode2, variable_pwm_mode2_spec};
use crate::control::tick::ControlHal;
use crate::hal::{HalCall, HalLog};
use crate::functions::tdiv;
use crate::pid::{pid_calc_ok, pid_output, pid_step, fits_i32};

verus! {

/// Counter stage: the duty follows the setpoint, and the tick, signal-timeout,
/// ramp and 1 kHz counters advance.
#[verifier::opaque]
pub open spec fn counters_spec(s: MotorState) -> MotorState {
    MotorState {
        duty: DutyState { cycle: s.duty.setpoint, ramp_count: (s.duty.ramp_count + 1) as u16, ..s.duty },
        ten_khz_counter: (s.ten_khz_counter + 1) as u32,
        input: MotorInput { signal_timeout: (s.input.signal_timeout + 1) as u16, ..s.input },
        one_khz_loop_counter: (s.one_khz_loop_counter + 1) as u16,
        ..s
    }
}

pub open spec fn counters_ok(s: MotorState) -> bool {
    &&& s.duty.ramp_count < u16::MAX
    &&& s.ten_khz_counter < u32::MAX
    &&& s.input.signal_timeout < u16::MAX
    &&& s.one_khz_loop_counter < u16::MAX
}

/// Telemetry interval stage: with interval telemetry on, a telemetry frame is
/// requested every `(interval_ms - 1 + setting) * 20` ticks.
#[verifier::opaque]
pub open spec fn telemetry_interval_spec(s: MotorState) -> MotorState {
    if s.config.telemetry_on_interval != 0 {
        let c = s.telemetry.ms_count + 1;
        let threshold = (s.telemetry_interval_ms - 1 + s.config.telemetry_on_interval) * 20;
        if c > threshold {
            MotorState { telemetry: TelemetryState { send_telemetry: true, ms_count: 0, ..s.telemetry }, ..s }
        } else {
            MotorState { telemetry: TelemetryState { ms_count: c as u16, ..s.telemetry }, ..s }
        }
    } else {
        s
    }
}

pub open spec fn telemetry_interval_ok(s: MotorState) -> bool {
    s.config.telemetry_on_interval != 0 ==> s.telemetry.ms_count < u16::MAX && s.telemetry_interval_ms >= 1
}

/// Arming stage: while disarmed, one second (20000 ticks) of zero throttle after
/// input detection arms the ESC if zero input was also seen over 30 times;
/// otherwise input detection starts over.
#[verifier::opaque]
pub open spec fn arming_spec(s: MotorState) -> MotorState {
    if !s.armed {
        if s.cell_count == 0 && s.input.input_set && s.input.adjusted == 0 {
            let c = (s.armed_timeout_count + 1) as u32;
            if c > 20000 {
                if s.input.zero_input_count > 30 {
                    MotorState { armed: true, armed_timeout_count: c, ..s }
                } else {
                    MotorState { input: MotorInput { input_set: false, ..s.input }, armed_timeout_count: 0, ..s }
                }
            } else {
                MotorState { armed_timeout_count: c, ..s }
            }
        } else {
            MotorState { armed_timeout_count: 0, ..s }
        }
    } else {
        s
    }
}

pub open spec fn arming_ok(s: MotorState) -> bool {
    s.armed_timeout_count < u32::MAX
}

/// The current-limit target: the setting times 200 mA.
pub open spec fn current_target(s: MotorState) -> i32 {
    (s.config.current_limit * 200) as i32
}

/// The current-limit step: the PID output over 10000 (16 bits) comes off the
/// duty ceiling, which is held within `minimum..=2000`.
pub open spec fn current_limit_value(s: MotorState) -> int {
    let adj = tdiv(pid_output(s.pid.current, s.measurements.actual_current as i32, current_target(s)), 10000) as i16;
    clamp_int(s.pid.current_limit_adjust - adj, s.duty.minimum as i16 as int, 2000)
}

/// 1 kHz stage (every 21 ticks): the current-limit PID lowers the duty ceiling
/// while running with current limiting on, and the stall PID accumulates its
/// boost (0..=1_500_000) while running with stall protection on.
#[verifier::opaque]
pub open spec fn pid_loop_spec(s: MotorState) -> MotorState {
    if s.one_khz_loop_counter > 20 {
        let s1 = MotorState { one_khz_loop_counter: 0, ..s };
        let s2 = if s1.pid.use_current_limit && s1.running {
            MotorState {
                pid: PidState {
                    current: pid_step(s1.pid.current, s1.measurements.actual_current as i32, current_target(s1)),
                    current_limit_adjust: current_limit_value(s1) as i16,
                    ..s1.pid
                },
                ..s1
            }
        } else {
            s1
        };
        if s2.config.stall_protection != 0 && s2.running {
            let ci = s2.timing.commutation_interval as i32;
            MotorState {
                pid: PidState {
                    stall: pid_step(s2.pid.stall, ci, 6500),
                    stall_adjust: clamp_int(s2.pid.stall_adjust + pid_output(s2.pid.stall, ci, 6500), 0, 1_500_000) as i32,
                    ..s2.pid
                },
                ..s2
            }
        } else {
            s2
        }
    } else {
        s
    }
}

/// What the PID stage asks: each PID step free of overflow, the ceiling update
/// within 16 bits with a minimum duty of at most 2000, the boost sum within 32 bits.
pub open spec fn pid_loop_ok(s: MotorState) -> bool {
    s.one_khz_loop_counter > 20 ==> {
        let cur = s.measurements.actual_current as i32;
        &&& (s.pid.use_current_limit && s.running ==> {
            &&& pid_calc_ok(s.pid.current, cur, current_target(s))
            &&& i16::MIN <= s.pid.current_limit_adjust - (tdiv(pid_output(s.pid.current, cur, current_target(s)), 10000) as i16) <= i16::MAX
            &&& s.duty.minimum as i16 <= 2000
        })
        &&& (s.config.stall_protection != 0 && s.running ==> {
            let ci = s.timing.commutation_interval as i32;
            &&& pid_calc_ok(s.pid.stall, ci, 6500)
            &&& fits_i32(s.pid.stall_adjust + pid_output(s.pid.stall, ci, 6500))
        })
    }
}

/// The ramp step used: slow at startup (under 150 zero crosses or duty), then by
/// speed (average interval over 500 is low speed).
pub open spec fn ramp_step(s: MotorState) -> u8 {
    if s.timing.zero_crosses < 150 || s.duty.last < 150 {
        s.duty.max_ramp_startup
    } else if s.timing.average_interval > 500 {
        s.duty.max_ramp_low_rpm
    } else {
        s.duty.max_ramp_high_rpm
    }
}

/// Ramp stage: every `ramp_divider + 1` ticks the duty may move from the last
/// duty by at most the ramp step; between those ticks it holds the last duty.
#[verifier::opaque]
pub open spec fn ramp_spec(s: MotorState) -> MotorState {
    if s.duty.ramp_count > s.duty.ramp_divider {
        let change = ramp_step(s);
        let c1: u16 = if s.duty.cycle > s.duty.last + change { (s.duty.last + change) as u16 } else { s.duty.cycle };
        let c2: u16 = if s.duty.last > c1 + change { (s.duty.last - change) as u16 } else { c1 };
        MotorState { duty: DutyState { ramp_count: 0, max_change: change, cycle: c2, ..s.duty }, ..s }
    } else {
        MotorState { duty: DutyState { cycle: s.duty.last, ..s.duty }, ..s }
    }
}

/// The ramp's sums fit in 16 bits: the last duty plus the step, and the duty
/// (after capping at that sum) plus the step.
pub open spec fn ramp_ok(s: MotorState) -> bool {
    let change = ramp_step(s);
    let c1 = if s.duty.cycle > s.duty.last + change { s.duty.last + change } else { s.duty.cycle as int };
    s.duty.ramp_count > s.duty.ramp_divider ==> s.duty.last + change <= u16::MAX && c1 + change <= u16::MAX
}

/// The compare value written to the PWM timer: the duty scaled to the auto-reload
/// (plus one while driving), or the inverted brake duty while braking.
pub open spec fn adjusted_duty(s: MotorState) -> u16 {
    let arr = s.tim1_arr as int;
    if s.armed && s.running && s.input.input > 47 {
        ((s.duty.cycle * arr) / 2000 + 1) as u16
    } else if s.prop_brake_active {
        (arr - (s.prop_brake_duty_cycle * arr) / 2000) as u16
    } else {
        ((s.duty.cycle * arr) / 2000) as u16
    }
}

/// Output stage: the compare value and the last duty.
#[verifier::opaque]
pub open spec fn output_spec(s: MotorState) -> MotorState {
    MotorState { duty: DutyState { adjusted: adjusted_duty(s), last: s.duty.cycle, ..s.duty }, ..s }
}

pub open spec fn output_ok(s: MotorState) -> bool {
    !(s.armed && s.running && s.input.input > 47) && s.prop_brake_active ==> s.prop_brake_duty_cycle <= 2000
}

/// The state after one 20 kHz tick.
pub open spec fn ten_khz_spec(s: MotorState) -> MotorState {
    output_spec(ramp_spec(pid_loop_spec(arming_spec(telemetry_interval_spec(counters_spec(s))))))
}

/// What one tick asks, stage by stage: counters and accumulators with room to
/// count, a telemetry interval of at least 1 ms, PID steps free of overflow, duty
/// values leaving room for a ramp step, and a brake duty within the 2000 scale.
pub open spec fn ten_khz_ok(s: MotorState) -> bool {
    let s1 = counters_spec(s);
    let s2 = telemetry_interval_spec(s1);
    let s3 = arming_spec(s2);
    let s4 = pid_loop_spec(s3);
    let s5 = ramp_spec(s4);
    &&& counters_ok(s)
    &&& telemetry_interval_ok(s1)
    &&& arming_ok(s2)
    &&& pid_loop_ok(s3)
    &&& ramp_ok(s4)
    &&& output_ok(s5)
}

impl MotorState {
    fn tick_counters(&mut self)
        requires
            counters_ok(*old(self)),
        ensures
            *final(self) == counters_spec(*old(self)),
    {
        proof { reveal(counters_spec); }
        self.duty.cycle = self.duty.setpoint;
        self.ten_khz_counter += 1;
        self.input.signal_timeout += 1;
        self.duty.ramp_count += 1;
        self.one_khz_loop_counter += 1;
    }

    fn tick_telemetry_interval(&mut self)
        requires
            telemetry_interval_ok(*old(self)),
        ensures
            *final(self) == telemetry_interval_spec(*old(self)),
    {
        proof { reveal(telemetry_interval_spec); }
        if self.config.telemetry_on_interval != 0 {
            self.telemetry.ms_count += 1;
            let threshold = (self.telemetry_interval_ms as u16 - 1 + self.config.telemetry_on_interval as u16) * 20;
            if self.telemetry.ms_count > threshold {
                self.telemetry.send_telemetry = true;
                self.telemetry.ms_count = 0;
            }
        }
    }

    fn tick_arming(&mut self)
        requires
            arming_ok(*old(self)),
        ensures
            *final(self) == arming_spec(*old(self)),
    {
        proof { reveal(arming_spec); }
        if !self.armed {
            if self.cell_count == 0 && self.input.input_set && self.input.adjusted == 0 {
                self.armed_timeout_count += 1;
                if self.armed_timeout_count > 20000 {
                    if self.input.zero_input_count > 30 {
                        self.armed = true;
                    } else {
                        self.input.input_set = false;
                        self.armed_timeout_count = 0;
                    }
                }
            } else {
                self.armed_timeout_count = 0;
            }
        }
    }

    fn tick_current_pid(&mut self)
        requires
            old(self).pid.use_current_limit && old(self).running,
            pid_calc_ok(old(self).pid.current, old(self).measurements.actual_current as i32, current_target(*old(self))),
            i16::MIN <= old(self).pid.current_limit_adjust - (tdiv(pid_output(old(self).pid.current, old(self).measurements.actual_current as i32, current_target(*old(self))), 10000) as i16) <= i16::MAX,
            old(self).duty.minimum as i16 <= 2000,
        ensures
            *final(self) == (MotorState {
                pid: PidState {
                    current: pid_step(old(self).pid.current, old(self).measurements.actual_current as i32, current_target(*old(self))),
                    current_limit_adjust: current_limit_value(*old(self)) as i16,
                    ..old(self).pid
                },
                ..*old(self)
            }),
    {
        let target = self.config.current_limit as i32 * 200;
        let adj = self.pid.current.calculate(self.measurements.actual_current as i32, target) / 10000;
        self.pid.current_limit_adjust -= adj as i16;
        let lo = self.duty.minimum as i16;
        if self.pid.current_limit_adjust < lo {
            self.pid.current_limit_adjust = lo;
        } else if self.pid.current_limit_adjust > 2000 {
            self.pid.current_limit_adjust = 2000;
        }
    }

    fn tick_stall_pid(&mut self)
        requires
            pid_calc_ok(old(self).pid.stall, old(self).timing.commutation_interval as i32, 6500),
            fits_i32(old(self).pid.stall_adjust + pid_output(old(self).pid.stall, old(self).timing.commutation_interval as i32, 6500)),
        ensures
            *final(self) == (MotorState {
                pid: PidState {
                    stall: pid_step(old(self).pid.stall, old(self).timing.commutation_interval as i32, 6500),
                    stall_adjust: clamp_int(old(self).pid.stall_adjust + pid_output(old(self).pid.stall, old(self).timing.commutation_interval as i32, 6500), 0, 1_500_000) as i32,
                    ..old(self).pid
                },
                ..*old(self)
            }),
    {
        let adj = self.pid.stall.calculate(self.timing.commutation_interval as i32, 6500);
        self.pid.stall_adjust += adj;
        if self.pid.stall_adjust < 0 {
            self.pid.stall_adjust = 0;
        } else if self.pid.stall_adjust > 150 * 10000 {
            self.pid.stall_adjust = 150 * 10000;
        }
    }

    fn tick_pid_loop(&mut self)
        requires
            pid_loop_ok(*old(self)),
        ensures
            *final(self) == pid_loop_spec(*old(self)),
    {
        proof { reveal(pid_loop_spec); }
        if self.one_khz_loop_counter > 20 {
            self.one_khz_loop_counter = 0;
            if self.pid.use_current_limit && self.running {
                self.tick_current_pid();
            }
            if self.config.stall_protection != 0 && self.running {
                self.tick_stall_pid();
            }
        }
    }

    fn tick_ramp(&mut self)
        requires
            ramp_ok(*old(self)),
        ensures
            *final(self) == ramp_spec(*old(self)),
    {
        proof { reveal(ramp_spec); }
        if self.duty.ramp_count > self.duty.ramp_divider as u16 {
            self.duty.ramp_count = 0;
            if self.timing.zero_crosses < 150 || self.duty.last < 150 {
                self.duty.max_change = self.duty.max_ramp_startup;
            } else if self.timing.average_interval > 500 {
                self.duty.max_change = self.duty.max_ramp_low_rpm;
            } else {
                self.duty.max_change = self.duty.max_ramp_high_rpm;
            }
            let change = self.duty.max_change as u16;
            if self.duty.cycle > self.duty.last + change {
                self.duty.cycle = self.duty.last + change;
            }
            if self.duty.last > self.duty.cycle + change {
                self.duty.cycle = self.duty.last - change;
            }
        } else {
            self.duty.cycle = self.duty.last;
        }
    }

    fn adjusted_duty(&self) -> (r: u16)
        requires
            output_ok(*self),
        ensures
            r == adjusted_duty(*self),
    {
        let arr = self.tim1_arr as u32;
        assert(self.duty.cycle as u32 * arr <= 65535 * 65535) by (nonlinear_arith)
            requires self.duty.cycle <= 65535, arr <= 65535;
        if self.armed && self.running && self.input.input > 47 {
            ((self.duty.cycle as u32 * arr) / 2000 + 1) as u16
        } else if self.prop_brake_active {
            assert((self.prop_brake_duty_cycle as u32 * arr) / 2000 <= arr) by (nonlinear_arith)
                requires self.prop_brake_duty_cycle <= 2000, arr <= 65535;
            (arr - (self.prop_brake_duty_cycle as u32 * arr) / 2000) as u16
        } else {
            ((self.duty.cycle as u32 * arr) / 2000) as u16
        }
    }

    fn tick_output<H: ControlHal>(&mut self, hal: &mut H)
        requires
            output_ok(*old(self)),
        ensures
            *final(self) == output_spec(*old(self)),
            final(hal).hal_calls() == old(hal).hal_calls().push(HalCall::AutoReload(final(self).tim1_arr)).push(HalCall::DutyAll(final(self).duty.adjusted)),
    {
        proof { reveal(output_spec); }
        let adj = self.adjusted_duty();
        self.duty.adjusted = adj;
        self.duty.last = self.duty.cycle;
        hal.set_auto_reload(self.tim1_arr);
        hal.set_duty_all(self.duty.adjusted);
    }

    /// The 20 kHz control tick: counters, telemetry interval, arming, the 1 kHz
    /// PID loops, duty ramp limiting and the PWM output.
    pub fn ten_khz_tick<H: ControlHal>(&mut self, hal: &mut H)
        requires
            ten_khz_ok(*old(self)),
        ensures
            *final(self) == ten_khz_spec(*old(self)),
            final(hal).hal_calls() == old(hal).hal_calls()
                .push(HalCall::AutoReload(ten_khz_spec(*old(self)).tim1_arr))
                .push(HalCall::DutyAll(ten_khz_spec(*old(self)).duty.adjusted)),
    {
        self.tick_counters();
        self.tick_telemetry_interval();
        self.tick_arming();
        self.tick_pid_loop();
        self.tick_ramp();
        self.tick_output(hal);
    }
}

/// Sum of the six per-step commutation intervals.
pub open spec fn interval_sum(s: MotorState) -> int {
    let c = s.timing.commutation_intervals;
    c[0] + c[1] + c[2] + c[3] + c[4] + c[5]
}

/// The electrical commutation time: half of the six-step sum, rounded.
pub open spec fn e_com_time_value(s: MotorState) -> i32 {
    ((interval_sum(s) + 4) / 2) as i32
}

/// Commutation-time stage: the electrical commutation time, and the zero-cross
/// confirmation counts (3 when bidirectional, 4 otherwise, during the first 5
/// zero crosses; 2 after).
#[verifier::opaque]
pub open spec fn ecom_stage_spec(s: MotorState) -> MotorState {
    let counts: u8 = if s.timing.zero_crosses < 5 { if s.config.bi_direction != 0 { 3 } else { 4 } } else { 2 };
    MotorState {
        timing: TimingState { e_com_time: e_com_time_value(s), ..s.timing },
        bemf: BemfState { min_counts_up: counts, min_counts_down: counts, ..s.bemf },
        ..s
    }
}

/// Variable PWM stage: mode 1 follows the commutation interval, mode 2 the average
/// interval and the CPU clock; otherwise the auto-reload stays.
#[verifier::opaque]
pub open spec fn variable_pwm_stage_spec(s: MotorState) -> MotorState {
    if s.config.variable_pwm == 1 {
        MotorState { tim1_arr: variable_pwm_mode1_spec(s.timing.commutation_interval, s.timer1_max_arr), ..s }
    } else if s.config.variable_pwm == 2 {
        MotorState { tim1_arr: variable_pwm_mode2_spec(s.timing.average_interval, s.cpu_mhz), ..s }
    } else {
        s
    }
}

/// Consumption stage: once a second (over 20000 ticks) the current is added to
/// the consumed total and the tick counter restarts.
#[verifier::opaque]
pub open spec fn consumed_stage_spec(s: MotorState) -> MotorState {
    if s.ten_khz_counter > 20000 {
        MotorState {
            measurements: RawMeasurements { consumed_current: (s.measurements.consumed_current + s.measurements.actual_current) as i32, ..s.measurements },
            ten_khz_counter: 0,
            ..s
        }
    } else {
        s
    }
}

pub open spec fn consumed_stage_ok(s: MotorState) -> bool {
    s.ten_khz_counter > 20000 ==> fits_i32(s.measurements.consumed_current + s.measurements.actual_current)
}

/// Average stage: the stuck-rotor count clears once running well (over 1000 zero
/// crosses) or at zero throttle, and the average interval is a third of the
/// commutation time.
#[verifier::opaque]
pub open spec fn average_stage_spec(s: MotorState) -> MotorState {
    let p = if s.timing.zero_crosses > 1000 || s.input.adjusted == 0 {
        ProtectionState { bemf_timeout_happened: 0, ..s.protection }
    } else {
        s.protection
    };
    MotorState { protection: p, timing: TimingState { average_interval: tdiv(s.timing.e_com_time as int, 3) as u32, ..s.timing }, ..s }
}

/// The change of the average interval since the last desync check.
pub open spec fn interval_change(s: MotorState) -> int {
    let a = (s.timing.last_average_interval as i32) as int;
    let b = (s.timing.average_interval as i32) as int;
    if a >= b { a - b } else { b - a }
}

/// Desync stage: when a check is due past 10 zero crosses, an average interval
/// that moved by more than half (below 2000) is a desync: the zero-cross count
/// restarts, the event is counted, the motor stops if throttle is applied
/// unidirectionally or it turns slowly, polling resumes and the duty restarts at
/// half the startup minimum. The check is then done.
#[verifier::opaque]
pub open spec fn desync_stage_spec(s: MotorState) -> MotorState {
    if s.commutation.desync_check && s.timing.zero_crosses > 10 {
        let avg = s.timing.average_interval;
        let s1 = if interval_change(s) > avg / 2 && avg < 2000 {
            MotorState {
                timing: TimingState { zero_crosses: 0, ..s.timing },
                protection: ProtectionState { desync_happened: (s.protection.desync_happened + 1) as u16, ..s.protection },
                running: if (s.config.bi_direction == 0 && s.input.input > 47) || s.timing.commutation_interval > 1000 { false } else { s.running },
                old_routine: true,
                duty: DutyState { last: s.duty.min_startup / 2, ..s.duty },
                ..s
            }
        } else {
            s
        };
        MotorState {
            commutation: Commutation { desync_check: false, ..s1.commutation },
            timing: TimingState { last_average_interval: avg, ..s1.timing },
            ..s1
        }
    } else {
        s
    }
}

pub open spec fn desync_stage_ok(s: MotorState) -> bool {
    s.commutation.desync_check && s.timing.zero_crosses > 10 ==> {
        &&& fits_i32((s.timing.last_average_interval as i32) - (s.timing.average_interval as i32))
        &&& s.protection.desync_happened < u16::MAX
    }
}

/// Signal stage: half a second without signal disarms (clearing the input and
/// the detection); the telemetry requests are consumed; with a known commutation
/// time outside sine stepping the eRPM (in hundreds) is 600000 over it, 0 when
/// stopped.
#[verifier::opaque]
pub open spec fn signal_stage_spec(s: MotorState) -> MotorState {
    let s1 = if s.input.signal_timeout > 10000 && s.armed {
        MotorState { armed: false, input: MotorInput { input: 0, input_set: false, zero_input_count: 0, ..s.input }, ..s }
    } else {
        s
    };
    let s2 = MotorState { telemetry: TelemetryState { send_telemetry: false, send_esc_info: false, ..s1.telemetry }, ..s1 };
    MotorState { timing: TimingState { e_rpm: erpm_value(s2), ..s2.timing }, ..s2 }
}

/// The eRPM (in hundreds): with a known commutation time outside sine stepping,
/// 600000 over it while running and 0 when stopped; otherwise unchanged.
pub open spec fn erpm_value(s: MotorState) -> u16 {
    if !s.stepper_sine && s.timing.e_com_time > 0 {
        if s.running { (600000int / (s.timing.e_com_time as int)) as u16 } else { 0 }
    } else {
        s.timing.e_rpm
    }
}

/// Filter stage: 12 comparator reads during slow startup, otherwise 3 to 12 by
/// the average interval (100 to 500), and 2 at very high speed.
#[verifier::opaque]
pub open spec fn filter_stage_spec(s: MotorState) -> MotorState {
    let f1: u8 = if s.timing.zero_crosses < 100 && s.timing.commutation_interval > 500 {
        12
    } else {
        map_spec((s.timing.average_interval as i32) as int, 100, 500, 3, 12) as u8
    };
    let f2: u8 = if s.timing.commutation_interval < 50 { 2 } else { f1 };
    MotorState { bemf: BemfState { filter_level: f2, ..s.bemf }, ..s }
}

/// The low-voltage threshold: 3.3 V per cell, or the absolute setting.
pub open spec fn lvc_threshold(s: MotorState) -> int {
    if s.config.low_voltage_cut_off == 1 { s.cell_count * 330 } else { s.config.absolute_voltage_cutoff as int }
}

/// Low-voltage stage (on 1 kHz boundaries with cutoff on): readings under the
/// threshold are counted, others reset the count unless already cut off; after
/// more than 10000 the ESC cuts off, stops and disarms.
#[verifier::opaque]
pub open spec fn lvc_stage_spec(s: MotorState) -> MotorState {
    if s.one_khz_loop_counter == 0 && s.config.low_voltage_cut_off != 0 {
        let count = lvc_count(s);
        let s1 = MotorState { protection: ProtectionState { low_voltage_count: count, ..s.protection }, ..s };
        if count > 10000 {
            MotorState {
                protection: ProtectionState { low_voltage_cutoff: true, ..s1.protection },
                input: MotorInput { input: 0, zero_input_count: 0, ..s1.input },
                running: false,
                armed: false,
                ..s1
            }
        } else {
            s1
        }
    } else {
        s
    }
}

/// The low-voltage count after a reading.
pub open spec fn lvc_count(s: MotorState) -> u16 {
    let t = lvc_threshold(s);
    if s.measurements.battery_voltage < t && t > 0 {
        (s.protection.low_voltage_count + 1) as u16
    } else if !s.protection.low_voltage_cutoff {
        0
    } else {
        s.protection.low_voltage_count
    }
}

pub open spec fn lvc_stage_ok(s: MotorState) -> bool {
    s.one_khz_loop_counter == 0 && s.config.low_voltage_cut_off != 0 ==> {
        &&& (s.config.low_voltage_cut_off == 1 ==> s.cell_count * 330 <= u16::MAX)
        &&& s.protection.low_voltage_count < u16::MAX
    }
}

/// The pole count used for the speed window (at least 2).
pub open spec fn poles2(s: MotorState) -> int {
    if s.config.motor_poles < 2 { 2 } else { s.config.motor_poles as int }
}

/// The duty maximum from the speed window: with a known speed and a window
/// `kv / 100 / (32 / poles)` to `kv / 12 / (32 / poles)`, the speed maps onto
/// 600..2000; otherwise 2000.
pub open spec fn erpm_duty_max(s: MotorState) -> u16 {
    let e = s.timing.e_com_time as int;
    let k: int = if e > 0 { (600000int / e) / 10 } else { 0 };
    let low: int = (s.motor_kv as int) / 100 / (32int / poles2(s));
    let high: int = (s.motor_kv as int) / 12 / (32int / poles2(s));
    if k > 0 && high > low { map_spec(k, low, high, 600, 2000) as u16 } else { 2000 }
}

/// Limits stage: the speed-window duty maximum, overridden by the temperature
/// limit (1000 down to 1 across limit ±10°C) when hotter than the limit; with auto
/// advance on, the advance level follows the duty (13 to 23).
#[verifier::opaque]
pub open spec fn limits_stage_spec(s: MotorState) -> MotorState {
    let lim = s.config.temperature_limit as int;
    let m = if s.measurements.degrees_celsius > lim {
        map_spec(s.measurements.degrees_celsius as int, lim - 10, lim + 10, 1000, 1) as u16
    } else {
        erpm_duty_max(s)
    };
    let b = if s.config.auto_advance != 0 {
        BemfState { auto_advance_level: map_spec(s.duty.cycle as int, 100, 2000, 13, 23) as u8, ..s.bemf }
    } else {
        s.bemf
    };
    MotorState { duty: DutyState { maximum: m, ..s.duty }, bemf: b, ..s }
}

pub open spec fn limits_stage_ok(s: MotorState) -> bool {
    s.config.motor_poles <= 32
}

/// The state after one main-loop iteration.
#[verifier::opaque]
pub open spec fn main_loop_spec(s: MotorState) -> MotorState {
    limits_stage_spec(lvc_stage_spec(filter_stage_spec(signal_stage_spec(desync_stage_spec(average_stage_spec(
        consumed_stage_spec(variable_pwm_stage_spec(ecom_stage_spec(s)))))))))
}

/// What one main-loop iteration asks: the consumed total, the interval change and
/// the counters stay within their types, the cell threshold fits 16 bits, and the
/// pole count is at most 32.
pub open spec fn main_loop_ok(s: MotorState) -> bool {
    let s3 = consumed_stage_spec(variable_pwm_stage_spec(ecom_stage_spec(s)));
    let s4 = average_stage_spec(s3);
    let s7 = filter_stage_spec(signal_stage_spec(desync_stage_spec(s4)));
    &&& consumed_stage_ok(variable_pwm_stage_spec(ecom_stage_spec(s)))
    &&& desync_stage_ok(s4)
    &&& lvc_stage_ok(s7)
    &&& limits_stage_ok(lvc_stage_spec(s7))
}

impl MotorState {
    fn ml_ecom(&mut self)
        ensures
            *final(self) == ecom_stage_spec(*old(self)),
    {
        proof { reveal(ecom_stage_spec); }
        let mut sum: u32 = 0;
        let mut i: usize = 0;
        while i < 6
            invariant
                i <= 6,
                sum == if i == 0 { 0 } else if i == 1 { self.timing.commutation_intervals[0] as int }
                    else if i == 2 { self.timing.commutation_intervals[0] + self.timing.commutation_intervals[1] }
                    else if i == 3 { self.timing.commutation_intervals[0] + self.timing.commutation_intervals[1] + self.timing.commutation_intervals[2] }
                    else if i == 4 { self.timing.commutation_intervals[0] + self.timing.commutation_intervals[1] + self.timing.commutation_intervals[2] + self.timing.commutation_intervals[3] }
                    else if i == 5 { self.timing.commutation_intervals[0] + self.timing.commutation_intervals[1] + self.timing.commutation_intervals[2] + self.timing.commutation_intervals[3] + self.timing.commutation_intervals[4] }
                    else { interval_sum(*self) },
            decreases 6 - i,
        {
            sum = sum + self.timing.commutation_intervals[i] as u32;
            i = i + 1;
        }
        self.timing.e_com_time = ((sum + 4) / 2) as i32;
        if self.timing.zero_crosses < 5 {
            if self.config.bi_direction != 0 {
                self.bemf.min_counts_up = 2 + 1;
                self.bemf.min_counts_down = 2 + 1;
            } else {
                self.bemf.min_counts_up = 2 * 2;
                self.bemf.min_counts_down = 2 * 2;
            }
        } else {
            self.bemf.min_counts_up = 2;
            self.bemf.min_counts_down = 2;
        }
    }

    fn ml_variable_pwm(&mut self)
        ensures
            *final(self) == variable_pwm_stage_spec(*old(self)),
    {
        proof { reveal(variable_pwm_stage_spec); }
        if self.config.variable_pwm == 1 {
            self.tim1_arr = variable_pwm_mode1(self.timing.commutation_interval, self.timer1_max_arr);
        } else if self.config.variable_pwm == 2 {
            self.tim1_arr = variable_pwm_mode2(self.timing.average_interval, self.cpu_mhz);
        }
    }

    fn ml_consumed(&mut self)
        requires
            consumed_stage_ok(*old(self)),
        ensures
            *final(self) == consumed_stage_spec(*old(self)),
    {
        proof { reveal(consumed_stage_spec); }
        if self.ten_khz_counter > 20000 {
            self.measurements.consumed_current += self.measurements.actual_current as i32;
            self.ten_khz_counter = 0;
        }
    }

    fn ml_average(&mut self)
        ensures
            *final(self) == average_stage_spec(*old(self)),
    {
        proof { reveal(average_stage_spec); }
        if self.timing.zero_crosses > 1000 || self.input.adjusted == 0 {
            self.protection.bemf_timeout_happened = 0;
        }
        self.timing.average_interval = (self.timing.e_com_time / 3) as u32;
    }

    fn ml_desync(&mut self)
        requires
            desync_stage_ok(*old(self)),
        ensures
            *final(self) == desync_stage_spec(*old(self)),
    {
        proof { reveal(desync_stage_spec); }
        if self.commutation.desync_check && self.timing.zero_crosses > 10 {
            let diff = get_abs_dif(self.timing.last_average_interval as i32, self.timing.average_interval as i32);
            if diff > self.timing.average_interval / 2 && self.timing.average_interval < 2000 {
                self.timing.zero_crosses = 0;
                self.protection.desync_happened += 1;
                if (self.config.bi_direction == 0 && self.input.input > 47) || self.timing.commutation_interval > 1000 {
                    self.running = false;
                }
                self.old_routine = true;
                self.duty.last = self.duty.min_startup / 2;
            }
            self.commutation.desync_check = false;
            self.timing.last_average_interval = self.timing.average_interval;
        }
    }

    fn ml_signal(&mut self)
        ensures
            *final(self) == signal_stage_spec(*old(self)),
    {
        proof { reveal(signal_stage_spec); }
        if self.input.signal_timeout > 10000 && self.armed {
            self.armed = false;
            self.input.input = 0;
            self.input.input_set = false;
            self.input.zero_input_count = 0;
        }
        self.telemetry.send_telemetry = false;
        self.telemetry.send_esc_info = false;
        let e = self.erpm_value();
        self.timing.e_rpm = e;
    }

    fn erpm_value(&self) -> (r: u16)
        ensures
            r == erpm_value(*self),
    {
        if !self.stepper_sine && self.timing.e_com_time > 0 {
            if self.running { (600000 / self.timing.e_com_time) as u16 } else { 0 }
        } else {
            self.timing.e_rpm
        }
    }

    fn ml_filter(&mut self)
        ensures
            *final(self) == filter_stage_spec(*old(self)),
    {
        proof { reveal(filter_stage_spec); }
        if self.timing.zero_crosses < 100 && self.timing.commutation_interval > 500 {
            self.bemf.filter_level = 12;
        } else {
            self.bemf.filter_level = crate::functions::map(self.timing.average_interval as i32, 100, 500, 3, 12) as u8;
        }
        if self.timing.commutation_interval < 50 {
            self.bemf.filter_level = 2;
        }
    }

    fn ml_lvc(&mut self)
        requires
            lvc_stage_ok(*old(self)),
        ensures
            *final(self) == lvc_stage_spec(*old(self)),
    {
        proof { reveal(lvc_stage_spec); }
        if self.one_khz_loop_counter == 0 && self.config.low_voltage_cut_off != 0 {
            let c = self.lvc_count();
            self.protection.low_voltage_count = c;
            if self.protection.low_voltage_count > 10000 {
                self.protection.low_voltage_cutoff = true;
                self.input.input = 0;
                self.running = false;
                self.input.zero_input_count = 0;
                self.armed = false;
            }
        }
    }

    fn lvc_count(&self) -> (r: u16)
        requires
            self.config.low_voltage_cut_off == 1 ==> self.cell_count * 330 <= u16::MAX,
            self.protection.low_voltage_count < u16::MAX,
        ensures
            r == lvc_count(*self),
    {
        let threshold = if self.config.low_voltage_cut_off == 1 {
            self.cell_count as u16 * 330
        } else {
            self.config.absolute_voltage_cutoff as u16
        };
        if self.measurements.battery_voltage < threshold && threshold > 0 {
            self.protection.low_voltage_count + 1
        } else if !self.protection.low_voltage_cutoff {
            0
        } else {
            self.protection.low_voltage_count
        }
    }

    fn erpm_duty_max(&self) -> (r: u16)
        requires
            limits_stage_ok(*self),
        ensures
            r == erpm_duty_max(*self),
    {
        let k_erpm = if self.timing.e_com_time > 0 { (600000 / self.timing.e_com_time) / 10 } else { 0 };
        let poles: i32 = if self.config.motor_poles < 2 { 2 } else { self.config.motor_poles as i32 };
        assert(32i32 / poles >= 1) by (nonlinear_arith) requires 2 <= poles <= 32;
        let low_rpm = self.motor_kv as i32 / 100 / (32 / poles);
        let high_rpm = self.motor_kv as i32 / 12 / (32 / poles);
        if k_erpm > 0 && high_rpm > low_rpm {
            crate::functions::map(k_erpm, low_rpm, high_rpm, 600, 2000) as u16
        } else {
            2000
        }
    }

    fn ml_limits(&mut self)
        requires
            limits_stage_ok(*old(self)),
        ensures
            *final(self) == limits_stage_spec(*old(self)),
    {
        proof { reveal(limits_stage_spec); }
        self.duty.maximum = self.erpm_duty_max();
        if self.measurements.degrees_celsius > self.config.temperature_limit as i16 {
            self.duty.maximum = crate::functions::map(
                self.measurements.degrees_celsius as i32,
                self.config.temperature_limit as i32 - 10,
                self.config.temperature_limit as i32 + 10,
                1000,
                1,
            ) as u16;
        }
        if self.config.auto_advance != 0 {
            self.bemf.auto_advance_level = crate::functions::map(self.duty.cycle as i32, 100, 2000, 13, 23) as u8;
        }
    }

    /// One main-loop iteration: commutation time and BEMF counts, variable PWM,
    /// consumed current, stuck-rotor clearing and average interval, desync
    /// detection, signal timeout and telemetry flags, eRPM, comparator filter
    /// level, low-voltage cutoff, and the speed, temperature and advance limits.
    pub fn main_loop_tick(&mut self)
        requires
            main_loop_ok(*old(self)),
        ensures
            *final(self) == main_loop_spec(*old(self)),
    {
        proof { reveal(main_loop_spec); }
        self.ml_ecom();
        self.ml_variable_pwm();
        self.ml_consumed();
        self.ml_average();
        self.ml_desync();
        self.ml_signal();
        self.ml_filter();
        self.ml_lvc();
        self.ml_limits();
    }
}

/// One ramp step moves the duty at most the ramp step away from the last duty
/// (when the duty values leave room for it), and between ramp steps the duty holds.
pub proof fn lemma_ramp_bounded(s: MotorState)
    requires
        ramp_ok(s),
    ensures
        ({
            let t = ramp_spec(s);
            &&& s.duty.ramp_count > s.duty.ramp_divider ==> {
                &&& t.duty.cycle <= s.duty.last + ramp_step(s)
                &&& s.duty.last >= ramp_step(s) ==> t.duty.cycle >= s.duty.last - ramp_step(s)
            }
            &&& s.duty.ramp_count <= s.duty.ramp_divider ==> t.duty.cycle == s.duty.last
        }),
{
    reveal(ramp_spec);
}

/// Once armed, the tick never disarms: arming only ever goes from disarmed to armed.
pub proof fn lemma_arming_monotonic(s: MotorState)
    ensures
        s.armed ==> arming_spec(s).armed,
        !s.armed && arming_spec(s).armed ==> s.input.zero_input_count > 30 && s.input.input_set && s.input.adjusted == 0,
{
    reveal(arming_spec);
}

/// Half a second without signal disarms the ESC and clears the input and the
/// input detection, whatever else the main loop does.
pub proof fn lemma_signal_loss_disarms(s: MotorState)
    requires
        s.input.signal_timeout > 10000,
    ensures
        !main_loop_spec(s).armed,
{
    reveal(main_loop_spec);
    reveal(ecom_stage_spec);
    reveal(variable_pwm_stage_spec);
    reveal(consumed_stage_spec);
    reveal(average_stage_spec);
    reveal(desync_stage_spec);
    reveal(signal_stage_spec);
    reveal(filter_stage_spec);
    reveal(lvc_stage_spec);
    reveal(limits_stage_spec);
}

/// The main loop never arms the ESC: arming is left to the tick.
pub proof fn lemma_main_loop_never_arms(s: MotorState)
    requires
        !s.armed,
    ensures
        !main_loop_spec(s).armed,
{
    reveal(main_loop_spec);
    reveal(ecom_stage_spec);
    reveal(variable_pwm_stage_spec);
    reveal(consumed_stage_spec);
    reveal(average_stage_spec);
    reveal(desync_stage_spec);
    reveal(signal_stage_spec);
    reveal(filter_stage_spec);
    reveal(lvc_stage_spec);
    reveal(limits_stage_spec);
}

/// Once the low-voltage cutoff has tripped, the main loop keeps the motor stopped
/// and the ESC disarmed.
pub proof fn lemma_low_voltage_cutoff_stops(s: MotorState)
    requires
        s.one_khz_loop_counter == 0,
        s.config.low_voltage_cut_off != 0,
        s.protection.low_voltage_cutoff,
        s.protection.low_voltage_count > 10000,
        s.protection.low_voltage_count < u16::MAX,
    ensures
        !main_loop_spec(s).armed,
        !main_loop_spec(s).running,
        main_loop_spec(s).protection.low_voltage_cutoff,
{
    reveal(main_loop_spec);
    reveal(ecom_stage_spec);
    reveal(variable_pwm_stage_spec);
    reveal(consumed_stage_spec);
    reveal(average_stage_spec);
    reveal(desync_stage_spec);
    reveal(signal_stage_spec);
    reveal(filter_stage_spec);
    reveal(lvc_stage_spec);
    reveal(limits_stage_spec);
}

} // verus!
