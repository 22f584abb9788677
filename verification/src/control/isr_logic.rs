//! Interrupt-level control logic on split state (commutation, BEMF detector,
//! duty, tick counters and the shared state): the 20 kHz tick, BEMF polling,
//! ramp limiting, the commutation timer and the comparator zero cross.
use vstd::prelude::*;
use crate::commutation::{advance_spec, Commutation};
use crate::config::EepromConfig;
use crate::control::state::{BemfState, DutyState};
use crate::functions::{map_spec, wrap_sub_u16};
use crate::hal;
use crate::hal::{HalCall, HalLog};
use crate::motor_mode::MotorMode;
use crate::shared_comm::{is_armed_mode, is_running_mode, set_armed_mode, set_old_routine_mode, set_running_mode, with_mode, SharedComm, SharedView};

verus! {

/// Counters and settings owned by the 20 kHz tick.
#[derive(Clone, Copy)]
pub struct TickCounters {
    pub ten_khz_counter: u32,
    pub one_khz_loop_counter: u16,
    pub armed_timeout_count: u32,
    pub tim1_arr: u16,
}

/// Everything the interrupt logic reads and writes.
pub struct IsrView {
    pub commutation: Commutation,
    pub bemf: BemfState,
    pub duty: DutyState,
    pub counters: TickCounters,
    pub shared: SharedView,
}

pub open spec fn isr_view<S: SharedComm>(c: Commutation, b: BemfState, d: DutyState, k: TickCounters, s: S) -> IsrView {
    IsrView { commutation: c, bemf: b, duty: d, counters: k, shared: s.shared() }
}

/// Throttle stage: the input passes to the adjusted input; armed outside sine
/// stepping, throttle from 47 maps onto `minimum..2000` (starting a stopped motor
/// in polling mode from the startup duty, one commutation step on) and lower
/// throttle sets the setpoint to 0.
pub open spec fn throttle_stage(v: IsrView) -> IsrView {
    let x = v.shared.newinput;
    let sh = SharedView { adjusted_input: x, ..v.shared };
    if is_armed_mode(sh.mode) && sh.mode != MotorMode::StepperSine {
        if x >= 47 {
            let sp = map_spec(x as int, 47, 2047, v.duty.minimum as int, 2000) as u16;
            let sh1 = SharedView { duty_cycle_setpoint: sp, ..sh };
            if !is_running_mode(sh1.mode) {
                IsrView {
                    shared: with_mode(sh1, set_running_mode(sh1.mode, true)),
                    duty: DutyState { last: v.duty.min_startup, ..v.duty },
                    commutation: advance_spec(v.commutation),
                    ..v
                }
            } else {
                IsrView { shared: sh1, ..v }
            }
        } else {
            IsrView { shared: SharedView { duty_cycle_setpoint: 0, ..sh }, ..v }
        }
    } else {
        IsrView { shared: sh, ..v }
    }
}

/// Counter stage: the duty follows the setpoint and the counters advance (the
/// signal timeout saturating).
pub open spec fn core_stage(v: IsrView) -> IsrView {
    let st = v.shared.signal_timeout;
    IsrView {
        duty: DutyState { cycle: v.shared.duty_cycle_setpoint, ramp_count: (v.duty.ramp_count + 1) as u16, ..v.duty },
        counters: TickCounters {
            ten_khz_counter: (v.counters.ten_khz_counter + 1) as u32,
            one_khz_loop_counter: (v.counters.one_khz_loop_counter + 1) as u16,
            ..v.counters
        },
        shared: SharedView { signal_timeout: if st < u16::MAX { (st + 1) as u16 } else { st }, ..v.shared },
        ..v
    }
}

/// Arming stage: while disarmed, over 20000 ticks of zero throttle after input
/// detection arms the ESC.
pub open spec fn arming_stage(v: IsrView) -> IsrView {
    if !is_armed_mode(v.shared.mode) {
        if v.shared.input_set && v.shared.adjusted_input == 0 {
            let c = (v.counters.armed_timeout_count + 1) as u32;
            if c > 20000 {
                IsrView {
                    shared: with_mode(v.shared, set_armed_mode(v.shared.mode, true)),
                    counters: TickCounters { armed_timeout_count: 0, ..v.counters },
                    ..v
                }
            } else {
                IsrView { counters: TickCounters { armed_timeout_count: c, ..v.counters }, ..v }
            }
        } else {
            IsrView { counters: TickCounters { armed_timeout_count: 0, ..v.counters }, ..v }
        }
    } else {
        v
    }
}

/// BEMF polling, for a comparator read `comp_level` and a timer read `t`: a read
/// matching the expected edge counts up, a mismatch counts as bad and restarts
/// the count past the bad-count threshold; a count past the step's minimum is a
/// zero cross: the interval moves a quarter toward `t`, the wait is recomputed,
/// the step advances, the detector restarts, the zero cross is counted and,
/// after 20 at an interval of at most 2000, polling mode ends.
pub open spec fn polling_stage(v: IsrView, comp_level: bool, t: u16) -> IsrView {
    let b = v.bemf;
    let rising = v.commutation.rising;
    let good = rising == !comp_level;
    let b1 = if good {
        BemfState { counter: (b.counter + 1) as u8, ..b }
    } else {
        let bad = (b.bad_count + 1) as u8;
        BemfState { bad_count: bad, counter: if bad > b.bad_count_threshold { 0 } else { b.counter }, ..b }
    };
    let threshold = if rising { b1.min_counts_up } else { b1.min_counts_down };
    if !b1.zc_found && b1.counter > threshold {
        let ci = (t + 3 * v.shared.commutation_interval) / 4;
        let advance = (b1.temp_advance * ci) / 64;
        let zc0 = v.shared.zero_crosses;
        let zc = if zc0 < 10000 { (zc0 + 1) as u32 } else { zc0 };
        let sh = SharedView { commutation_interval: ci as u32, zero_crosses: zc, ..v.shared };
        IsrView {
            bemf: BemfState {
                zc_found: true,
                this_zc_time: t,
                wait_time: wrap_sub_u16(((ci as u16) / 2) as u16, advance as u16),
                counter: 0,
                bad_count: 0,
                ..b1
            },
            commutation: advance_spec(v.commutation),
            shared: if zc >= 20 && ci <= 2000 { with_mode(sh, set_old_routine_mode(sh.mode, false)) } else { sh },
            ..v
        }
    } else {
        IsrView { bemf: b1, ..v }
    }
}

pub open spec fn polling_ok(v: IsrView) -> bool {
    &&& v.bemf.counter < u8::MAX
    &&& v.bemf.bad_count < u8::MAX
    &&& 3 * v.shared.commutation_interval + 65535 <= u32::MAX
    &&& v.bemf.temp_advance * ((65535 + 3 * v.shared.commutation_interval) / 4) <= u32::MAX
    &&& v.commutation.wf()
}

/// The polling stage runs only in polling mode while running outside sine stepping.
pub open spec fn polling_applies(v: IsrView) -> bool {
    v.shared.mode == MotorMode::OldRoutine && is_running_mode(v.shared.mode)
}

/// Ramp stage: every `ramp_divider + 1` ticks the duty may move from the last
/// duty by at most the ramp step (startup under 150 zero crosses or duty, low
/// speed above duty 500, high speed otherwise); between those it holds the last duty.
pub open spec fn ramp_stage(v: IsrView) -> IsrView {
    let d = v.duty;
    if d.ramp_count > d.ramp_divider {
        let change: u8 = if v.shared.zero_crosses < 150 || d.last < 150 {
            d.max_ramp_startup
        } else if d.last > 500 {
            d.max_ramp_low_rpm
        } else {
            d.max_ramp_high_rpm
        };
        let c1: u16 = if d.cycle > d.last + change { (d.last + change) as u16 } else { d.cycle };
        let c2: u16 = if d.last > c1 + change { (d.last - change) as u16 } else { c1 };
        IsrView { duty: DutyState { ramp_count: 0, max_change: change, cycle: c2, ..d }, ..v }
    } else {
        IsrView { duty: DutyState { cycle: d.last, ..d }, ..v }
    }
}

/// Boost and output stage: the stall boost is added (saturating) while running,
/// and the duty becomes the last duty.
pub open spec fn output_stage(v: IsrView) -> IsrView {
    let boost = v.shared.stall_protection_adjust;
    let c = if boost > 0 && is_running_mode(v.shared.mode) {
        if v.duty.cycle + boost > u16::MAX { u16::MAX } else { (v.duty.cycle + boost) as u16 }
    } else {
        v.duty.cycle
    };
    IsrView { duty: DutyState { cycle: c, last: c, ..v.duty }, ..v }
}

/// One 20 kHz tick, for the comparator and timer reads of BEMF polling.
pub open spec fn isr_tick_spec(v: IsrView, comp_level: bool, t: u16) -> IsrView {
    let v3 = arming_stage(core_stage(throttle_stage(v)));
    let v4 = if polling_applies(v3) { polling_stage(v3, comp_level, t) } else { v3 };
    output_stage(ramp_stage(v4))
}

/// What one tick asks: a valid commutation step, counters with room to count,
/// duty values leaving room for a ramp step, and (when polling applies) the
/// polling bounds.
pub open spec fn isr_tick_ok(v: IsrView) -> bool {
    let v1 = throttle_stage(v);
    let v3 = arming_stage(core_stage(v1));
    &&& v.commutation.wf()
    &&& v.duty.ramp_count < u16::MAX
    &&& v.counters.ten_khz_counter < u32::MAX
    &&& v.counters.one_khz_loop_counter < u16::MAX
    &&& v.counters.armed_timeout_count < u32::MAX
    &&& (polling_applies(v3) ==> polling_ok(v3))
    &&& v1.duty.last + 255 <= u16::MAX
    &&& v1.shared.duty_cycle_setpoint + 255 <= u16::MAX
}

fn throttle<S: SharedComm, P: hal::PwmOutput, C: hal::Comparator, Q: hal::PhaseOutput>(
    commutation: &mut Commutation, duty: &mut DutyState, config: &EepromConfig, counters: &TickCounters,
    shared: &mut S, pwm: &mut P, comp: &mut C, phase: &mut Q, bemf: &BemfState,
)
    requires
        old(commutation).wf(),
    ensures
        isr_view(*final(commutation), *bemf, *final(duty), *counters, *final(shared))
            == throttle_stage(isr_view(*old(commutation), *bemf, *old(duty), *counters, *old(shared))),
{
    let newinput = shared.newinput();
    shared.set_adjusted_input(newinput);
    if shared.armed() && !shared.stepper_sine() {
        if newinput >= 47 {
            let setpoint = crate::functions::map(newinput as i32, 47, 2047, duty.minimum as i32, 2000) as u16;
            shared.set_duty_cycle_setpoint(setpoint);
            if !shared.running() {
                shared.set_running(true);
                duty.last = duty.min_startup;
                let step = commutation.advance();
                phase.com_step(step);
                comp.set_step(step, commutation.rising);
                comp.change_input();
                comp.enable_interrupts();
            }
        } else {
            shared.set_duty_cycle_setpoint(0);
            if config.brake_on_stop == 2 {
                phase.com_step(2);
                assert(config.active_brake_power as u32 * counters.tim1_arr as u32 <= 255 * 65535) by (nonlinear_arith)
                    requires config.active_brake_power <= 255, counters.tim1_arr <= 65535;
                let brake_duty = (config.active_brake_power as u32 * counters.tim1_arr as u32 / 2000) * 10;
                pwm.set_duty_all(brake_duty as u16);
            }
        }
    }
}

fn core_and_arming<S: SharedComm>(duty: &mut DutyState, counters: &mut TickCounters, shared: &mut S, c: &Commutation, b: &BemfState)
    requires
        old(duty).ramp_count < u16::MAX,
        old(counters).ten_khz_counter < u32::MAX,
        old(counters).one_khz_loop_counter < u16::MAX,
        old(counters).armed_timeout_count < u32::MAX,
    ensures
        isr_view(*c, *b, *final(duty), *final(counters), *final(shared))
            == arming_stage(core_stage(isr_view(*c, *b, *old(duty), *old(counters), *old(shared)))),
{
    let setpoint = shared.duty_cycle_setpoint();
    duty.cycle = setpoint;
    counters.ten_khz_counter += 1;
    shared.increment_signal_timeout();
    duty.ramp_count += 1;
    counters.one_khz_loop_counter += 1;
    if !shared.armed() {
        if shared.input_set() && shared.adjusted_input() == 0 {
            counters.armed_timeout_count += 1;
            if counters.armed_timeout_count > 20000 {
                shared.set_armed(true);
                counters.armed_timeout_count = 0;
            }
        } else {
            counters.armed_timeout_count = 0;
        }
    }
}

/// BEMF polling in polling mode; returns the comparator and timer reads it acted on.
fn bemf_polling<S: SharedComm, C: hal::Comparator, Q: hal::PhaseOutput, I: hal::IntervalTimer>(
    commutation: &mut Commutation, bemf: &mut BemfState, shared: &mut S, comp: &mut C, phase: &mut Q, interval: &mut I,
    duty: &DutyState, counters: &TickCounters,
) -> (r: (bool, u16))
    requires
        polling_ok(isr_view(*old(commutation), *old(bemf), *duty, *counters, *old(shared))),
    ensures
        isr_view(*final(commutation), *final(bemf), *duty, *counters, *final(shared))
            == polling_stage(isr_view(*old(commutation), *old(bemf), *duty, *counters, *old(shared)), r.0, r.1),
{
    comp.mask_interrupts();
    let comp_level = comp.output_level();
    let current_state = !comp_level;
    let mut b = *bemf;
    if commutation.rising {
        if current_state {
            b.counter += 1;
        } else {
            b.bad_count += 1;
            if b.bad_count > b.bad_count_threshold {
                b.counter = 0;
            }
        }
    } else if !current_state {
        b.counter += 1;
    } else {
        b.bad_count += 1;
        if b.bad_count > b.bad_count_threshold {
            b.counter = 0;
        }
    }
    let threshold = if commutation.rising { b.min_counts_up } else { b.min_counts_down };
    let mut t: u16 = 0;
    if !b.zc_found && b.counter > threshold {
        b.zc_found = true;
        t = interval.count() as u16;
        b.this_zc_time = t;
        interval.set_count(0);
        let ci = shared.commutation_interval();
        let new_ci = (t as u32 + 3 * ci) / 4;
        shared.set_commutation_interval(new_ci);
        let ghost cmax = (65535 + 3 * ci) / 4;
        assert(b.temp_advance as u32 * new_ci <= b.temp_advance * cmax) by (nonlinear_arith)
            requires new_ci <= cmax, b.temp_advance >= 0;
        let advance = (b.temp_advance as u32 * new_ci) / 64;
        b.wait_time = ((new_ci as u16) / 2).wrapping_sub(advance as u16);
        let zc = shared.zero_crosses();
        if zc >= 5 {
            interval.wait_for_count(b.wait_time);
        }
        let step = commutation.advance();
        phase.com_step(step);
        comp.set_step(step, commutation.rising);
        comp.change_input();
        b.counter = 0;
        b.bad_count = 0;
        shared.increment_zero_crosses();
        let zc = shared.zero_crosses();
        let ci = shared.commutation_interval();
        if zc >= 20 && ci <= 2000 {
            shared.set_old_routine(false);
            comp.enable_interrupts();
        }
    }
    *bemf = b;
    (comp_level, t)
}

fn ramp_limit<S: SharedComm>(duty: &mut DutyState, shared: &S, c: &Commutation, b: &BemfState, k: &TickCounters)
    requires
        old(duty).ramp_count > old(duty).ramp_divider ==> old(duty).last + 255 <= u16::MAX && old(duty).cycle + 255 <= u16::MAX,
    ensures
        isr_view(*c, *b, *final(duty), *k, *shared) == ramp_stage(isr_view(*c, *b, *old(duty), *k, *shared)),
{
    let mut d = *duty;
    if d.ramp_count > d.ramp_divider as u16 {
        d.ramp_count = 0;
        let zc = shared.zero_crosses();
        if zc < 150 || d.last < 150 {
            d.max_change = d.max_ramp_startup;
        } else if d.last > 500 {
            d.max_change = d.max_ramp_low_rpm;
        } else {
            d.max_change = d.max_ramp_high_rpm;
        }
        let change = d.max_change as u16;
        if d.cycle > d.last + change {
            d.cycle = d.last + change;
        }
        if d.last > d.cycle + change {
            d.cycle = d.last - change;
        }
    } else {
        d.cycle = d.last;
    }
    *duty = d;
}

/// The 20 kHz control tick on split state: throttle to setpoint and start,
/// counters, arming, BEMF polling in polling mode, ramp limiting, the stall boost
/// and the PWM output. The result is that of the tick for the comparator and
/// timer values read during polling.
#[allow(clippy::too_many_arguments)]
pub fn ten_khz_tick<S: SharedComm, P: hal::PwmOutput, C: hal::Comparator, Q: hal::PhaseOutput, I: hal::IntervalTimer>(
    commutation: &mut Commutation,
    bemf: &mut BemfState,
    duty: &mut DutyState,
    config: &EepromConfig,
    counters: &mut TickCounters,
    shared: &mut S,
    pwm: &mut P,
    comp: &mut C,
    phase: &mut Q,
    interval: &mut I,
)
    requires
        isr_tick_ok(isr_view(*old(commutation), *old(bemf), *old(duty), *old(counters), *old(shared))),
    ensures
        exists|comp_level: bool, t: u16|
            #[trigger] isr_tick_spec(isr_view(*old(commutation), *old(bemf), *old(duty), *old(counters), *old(shared)), comp_level, t)
                == isr_view(*final(commutation), *final(bemf), *final(duty), *final(counters), *final(shared)),
{
    let ghost v0 = isr_view(*commutation, *bemf, *duty, *counters, *shared);
    throttle(commutation, duty, config, counters, shared, pwm, comp, phase, bemf);
    core_and_arming(duty, counters, shared, commutation, bemf);
    let ghost v3 = isr_view(*commutation, *bemf, *duty, *counters, *shared);
    let mut reads: (bool, u16) = (false, 0);
    if shared.old_routine() && shared.running() && !shared.stepper_sine() {
        reads = bemf_polling(commutation, bemf, shared, comp, phase, interval, duty, counters);
    }
    let ghost v4 = isr_view(*commutation, *bemf, *duty, *counters, *shared);
    assert(v4 == if polling_applies(v3) { polling_stage(v3, reads.0, reads.1) } else { v3 });
    ramp_limit(duty, shared, commutation, bemf, counters);
    let stall_boost = shared.stall_protection_adjust();
    if stall_boost > 0 && shared.running() {
        duty.cycle = duty.cycle.saturating_add(stall_boost);
    }
    let tim1_arr = counters.tim1_arr;
    if shared.armed() && shared.running() {
        assert(duty.cycle as u32 * tim1_arr as u32 <= 65535 * 65535) by (nonlinear_arith)
            requires duty.cycle <= 65535, tim1_arr <= 65535;
        let adj = ((duty.cycle as u32 * tim1_arr as u32) / 2000 + 1) as u16;
        pwm.set_duty_all(adj);
    } else {
        pwm.set_duty_all(0);
    }
    duty.last = duty.cycle;
    pwm.set_auto_reload(tim1_arr);
    assert(isr_tick_spec(v0, reads.0, reads.1) == isr_view(*commutation, *bemf, *duty, *counters, *shared));
}

/// The interval update of the commutation-timer step fits in 32 bits: the
/// interval plus the mean zero-cross time, and the new interval times the advance.
pub open spec fn timer_expired_ok(b: BemfState, sh: SharedView) -> bool {
    let ci = sh.commutation_interval + (b.last_zc_time + b.this_zc_time) / 2;
    &&& ci <= u32::MAX
    &&& (ci / 2) * b.temp_advance <= u32::MAX
}

/// The commutation-timer step: advance the commutation, average the interval
/// with the mean of the last two zero-cross times, derive the wait time, count
/// the zero cross (up to 10000) and restart the detector.
pub open spec fn timer_expired_spec(c: Commutation, b: BemfState, sh: SharedView) -> (Commutation, BemfState, SharedView) {
    let zc_avg = (b.last_zc_time + b.this_zc_time) / 2;
    let ci = (sh.commutation_interval + zc_avg) / 2;
    let advance = (ci * b.temp_advance) / 64;
    let zc = if sh.zero_crosses < 10000 { (sh.zero_crosses + 1) as u32 } else { sh.zero_crosses };
    (
        advance_spec(c),
        BemfState { wait_time: wrap_sub_u16(((ci as u16) / 2) as u16, advance as u16), counter: 0, zc_found: false, ..b },
        SharedView { commutation_interval: ci as u32, zero_crosses: zc, ..sh },
    )
}

/// Commutation timer expired.
pub fn commutation_timer_expired<S: SharedComm, T: hal::ComTimer, C: hal::Comparator, Q: hal::PhaseOutput>(
    commutation: &mut Commutation,
    bemf: &mut BemfState,
    shared: &mut S,
    com_timer: &mut T,
    comp: &mut C,
    phase: &mut Q,
)
    requires
        old(commutation).forward ==> old(commutation).step < 255,
        !old(commutation).forward ==> old(commutation).step >= 1,
        timer_expired_ok(*old(bemf), old(shared).shared()),
    ensures
        (*final(commutation), *final(bemf), final(shared).shared()) == timer_expired_spec(*old(commutation), *old(bemf), old(shared).shared()),
        final(com_timer).hal_calls() == old(com_timer).hal_calls().push(HalCall::DisableComInterrupt),
        final(phase).hal_calls() == old(phase).hal_calls().push(HalCall::ComStep(advance_spec(*old(commutation)).step)),
        final(comp).hal_calls() == old(comp).hal_calls() + seq![
            HalCall::ComparatorStep(advance_spec(*old(commutation)).step, advance_spec(*old(commutation)).rising),
            HalCall::ChangeInput,
            HalCall::EnableComparatorInterrupts,
        ],
{
    com_timer.disable_interrupt();
    let step = commutation.advance();
    phase.com_step(step);
    comp.set_step(step, commutation.rising);
    comp.change_input();
    let zc_avg = (bemf.last_zc_time as u32 + bemf.this_zc_time as u32) / 2;
    let ci = shared.commutation_interval();
    let new_ci = (ci + zc_avg) / 2;
    shared.set_commutation_interval(new_ci);
    let advance = (new_ci * bemf.temp_advance as u32) / 64;
    let mut b = *bemf;
    b.wait_time = ((new_ci as u16) / 2).wrapping_sub(advance as u16);
    comp.enable_interrupts();
    shared.increment_zero_crosses();
    b.counter = 0;
    b.zc_found = false;
    *bemf = b;
    assert(comp.hal_calls() =~= old(comp).hal_calls() + seq![
        HalCall::ComparatorStep(advance_spec(*old(commutation)).step, advance_spec(*old(commutation)).rising),
        HalCall::ChangeInput,
        HalCall::EnableComparatorInterrupts,
    ]);
}

/// Whether a comparator zero cross passes the filter: no reads asked for, or the
/// comparator differs from the expected level.
pub open spec fn zero_cross_passes(filter_level: u8, level: bool, rising: bool) -> bool {
    filter_level == 0 || level != rising
}

/// Comparator zero cross: the comparator must differ from the expected level on
/// each of `filter_level` reads; then comparator interrupts are masked, the last
/// zero-cross time moves back one slot, the interval timer's count becomes the new
/// one, the interval timer restarts and the commutation timer is armed for the
/// wait time. A filtered-out cross changes nothing.
pub fn bemf_zero_cross<C: hal::Comparator, I: hal::IntervalTimer, T: hal::ComTimer>(
    commutation: &Commutation,
    bemf: &mut BemfState,
    comp: &mut C,
    interval: &mut I,
    com_timer: &mut T,
)
    requires
        old(bemf).wait_time < u16::MAX,
    ensures
        zero_cross_passes(old(bemf).filter_level, old(comp).comparator_level(), commutation.rising) ==> {
            &&& *final(bemf) == (BemfState { last_zc_time: old(bemf).this_zc_time, this_zc_time: old(interval).timer_count() as u16, ..*old(bemf) })
            &&& final(comp).hal_calls() == old(comp).hal_calls().push(HalCall::MaskComparatorInterrupts)
            &&& final(interval).hal_calls() == old(interval).hal_calls().push(HalCall::SetCount(0))
            &&& final(com_timer).hal_calls() == old(com_timer).hal_calls().push(HalCall::SetAndEnable((old(bemf).wait_time + 1) as u16))
        },
        !zero_cross_passes(old(bemf).filter_level, old(comp).comparator_level(), commutation.rising) ==> {
            &&& *final(bemf) == *old(bemf)
            &&& final(comp).hal_calls() == old(comp).hal_calls()
            &&& final(interval).hal_calls() == old(interval).hal_calls()
            &&& final(com_timer).hal_calls() == old(com_timer).hal_calls()
        },
{
    let mut i: u8 = 0;
    while i < bemf.filter_level
        invariant
            *bemf == *old(bemf),
            *comp == *old(comp),
            i <= bemf.filter_level,
            i > 0 ==> comp.comparator_level() != commutation.rising,
        decreases bemf.filter_level - i,
    {
        if comp.output_level() == commutation.rising {
            return;
        }
        i = i + 1;
    }
    comp.mask_interrupts();
    bemf.last_zc_time = bemf.this_zc_time;
    bemf.this_zc_time = interval.count() as u16;
    interval.set_count(0);
    com_timer.set_and_enable(bemf.wait_time + 1);
}

/// In polling mode the step advances exactly when a zero cross is taken, and the
/// interval then lies between the old one and the measured time.
pub proof fn lemma_polling_zero_cross(v: IsrView, comp_level: bool, t: u16)
    requires
        polling_ok(v),
    ensures
        ({
            let w = polling_stage(v, comp_level, t);
            &&& (w.bemf.zc_found && !v.bemf.zc_found) ==> w.commutation == advance_spec(v.commutation)
            &&& !(w.bemf.zc_found && !v.bemf.zc_found) ==> w.commutation == v.commutation
            &&& (w.bemf.zc_found && !v.bemf.zc_found && t <= v.shared.commutation_interval) ==> w.shared.commutation_interval <= v.shared.commutation_interval
            &&& (w.bemf.zc_found && !v.bemf.zc_found && t >= v.shared.commutation_interval) ==> w.shared.commutation_interval <= t
        }),
{
}

/// The arming stage applied `n` times in a row.
pub open spec fn arming_repeated(v: IsrView, n: nat) -> IsrView
    decreases n,
{
    if n == 0 { v } else { arming_stage(arming_repeated(v, (n - 1) as nat)) }
}

proof fn lemma_arming_counts(v: IsrView, n: nat)
    requires
        !is_armed_mode(v.shared.mode),
        v.shared.input_set,
        v.shared.adjusted_input == 0,
        v.counters.armed_timeout_count == 0,
        n <= 20000,
    ensures
        arming_repeated(v, n) == (IsrView { counters: TickCounters { armed_timeout_count: n as u32, ..v.counters }, ..v }),
    decreases n,
{
    if n > 0 {
        lemma_arming_counts(v, (n - 1) as nat);
    }
}

proof fn lemma_armed_stays(v: IsrView, n: nat)
    requires
        !is_armed_mode(v.shared.mode),
        v.shared.input_set,
        v.shared.adjusted_input == 0,
        v.counters.armed_timeout_count == 0,
        n > 20000,
    ensures
        is_armed_mode(arming_repeated(v, n).shared.mode),
        n == 20001 ==> arming_repeated(v, n).counters.armed_timeout_count == 0,
    decreases n,
{
    if n == 20001 {
        lemma_arming_counts(v, 20000);
    } else {
        lemma_armed_stays(v, (n - 1) as nat);
    }
}

/// Arming after input detection: with zero throttle held on every tick, a
/// disarmed ESC with its arming count at 0 is still disarmed after 20000 ticks
/// (the count then being the number of ticks) and armed from tick 20001 on, when
/// the count restarts at 0.
pub proof fn lemma_arms_after_timeout(v: IsrView, n: nat)
    requires
        !is_armed_mode(v.shared.mode),
        v.shared.input_set,
        v.shared.adjusted_input == 0,
        v.counters.armed_timeout_count == 0,
    ensures
        is_armed_mode(arming_repeated(v, n).shared.mode) == (n > 20000),
        n <= 20000 ==> arming_repeated(v, n).counters.armed_timeout_count == n,
        n == 20001 ==> arming_repeated(v, n).counters.armed_timeout_count == 0,
{
    if n <= 20000 {
        lemma_arming_counts(v, n);
    } else {
        lemma_armed_stays(v, n);
    }
}

} // verus!
