//! Control loop tick functions on the whole motor state: start, commutate,
//! zero-cross interrupt, commutation timer, input processing, the 20kHz tick and
//! the main loop iteration.
use vstd::prelude::*;
use crate::commutation::{advance_spec, Commutation};
use crate::control::state::{BemfState, MotorState, TimingState, DutyState, PidState, MotorInput, ProtectionState};
use crate::functions::{map_spec, get_abs_dif, wrap_sub_u16, sat_sub_u16};
use crate::input_mapping::{bidir_scale, bidir_scale_exec};
use crate::hal;
use crate::hal::{HalCall, HalLog};

verus! {

/// Hardware interface passed to control loop ticks: all the motor peripherals.
pub trait ControlHal: hal::PwmOutput + hal::Comparator + hal::PhaseOutput + hal::IntervalTimer + hal::ComTimer + hal::System {
}

impl<T: hal::PwmOutput + hal::Comparator + hal::PhaseOutput + hal::IntervalTimer + hal::ComTimer + hal::System> ControlHal for T {
}

/// The state after one commutation: the step advances, the BEMF detector is
/// cleared, the interval is recorded for the new step, and a slow average
/// interval forces polling mode.
pub open spec fn commutate_spec(s: MotorState) -> MotorState {
    let c = advance_spec(s.commutation);
    MotorState {
        commutation: c,
        old_routine: s.old_routine || s.timing.average_interval > s.timing.polling_mode_changeover + 500,
        bemf: BemfState { counter: 0, zc_found: false, ..s.bemf },
        timing: TimingState {
            commutation_intervals: vstd::array::spec_array_update(
                s.timing.commutation_intervals,
                c.step - 1,
                s.timing.commutation_interval as u16,
            ),
            ..s.timing
        },
        ..s
    }
}

/// What commutation asks: a valid step and a changeover threshold with room for 500.
pub open spec fn commutate_ok(s: MotorState) -> bool {
    &&& s.commutation.wf()
    &&& s.timing.polling_mode_changeover + 500 <= u32::MAX
}

/// Starting a stopped motor commutates once, sets the initial (slow) interval and
/// marks it running; a running motor is left as it is.
pub open spec fn start_motor_spec(s: MotorState) -> MotorState {
    if !s.running {
        let t = commutate_spec(s);
        MotorState {
            timing: TimingState { commutation_interval: crate::constants::INITIAL_COMMUTATION_INTERVAL, ..t.timing },
            running: true,
            ..t
        }
    } else {
        s
    }
}

/// The commutation timer step: commutate, average the interval with the mean of the
/// last two zero-cross times, derive advance and wait time, count a zero cross
/// (capped at 10000).
pub open spec fn period_elapsed_spec(s: MotorState) -> MotorState {
    let t = commutate_spec(s);
    let zc_avg = (t.bemf.last_zc_time + t.bemf.this_zc_time) / 2;
    let ci = (t.timing.commutation_interval + zc_avg) / 2;
    let level = if t.config.auto_advance == 0 { t.bemf.temp_advance } else { t.bemf.auto_advance_level };
    let advance = (ci * level) / 64;
    MotorState {
        timing: TimingState {
            commutation_interval: ci as u32,
            zero_crosses: if t.timing.zero_crosses < 10000 { (t.timing.zero_crosses + 1) as u32 } else { t.timing.zero_crosses },
            ..t.timing
        },
        bemf: BemfState {
            advance: advance as u16,
            wait_time: wrap_sub_u16(((ci as u16) / 2) as u16, advance as u16),
            ..t.bemf
        },
        ..t
    }
}

/// The interval average of the commutation timer step, and the advance level it
/// is scaled by.
pub open spec fn period_elapsed_interval(s: MotorState) -> int {
    (s.timing.commutation_interval + (s.bemf.last_zc_time + s.bemf.this_zc_time) / 2) / 2
}

pub open spec fn advance_level(s: MotorState) -> int {
    if s.config.auto_advance == 0 { s.bemf.temp_advance as int } else { s.bemf.auto_advance_level as int }
}

/// What the commutation timer step asks: a valid commutation, and an interval
/// update that fits in 32 bits (the sum before halving, and the product with the
/// advance level).
pub open spec fn period_elapsed_ok(s: MotorState) -> bool {
    &&& commutate_ok(s)
    &&& s.timing.commutation_interval + (s.bemf.last_zc_time + s.bemf.this_zc_time) / 2 <= u32::MAX
    &&& period_elapsed_interval(s) * advance_level(s) <= u32::MAX
}

/// Board commands of one commutation: interrupts off, the phases switched to the
/// new step unless braking, interrupts on, the comparator input changed.
pub open spec fn commutate_calls(s: MotorState) -> Seq<HalCall> {
    seq![HalCall::DisableIrq] + (if s.prop_brake_active { Seq::empty() } else { seq![HalCall::ComStep(advance_spec(s.commutation).step)] })
        + seq![HalCall::EnableIrq, HalCall::ChangeInput]
}

/// Board commands of starting: a stopped motor commutates and the interval timer
/// is set to 5000; then comparator interrupts are enabled.
pub open spec fn start_motor_calls(s: MotorState) -> Seq<HalCall> {
    if !s.running {
        commutate_calls(s) + seq![HalCall::SetCount(5000), HalCall::EnableComparatorInterrupts]
    } else {
        seq![HalCall::EnableComparatorInterrupts]
    }
}

/// Board commands of the commutation timer step: its interrupt disabled, a
/// commutation, and comparator interrupts enabled unless polling.
pub open spec fn period_elapsed_calls(s: MotorState) -> Seq<HalCall> {
    seq![HalCall::DisableComInterrupt] + commutate_calls(s)
        + (if commutate_spec(s).old_routine { Seq::empty() } else { seq![HalCall::EnableComparatorInterrupts] })
}

/// Board commands of an accepted zero cross: interrupts off, comparator
/// interrupts masked, the interval timer restarted at 0, the commutation timer
/// armed for the wait time, interrupts on.
pub open spec fn zero_cross_calls(s: MotorState) -> Seq<HalCall> {
    seq![
        HalCall::DisableIrq,
        HalCall::MaskComparatorInterrupts,
        HalCall::SetCount(0),
        HalCall::SetAndEnable((s.bemf.wait_time + 1) as u16),
        HalCall::EnableIrq,
    ]
}

impl MotorState {
    /// Advance commutation one step.
    pub fn commutate<H: ControlHal>(&mut self, hal: &mut H)
        requires
            commutate_ok(*old(self)),
        ensures
            *final(self) == commutate_spec(*old(self)),
            commutate_ok(*final(self)),
            final(hal).hal_calls() == old(hal).hal_calls() + commutate_calls(*old(self)),
            final(hal).timer_count() == old(hal).timer_count(),
    {
        let step = self.commutation.advance();
        hal.disable_irq();
        if !self.prop_brake_active {
            hal.com_step(step);
        }
        hal.enable_irq();
        hal.change_input();
        if self.timing.average_interval > self.timing.polling_mode_changeover + 500 {
            self.old_routine = true;
        }
        self.bemf.counter = 0;
        self.bemf.zc_found = false;
        let idx = (step - 1) as usize;
        let v = self.timing.commutation_interval as u16;
        self.timing.commutation_intervals[idx] = v;
        assert(self.timing.commutation_intervals =~= vstd::array::spec_array_update(
            old(self).timing.commutation_intervals, step - 1, v));
        assert(hal.hal_calls() =~= old(hal).hal_calls() + commutate_calls(*old(self)));
    }

    /// Start the motor if it is not already running.
    pub fn start_motor<H: ControlHal>(&mut self, hal: &mut H)
        requires
            !old(self).running ==> commutate_ok(*old(self)),
        ensures
            *final(self) == start_motor_spec(*old(self)),
            commutate_ok(*old(self)) ==> commutate_ok(*final(self)),
            final(hal).hal_calls() == old(hal).hal_calls() + start_motor_calls(*old(self)),
    {
        if !self.running {
            self.commutate(hal);
            self.timing.commutation_interval = crate::constants::INITIAL_COMMUTATION_INTERVAL;
            hal.set_count(5000);
            self.running = true;
        }
        hal.enable_interrupts();
        assert(hal.hal_calls() =~= old(hal).hal_calls() + start_motor_calls(*old(self)));
    }

    /// Process a zero-cross interrupt. Returns true if the zero cross passed the
    /// filter (the comparator differed from the expected level on every one of
    /// `filter_level` reads); then the last zero-cross time moves back one slot,
    /// the interval timer's count becomes the new one, the interval timer restarts
    /// and the commutation timer is armed for the wait time.
    pub fn interrupt_routine<H: ControlHal>(&mut self, hal: &mut H) -> (r: bool)
        requires
            old(self).bemf.wait_time < u16::MAX,
        ensures
            r == (old(self).bemf.filter_level == 0 || old(hal).comparator_level() != old(self).commutation.rising),
            !r ==> *final(self) == *old(self) && final(hal).hal_calls() == old(hal).hal_calls(),
            r ==> *final(self) == (MotorState {
                bemf: BemfState { last_zc_time: old(self).bemf.this_zc_time, this_zc_time: old(hal).timer_count() as u16, ..old(self).bemf },
                ..*old(self)
            }),
            r ==> final(hal).hal_calls() == old(hal).hal_calls() + zero_cross_calls(*old(self)),
    {
        let mut i: u8 = 0;
        while i < self.bemf.filter_level
            invariant
                *self == *old(self),
                *hal == *old(hal),
                i <= self.bemf.filter_level,
                i > 0 ==> hal.comparator_level() != self.commutation.rising,
            decreases self.bemf.filter_level - i,
        {
            if hal.output_level() == self.commutation.rising {
                return false;
            }
            i = i + 1;
        }
        hal.disable_irq();
        hal.mask_interrupts();
        self.bemf.last_zc_time = self.bemf.this_zc_time;
        self.bemf.this_zc_time = hal.count() as u16;
        hal.set_count(0);
        hal.set_and_enable(self.bemf.wait_time + 1);
        hal.enable_irq();
        assert(hal.hal_calls() =~= old(hal).hal_calls() + zero_cross_calls(*old(self)));
        true
    }

    /// Commutation timer callback.
    pub fn period_elapsed_callback<H: ControlHal>(&mut self, hal: &mut H)
        requires
            period_elapsed_ok(*old(self)),
        ensures
            *final(self) == period_elapsed_spec(*old(self)),
            final(hal).hal_calls() == old(hal).hal_calls() + period_elapsed_calls(*old(self)),
    {
        hal.disable_interrupt();
        self.commutate(hal);
        assert(self.timing.commutation_interval == old(self).timing.commutation_interval);
        let zc_avg = (self.bemf.last_zc_time as u32 + self.bemf.this_zc_time as u32) / 2;
        self.timing.commutation_interval = (self.timing.commutation_interval + zc_avg) / 2;
        let ci = self.timing.commutation_interval;
        let level: u32 = if self.config.auto_advance == 0 { self.bemf.temp_advance as u32 } else { self.bemf.auto_advance_level as u32 };
        assert(ci == period_elapsed_interval(*old(self)) && level == advance_level(*old(self)));
        let advance = (ci * level) / 64;
        self.bemf.advance = advance as u16;
        self.bemf.wait_time = ((ci as u16) / 2).wrapping_sub(advance as u16);
        if !self.old_routine {
            hal.enable_interrupts();
        }
        if self.timing.zero_crosses < 10000 {
            self.timing.zero_crosses = self.timing.zero_crosses + 1;
        }
        assert(hal.hal_calls() =~= old(hal).hal_calls() + period_elapsed_calls(*old(self)));
    }
}




} // verus!
