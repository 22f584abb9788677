//! Polling-mode zero-cross handling, used for the first commutations at startup
//! before interrupt-driven BEMF detection is reliable.
use vstd::prelude::*;
use crate::control::state::{BemfState, MotorState, TimingState};
use crate::control::tick::{commutate_ok, commutate_spec, ControlHal};
use crate::functions::wrap_sub_u16;
use crate::control::tick::commutate_calls;
use crate::hal::{HalCall, HalLog};

verus! {

/// Timing update at a zero cross read at timer count `t`: the interval moves a
/// quarter of the way to `t`, and the wait before commutating is half of it less
/// the advance (`temp_advance / 64` of the interval).
#[verifier::opaque]
pub open spec fn zc_timing_spec(s: MotorState, t: u16) -> MotorState {
    let ci = (t + 3 * s.timing.commutation_interval) / 4;
    let advance = (s.bemf.temp_advance * ci) / 64;
    MotorState {
        bemf: BemfState { this_zc_time: t, wait_time: wrap_sub_u16(((ci as u16) / 2) as u16, advance as u16), ..s.bemf },
        timing: TimingState { commutation_interval: ci as u32, ..s.timing },
        ..s
    }
}

/// After the commutation: the detector restarts, the zero cross is counted (up to
/// 10000), and polling ends once the motor is fast enough: with stall protection
/// or RC-car reverse after 20 zero crosses at an interval of at most 2000, else
/// below the polling changeover.
pub open spec fn zc_leaves_polling(s: MotorState) -> bool {
    let zc = if s.timing.zero_crosses < 10000 { (s.timing.zero_crosses + 1) as u32 } else { s.timing.zero_crosses };
    let ci = s.timing.commutation_interval;
    if s.config.stall_protection != 0 || s.config.rc_car_reverse != 0 {
        zc >= 20 && ci <= 2000
    } else {
        ci < s.timing.polling_mode_changeover
    }
}

#[verifier::opaque]
pub open spec fn zc_after_spec(s: MotorState) -> MotorState {
    let zc = if s.timing.zero_crosses < 10000 { (s.timing.zero_crosses + 1) as u32 } else { s.timing.zero_crosses };
    let leave = zc_leaves_polling(s);
    MotorState {
        bemf: BemfState { counter: 0, bad_count: 0, ..s.bemf },
        timing: TimingState { zero_crosses: zc, ..s.timing },
        old_routine: if leave { false } else { s.old_routine },
        ..s
    }
}

/// The whole routine for a zero cross read at timer count `t`.
pub open spec fn zc_found_spec(s: MotorState, t: u16) -> MotorState {
    zc_after_spec(commutate_spec(zc_timing_spec(s, t)))
}

/// Board commands of the routine for a zero cross read at timer count `t`: the
/// interval timer restarted at 0, the wait for the commutation point (after the
/// first 5 zero crosses), the commutation, and comparator interrupts enabled when
/// polling ends.
pub open spec fn zc_found_calls(s: MotorState, t: u16) -> Seq<HalCall> {
    let a = zc_timing_spec(s, t);
    let b = commutate_spec(a);
    seq![HalCall::SetCount(0)]
        + (if a.timing.zero_crosses >= 5 { seq![HalCall::WaitForCount(a.bemf.wait_time)] } else { Seq::empty() })
        + commutate_calls(a)
        + (if zc_leaves_polling(b) { seq![HalCall::EnableComparatorInterrupts] } else { Seq::empty() })
}

/// What the routine asks: a valid commutation state, and an interval small enough
/// that the updated interval (whatever the timer reads) can be tripled and scaled
/// by the advance in 32 bits.
pub open spec fn zc_found_ok(s: MotorState) -> bool {
    &&& commutate_ok(s)
    &&& zc_timing_ok(s)
}

pub open spec fn zc_timing_ok(s: MotorState) -> bool {
    &&& 3 * s.timing.commutation_interval + 65535 <= u32::MAX
    &&& s.bemf.temp_advance * ((65535 + 3 * s.timing.commutation_interval) / 4) <= u32::MAX
}

impl MotorState {
    fn zc_timing<H: ControlHal>(&mut self, hal: &mut H) -> (t: u16)
        requires
            zc_timing_ok(*old(self)),
        ensures
            *final(self) == zc_timing_spec(*old(self), t),
            t == old(hal).timer_count() as u16,
            final(hal).hal_calls() == old(hal).hal_calls().push(HalCall::SetCount(0)),
    {
        proof { reveal(zc_timing_spec); }
        let t = hal.count() as u16;
        hal.set_count(0);
        let ci = (t as u32 + 3 * self.timing.commutation_interval) / 4;
        let ghost cmax = (65535 + 3 * self.timing.commutation_interval) / 4;
        assert(ci <= cmax);
        assert(self.bemf.temp_advance as u32 * ci <= self.bemf.temp_advance * cmax) by (nonlinear_arith)
            requires ci <= cmax, self.bemf.temp_advance >= 0;
        let advance = (self.bemf.temp_advance as u32 * ci) / 64;
        let mut b = self.bemf;
        b.this_zc_time = t;
        b.wait_time = ((ci as u16) / 2).wrapping_sub(advance as u16);
        self.bemf = b;
        self.timing.commutation_interval = ci;
        t
    }

    fn zc_after<H: ControlHal>(&mut self, hal: &mut H)
        ensures
            *final(self) == zc_after_spec(*old(self)),
            final(hal).hal_calls() == old(hal).hal_calls()
                + (if zc_leaves_polling(*old(self)) { seq![HalCall::EnableComparatorInterrupts] } else { Seq::<HalCall>::empty() }),
    {
        proof { reveal(zc_after_spec); }
        self.bemf.counter = 0;
        self.bemf.bad_count = 0;
        if self.timing.zero_crosses < 10000 {
            self.timing.zero_crosses += 1;
        }
        if self.config.stall_protection != 0 || self.config.rc_car_reverse != 0 {
            if self.timing.zero_crosses >= 20 && self.timing.commutation_interval <= 2000 {
                self.old_routine = false;
                hal.enable_interrupts();
            }
        } else {
            if self.timing.commutation_interval < self.timing.polling_mode_changeover {
                self.old_routine = false;
                hal.enable_interrupts();
            }
        }
        assert(hal.hal_calls() =~= old(hal).hal_calls()
            + (if zc_leaves_polling(*old(self)) { seq![HalCall::EnableComparatorInterrupts] } else { Seq::<HalCall>::empty() }));
    }

    /// Polling-mode zero cross: read and restart the interval timer, update the
    /// interval and wait time, wait for the commutation point (skipped during the
    /// first 5 zero crosses), commutate, count the zero cross and leave polling
    /// mode once fast enough. Returns the timer count read at the zero cross.
    pub fn zc_found_routine<H: ControlHal>(&mut self, hal: &mut H) -> (t: u16)
        requires
            zc_found_ok(*old(self)),
        ensures
            *final(self) == zc_found_spec(*old(self), t),
            t == old(hal).timer_count() as u16,
            final(hal).hal_calls() == old(hal).hal_calls() + zc_found_calls(*old(self), t),
    {
        let t = self.zc_timing(hal);
        assert(commutate_ok(*self)) by {
            reveal(zc_timing_spec);
        }
        if self.timing.zero_crosses >= 5 {
            hal.wait_for_count(self.bemf.wait_time);
        }
        self.commutate(hal);
        self.zc_after(hal);
        assert(hal.hal_calls() =~= old(hal).hal_calls() + zc_found_calls(*old(self), t));
        t
    }
}

/// Each polling zero cross moves the interval a quarter of the way toward the
/// measured one, so it stays between the two.
pub proof fn lemma_interval_between(s: MotorState, t: u16)
    ensures
        ({
            let ci = zc_timing_spec(s, t).timing.commutation_interval as int;
            let old_ci = s.timing.commutation_interval as int;
            3 * old_ci + t < 0x1_0000_0000 ==> {
                &&& (t <= old_ci ==> t <= ci + 1 && ci <= old_ci)
                &&& (old_ci <= t ==> old_ci <= ci && ci <= t)
            }
        }),
{
    reveal(zc_timing_spec);
}

} // verus!
