//! 6-step BLDC commutation sequence.
use vstd::prelude::*;

verus! {

/// Commutation state.
pub struct Commutation {
    /// Current step, 1-6.
    pub step: u8,
    pub forward: bool,
    pub rising: bool,
    pub desync_check: bool,
    /// Per-step commutation intervals for e_com_time averaging.
    pub intervals: [u16; 6],
}

impl Commutation {
    /// A valid step lies in 1..=6.
    pub open spec fn wf(&self) -> bool {
        1 <= self.step <= 6
    }

    pub fn new() -> (r: Self)
        ensures
            r.step == 1,
            r.forward,
            r.rising,
            !r.desync_check,
            forall|i: int| 0 <= i < 6 ==> r.intervals@[i] == 0,
    {
        Self { step: 1, forward: true, rising: true, desync_check: false, intervals: [0u16; 6] }
    }

    /// Record the current commutation interval for this step.
    pub fn record_interval(&mut self, commutation_interval: u16)
        requires
            old(self).wf(),
        ensures
            final(self).intervals@ == old(self).intervals@.update(old(self).step - 1, commutation_interval),
            final(self).step == old(self).step,
            final(self).forward == old(self).forward,
            final(self).rising == old(self).rising,
            final(self).desync_check == old(self).desync_check,
    {
        let idx = (self.step - 1) as usize;
        self.intervals[idx] = commutation_interval;
    }

    /// Advance one commutation step. Returns the new step number.
    /// Sets `desync_check` when the step wraps around.
    pub fn advance(&mut self) -> (r: u8)
        requires
            old(self).forward ==> old(self).step < 255,
            !old(self).forward ==> old(self).step >= 1,
        ensures
            *final(self) == advance_spec(*old(self)),
            r == final(self).step,
    {
        if self.forward {
            self.step = self.step + 1;
            if self.step > 6 {
                self.step = 1;
                self.desync_check = true;
            }
            self.rising = self.step % 2 != 0;
        } else {
            self.step = self.step - 1;
            if self.step < 1 {
                self.step = 6;
                self.desync_check = true;
            }
            self.rising = self.step % 2 == 0;
        }
        self.step
    }
}

/// The state after one `advance`: the step moves one place in the direction of
/// rotation, wrapping 6->1 forward and 1->6 in reverse; a wrap sets `desync_check`;
/// `rising` is set from the parity of the new step.
pub open spec fn advance_spec(c: Commutation) -> Commutation {
    if c.forward {
        let s = c.step + 1;
        let step: u8 = if s > 6 { 1 } else { s as u8 };
        Commutation {
            step,
            rising: step % 2 != 0,
            desync_check: if s > 6 { true } else { c.desync_check },
            ..c
        }
    } else {
        let s = c.step - 1;
        let step: u8 = if s < 1 { 6 } else { s as u8 };
        Commutation {
            step,
            rising: step % 2 == 0,
            desync_check: if s < 1 { true } else { c.desync_check },
            ..c
        }
    }
}

/// `n` successive advances.
pub open spec fn advance_n(c: Commutation, n: nat) -> Commutation
    decreases n,
{
    if n == 0 {
        c
    } else {
        advance_spec(advance_n(c, (n - 1) as nat))
    }
}

/// Advancing keeps the step within 1..=6 and keeps the direction.
pub proof fn lemma_advance_wf(c: Commutation)
    requires
        c.wf(),
    ensures
        advance_spec(c).wf(),
        advance_spec(c).forward == c.forward,
        advance_spec(c).intervals == c.intervals,
{
}

/// Six advances in either direction bring the motor back to the step it started
/// on, and the full cycle sets `desync_check` (exactly one wrap happens).
pub proof fn lemma_full_cycle(c: Commutation)
    requires
        c.wf(),
    ensures
        advance_n(c, 6).step == c.step,
        advance_n(c, 6).desync_check,
        advance_n(c, 6).forward == c.forward,
{
    reveal_with_fuel(advance_n, 7);
}

/// Forward, the rising flag is set exactly on odd steps; in reverse, on even steps.
pub proof fn lemma_rising_parity(c: Commutation)
    requires
        c.wf(),
    ensures
        c.forward ==> (advance_spec(c).rising <==> advance_spec(c).step % 2 == 1),
        !c.forward ==> (advance_spec(c).rising <==> advance_spec(c).step % 2 == 0),
{
}

impl Default for Commutation {
    fn default() -> (r: Self)
        ensures
            r.step == 1,
            r.forward,
            r.rising,
            !r.desync_check,
    {
        Self::new()
    }
}

} // verus!
