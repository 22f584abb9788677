//! BEMF zero-cross detection: counting comparator samples of the expected polarity.
use vstd::prelude::*;
use crate::control::state::BemfState;

verus! {

/// One comparator sample: the inverted comparator level is the BEMF state; a sample
/// of the expected polarity (high when rising, low when falling) increments the
/// counter, any other sample counts as bad and, once the bad count exceeds its
/// threshold, clears the counter.
pub open spec fn bemf_sample_spec(b: BemfState, comp_level: bool, rising: bool) -> BemfState {
    let current_state = !comp_level;
    if current_state == rising {
        BemfState { counter: (b.counter + 1) as u8, ..b }
    } else {
        let bad = (b.bad_count + 1) as u8;
        BemfState {
            bad_count: bad,
            counter: if bad > b.bad_count_threshold { 0 } else { b.counter },
            ..b
        }
    }
}

/// What one sample asks: the counter it increments has room.
pub open spec fn bemf_sample_ok(b: BemfState, comp_level: bool, rising: bool) -> bool {
    if !comp_level == rising { b.counter < 255 } else { b.bad_count < 255 }
}

impl BemfState {
    /// Process one comparator sample. `comp_level` is the raw comparator output;
    /// `rising` indicates the expected zero-cross direction.
    pub fn update(&mut self, comp_level: bool, rising: bool)
        requires
            bemf_sample_ok(*old(self), comp_level, rising),
        ensures
            *final(self) == bemf_sample_spec(*old(self), comp_level, rising),
    {
        let current_state = !comp_level;
        if rising {
            if current_state {
                self.counter = self.counter + 1;
            } else {
                self.bad_count = self.bad_count + 1;
                if self.bad_count > self.bad_count_threshold {
                    self.counter = 0;
                }
            }
        } else if !current_state {
            self.counter = self.counter + 1;
        } else {
            self.bad_count = self.bad_count + 1;
            if self.bad_count > self.bad_count_threshold {
                self.counter = 0;
            }
        }
    }
}

} // verus!
