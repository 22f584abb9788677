//! Multiply-free EWMA filter for smoothing ADC readings: `y += (x - y) >> K`,
//! with the state kept as a Q16.16 fixed-point number.
use vstd::prelude::*;

verus! {

/// Largest state (Q16.16 bits) the filter can reach from samples below 32768.
pub const EWMA_MAX_BITS: u32 = 0x7FFF_0000;

/// Q16.16 bits of an integer sample: `fixed::types::U16F16::from_num(sample)`.
#[verifier::external_body]
fn q16_from_int(sample: u16) -> (bits: u32)
    ensures
        bits == sample * 65536,
{
    fixed::types::U16F16::from_num(sample).to_bits()
}

/// Integer part of a Q16.16 number: `fixed::types::U16F16::to_num::<u16>()`,
/// which discards the fractional bits.
#[verifier::external_body]
fn q16_to_int(bits: u32) -> (r: u16)
    ensures
        r == bits / 65536,
{
    fixed::types::U16F16::from_bits(bits).to_num::<u16>()
}

proof fn lemma_shift_between(d: i32, k: u8)
    requires
        k < 32,
    ensures
        d >= 0 ==> 0 <= (d >> k) <= d,
        d < 0 ==> d <= (d >> k) < 0,
{
    assert(d >= 0 ==> 0 <= (d >> k) <= d) by (bit_vector)
        requires k < 32;
    assert(d < 0 ==> d <= (d >> k) < 0) by (bit_vector)
        requires k < 32;
}

/// The state after one step, computed on the bits as `i32`:
/// `s + (((x << 16) - s) >> K)`, an arithmetic shift, stored back as `u32`.
pub open spec fn ewma_step(state_bits: u32, sample: u16, k: u8) -> u32 {
    let b = state_bits as i32;
    let x = (sample * 65536) as i32;
    (b + ((x - b) as i32 >> k)) as u32
}

/// Neither the difference nor the new state of a step overflows an `i32`.
pub open spec fn ewma_step_ok(state_bits: u32, sample: u16, k: u8) -> bool {
    let b = state_bits as i32;
    let x = (sample * 65536) as i32;
    &&& i32::MIN <= x - b <= i32::MAX
    &&& i32::MIN <= b + ((x - b) as i32 >> k) <= i32::MAX
}

/// Power-of-2 EWMA filter state; alpha = 1/2^K.
#[derive(Clone, Copy)]
pub struct EwmaPow2<const K: u8> {
    pub state_bits: u32,
    pub initialized: bool,
}

impl<const K: u8> EwmaPow2<K> {
    /// The state never exceeds the Q16.16 value of the largest admissible sample.
    pub open spec fn wf(&self) -> bool {
        self.state_bits <= EWMA_MAX_BITS
    }

    pub fn new() -> (r: Self)
        ensures
            r.wf(),
            r.state_bits == 0,
            !r.initialized,
    {
        Self { state_bits: 0, initialized: false }
    }

    /// Feed a new sample, return the filtered value (integer part of the state).
    /// The first sample passes through and initializes the state.
    pub fn update(&mut self, sample: u16) -> (r: u16)
        requires
            K < 32,
            old(self).initialized ==> ewma_step_ok(old(self).state_bits, sample, K),
        ensures
            final(self).initialized,
            !old(self).initialized ==> final(self).state_bits == sample * 65536 && r == sample,
            old(self).initialized ==> final(self).state_bits == ewma_step(old(self).state_bits, sample, K),
            r == final(self).state_bits / 65536,
            old(self).wf() && sample < 32768 ==> final(self).wf(),
            old(self).initialized && old(self).wf() && sample < 32768 ==> min_bits(old(self).state_bits, sample)
                <= final(self).state_bits <= max_bits(old(self).state_bits, sample),
    {
        if !self.initialized {
            self.state_bits = q16_from_int(sample);
            self.initialized = true;
            return sample;
        }
        let bits = self.state_bits as i32;
        let x = q16_from_int(sample) as i32;
        let d = x - bits;
        proof {
            lemma_shift_between(d, K);
        }
        let nb = bits + (d >> K);
        self.state_bits = nb as u32;
        q16_to_int(self.state_bits)
    }

    /// Current filtered value without feeding a new sample.
    pub fn value(&self) -> (r: u16)
        ensures
            r == self.state_bits / 65536,
    {
        q16_to_int(self.state_bits)
    }
}

pub open spec fn min_bits(s: u32, sample: u16) -> int {
    if s <= sample * 65536 { s as int } else { sample * 65536 }
}

pub open spec fn max_bits(s: u32, sample: u16) -> int {
    if s >= sample * 65536 { s as int } else { sample * 65536 }
}

impl<const K: u8> Default for EwmaPow2<K> {
    fn default() -> (r: Self)
        ensures
            r.wf(),
            !r.initialized,
    {
        Self::new()
    }
}

} // verus!
