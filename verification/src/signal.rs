//! Input signal detection (DShot600 / DShot300 / servo PWM) from the captured
//! edge times, and unidirectional servo throttle mapping.
use vstd::prelude::*;
use crate::functions::map_spec;

verus! {

/// Signal detection result.
#[derive(Clone, Copy, PartialEq, Eq, Debug, Structural)]
pub enum SignalType {
    NoSignal,
    Dshot600,
    Dshot300,
    ServoPwm,
}

/// Time between capture `j - 1` and capture `j`, wrapped to 32 bits.
pub open spec fn edge_diff(d: Seq<u32>, j: int) -> u32 {
    vstd::wrapping::u32_specs::wrapping_sub(d[j], d[j - 1])
}

/// Sum of the edge differences `1..n`.
pub open spec fn pulse_sum(d: Seq<u32>, n: int) -> int
    decreases n,
{
    if n <= 1 { 0 } else { pulse_sum(d, n - 1) + edge_diff(d, n - 1) }
}

/// Smallest nonzero edge difference among `1..n` (as 16 bits), starting from 20000.
pub open spec fn smallest_pulse(d: Seq<u32>, n: int) -> u16
    decreases n,
{
    if n <= 1 {
        20000
    } else {
        let s = smallest_pulse(d, n - 1);
        let x = edge_diff(d, n - 1);
        if x > 0 && (x as u16) < s { x as u16 } else { s }
    }
}

/// Classification by the smallest pulse and the average pulse (sum / 32): DShot600
/// for smallest 1-3 and average under 60, DShot300 for smallest 4-8 and average
/// under 100, servo for smallest 201-19999.
pub open spec fn detect_spec(d: Seq<u32>) -> SignalType {
    let smallest = smallest_pulse(d, 31);
    let avg = pulse_sum(d, 31) / 32;
    if smallest >= 1 && smallest < 4 && avg < 60 {
        SignalType::Dshot600
    } else if smallest >= 4 && smallest <= 8 && avg < 100 {
        SignalType::Dshot300
    } else if smallest > 200 && smallest < 20000 {
        SignalType::ServoPwm
    } else {
        SignalType::NoSignal
    }
}

proof fn lemma_pulse_sum_mono(d: Seq<u32>, i: int, n: int)
    requires
        1 <= i <= n,
    ensures
        pulse_sum(d, i) <= pulse_sum(d, n),
    decreases n - i,
{
    if i < n {
        lemma_pulse_sum_mono(d, i, n - 1);
    }
}

/// Captures evenly spaced `step` ticks apart (without wrapping): a pulse train of
/// constant width.
pub open spec fn evenly_spaced(d: Seq<u32>, step: u32) -> bool {
    &&& d.len() >= 31
    &&& forall|j: int| 0 <= j < 31 ==> #[trigger] d[j] == d[0] + j * step
}

proof fn lemma_even_sums(d: Seq<u32>, step: u32, n: int)
    requires
        evenly_spaced(d, step),
        step < 20000,
        1 <= n <= 31,
    ensures
        pulse_sum(d, n) == (n - 1) * step,
        smallest_pulse(d, n) == (if n == 1 || step == 0 { 20000u16 } else { step as u16 }),
    decreases n,
{
    if n > 1 {
        lemma_even_sums(d, step, n - 1);
        assert(d[n - 1] == d[0] + (n - 1) * step);
        assert(d[n - 2] == d[0] + (n - 2) * step);
        assert((n - 1) * step == (n - 2) * step + step) by (nonlinear_arith);
        assert(edge_diff(d, n - 1) == step);
    }
}

/// A constant-width pulse train is classified by its width alone: 1-3 ticks is
/// DShot600, 4-8 DShot300, above 200 servo PWM, anything else no signal.
pub proof fn lemma_detect_even_capture(d: Seq<u32>, step: u32)
    requires
        evenly_spaced(d, step),
        step < 20000,
    ensures
        detect_spec(d) == (if 1 <= step <= 3 {
            SignalType::Dshot600
        } else if 4 <= step <= 8 {
            SignalType::Dshot300
        } else if step > 200 {
            SignalType::ServoPwm
        } else {
            SignalType::NoSignal
        }),
{
    lemma_even_sums(d, step, 31);
}

/// Detect the input type from the capture buffer's first 31 edge times.
pub fn detect_input(dma_buffer: &[u32], cpu_mhz: u8) -> (r: SignalType)
    requires
        dma_buffer@.len() >= 31,
        pulse_sum(dma_buffer@, 31) <= u32::MAX,
    ensures
        r == detect_spec(dma_buffer@),
{
    let mut smallest: u16 = 20000;
    let mut average_pulse: u32 = 0;
    let mut last = dma_buffer[0];
    let mut j: usize = 1;
    while j < 31
        invariant
            1 <= j <= 31,
            dma_buffer@.len() >= 31,
            pulse_sum(dma_buffer@, 31) <= u32::MAX,
            last == dma_buffer@[j - 1],
            smallest == smallest_pulse(dma_buffer@, j as int),
            average_pulse == pulse_sum(dma_buffer@, j as int),
        decreases 31 - j,
    {
        proof {
            lemma_pulse_sum_mono(dma_buffer@, j + 1, 31);
        }
        let diff = dma_buffer[j].wrapping_sub(last);
        if diff > 0 {
            if (diff as u16) < smallest {
                smallest = diff as u16;
            }
            average_pulse += diff;
        }
        last = dma_buffer[j];
        j = j + 1;
    }
    average_pulse /= 32;
    if smallest >= 1 && smallest < 4 && average_pulse < 60 {
        return SignalType::Dshot600;
    }
    if smallest >= 4 && smallest <= 8 && average_pulse < 100 {
        return SignalType::Dshot300;
    }
    if smallest > 200 && smallest < 20000 {
        return SignalType::ServoPwm;
    }
    SignalType::NoSignal
}

/// Unidirectional servo throttle: the pulse width mapped from the thresholds onto
/// 47..2047, with results up to 48 read as 0.
pub open spec fn servo_unidirectional_spec(pulse_width: u16, low_threshold: u16, high_threshold: u16) -> u16 {
    let raw = map_spec(pulse_width as int, low_threshold as int, high_threshold as int, 47, 2047);
    if raw <= 48 { 0 } else { raw as u16 }
}

/// Compute the servo throttle from a pulse width (0-2047, unidirectional).
pub fn compute_servo_unidirectional(pulse_width: u16, low_threshold: u16, high_threshold: u16) -> (r: u16)
    ensures
        r == servo_unidirectional_spec(pulse_width, low_threshold, high_threshold),
        r == 0 || 48 < r <= 2047,
{
    let raw = crate::functions::map(pulse_width as i32, low_threshold as i32, high_threshold as i32, 47, 2047);
    if raw <= 48 {
        0
    } else {
        raw as u16
    }
}

} // verus!
