//! DShot protocol: frame decoding from captured pulse timings, and the GCR-encoded
//! eRPM / extended telemetry response of bidirectional DShot.
use vstd::prelude::*;

pub mod commands;

verus! {

/// Result of decoding a DShot frame.
#[derive(Debug, Clone, Copy)]
pub enum DshotFrame {
    /// Valid throttle value (0 or 48-2047) with the telemetry request flag.
    Throttle { value: u16, telemetry: bool },
    /// Valid command (1-47).
    Command { cmd: u16, telemetry: bool },
    /// CRC mismatch.
    BadCrc,
    /// Frame timing outside the valid window.
    InvalidTiming,
}

/// Duration of the whole frame: last capture minus first, wrapped to 16 bits.
pub open spec fn frame_time(d: Seq<u32>) -> u16 {
    vstd::wrapping::u32_specs::wrapping_sub(d[31], d[0]) as u16
}

/// Bit `i` (0-15, MSB first) of a frame: 1 when the pulse is longer than half a bit
/// period (a sixteenth of the frame).
pub open spec fn pulse_bit(d: Seq<u32>, i: int) -> int {
    if (vstd::wrapping::u32_specs::wrapping_sub(d[2 * i + 1], d[2 * i]) as u16) > frame_time(d) / 32 { 1 } else { 0 }
}

/// The 11-bit value carried by bits 0-10.
pub open spec fn frame_value(d: Seq<u32>) -> int {
    pulse_bit(d, 0) * 1024 + pulse_bit(d, 1) * 512 + pulse_bit(d, 2) * 256 + pulse_bit(d, 3) * 128
        + pulse_bit(d, 4) * 64 + pulse_bit(d, 5) * 32 + pulse_bit(d, 6) * 16 + pulse_bit(d, 7) * 8
        + pulse_bit(d, 8) * 4 + pulse_bit(d, 9) * 2 + pulse_bit(d, 10)
}

/// The CRC nibble computed from bits 0-11: bit j of the nibble (from the top) is the
/// parity of bits j, j+4, j+8.
pub open spec fn frame_calc_crc(d: Seq<u32>) -> int {
    8 * ((pulse_bit(d, 0) + pulse_bit(d, 4) + pulse_bit(d, 8)) % 2)
        + 4 * ((pulse_bit(d, 1) + pulse_bit(d, 5) + pulse_bit(d, 9)) % 2)
        + 2 * ((pulse_bit(d, 2) + pulse_bit(d, 6) + pulse_bit(d, 10)) % 2)
        + ((pulse_bit(d, 3) + pulse_bit(d, 7) + pulse_bit(d, 11)) % 2)
}

/// The CRC nibble carried by bits 12-15; bidirectional DShot inverts it.
pub open spec fn frame_check_crc(d: Seq<u32>, bidirectional: bool) -> int {
    let c = 8 * pulse_bit(d, 12) + 4 * pulse_bit(d, 13) + 2 * pulse_bit(d, 14) + pulse_bit(d, 15);
    if bidirectional { 15 - c } else { c }
}

/// The decoded frame.
pub open spec fn decode_spec(d: Seq<u32>, frametime_low: u16, frametime_high: u16, bidirectional: bool) -> DshotFrame {
    let ft = frame_time(d);
    if ft <= frametime_low || ft >= frametime_high {
        DshotFrame::InvalidTiming
    } else if frame_calc_crc(d) != frame_check_crc(d, bidirectional) {
        DshotFrame::BadCrc
    } else {
        let value = frame_value(d) as u16;
        let telemetry = pulse_bit(d, 11) == 1;
        if value > 47 {
            DshotFrame::Throttle { value, telemetry }
        } else if value > 0 {
            DshotFrame::Command { cmd: value, telemetry }
        } else {
            DshotFrame::Throttle { value: 0, telemetry }
        }
    }
}

/// Decode a DShot frame from a capture buffer of 32 edge times (16 pulse pairs).
/// `frametime_low`/`frametime_high` bound the valid frame duration (exclusive).
pub fn decode_frame(dma_buffer: &[u32; 32], frametime_low: u16, frametime_high: u16, bidirectional: bool) -> (r: DshotFrame)
    ensures
        r == decode_spec(dma_buffer@, frametime_low, frametime_high, bidirectional),
{
    let frametime = dma_buffer[31].wrapping_sub(dma_buffer[0]) as u16;
    let halfpulsetime = frametime / 32;
    if frametime <= frametime_low || frametime >= frametime_high {
        return DshotFrame::InvalidTiming;
    }
    let mut dpulse = [0u16; 16];
    let mut i: usize = 0;
    while i < 16
        invariant
            i <= 16,
            dma_buffer@.len() == 32,
            halfpulsetime == frame_time(dma_buffer@) / 32,
            forall|j: int| 0 <= j < i ==> dpulse@[j] as int == pulse_bit(dma_buffer@, j),
        decreases 16 - i,
    {
        let pdiff = dma_buffer[i * 2 + 1].wrapping_sub(dma_buffer[i * 2]) as u16;
        dpulse[i] = if pdiff > halfpulsetime { 1 } else { 0 };
        i = i + 1;
    }
    let calc_crc = 8 * ((dpulse[0] + dpulse[4] + dpulse[8]) % 2) + 4 * ((dpulse[1] + dpulse[5] + dpulse[9]) % 2)
        + 2 * ((dpulse[2] + dpulse[6] + dpulse[10]) % 2) + ((dpulse[3] + dpulse[7] + dpulse[11]) % 2);
    let mut check_crc = 8 * dpulse[12] + 4 * dpulse[13] + 2 * dpulse[14] + dpulse[15];
    if bidirectional {
        check_crc = 15 - check_crc;
    }
    if calc_crc != check_crc {
        return DshotFrame::BadCrc;
    }
    let value = dpulse[0] * 1024 + dpulse[1] * 512 + dpulse[2] * 256 + dpulse[3] * 128 + dpulse[4] * 64
        + dpulse[5] * 32 + dpulse[6] * 16 + dpulse[7] * 8 + dpulse[8] * 4 + dpulse[9] * 2 + dpulse[10];
    let telemetry = dpulse[11] == 1;
    if value > 47 {
        DshotFrame::Throttle { value, telemetry }
    } else if value > 0 {
        DshotFrame::Command { cmd: value, telemetry }
    } else {
        DshotFrame::Throttle { value: 0, telemetry }
    }
}

/// `2^n` for `n` in 0..=10.
pub open spec fn pow2_bits(n: int) -> int {
    if n == 0 { 1 } else if n == 1 { 2 } else if n == 2 { 4 } else if n == 3 { 8 } else if n == 4 { 16 } else if n == 5 { 32 }
    else if n == 6 { 64 } else if n == 7 { 128 } else if n == 8 { 256 } else if n == 9 { 512 } else { 1024 }
}

/// Bit `i` (0-11, most significant first) of the data part of a frame: the
/// 11-bit value, then the telemetry request.
pub open spec fn data_bit(value: u16, telemetry: bool, i: int) -> int {
    if i < 11 { (value as int / pow2_bits(10 - i)) % 2 } else if telemetry { 1 } else { 0 }
}

/// Bit `j` (0-3) of the CRC nibble: the parity of data bits `j`, `j + 4`,
/// `j + 8`, inverted for bidirectional DShot.
pub open spec fn crc_bit(value: u16, telemetry: bool, inverted: bool, j: int) -> int {
    let c = (data_bit(value, telemetry, j) + data_bit(value, telemetry, j + 4) + data_bit(value, telemetry, j + 8)) % 2;
    if inverted { 1 - c } else { c }
}

/// Bit `i` (0-15) of a whole frame.
pub open spec fn frame_bit(value: u16, telemetry: bool, inverted: bool, i: int) -> int {
    if i < 12 { data_bit(value, telemetry, i) } else { crc_bit(value, telemetry, inverted, i - 12) }
}

/// The capture of a frame sent at 32 ticks per bit starting at tick 1000: each
/// bit is a rising edge followed by a falling edge 22 ticks later for a 1 and
/// 10 ticks later for a 0.
pub open spec fn frame_capture(value: u16, telemetry: bool, inverted: bool) -> Seq<u32> {
    Seq::new(32, |k: int| (1000 + 32 * (k / 2) + (if k % 2 == 1 { if frame_bit(value, telemetry, inverted, k / 2) == 1 { 22int } else { 10int } } else { 0int })) as u32)
}

proof fn lemma_value_from_bits(value: u16)
    requires
        value < 2048,
    ensures
        value == ((value / 1024) % 2) * 1024 + ((value / 512) % 2) * 512 + ((value / 256) % 2) * 256 + ((value / 128) % 2) * 128
            + ((value / 64) % 2) * 64 + ((value / 32) % 2) * 32 + ((value / 16) % 2) * 16 + ((value / 8) % 2) * 8
            + ((value / 4) % 2) * 4 + ((value / 2) % 2) * 2 + value % 2,
{
    assert(value == ((value / 1024) % 2) * 1024 + ((value / 512) % 2) * 512 + ((value / 256) % 2) * 256 + ((value / 128) % 2) * 128
            + ((value / 64) % 2) * 64 + ((value / 32) % 2) * 32 + ((value / 16) % 2) * 16 + ((value / 8) % 2) * 8
            + ((value / 4) % 2) * 4 + ((value / 2) % 2) * 2 + value % 2) by (bit_vector)
        requires value < 2048;
}

/// A frame sent as DShot describes decodes to what was sent: the value as
/// throttle (0 or above 47) or command (1-47), with the telemetry request, for
/// normal and inverted (bidirectional) CRC alike.
pub proof fn lemma_decode_sent_frame(value: u16, telemetry: bool, inverted: bool)
    requires
        value < 2048,
    ensures
        decode_spec(frame_capture(value, telemetry, inverted), 400, 600, inverted) == (if value > 47 {
            DshotFrame::Throttle { value, telemetry }
        } else if value > 0 {
            DshotFrame::Command { cmd: value, telemetry }
        } else {
            DshotFrame::Throttle { value: 0, telemetry }
        }),
{
    let d = frame_capture(value, telemetry, inverted);
    assert(d.len() == 32);
    assert(d[0] == 1000u32);
    assert(d[31] == 1480 + (if frame_bit(value, telemetry, inverted, 15) == 1 { 22int } else { 10int }));
    assert(frame_time(d) / 32 == 15);
    assert forall|i: int| 0 <= i < 16 implies pulse_bit(d, i) == frame_bit(value, telemetry, inverted, i) by {
        assert(d[2 * i] == 1000 + 32 * i);
        assert((2 * i + 1) / 2 == i);
        assert(d[2 * i + 1] == 1000 + 32 * i + (if frame_bit(value, telemetry, inverted, i) == 1 { 22int } else { 10int }));
    }
    lemma_value_from_bits(value);
    assert(frame_value(d) == value);
    assert(frame_calc_crc(d) == frame_check_crc(d, inverted));
}

/// GCR output bit shift: 6 on F051-class MCUs, 7 on the others.
pub const GCR_SHIFT_F0: u8 = 6;
pub const GCR_SHIFT_G0: u8 = 7;

/// The 4-to-5 bit GCR code of a nibble.
pub open spec fn gcr_code(n: int) -> u32 {
    if n == 0 { 0b11001 } else if n == 1 { 0b11011 } else if n == 2 { 0b10010 } else if n == 3 { 0b10011 }
    else if n == 4 { 0b11101 } else if n == 5 { 0b10101 } else if n == 6 { 0b10110 } else if n == 7 { 0b10111 }
    else if n == 8 { 0b11010 } else if n == 9 { 0b01001 } else if n == 10 { 0b01010 } else if n == 11 { 0b01011 }
    else if n == 12 { 0b11110 } else if n == 13 { 0b01101 } else if n == 14 { 0b01110 } else { 0b01111 }
}

fn gcr_encode(n: u16) -> (r: u32)
    requires
        n < 16,
    ensures
        r == gcr_code(n as int),
        r < 32,
{
    match n {
        0 => 0b11001,
        1 => 0b11011,
        2 => 0b10010,
        3 => 0b10011,
        4 => 0b11101,
        5 => 0b10101,
        6 => 0b10110,
        7 => 0b10111,
        8 => 0b11010,
        9 => 0b01001,
        10 => 0b01010,
        11 => 0b01011,
        12 => 0b11110,
        13 => 0b01101,
        14 => 0b01110,
        _ => 0b01111,
    }
}

/// The checksum nibble of a 12-bit value: the inverted XOR of its three nibbles.
pub open spec fn gcr_checksum(v: u16) -> u16 {
    (!(v ^ (v >> 4u16) ^ (v >> 8u16))) & 0xFu16
}

/// The 16-bit word sent: the value (shifted left 4, truncated) followed by its checksum.
pub open spec fn gcr_word(v: u16) -> u16 {
    ((v << 4u16) | gcr_checksum(v)) as u16
}

/// The 20-bit GCR encoding of a word, nibble by nibble from the top.
pub open spec fn gcr_number(w: u16) -> u32 {
    (gcr_code((w / 4096) as int) * 32768 + gcr_code(((w / 256) % 16) as int) * 1024
        + gcr_code(((w / 16) % 16) as int) * 32 + gcr_code((w % 16) as int)) as u32
}

/// Bit `i` of the GCR number.
pub open spec fn gcr_bit(g: u32, i: int) -> u32 {
    (g >> (i as u32)) & 1u32
}

/// Line level after `k` transitions: starts at 1, and each of the 20 GCR bits
/// (most significant first) toggles it when set.
pub open spec fn gcr_level(g: u32, k: nat) -> u32
    decreases k,
{
    if k == 0 {
        1
    } else {
        gcr_level(g, (k - 1) as nat) ^ gcr_bit(g, 20 - k)
    }
}

proof fn lemma_level_bit(g: u32, k: nat)
    ensures
        gcr_level(g, k) <= 1,
    decreases k,
{
    if k > 0 {
        lemma_level_bit(g, (k - 1) as nat);
        let a = gcr_level(g, (k - 1) as nat);
        let s: u32 = (20 - k) as u32;
        let b = gcr_bit(g, 20 - k);
        assert(b == (g >> s) & 1u32);
        assert((g >> s) & 1u32 <= 1) by (bit_vector);
        assert(a ^ b <= 1) by (bit_vector) requires a <= 1, b <= 1;
    }
}

proof fn lemma_shift_roundtrip(b: u32, s: u8)
    requires
        b <= 1,
        s < 32,
    ensures
        (b << s) >> s == b,
{
    assert((b << s) >> s == b) by (bit_vector) requires b <= 1, s < 32;
}

/// Encode a 12-bit value into the GCR buffer of a bidirectional DShot response:
/// `gcr_out[padding]` is 0, and the 21 following entries are the line levels
/// (start level 1, then one per GCR bit), each scaled by `2^gcr_shift`.
pub fn encode_gcr_frame(value_12bit: u16, gcr_out: &mut [u32], padding: usize, gcr_shift: u8)
    requires
        padding + 22 <= old(gcr_out)@.len(),
        gcr_shift < 32,
    ensures
        final(gcr_out)@.len() == old(gcr_out)@.len(),
        forall|j: int| 0 <= j < final(gcr_out)@.len() && !(padding <= j < padding + 22) ==> final(gcr_out)@[j] == old(gcr_out)@[j],
        final(gcr_out)@[padding as int] == 0,
        forall|k: int| 0 <= k <= 20 ==> #[trigger] final(gcr_out)@[padding + 1 + k] == gcr_level(gcr_number(gcr_word(value_12bit)), k as nat) << gcr_shift,
        final(gcr_out)@[padding + 1] == 1u32 << gcr_shift,
        forall|k: int| 0 <= k <= 20 ==> #[trigger] final(gcr_out)@[padding + 1 + k] == 0 || final(gcr_out)@[padding + 1 + k] == 1u32 << gcr_shift,
{
    let mut csum: u16 = 0;
    let mut csum_data = value_12bit;
    csum = csum ^ csum_data;
    csum_data = csum_data >> 4u16;
    csum = csum ^ csum_data;
    csum_data = csum_data >> 4u16;
    csum = csum ^ csum_data;
    csum = !csum & 0xFu16;
    assert(csum == gcr_checksum(value_12bit)) by (bit_vector)
        requires csum == (!(0u16 ^ value_12bit ^ (value_12bit >> 4u16) ^ ((value_12bit >> 4u16) >> 4u16))) & 0xFu16;
    let full_number = (value_12bit << 4u16) | csum;
    assert(full_number / 4096 < 16 && (full_number / 256) % 16 < 16);
    let gcr_number_v: u32 = gcr_encode(full_number / 4096) * 32768 + gcr_encode((full_number / 256) % 16) * 1024
        + gcr_encode((full_number / 16) % 16) * 32 + gcr_encode(full_number % 16);
    let multiplier: u32 = 1u32 << gcr_shift;
    gcr_out[padding] = 0;
    gcr_out[padding + 1] = multiplier;
    proof {
        assert(1u32 << gcr_shift == gcr_level(gcr_number_v, 0) << gcr_shift);
    }
    let ghost g = gcr_number_v;
    let n = gcr_out.len();
    let mut k: usize = 1;
    while k <= 20
        invariant
            1 <= k <= 21,
            n == gcr_out@.len(),
            gcr_number_v == g,
            g == gcr_number(gcr_word(value_12bit)),
            gcr_shift < 32,
            gcr_out@.len() == old(gcr_out)@.len(),
            padding + 22 <= gcr_out@.len(),
            forall|j: int| 0 <= j < gcr_out@.len() && !(padding <= j < padding + 22) ==> gcr_out@[j] == old(gcr_out)@[j],
            gcr_out@[padding as int] == 0,
            forall|m: int| 0 <= m < k ==> #[trigger] gcr_out@[padding + 1 + m] == gcr_level(g, m as nat) << gcr_shift,
        decreases 21 - k,
    {
        let i = (20 - k) as u32;
        let prev = gcr_out[padding + k];
        proof {
            assert(gcr_out@[padding + 1 + (k - 1)] == gcr_level(g, (k - 1) as nat) << gcr_shift);
            assert(prev == gcr_level(g, (k - 1) as nat) << gcr_shift);
            lemma_level_bit(g, (k - 1) as nat);
            lemma_shift_roundtrip(gcr_level(g, (k - 1) as nat), gcr_shift);
        }
        let bit = ((gcr_number_v >> i) & 1u32) ^ (prev >> gcr_shift);
        proof {
            let a = gcr_level(g, (k - 1) as nat);
            let b = (g >> i) & 1u32;
            assert(gcr_bit(g, 20 - k) == b);
            assert(prev >> gcr_shift == a);
            assert((gcr_number_v >> i) & 1u32 == b);
            assert(bit == b ^ a);
            assert(a ^ b == b ^ a) by (bit_vector);
            assert(gcr_level(g, k as nat) == bit);
        }
        let ghost before = gcr_out@;
        gcr_out[padding + k + 1] = bit << gcr_shift;
        assert forall|m: int| 0 <= m < k + 1 implies #[trigger] gcr_out@[padding + 1 + m] == gcr_level(g, m as nat) << gcr_shift by {
            if m < k {
                assert(gcr_out@[padding + 1 + m] == before[padding + 1 + m]);
            }
        }
        k = k + 1;
    }
    assert forall|m: int| 0 <= m <= 20 implies #[trigger] gcr_out@[padding + 1 + m] == 0 || gcr_out@[padding + 1 + m] == 1u32 << gcr_shift by {
        lemma_level_bit(g, m as nat);
        lemma_level_shift(gcr_level(g, m as nat), gcr_shift);
    }
    assert(gcr_out@[padding + 1 + 0] == gcr_level(g, 0) << gcr_shift);
}

proof fn lemma_level_shift(l: u32, s: u8)
    requires
        l <= 1,
        s < 32,
    ensures
        (l << s) == 0u32 || (l << s) == (1u32 << s),
{
    assert((l << s) == 0u32 || (l << s) == (1u32 << s)) by (bit_vector) requires l <= 1, s < 32;
}

/// The 12-bit eRPM value: a 3-bit exponent over a 9-bit mantissa, the period
/// shifted right until it fits in 9 bits. A stopped motor reports period 65535.
pub open spec fn erpm_12bit_spec(com_time: u16, running: bool) -> u16 {
    let p: int = if !running { 65535 } else { com_time as int };
    let shift: int = if p >= 32768 { 7 } else if p >= 16384 { 6 } else if p >= 8192 { 5 } else if p >= 4096 { 4 }
        else if p >= 2048 { 3 } else if p >= 1024 { 2 } else if p >= 512 { 1 } else { 0 };
    (shift * 512 + p / crate::crsf::pow2_small(shift)) as u16
}

/// Convert commutation time to the 12-bit eRPM value (exponent + mantissa).
pub fn erpm_to_12bit(com_time: u16, running: bool) -> (r: u16)
    ensures
        r == erpm_12bit_spec(com_time, running),
        r < 4096,
{
    let period: u16 = if !running { 65535 } else { com_time };
    let shift_amount: u16 = if period >= 32768 { 7 } else if period >= 16384 { 6 } else if period >= 8192 { 5 }
        else if period >= 4096 { 4 } else if period >= 2048 { 3 } else if period >= 1024 { 2 }
        else if period >= 512 { 1 } else { 0 };
    let div: u16 = if shift_amount == 7 { 128 } else if shift_amount == 6 { 64 } else if shift_amount == 5 { 32 }
        else if shift_amount == 4 { 16 } else if shift_amount == 3 { 8 } else if shift_amount == 2 { 4 }
        else if shift_amount == 1 { 2 } else { 1 };
    shift_amount * 512 + period / div
}

/// Encode an eRPM telemetry response into a GCR buffer.
pub fn encode_telemetry_with_shift(com_time: u16, running: bool, gcr_out: &mut [u32], padding: usize, gcr_shift: u8)
    requires
        padding + 22 <= old(gcr_out)@.len(),
        gcr_shift < 32,
    ensures
        final(gcr_out)@.len() == old(gcr_out)@.len(),
        forall|j: int| 0 <= j < final(gcr_out)@.len() && !(padding <= j < padding + 22) ==> final(gcr_out)@[j] == old(gcr_out)@[j],
        final(gcr_out)@[padding as int] == 0,
        forall|k: int| 0 <= k <= 20 ==> #[trigger] final(gcr_out)@[padding + 1 + k] == gcr_level(gcr_number(gcr_word(erpm_12bit_spec(com_time, running))), k as nat) << gcr_shift,
{
    let value = erpm_to_12bit(com_time, running);
    encode_gcr_frame(value, gcr_out, padding, gcr_shift);
}

/// Encode an eRPM telemetry response with the F051-compatible shift.
pub fn encode_telemetry(com_time: u16, running: bool, gcr_out: &mut [u32], padding: usize)
    requires
        padding + 22 <= old(gcr_out)@.len(),
    ensures
        final(gcr_out)@.len() == old(gcr_out)@.len(),
        forall|j: int| 0 <= j < final(gcr_out)@.len() && !(padding <= j < padding + 22) ==> final(gcr_out)@[j] == old(gcr_out)@[j],
        final(gcr_out)@[padding as int] == 0,
        forall|k: int| 0 <= k <= 20 ==> #[trigger] final(gcr_out)@[padding + 1 + k] == gcr_level(gcr_number(gcr_word(erpm_12bit_spec(com_time, running))), k as nat) << GCR_SHIFT_F0,
{
    encode_telemetry_with_shift(com_time, running, gcr_out, padding, GCR_SHIFT_F0);
}

/// A stopped motor reports the same telemetry as the longest period, whatever
/// commutation time is passed.
pub proof fn lemma_stopped_reports_max_period(com_time: u16)
    ensures
        erpm_12bit_spec(com_time, false) == erpm_12bit_spec(65535, true),
        erpm_12bit_spec(65535, true) == 4095,
{
}

} // verus!
