//! CRSF (Crossfire) serial input protocol parser.
//!
//! Packet format: `[0xC8] [length] [type] [payload...] [crc8]`, where the length
//! counts type, payload and CRC. Channel data (type 0x16) packs 16 channels of
//! 11 bits each, LSB first, into 22 payload bytes.
use vstd::prelude::*;

verus! {

/// CRSF sync byte.
pub const CRSF_SYNC: u8 = 0xC8;

/// CRSF frame type: RC channels packed.
pub const CRSF_FRAMETYPE_RC_CHANNELS: u8 = 0x16;

/// Maximum CRSF frame size (sync + length + type + 22 payload + crc).
pub const CRSF_MAX_FRAME_SIZE: usize = 26;

/// CRSF channel value range.
pub const CRSF_CHANNEL_MIN: u16 = 172;
pub const CRSF_CHANNEL_MAX: u16 = 1811;
pub const CRSF_CHANNEL_CENTER: u16 = 992;

/// One shift of the CRC-8/DVB-S2 register (polynomial 0xD5).
pub open spec fn dvb_shift(c: u8) -> u8 {
    if c & 0x80 != 0 {
        (c << 1u8) ^ 0xD5
    } else {
        c << 1u8
    }
}

pub open spec fn dvb_shifts(c: u8, n: nat) -> u8
    decreases n,
{
    if n == 0 {
        c
    } else {
        dvb_shift(dvb_shifts(c, (n - 1) as nat))
    }
}

/// CRC-8/DVB-S2 register after one more byte.
pub open spec fn dvb_byte(crc: u8, b: u8) -> u8 {
    dvb_shifts(crc ^ b, 8)
}

/// CRC-8/DVB-S2 of a byte sequence, starting from 0.
pub open spec fn crc8_dvb_s2_spec(s: Seq<u8>) -> u8
    decreases s.len(),
{
    if s.len() == 0 {
        0
    } else {
        dvb_byte(crc8_dvb_s2_spec(s.drop_last()), s.last())
    }
}

proof fn lemma_xor_self(x: u8)
    ensures
        x ^ x == 0,
{
    assert(x ^ x == 0) by (bit_vector);
}

proof fn lemma_dvb_shifts_zero(n: nat)
    ensures
        dvb_shifts(0, n) == 0,
    decreases n,
{
    if n > 0 {
        lemma_dvb_shifts_zero((n - 1) as nat);
        assert(dvb_shift(0) == 0) by (bit_vector);
    }
}

/// A frame body followed by its own CRC-8/DVB-S2 checks out: the CRC of the
/// whole is 0.
pub proof fn lemma_dvb_appended_check(s: Seq<u8>)
    ensures
        crc8_dvb_s2_spec(s.push(crc8_dvb_s2_spec(s))) == 0,
{
    assert(s.push(crc8_dvb_s2_spec(s)).drop_last() =~= s);
    lemma_xor_self(crc8_dvb_s2_spec(s));
    lemma_dvb_shifts_zero(8);
}

fn dvb_byte_exec(crc: u8, b: u8) -> (r: u8)
    ensures
        r == dvb_byte(crc, b),
{
    let mut c = crc ^ b;
    let mut j: u8 = 0;
    while j < 8
        invariant
            j <= 8,
            c == dvb_shifts(crc ^ b, j as nat),
        decreases 8 - j,
    {
        c = if c & 0x80 != 0 {
            (c << 1u8) ^ 0xD5
        } else {
            c << 1u8
        };
        j = j + 1;
    }
    c
}

/// Compute CRC-8/DVB-S2 over a byte slice.
pub fn crc8_dvb_s2(data: &[u8]) -> (r: u8)
    ensures
        r == crc8_dvb_s2_spec(data@),
{
    let r = crc8_range(data, 0, data.len());
    assert(data@.subrange(0, data@.len() as int) =~= data@);
    r
}

/// CRC-8/DVB-S2 over `data[start..end]`.
fn crc8_range(data: &[u8], start: usize, end: usize) -> (r: u8)
    requires
        start <= end <= data@.len(),
    ensures
        r == crc8_dvb_s2_spec(data@.subrange(start as int, end as int)),
{
    let mut crc: u8 = 0;
    let mut i: usize = start;
    while i < end
        invariant
            start <= i <= end <= data@.len(),
            crc == crc8_dvb_s2_spec(data@.subrange(start as int, i as int)),
        decreases end - i,
    {
        assert(data@.subrange(start as int, i + 1).drop_last() =~= data@.subrange(start as int, i as int));
        crc = dvb_byte_exec(crc, data[i]);
        i = i + 1;
    }
    crc
}

/// `2^r` for a bit offset within a byte.
pub open spec fn pow2_small(r: int) -> int {
    if r == 0 { 1 } else if r == 1 { 2 } else if r == 2 { 4 } else if r == 3 { 8 } else if r == 4 { 16 } else if r == 5 { 32 } else if r == 6 { 64 } else { 128 }
}

/// The 11 bits starting at bit `r` of the little-endian bytes `b0, b1, b2`.
pub open spec fn window_field(b0: u8, b1: u8, b2: u8, r: int) -> int {
    ((b0 + b1 * 256 + b2 * 65536) / pow2_small(r)) % 2048
}

/// Channel `i`: the 11-bit field starting at bit `11 * i` of the payload, LSB first.
pub open spec fn crsf_channel(p: Seq<u8>, i: int) -> int {
    let k = (11 * i) / 8;
    let r = (11 * i) % 8;
    window_field(p[k], p[k + 1], if r > 5 { p[k + 2] } else { 0u8 }, r)
}

proof fn lemma_window_0_2(b0: u8, b1: u8, b2: u8)
    requires
        b2 == 0,
        true,
    ensures
        (((b0 as u16) | ((b1 as u16) << 8u16)) & 0x7FFu16) as int == window_field(b0, b1, b2, 0),
{
    let w: u32 = ((b0 as u32) + (b1 as u32) * 256 + (b2 as u32) * 65536) as u32;
    assert((((b0 as u16) | ((b1 as u16) << 8u16)) & 0x7FFu16) as u32 == (w >> 0u32) & 0x7FFu32) by (bit_vector)
        requires w == (b0 as u32) + (b1 as u32) * 256 + (b2 as u32) * 65536, b2 == 0;
    assert((w >> 0u32) & 0x7FFu32 == (w / 1) % 2048) by (bit_vector);
}

proof fn lemma_window_1_2(b0: u8, b1: u8, b2: u8)
    requires
        b2 == 0,
        true,
    ensures
        ((((b0 as u16) >> 1u16) | ((b1 as u16) << 7u16)) & 0x7FFu16) as int == window_field(b0, b1, b2, 1),
{
    let w: u32 = ((b0 as u32) + (b1 as u32) * 256 + (b2 as u32) * 65536) as u32;
    assert(((((b0 as u16) >> 1u16) | ((b1 as u16) << 7u16)) & 0x7FFu16) as u32 == (w >> 1u32) & 0x7FFu32) by (bit_vector)
        requires w == (b0 as u32) + (b1 as u32) * 256 + (b2 as u32) * 65536, b2 == 0;
    assert((w >> 1u32) & 0x7FFu32 == (w / 2) % 2048) by (bit_vector);
}

proof fn lemma_window_2_2(b0: u8, b1: u8, b2: u8)
    requires
        b2 == 0,
        true,
    ensures
        ((((b0 as u16) >> 2u16) | ((b1 as u16) << 6u16)) & 0x7FFu16) as int == window_field(b0, b1, b2, 2),
{
    let w: u32 = ((b0 as u32) + (b1 as u32) * 256 + (b2 as u32) * 65536) as u32;
    assert(((((b0 as u16) >> 2u16) | ((b1 as u16) << 6u16)) & 0x7FFu16) as u32 == (w >> 2u32) & 0x7FFu32) by (bit_vector)
        requires w == (b0 as u32) + (b1 as u32) * 256 + (b2 as u32) * 65536, b2 == 0;
    assert((w >> 2u32) & 0x7FFu32 == (w / 4) % 2048) by (bit_vector);
}

proof fn lemma_window_3_2(b0: u8, b1: u8, b2: u8)
    requires
        b2 == 0,
        true,
    ensures
        ((((b0 as u16) >> 3u16) | ((b1 as u16) << 5u16)) & 0x7FFu16) as int == window_field(b0, b1, b2, 3),
{
    let w: u32 = ((b0 as u32) + (b1 as u32) * 256 + (b2 as u32) * 65536) as u32;
    assert(((((b0 as u16) >> 3u16) | ((b1 as u16) << 5u16)) & 0x7FFu16) as u32 == (w >> 3u32) & 0x7FFu32) by (bit_vector)
        requires w == (b0 as u32) + (b1 as u32) * 256 + (b2 as u32) * 65536, b2 == 0;
    assert((w >> 3u32) & 0x7FFu32 == (w / 8) % 2048) by (bit_vector);
}

proof fn lemma_window_4_2(b0: u8, b1: u8, b2: u8)
    requires
        b2 == 0,
        true,
    ensures
        ((((b0 as u16) >> 4u16) | ((b1 as u16) << 4u16)) & 0x7FFu16) as int == window_field(b0, b1, b2, 4),
{
    let w: u32 = ((b0 as u32) + (b1 as u32) * 256 + (b2 as u32) * 65536) as u32;
    assert(((((b0 as u16) >> 4u16) | ((b1 as u16) << 4u16)) & 0x7FFu16) as u32 == (w >> 4u32) & 0x7FFu32) by (bit_vector)
        requires w == (b0 as u32) + (b1 as u32) * 256 + (b2 as u32) * 65536, b2 == 0;
    assert((w >> 4u32) & 0x7FFu32 == (w / 16) % 2048) by (bit_vector);
}

proof fn lemma_window_5_2(b0: u8, b1: u8, b2: u8)
    requires
        b2 == 0,
        true,
    ensures
        ((((b0 as u16) >> 5u16) | ((b1 as u16) << 3u16)) & 0x7FFu16) as int == window_field(b0, b1, b2, 5),
{
    let w: u32 = ((b0 as u32) + (b1 as u32) * 256 + (b2 as u32) * 65536) as u32;
    assert(((((b0 as u16) >> 5u16) | ((b1 as u16) << 3u16)) & 0x7FFu16) as u32 == (w >> 5u32) & 0x7FFu32) by (bit_vector)
        requires w == (b0 as u32) + (b1 as u32) * 256 + (b2 as u32) * 65536, b2 == 0;
    assert((w >> 5u32) & 0x7FFu32 == (w / 32) % 2048) by (bit_vector);
}

proof fn lemma_window_6_3(b0: u8, b1: u8, b2: u8)
    requires
        true,
    ensures
        ((((b0 as u16) >> 6u16) | ((b1 as u16) << 2u16) | ((b2 as u16) << 10u16)) & 0x7FFu16) as int == window_field(b0, b1, b2, 6),
{
    let w: u32 = ((b0 as u32) + (b1 as u32) * 256 + (b2 as u32) * 65536) as u32;
    assert(((((b0 as u16) >> 6u16) | ((b1 as u16) << 2u16) | ((b2 as u16) << 10u16)) & 0x7FFu16) as u32 == (w >> 6u32) & 0x7FFu32) by (bit_vector)
        requires w == (b0 as u32) + (b1 as u32) * 256 + (b2 as u32) * 65536;
    assert((w >> 6u32) & 0x7FFu32 == (w / 64) % 2048) by (bit_vector);
}

proof fn lemma_window_7_3(b0: u8, b1: u8, b2: u8)
    requires
        true,
    ensures
        ((((b0 as u16) >> 7u16) | ((b1 as u16) << 1u16) | ((b2 as u16) << 9u16)) & 0x7FFu16) as int == window_field(b0, b1, b2, 7),
{
    let w: u32 = ((b0 as u32) + (b1 as u32) * 256 + (b2 as u32) * 65536) as u32;
    assert(((((b0 as u16) >> 7u16) | ((b1 as u16) << 1u16) | ((b2 as u16) << 9u16)) & 0x7FFu16) as u32 == (w >> 7u32) & 0x7FFu32) by (bit_vector)
        requires w == (b0 as u32) + (b1 as u32) * 256 + (b2 as u32) * 65536;
    assert((w >> 7u32) & 0x7FFu32 == (w / 128) % 2048) by (bit_vector);
}


/// Unpack 16 x 11-bit channels from 22 bytes (LSB-first bit packing).
pub fn unpack_channels(p: &[u8]) -> (r: [u16; 16])
    requires
        p@.len() >= 22,
    ensures
        forall|i: int| 0 <= i < 16 ==> r@[i] as int == crsf_channel(p@, i),
{
    let c0: u16 = ((p[0] as u16) | ((p[1] as u16) << 8u16)) & 0x7FFu16;
    proof { lemma_window_0_2(p[0], p[1], 0u8); }
    let c1: u16 = (((p[1] as u16) >> 3u16) | ((p[2] as u16) << 5u16)) & 0x7FFu16;
    proof { lemma_window_3_2(p[1], p[2], 0u8); }
    let c2: u16 = (((p[2] as u16) >> 6u16) | ((p[3] as u16) << 2u16) | ((p[4] as u16) << 10u16)) & 0x7FFu16;
    proof { lemma_window_6_3(p[2], p[3], p[4]); }
    let c3: u16 = (((p[4] as u16) >> 1u16) | ((p[5] as u16) << 7u16)) & 0x7FFu16;
    proof { lemma_window_1_2(p[4], p[5], 0u8); }
    let c4: u16 = (((p[5] as u16) >> 4u16) | ((p[6] as u16) << 4u16)) & 0x7FFu16;
    proof { lemma_window_4_2(p[5], p[6], 0u8); }
    let c5: u16 = (((p[6] as u16) >> 7u16) | ((p[7] as u16) << 1u16) | ((p[8] as u16) << 9u16)) & 0x7FFu16;
    proof { lemma_window_7_3(p[6], p[7], p[8]); }
    let c6: u16 = (((p[8] as u16) >> 2u16) | ((p[9] as u16) << 6u16)) & 0x7FFu16;
    proof { lemma_window_2_2(p[8], p[9], 0u8); }
    let c7: u16 = (((p[9] as u16) >> 5u16) | ((p[10] as u16) << 3u16)) & 0x7FFu16;
    proof { lemma_window_5_2(p[9], p[10], 0u8); }
    let c8: u16 = ((p[11] as u16) | ((p[12] as u16) << 8u16)) & 0x7FFu16;
    proof { lemma_window_0_2(p[11], p[12], 0u8); }
    let c9: u16 = (((p[12] as u16) >> 3u16) | ((p[13] as u16) << 5u16)) & 0x7FFu16;
    proof { lemma_window_3_2(p[12], p[13], 0u8); }
    let c10: u16 = (((p[13] as u16) >> 6u16) | ((p[14] as u16) << 2u16) | ((p[15] as u16) << 10u16)) & 0x7FFu16;
    proof { lemma_window_6_3(p[13], p[14], p[15]); }
    let c11: u16 = (((p[15] as u16) >> 1u16) | ((p[16] as u16) << 7u16)) & 0x7FFu16;
    proof { lemma_window_1_2(p[15], p[16], 0u8); }
    let c12: u16 = (((p[16] as u16) >> 4u16) | ((p[17] as u16) << 4u16)) & 0x7FFu16;
    proof { lemma_window_4_2(p[16], p[17], 0u8); }
    let c13: u16 = (((p[17] as u16) >> 7u16) | ((p[18] as u16) << 1u16) | ((p[19] as u16) << 9u16)) & 0x7FFu16;
    proof { lemma_window_7_3(p[17], p[18], p[19]); }
    let c14: u16 = (((p[19] as u16) >> 2u16) | ((p[20] as u16) << 6u16)) & 0x7FFu16;
    proof { lemma_window_2_2(p[19], p[20], 0u8); }
    let c15: u16 = (((p[20] as u16) >> 5u16) | ((p[21] as u16) << 3u16)) & 0x7FFu16;
    proof { lemma_window_5_2(p[20], p[21], 0u8); }
    let r = [c0, c1, c2, c3, c4, c5, c6, c7, c8, c9, c10, c11, c12, c13, c14, c15];
    assert(forall|i: int| 0 <= i < 16 ==> r@[i] as int == crsf_channel(p@, i)) by {
        assert(r@[0] == c0 && r@[1] == c1 && r@[2] == c2 && r@[3] == c3);
        assert(r@[4] == c4 && r@[5] == c5 && r@[6] == c6 && r@[7] == c7);
        assert(r@[8] == c8 && r@[9] == c9 && r@[10] == c10 && r@[11] == c11);
        assert(r@[12] == c12 && r@[13] == c13 && r@[14] == c14 && r@[15] == c15);
    }
    r
}

/// Result of parsing a CRSF frame.
#[derive(Debug)]
pub enum CrsfResult {
    /// Valid channel data: 16 channels, 11-bit each.
    Channels([u16; 16]),
    /// Valid frame but not a channel data type.
    OtherFrame(u8),
    /// CRC mismatch.
    BadCrc,
    /// Length byte out of range (the frame is dropped).
    Incomplete,
}

/// One fed byte: waiting for sync, only 0xC8 starts a frame; otherwise the byte
/// is stored, and once sync, length and type are in, an out-of-range length drops
/// the frame as Incomplete, and a complete frame gives its CRC check, its type, or
/// its unpacked channels, the parser returning to waiting for sync.
pub open spec fn feed_step(a: CrsfParser, byte: u8, n: CrsfParser, r: Option<CrsfResult>) -> bool {
    if a.pos == 0 {
        r.is_none() && if byte == CRSF_SYNC {
            n.pos == 1 && n.buf@ == a.buf@.update(0, byte)
        } else {
            n.pos == 0 && n.buf@ == a.buf@
        }
    } else {
        let b = n.buf@;
        let p = a.pos + 1;
        let total = b[1] + 2;
        &&& b == a.buf@.update(a.pos as int, byte)
        &&& if p < 3 {
            r.is_none() && n.pos == p
        } else if b[1] < 2 || total > 64 {
            n.pos == 0 && r matches Some(CrsfResult::Incomplete)
        } else if p < total {
            r.is_none() && n.pos == p
        } else {
            &&& n.pos == 0
            &&& if crc8_dvb_s2_spec(b.subrange(2, total - 1)) != b[total - 1] {
                r matches Some(CrsfResult::BadCrc)
            } else if b[2] != CRSF_FRAMETYPE_RC_CHANNELS {
                r == Some(CrsfResult::OtherFrame(b[2]))
            } else {
                r matches Some(CrsfResult::Channels(ch)) && forall|i: int| 0 <= i < 16 ==> ch@[i] as int
                    == crsf_channel(b.subrange(3, 25), i)
            }
        }
    }
}

/// CRSF frame parser with an internal byte buffer.
pub struct CrsfParser {
    pub buf: [u8; 64],
    pub pos: usize,
    /// Which channel index to use as throttle (default: 2).
    pub throttle_channel: u8,
}

impl CrsfParser {
    /// The write position is inside the buffer, and once the length byte is in,
    /// the announced frame fits the buffer and is not yet complete.
    pub open spec fn wf(&self) -> bool {
        &&& self.pos < 64
        &&& self.pos >= 3 ==> 2 <= self.buf@[1] && self.buf@[1] + 2 <= 64 && self.pos < self.buf@[1] + 2
    }

    pub fn new() -> (r: Self)
        ensures
            r.wf(),
            r.pos == 0,
            r.throttle_channel == 2,
    {
        Self { buf: [0u8; 64], pos: 0, throttle_channel: 2 }
    }

    /// Feed a byte into the parser. Returns Some(result) when a frame is complete
    /// (or its length byte is out of range).
    ///
    /// Waiting for sync, only 0xC8 starts a frame. Otherwise the byte is stored;
    /// once sync, length and type are in, a length below 2 or a frame longer than
    /// 64 bytes is dropped as Incomplete; a complete frame is checked against the
    /// CRC-8/DVB-S2 of its type and payload bytes, and an RC-channels frame is
    /// unpacked from the 22 bytes after the type.
    pub fn feed(&mut self, byte: u8) -> (r: Option<CrsfResult>)
        requires
            old(self).wf(),
        ensures
            final(self).wf(),
            final(self).throttle_channel == old(self).throttle_channel,
            feed_step(*old(self), byte, *final(self), r),
    {
        if self.pos == 0 {
            if byte == CRSF_SYNC {
                self.buf[0] = byte;
                self.pos = 1;
            }
            return None;
        }
        let p = self.pos;
        self.buf[p] = byte;
        self.pos = p + 1;
        if self.pos < 3 {
            return None;
        }
        let frame_len = self.buf[1] as usize;
        let total_len = 2 + frame_len;
        if frame_len < 2 || total_len > 64 {
            self.pos = 0;
            return Some(CrsfResult::Incomplete);
        }
        if self.pos < total_len {
            return None;
        }
        let crc_idx = total_len - 1;
        let computed_crc = crc8_range(&self.buf, 2, crc_idx);
        let received_crc = self.buf[crc_idx];
        self.pos = 0;
        if computed_crc != received_crc {
            return Some(CrsfResult::BadCrc);
        }
        let frame_type = self.buf[2];
        if frame_type != CRSF_FRAMETYPE_RC_CHANNELS {
            return Some(CrsfResult::OtherFrame(frame_type));
        }
        let mut payload = [0u8; 22];
        let mut i: usize = 0;
        while i < 22
            invariant
                i <= 22,
                self.buf@.len() == 64,
                forall|j: int| 0 <= j < i ==> payload@[j] == self.buf@[3 + j],
            decreases 22 - i,
        {
            payload[i] = self.buf[3 + i];
            i = i + 1;
        }
        assert(payload@ =~= self.buf@.subrange(3, 25));
        let channels = unpack_channels(&payload);
        Some(CrsfResult::Channels(channels))
    }

    /// Map a CRSF channel value (172-1811) to ESC throttle (0-2047).
    pub fn channel_to_throttle(value: u16) -> (r: u16)
        ensures
            r == channel_throttle_spec(value),
            r <= 2047,
    {
        if value <= CRSF_CHANNEL_MIN {
            return 0;
        }
        if value >= CRSF_CHANNEL_MAX {
            return 2047;
        }
        let range = (CRSF_CHANNEL_MAX - CRSF_CHANNEL_MIN) as u32;
        assert((value - 172) * 2047 / 1639 <= 2047) by (nonlinear_arith) requires 172 < value < 1811;
        ((value - CRSF_CHANNEL_MIN) as u32 * 2047 / range) as u16
    }
}

/// Throttle from a channel value: 0 at or below the minimum, 2047 at or above the
/// maximum, linear (truncated) in between.
pub open spec fn channel_throttle_spec(value: u16) -> u16 {
    if value <= CRSF_CHANNEL_MIN {
        0
    } else if value >= CRSF_CHANNEL_MAX {
        2047
    } else {
        ((value - 172) * 2047 / 1639) as u16
    }
}

/// Throttle from a channel value never decreases as the value grows.
pub proof fn lemma_channel_throttle_monotonic(a: u16, b: u16)
    requires
        a <= b,
    ensures
        channel_throttle_spec(a) <= channel_throttle_spec(b),
{
    if 172 < a && a < 1811 {
        if b < 1811 {
            assert((a - 172) * 2047 <= (b - 172) * 2047) by (nonlinear_arith) requires a <= b;
            vstd::arithmetic::div_mod::lemma_div_is_ordered((a - 172) * 2047, (b - 172) * 2047, 1639);
        } else {
            assert((a - 172) * 2047 / 1639 <= 2047) by (nonlinear_arith) requires 172 < a < 1811;
        }
    }
}

/// What a whole frame gives: its CRC check, its type, or its channels.
pub open spec fn frame_result_ok(f: Seq<u8>, r: Option<CrsfResult>) -> bool {
    let total = f.len() as int;
    if crc8_dvb_s2_spec(f.subrange(2, total - 1)) != f[total - 1] {
        r matches Some(CrsfResult::BadCrc)
    } else if f[2] != CRSF_FRAMETYPE_RC_CHANNELS {
        r == Some(CrsfResult::OtherFrame(f[2]))
    } else {
        total >= 25 ==> (r matches Some(CrsfResult::Channels(ch)) && forall|i: int| 0 <= i < 16 ==> ch@[i] as int
            == crsf_channel(f.subrange(3, 25), i))
    }
}

proof fn lemma_frame_prefix(f: Seq<u8>, ps: Seq<CrsfParser>, rs: Seq<Option<CrsfResult>>, k: int)
    requires
        f.len() >= 4,
        f[0] == CRSF_SYNC,
        2 <= f[1] <= 62,
        f.len() == f[1] + 2,
        ps.len() == f.len() + 1,
        rs.len() == f.len(),
        ps[0].pos == 0,
        forall|j: int| 0 <= j < f.len() ==> #[trigger] feed_step(ps[j], f[j], ps[j + 1], rs[j]),
        1 <= k < f.len(),
    ensures
        ps[k].pos == k,
        forall|j: int| 0 <= j < k ==> #[trigger] ps[k].buf@[j] == f[j],
        forall|j: int| 0 <= j < k ==> (#[trigger] rs[j]).is_none(),
    decreases k,
{
    let j = k - 1;
    assert(feed_step(ps[j], f[j], ps[j + 1], rs[j]));
    assert(j + 1 == k);
    if k > 1 {
        lemma_frame_prefix(f, ps, rs, k - 1);
    }
}

/// A whole CRSF frame fed byte by byte from the waiting state: every byte but the
/// last gives nothing; the last gives the frame's CRC check, its type, or (for an
/// RC-channels frame long enough to hold them) its channels, and the parser is
/// back to waiting for sync.
pub proof fn lemma_frame_fed_bytewise(f: Seq<u8>, ps: Seq<CrsfParser>, rs: Seq<Option<CrsfResult>>)
    requires
        f.len() >= 4,
        f[0] == CRSF_SYNC,
        2 <= f[1] <= 62,
        f.len() == f[1] + 2,
        ps.len() == f.len() + 1,
        rs.len() == f.len(),
        ps[0].pos == 0,
        forall|j: int| 0 <= j < f.len() ==> #[trigger] feed_step(ps[j], f[j], ps[j + 1], rs[j]),
    ensures
        forall|j: int| 0 <= j < f.len() - 1 ==> (#[trigger] rs[j]).is_none(),
        ps[f.len() as int].pos == 0,
        frame_result_ok(f, rs[f.len() - 1]),
{
    let last = f.len() - 1;
    lemma_frame_prefix(f, ps, rs, last);
    assert(feed_step(ps[last], f[last], ps[last + 1], rs[last]));
    let b = ps[last + 1].buf@;
    assert(b =~= ps[last].buf@.update(last, f[last]));
    assert forall|j: int| 0 <= j < f.len() implies b[j] == f[j] by {
        if j < last {
            assert(ps[last].buf@[j] == f[j]);
        }
    }
    assert(b.subrange(2, f.len() - 1) =~= f.subrange(2, f.len() - 1));
    if f.len() >= 25 {
        assert(b.subrange(3, 25) =~= f.subrange(3, 25));
    }
}

} // verus!
