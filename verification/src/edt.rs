//! Extended DShot Telemetry (EDT): interleaves current, voltage and temperature
//! frames with the standard eRPM frames of the bidirectional DShot response.
//! The upper 4 bits of a 12-bit frame give its type: 0x2 temperature, 0x4 voltage,
//! 0x6 current, 0xE the init/deinit special frames.
use vstd::prelude::*;

verus! {

pub const EDT_TEMPERATURE: u16 = 0x2;
pub const EDT_VOLTAGE: u16 = 0x4;
pub const EDT_CURRENT: u16 = 0x6;
pub const EDT_SPECIAL: u16 = 0xE;

/// EDT init frame.
pub const EDT_INIT_FRAME: u16 = 0xE00;
/// EDT deinit frame.
pub const EDT_DEINIT_FRAME: u16 = 0xEFF;

/// EDT scheduler state: the interleaving of eRPM and extended frames.
#[derive(Clone, Copy, Default)]
pub struct EdtScheduler {
    /// Frame counter (incremented on each response while active).
    pub counter: u16,
    /// Whether the last frame sent was an extended frame.
    pub last_sent_extended: bool,
    /// Whether EDT is active.
    pub active: bool,
    /// Pending init frame.
    pub send_init: bool,
    /// Pending deinit frame.
    pub send_deinit: bool,
}

/// What the scheduler decided to send.
#[derive(Clone, Copy, PartialEq, Eq, Debug, Structural)]
pub enum EdtFrame {
    /// Standard eRPM telemetry.
    Erpm,
    /// An EDT data frame (12-bit value ready for GCR encoding).
    Extended(u16),
}

/// Current payload: 50 mA per step, negative as 0, truncated to a byte.
pub open spec fn current_payload(current_ma: i16) -> int {
    (if current_ma < 0 { 0 } else { current_ma / 50 }) % 256
}

/// Voltage payload: 25 mV per step, at most 255.
pub open spec fn voltage_payload(voltage_mv: u16) -> int {
    if voltage_mv / 25 < 255 { (voltage_mv / 25) as int } else { 255 }
}

/// The frame sent and the scheduler after it. Pending init (then deinit) frames go
/// first and switch EDT on (off); when inactive only eRPM is sent; otherwise the
/// counter advances, an extended frame is always followed by an eRPM frame, and
/// current goes out every 40 frames, voltage at 100 and temperature at 150 out of
/// every 200.
pub open spec fn next_frame_spec(s: EdtScheduler, current_ma: i16, voltage_mv: u16, temperature: i16) -> (EdtScheduler, EdtFrame) {
    if s.send_init {
        (EdtScheduler { send_init: false, active: true, ..s }, EdtFrame::Extended(EDT_INIT_FRAME))
    } else if s.send_deinit {
        (EdtScheduler { send_deinit: false, active: false, ..s }, EdtFrame::Extended(EDT_DEINIT_FRAME))
    } else if !s.active {
        (s, EdtFrame::Erpm)
    } else {
        let c = vstd::wrapping::u16_specs::wrapping_add(s.counter, 1);
        let t = EdtScheduler { counter: c, ..s };
        if s.last_sent_extended {
            (EdtScheduler { last_sent_extended: false, ..t }, EdtFrame::Erpm)
        } else if c % 40 == 0 {
            (EdtScheduler { last_sent_extended: true, ..t }, EdtFrame::Extended((0x600 + current_payload(current_ma)) as u16))
        } else if c % 200 == 100 {
            (EdtScheduler { last_sent_extended: true, ..t }, EdtFrame::Extended((0x400 + voltage_payload(voltage_mv)) as u16))
        } else if c % 200 == 150 {
            (EdtScheduler { last_sent_extended: true, ..t }, EdtFrame::Extended((0x200 + (temperature as u8)) as u16))
        } else {
            (t, EdtFrame::Erpm)
        }
    }
}

impl EdtScheduler {
    /// Decide what to send for this telemetry response, from the current in mA,
    /// the battery voltage in mV and the temperature in degrees Celsius.
    pub fn next_frame(&mut self, current_ma: i16, voltage_mv: u16, temperature: i16) -> (r: EdtFrame)
        ensures
            (*final(self), r) == next_frame_spec(*old(self), current_ma, voltage_mv, temperature),
    {
        if self.send_init {
            self.send_init = false;
            self.active = true;
            return EdtFrame::Extended(EDT_INIT_FRAME);
        }
        if self.send_deinit {
            self.send_deinit = false;
            self.active = false;
            return EdtFrame::Extended(EDT_DEINIT_FRAME);
        }
        if !self.active {
            return EdtFrame::Erpm;
        }
        self.counter = self.counter.wrapping_add(1);
        if self.last_sent_extended {
            self.last_sent_extended = false;
            return EdtFrame::Erpm;
        }
        let frame = if self.counter % 40 == 0 {
            let ma: i32 = if (current_ma as i32) < 0 { 0 } else { current_ma as i32 };
            let payload = ((ma / 50) % 256) as u16;
            EDT_CURRENT * 256 + payload
        } else if self.counter % 200 == 100 {
            let v = voltage_mv / 25;
            let payload = if v < 255 { v } else { 255 };
            EDT_VOLTAGE * 256 + payload
        } else if self.counter % 200 == 150 {
            let payload = temperature as u8;
            EDT_TEMPERATURE * 256 + payload as u16
        } else {
            return EdtFrame::Erpm;
        };
        self.last_sent_extended = true;
        EdtFrame::Extended(frame)
    }
}

/// While EDT stays active with nothing pending, an extended frame is never sent
/// twice in a row.
pub proof fn lemma_extended_never_twice(s: EdtScheduler, a: i16, v: u16, t: i16, a2: i16, v2: u16, t2: i16)
    requires
        !s.send_init,
        !s.send_deinit,
        s.active,
        next_frame_spec(s, a, v, t).1 is Extended,
    ensures
        next_frame_spec(next_frame_spec(s, a, v, t).0, a2, v2, t2).1 is Erpm,
{
}

/// An extended data frame's type nibble is current, voltage or temperature, and
/// its value fits in 12 bits.
pub proof fn lemma_extended_frame_tagged(s: EdtScheduler, a: i16, v: u16, t: i16)
    requires
        !s.send_init,
        !s.send_deinit,
        next_frame_spec(s, a, v, t).1 is Extended,
    ensures
        ({
            let f = next_frame_spec(s, a, v, t).1->Extended_0;
            &&& f < 4096
            &&& f / 256 == EDT_CURRENT || f / 256 == EDT_VOLTAGE || f / 256 == EDT_TEMPERATURE
        }),
{
}

/// In the voltage slot the frame carries the battery voltage in 25 mV steps,
/// saturating at 255: it is `0x400` plus the number of whole 25 mV steps in
/// `voltage_mv`, or `0x4FF` from 6375 mV up.
pub proof fn lemma_voltage_frame(s: EdtScheduler, a: i16, voltage_mv: u16, t: i16)
    requires
        !s.send_init,
        !s.send_deinit,
        s.active,
        !s.last_sent_extended,
        (s.counter + 1) % 200 == 100,
    ensures
        next_frame_spec(s, a, voltage_mv, t).1 is Extended,
        ({
            let f = next_frame_spec(s, a, voltage_mv, t).1->Extended_0;
            &&& 0x400 <= f <= 0x4FF
            &&& voltage_mv >= 6375 ==> f == 0x4FF
            &&& voltage_mv < 6375 ==> (f - 0x400) * 25 <= voltage_mv < (f - 0x400 + 1) * 25
        }),
{
}

/// A higher battery voltage never gives a lower voltage frame.
pub proof fn lemma_voltage_frame_monotone(s: EdtScheduler, a: i16, v1: u16, v2: u16, t: i16)
    requires
        !s.send_init,
        !s.send_deinit,
        s.active,
        !s.last_sent_extended,
        (s.counter + 1) % 200 == 100,
        v1 <= v2,
    ensures
        next_frame_spec(s, a, v1, t).1->Extended_0 <= next_frame_spec(s, a, v2, t).1->Extended_0,
{
    lemma_voltage_frame(s, a, v1, t);
    lemma_voltage_frame(s, a, v2, t);
}

} // verus!
