//! WS2812 single-LED driver: 24-bit GRB colour sent by bit-banging a pin.
//! Interrupts should be disabled by the caller during `send_rgb` (about 24 µs).
use vstd::prelude::*;

verus! {

/// Pin interface for WS2812 bit-banging.
pub trait WS2812Pin {
    /// The commands issued to the pin so far, oldest first. A pin on which the
    /// proofs rely must define it so that its commands meet the contracts below;
    /// the default (an empty record) stands only for pins that are not verified.
    open spec fn pin_calls(&self) -> Seq<PinCall> {
        Seq::empty()
    }

    fn set_high(&mut self)
        ensures
            final(self).pin_calls() == old(self).pin_calls().push(PinCall::High),
    ;
    fn set_low(&mut self)
        ensures
            final(self).pin_calls() == old(self).pin_calls().push(PinCall::Low),
    ;
    /// Busy-wait for approximately `ns` nanoseconds.
    fn delay_ns(&mut self, ns: u32)
        ensures
            final(self).pin_calls() == old(self).pin_calls().push(PinCall::DelayNs(ns)),
    ;
}

/// A command issued to the LED pin.
#[derive(Clone, Copy, PartialEq, Eq, Debug, Structural)]
pub enum PinCall {
    High,
    Low,
    DelayNs(u32),
}



/// LED status colours used by the firmware.
#[derive(Clone, Copy, PartialEq, Eq, Debug, Structural)]
pub enum LedStatus {
    /// Dim red: powered on, waiting for input.
    Boot,
    /// Bright green: armed and ready.
    Armed,
    /// Red: stuck rotor or error.
    Error,
    /// Off.
    Off,
}

pub open spec fn rgb_spec(s: LedStatus) -> (u8, u8, u8) {
    match s {
        LedStatus::Boot => (125, 0, 0),
        LedStatus::Armed => (0, 255, 0),
        LedStatus::Error => (255, 0, 0),
        LedStatus::Off => (0, 0, 0),
    }
}

impl LedStatus {
    /// The (R, G, B) colour of this status.
    pub fn rgb(self) -> (r: (u8, u8, u8))
        ensures
            r == rgb_spec(self),
    {
        match self {
            LedStatus::Boot => (125, 0, 0),
            LedStatus::Armed => (0, 255, 0),
            LedStatus::Error => (255, 0, 0),
            LedStatus::Off => (0, 0, 0),
        }
    }
}

/// Bit `i` of a byte.
pub open spec fn byte_bit(byte: u8, i: u32) -> bool {
    (byte as int / crate::crsf::pow2_small(i as int)) % 2 == 1
}

/// The pin commands of one bit: a 1 is high ~700 ns then low ~600 ns, a 0 high
/// ~350 ns then low ~800 ns.
pub open spec fn bit_calls(bit: bool) -> Seq<PinCall> {
    if bit {
        seq![PinCall::High, PinCall::DelayNs(700), PinCall::Low, PinCall::DelayNs(600)]
    } else {
        seq![PinCall::High, PinCall::DelayNs(350), PinCall::Low, PinCall::DelayNs(800)]
    }
}

/// The pin commands of bits 7 down to `i` of a byte, most significant first.
pub open spec fn bits_from_calls(byte: u8, i: int) -> Seq<PinCall>
    decreases 8 - i,
{
    if i >= 8 {
        Seq::empty()
    } else {
        bits_from_calls(byte, i + 1) + bit_calls(byte_bit(byte, i as u32))
    }
}

/// The pin commands of a whole byte, most significant bit first.
pub open spec fn byte_calls(byte: u8) -> Seq<PinCall> {
    bits_from_calls(byte, 0)
}

/// The pin commands of a colour: green, red and blue bytes, then the line held
/// low for the 50 us reset.
pub open spec fn rgb_calls(r: u8, g: u8, b: u8) -> Seq<PinCall> {
    byte_calls(g) + byte_calls(r) + byte_calls(b) + seq![PinCall::Low, PinCall::DelayNs(50_000)]
}

/// One WS2812 bit: a 1 is high ~700 ns then low ~600 ns, a 0 high ~350 ns then
/// low ~800 ns.
fn send_bit<P: WS2812Pin>(pin: &mut P, bit: bool)
    ensures
        final(pin).pin_calls() == old(pin).pin_calls() + bit_calls(bit),
{
    if bit {
        pin.set_high();
        pin.delay_ns(700);
        pin.set_low();
        pin.delay_ns(600);
    } else {
        pin.set_high();
        pin.delay_ns(350);
        pin.set_low();
        pin.delay_ns(800);
    }
    assert(pin.pin_calls() =~= old(pin).pin_calls() + bit_calls(bit));
}

fn byte_bit_exec(byte: u8, i: u32) -> (r: bool)
    requires
        i < 8,
    ensures
        r == byte_bit(byte, i),
{
    let div: u8 = if i == 0 { 1 } else if i == 1 { 2 } else if i == 2 { 4 } else if i == 3 { 8 } else if i == 4 { 16 } else if i == 5 { 32 } else if i == 6 { 64 } else { 128 };
    (byte / div) % 2 == 1
}

/// Send one byte, most significant bit first.
fn send_byte<P: WS2812Pin>(pin: &mut P, byte: u8)
    ensures
        final(pin).pin_calls() == old(pin).pin_calls() + byte_calls(byte),
{
    let ghost start = pin.pin_calls();
    let mut i: u32 = 8;
    assert(bits_from_calls(byte, 8) =~= Seq::<PinCall>::empty());
    assert(pin.pin_calls() =~= start + bits_from_calls(byte, 8));
    while i > 0
        invariant
            i <= 8,
            pin.pin_calls() == start + bits_from_calls(byte, i as int),
        decreases i,
    {
        i = i - 1;
        let bit = byte_bit_exec(byte, i);
        send_bit(pin, bit);
        assert(bits_from_calls(byte, i as int) == bits_from_calls(byte, i + 1) + bit_calls(bit));
        assert(pin.pin_calls() =~= start + bits_from_calls(byte, i as int));
    }
}

/// Send an RGB colour to a single WS2812 LED (sent in GRB order), then hold the
/// line low for the 50 us reset.
pub fn send_rgb<P: WS2812Pin>(pin: &mut P, r: u8, g: u8, b: u8)
    ensures
        final(pin).pin_calls() == old(pin).pin_calls() + rgb_calls(r, g, b),
{
    send_byte(pin, g);
    send_byte(pin, r);
    send_byte(pin, b);
    pin.set_low();
    pin.delay_ns(50_000);
    assert(pin.pin_calls() =~= old(pin).pin_calls() + rgb_calls(r, g, b));
}

/// Send a status colour to the LED.
pub fn send_status<P: WS2812Pin>(pin: &mut P, status: LedStatus)
    ensures
        final(pin).pin_calls() == old(pin).pin_calls() + rgb_calls(rgb_spec(status).0, rgb_spec(status).1, rgb_spec(status).2),
{
    let (r, g, b) = status.rgb();
    send_rgb(pin, r, g, b);
}

} // verus!
