//! KISS ESC telemetry packets: the 10-byte telemetry frame and the ESC info packet.
use vstd::prelude::*;
use crate::functions::{crc8_spec, get_crc8};

verus! {

/// KISS telemetry packet layout (10 bytes).
pub struct KissTelemPacket {
    pub temperature: i8,
    pub voltage_h: u8,
    pub voltage_l: u8,
    pub current_h: u8,
    pub current_l: u8,
    pub consumption_h: u8,
    pub consumption_l: u8,
    pub erpm_h: u8,
    pub erpm_l: u8,
    pub crc: u8,
}

/// The nine data bytes: temperature, then voltage, current, consumption and eRPM,
/// each big-endian.
pub open spec fn telem_data(temp: i8, voltage: u16, current: u16, consumption: u16, e_rpm: u16) -> Seq<u8> {
    seq![
        temp as u8,
        (voltage / 256) as u8,
        (voltage % 256) as u8,
        (current / 256) as u8,
        (current % 256) as u8,
        (consumption / 256) as u8,
        (consumption % 256) as u8,
        (e_rpm / 256) as u8,
        (e_rpm % 256) as u8,
    ]
}

/// Build a KISS telemetry packet: the nine data bytes followed by their CRC-8.
pub fn make_telem_package(buf: &mut [u8; 10], temp: i8, voltage: u16, current: u16, consumption: u16, e_rpm: u16)
    ensures
        final(buf)@ == telem_data(temp, voltage, current, consumption, e_rpm).push(
            crc8_spec(telem_data(temp, voltage, current, consumption, e_rpm)),
        ),
{
    let data: [u8; 9] = [
        temp as u8,
        (voltage / 256) as u8,
        (voltage % 256) as u8,
        (current / 256) as u8,
        (current % 256) as u8,
        (consumption / 256) as u8,
        (consumption % 256) as u8,
        (e_rpm / 256) as u8,
        (e_rpm % 256) as u8,
    ];
    assert(data@ =~= telem_data(temp, voltage, current, consumption, e_rpm));
    let crc = get_crc8(&data);
    let mut i: usize = 0;
    while i < 9
        invariant
            i <= 9,
            forall|k: int| 0 <= k < i ==> buf@[k] == data@[k],
        decreases 9 - i,
    {
        buf[i] = data[i];
        i = i + 1;
    }
    buf[9] = crc;
    assert(buf@ =~= data@.push(crc));
}

/// Build the ESC info packet: the first 48 settings bytes followed by their CRC-8.
pub fn make_info_packet(buf: &mut [u8; 49], eeprom: &[u8])
    requires
        eeprom@.len() >= 48,
    ensures
        final(buf)@ == eeprom@.take(48).push(crc8_spec(eeprom@.take(48))),
{
    let mut data: Vec<u8> = Vec::new();
    let mut i: usize = 0;
    while i < 48
        invariant
            i <= 48,
            eeprom@.len() >= 48,
            data@ == eeprom@.take(i as int),
            forall|k: int| 0 <= k < i ==> buf@[k] == eeprom@[k],
        decreases 48 - i,
    {
        buf[i] = eeprom[i];
        data.push(eeprom[i]);
        assert(data@ =~= eeprom@.take(i as int + 1));
        i = i + 1;
    }
    let crc = get_crc8(data.as_slice());
    buf[48] = crc;
    assert(buf@ =~= eeprom@.take(48).push(crc));
}

} // verus!
