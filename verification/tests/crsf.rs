use rm32::crsf::{CRSF_SYNC, CRSF_FRAMETYPE_RC_CHANNELS, CRSF_MAX_FRAME_SIZE, CRSF_CHANNEL_MIN, CRSF_CHANNEL_MAX, CRSF_CHANNEL_CENTER, crc8_dvb_s2, unpack_channels, CrsfResult, CrsfParser};

#[test]
fn crc8_empty() {
    assert_eq!(crc8_dvb_s2(&[]), 0);
}

#[test]
fn crc8_known_value() {
    // CRC-8/DVB-S2 of [0x16] (channel frame type byte)
    let crc = crc8_dvb_s2(&[0x16]);
    assert_ne!(crc, 0); // just verify it computes something
}

#[test]
fn unpack_all_zeros() {
    let payload = [0u8; 22];
    let ch = unpack_channels(&payload);
    for &c in &ch {
        assert_eq!(c, 0);
    }
}

#[test]
fn unpack_all_ones() {
    let payload = [0xFFu8; 22];
    let ch = unpack_channels(&payload);
    for &c in &ch {
        assert_eq!(c, 0x7FF); // 11-bit max = 2047
    }
}

#[test]
fn unpack_channel_0_only() {
    let mut payload = [0u8; 22];
    // Channel 0 = 1000 (0x3E8) in bits [0..10]
    // 0x3E8 = 0b01111101000
    payload[0] = 0xE8; // lower 8 bits
    payload[1] = 0x03; // upper 3 bits
    let ch = unpack_channels(&payload);
    assert_eq!(ch[0], 1000);
    assert_eq!(ch[1], 0); // no bleed
}

#[test]
fn channel_to_throttle_range() {
    assert_eq!(CrsfParser::channel_to_throttle(172), 0);
    assert_eq!(CrsfParser::channel_to_throttle(1811), 2047);
    assert_eq!(CrsfParser::channel_to_throttle(100), 0); // below min
    assert_eq!(CrsfParser::channel_to_throttle(2000), 2047); // above max
    // Mid-range check
    let mid = CrsfParser::channel_to_throttle(992);
    assert!(mid > 900 && mid < 1100, "mid={}", mid);
}

#[test]
fn parser_valid_frame() {
    let mut parser = CrsfParser::new();

    // Build a valid CRSF RC channels frame
    let mut frame = [0u8; 26];
    frame[0] = CRSF_SYNC;
    frame[1] = 24; // length: type(1) + payload(22) + crc(1)
    frame[2] = CRSF_FRAMETYPE_RC_CHANNELS;
    // payload bytes 3..24: all channels at center (992 = 0x3E0)
    // For simplicity, just use zeros (all channels = 0)
    // CRC over bytes 2..24 (type + payload)
    frame[25] = crc8_dvb_s2(&frame[2..25]);

    // Feed bytes one at a time
    for i in 0..25 {
        assert!(parser.feed(frame[i]).is_none());
    }
    match parser.feed(frame[25]) {
        Some(CrsfResult::Channels(ch)) => {
            assert_eq!(ch[0], 0);
        }
        other => panic!("expected Channels, got {:?}", other),
    }
}

#[test]
fn parser_bad_crc() {
    let mut parser = CrsfParser::new();

    let mut frame = [0u8; 26];
    frame[0] = CRSF_SYNC;
    frame[1] = 24;
    frame[2] = CRSF_FRAMETYPE_RC_CHANNELS;
    frame[25] = 0xFF; // wrong CRC

    for i in 0..25 {
        parser.feed(frame[i]);
    }
    match parser.feed(frame[25]) {
        Some(CrsfResult::BadCrc) => {}
        other => panic!("expected BadCrc, got {:?}", other),
    }
}

#[test]
fn parser_resync_on_garbage() {
    let mut parser = CrsfParser::new();

    // Feed garbage then a valid frame
    for b in [0x00, 0x55, 0xAA, 0x12] {
        assert!(parser.feed(b).is_none());
    }

    // Now a valid frame
    let mut frame = [0u8; 26];
    frame[0] = CRSF_SYNC;
    frame[1] = 24;
    frame[2] = CRSF_FRAMETYPE_RC_CHANNELS;
    frame[25] = crc8_dvb_s2(&frame[2..25]);

    for &b in &frame {
        let _ = parser.feed(b);
    }
    // Parser should have synced and returned a result
}
