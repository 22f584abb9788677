use rm32::dshot::{DshotFrame, decode_frame, GCR_SHIFT_F0, GCR_SHIFT_G0, encode_gcr_frame, erpm_to_12bit, encode_telemetry_with_shift, encode_telemetry};

/// Build a DShot DMA buffer from an 11-bit value.
fn build_frame(value: u16, telem: bool, inverted_crc: bool) -> [u32; 32] {
    let mut bits = [0u8; 16];
    for i in 0..11 {
        bits[i] = ((value >> (10 - i)) & 1) as u8;
    }
    bits[11] = if telem { 1 } else { 0 };

    let mut crc = (bits[0] ^ bits[4] ^ bits[8]) << 3
        | (bits[1] ^ bits[5] ^ bits[9]) << 2
        | (bits[2] ^ bits[6] ^ bits[10]) << 1
        | (bits[3] ^ bits[7] ^ bits[11]);
    if inverted_crc {
        crc = (!crc) & 0xF;
    }
    bits[12] = (crc >> 3) & 1;
    bits[13] = (crc >> 2) & 1;
    bits[14] = (crc >> 1) & 1;
    bits[15] = crc & 1;

    let mut buf = [0u32; 32];
    let mut base = 1000u32;
    for i in 0..16 {
        buf[i * 2] = base;
        buf[i * 2 + 1] = base + if bits[i] != 0 { 22 } else { 10 };
        base += 32;
    }
    buf
}

#[test]
fn decode_throttle() {
    let buf = build_frame(100, false, false);
    match decode_frame(&buf, 400, 600, false) {
        DshotFrame::Throttle { value, telemetry } => {
            assert_eq!(value, 100);
            assert!(!telemetry);
        }
        other => panic!("Expected Throttle, got {:?}", other),
    }
}

#[test]
fn decode_with_telemetry_bit() {
    let buf = build_frame(200, true, false);
    match decode_frame(&buf, 400, 600, false) {
        DshotFrame::Throttle { value, telemetry } => {
            assert_eq!(value, 200);
            assert!(telemetry);
        }
        other => panic!("Expected Throttle, got {:?}", other),
    }
}

#[test]
fn decode_bad_crc() {
    let mut buf = build_frame(100, false, false);
    buf[31] = buf[30] + 22; // corrupt last pulse
    assert!(matches!(
        decode_frame(&buf, 400, 600, false),
        DshotFrame::BadCrc
    ));
}

#[test]
fn decode_zero_throttle() {
    let buf = build_frame(0, false, false);
    match decode_frame(&buf, 400, 600, false) {
        DshotFrame::Throttle { value, .. } => assert_eq!(value, 0),
        other => panic!("Expected Throttle(0), got {:?}", other),
    }
}

#[test]
fn decode_command() {
    let buf = build_frame(7, false, false);
    match decode_frame(&buf, 400, 600, false) {
        DshotFrame::Command { cmd, .. } => assert_eq!(cmd, 7),
        other => panic!("Expected Command, got {:?}", other),
    }
}

#[test]
fn decode_invalid_timing() {
    let buf = build_frame(100, false, false);
    assert!(matches!(
        decode_frame(&buf, 50, 100, false),
        DshotFrame::InvalidTiming
    ));
}

#[test]
fn decode_bidirectional_inverted_crc() {
    let buf = build_frame(300, false, true);
    match decode_frame(&buf, 400, 600, true) {
        DshotFrame::Throttle { value, .. } => assert_eq!(value, 300),
        other => panic!("Expected Throttle(300), got {:?}", other),
    }
}

#[test]
fn encode_not_running_max_period() {
    let mut gcr = [0u32; 37];
    encode_telemetry(500, false, &mut gcr, 0);
    // Not running: period forced to 65535
    // shift_amount for 65535: bit 15 is set -> shift=7
    // dshot_number = (7<<9) | (65535>>7) = 3584|511 = 4095 = 0xFFF
}

#[test]
fn encode_deterministic() {
    let mut gcr1 = [0u32; 37];
    let mut gcr2 = [0u32; 37];
    encode_telemetry(1000, true, &mut gcr1, 0);
    encode_telemetry(1000, true, &mut gcr2, 0);
    assert_eq!(gcr1, gcr2);
}

#[test]
fn encode_different_periods() {
    let mut gcr1 = [0u32; 37];
    let mut gcr2 = [0u32; 37];
    encode_telemetry(200, true, &mut gcr1, 0);
    encode_telemetry(2000, true, &mut gcr2, 0);
    assert_ne!(gcr1, gcr2);
}

#[test]
fn encode_has_data() {
    let mut gcr = [0u32; 37];
    encode_telemetry(500, true, &mut gcr, 0);
    assert!(gcr.iter().any(|&v| v != 0));
}

#[test]
fn encode_shift_small_period() {
    let mut gcr = [0u32; 37];
    encode_telemetry(100, true, &mut gcr, 0);
    // Small period: shift_amount should be 0
}

#[test]
fn encode_shift_large_period() {
    let mut gcr = [0u32; 37];
    encode_telemetry(30000, true, &mut gcr, 0);
    // Large period: nonzero shift
}

// --- Golden vectors (MCU_F051, gcr_shift=6, padding=7) ---

/// Helper: encode with C harness parameters (F051 path, padding=7).
fn encode_c_compat(com_time: u16) -> [u32; 37] {
    let mut gcr = [0u32; 37];
    encode_telemetry_with_shift(com_time, true, &mut gcr, 7, GCR_SHIFT_F0);
    gcr
}

#[test]
fn gcr_golden_com500_shift0() {
    let gcr = encode_c_compat(500);
    assert_eq!(erpm_to_12bit(500, true), 500); // shift=0, raw value
    assert_eq!(
        gcr,
        [
            0, 0, 0, 0, 0, 0, 0, 0, 64, 0, 64, 64, 0, 64, 64, 0, 64, 0, 64, 0, 64, 0, 0, 64, 0,
            0, 64, 64, 0, 0, 0, 0, 0, 0, 0, 0, 0
        ]
    );
}

#[test]
fn gcr_golden_com1000_shift1() {
    let gcr = encode_c_compat(1000);
    assert_eq!(erpm_to_12bit(1000, true), 1012); // shift=1
    assert_eq!(
        gcr,
        [
            0, 0, 0, 0, 0, 0, 0, 0, 64, 0, 0, 0, 64, 0, 0, 64, 0, 64, 0, 64, 0, 64, 64, 0, 64,
            64, 0, 64, 0, 0, 0, 0, 0, 0, 0, 0, 0
        ]
    );
}

#[test]
fn gcr_golden_com65535_shift7() {
    let gcr = encode_c_compat(65535);
    assert_eq!(erpm_to_12bit(65535, true), 4095); // shift=7, max
    assert_eq!(
        gcr,
        [
            0, 0, 0, 0, 0, 0, 0, 0, 64, 64, 0, 64, 0, 64, 64, 0, 64, 0, 64, 64, 0, 64, 0, 64,
            0, 64, 64, 64, 0, 0, 0, 0, 0, 0, 0, 0, 0
        ]
    );
}

#[test]
fn gcr_golden_com100_shift0() {
    let gcr = encode_c_compat(100);
    assert_eq!(
        gcr,
        [
            0, 0, 0, 0, 0, 0, 0, 0, 64, 0, 64, 64, 64, 0, 64, 64, 0, 64, 64, 0, 64, 0, 0, 64,
            64, 0, 64, 64, 0, 0, 0, 0, 0, 0, 0, 0, 0
        ]
    );
}

#[test]
fn gcr_golden_com30000_shift6() {
    let gcr = encode_c_compat(30000);
    assert_eq!(
        gcr,
        [
            0, 0, 0, 0, 0, 0, 0, 0, 64, 64, 0, 64, 64, 0, 0, 64, 0, 0, 64, 0, 64, 0, 0, 64, 64,
            0, 0, 64, 0, 0, 0, 0, 0, 0, 0, 0, 0
        ]
    );
}

#[test]
fn gcr_golden_com200_shift0() {
    let gcr = encode_c_compat(200);
    assert_eq!(
        gcr,
        [
            0, 0, 0, 0, 0, 0, 0, 0, 64, 0, 64, 64, 64, 0, 64, 0, 64, 0, 0, 64, 0, 0, 64, 64,
            64, 0, 0, 64, 0, 0, 0, 0, 0, 0, 0, 0, 0
        ]
    );
}

#[test]
fn gcr_golden_com10000_shift5() {
    let gcr = encode_c_compat(10000);
    assert_eq!(
        gcr,
        [
            0, 0, 0, 0, 0, 0, 0, 0, 64, 64, 0, 0, 64, 0, 64, 64, 64, 0, 64, 0, 64, 64, 0, 0, 0,
            64, 0, 64, 0, 0, 0, 0, 0, 0, 0, 0, 0
        ]
    );
}

#[test]
fn gcr_golden_com1_shift0() {
    let gcr = encode_c_compat(1);
    assert_eq!(
        gcr,
        [
            0, 0, 0, 0, 0, 0, 0, 0, 64, 0, 64, 64, 64, 0, 64, 0, 0, 0, 64, 0, 64, 64, 0, 64,
            64, 0, 64, 0, 0, 0, 0, 0, 0, 0, 0, 0, 0
        ]
    );
}

#[test]
fn gcr_golden_not_running() {
    // Not running forces com_time to 65535 regardless of input
    let mut gcr = [0u32; 37];
    encode_telemetry_with_shift(500, false, &mut gcr, 7, GCR_SHIFT_F0);
    let expected = encode_c_compat(65535); // same as max
    assert_eq!(gcr, expected);
}
