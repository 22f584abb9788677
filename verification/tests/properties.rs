use rm32::signal::{detect_input, SignalType};
use rm32::commutation::Commutation;
use rm32::config::{EepromConfig, EEPROM_SIZE, EEPROM_VERSION};
use rm32::control::state::MotorState;
use rm32::crsf::{crc8_dvb_s2, CrsfParser};
use rm32::dshot::{decode_frame, encode_telemetry, encode_telemetry_with_shift, erpm_to_12bit, DshotFrame, GCR_SHIFT_F0};
use rm32::dshot_commands::{CommandProcessor, CommandResult};
use rm32::edt::{EdtFrame, EdtScheduler};
use rm32::functions::get_crc8;
use rm32::input_mapping::{dshot_bidir, dshot_rc_car};
use rm32::main_state::duty_ceiling;
use rm32::motor_mode::{MotorEvent, MotorMode};
use rm32::ntc::ntc_degrees;
use rm32::servo::{ServoResult, ServoState};
use rm32::sine::PhasePositions;
use rm32::telemetry::make_telem_package;

/// Capture of a frame as the DShot wire carries it (32 ticks per bit from 1000,
/// 22-tick high for a 1, 10-tick high for a 0).
fn sent_frame(value: u16, telemetry: bool, inverted: bool) -> [u32; 32] {
    let mut bits = [0u8; 16];
    for i in 0..11 {
        bits[i] = ((value >> (10 - i)) & 1) as u8;
    }
    bits[11] = telemetry as u8;
    for j in 0..4 {
        let c = bits[j] ^ bits[j + 4] ^ bits[j + 8];
        bits[12 + j] = if inverted { 1 - c } else { c };
    }
    let mut buf = [0u32; 32];
    for i in 0..16 {
        buf[2 * i] = 1000 + 32 * i as u32;
        buf[2 * i + 1] = buf[2 * i] + if bits[i] == 1 { 22 } else { 10 };
    }
    buf
}

#[test]
fn decode_of_sent_frames_gives_what_was_sent() {
    for &value in &[0u16, 1, 6, 47, 48, 100, 1047, 1048, 2047] {
        for &telemetry in &[false, true] {
            for &inverted in &[false, true] {
                let expected = if value > 47 {
                    DshotFrame::Throttle { value, telemetry }
                } else if value > 0 {
                    DshotFrame::Command { cmd: value, telemetry }
                } else {
                    DshotFrame::Throttle { value: 0, telemetry }
                };
                let got = decode_frame(&sent_frame(value, telemetry, inverted), 400, 600, inverted);
                assert_eq!(format!("{:?}", got), format!("{:?}", expected));
            }
        }
    }
}

#[test]
fn decode_rejects_wrong_crc_polarity() {
    let buf = sent_frame(300, false, false);
    assert!(matches!(decode_frame(&buf, 400, 600, true), DshotFrame::BadCrc));
}

#[test]
fn settings_image_round_trip() {
    let mut cfg = EepromConfig::default();
    cfg.eeprom_version = EEPROM_VERSION;
    cfg.motor_kv = 55;
    cfg.tune[7] = 9;
    cfg.can_reserved[3] = 4;
    let bytes = cfg.as_bytes();
    assert_eq!(bytes.len(), EEPROM_SIZE);
    let mut raw = [0u8; 192];
    raw.copy_from_slice(&bytes);
    let back = EepromConfig::from_bytes(&raw);
    assert_eq!(back.as_bytes(), bytes);
    assert_eq!(back.motor_kv, 55);
    assert_eq!(back.tune[7], 9);
    assert_eq!(back.can_reserved[3], 4);
}

#[test]
fn set_byte_changes_only_that_byte() {
    let mut cfg = EepromConfig::default();
    let before = cfg.as_bytes();
    cfg.set_byte(17, 1);
    let after = cfg.as_bytes();
    assert_eq!(cfg.dir_reversed, 1);
    for i in 0..EEPROM_SIZE {
        if i != 17 {
            assert_eq!(before[i], after[i]);
        }
    }
}

#[test]
fn crc8_of_message_with_its_crc_is_zero() {
    let data = [0x12u8, 0x34, 0x56, 0x78, 0x9A];
    let crc = get_crc8(&data);
    let mut with = data.to_vec();
    with.push(crc);
    assert_eq!(get_crc8(&with), 0);
    let dvb = crc8_dvb_s2(&data);
    let mut with = data.to_vec();
    with.push(dvb);
    assert_eq!(crc8_dvb_s2(&with), 0);
}

#[test]
fn telemetry_packet_checks_out() {
    let mut buf = [0u8; 10];
    make_telem_package(&mut buf, -5, 1680, 500, 100, 3000);
    assert_eq!(get_crc8(&buf), 0);
    assert_eq!(buf[0], 251);
}

#[test]
fn six_advances_return_to_the_same_step() {
    for forward in [true, false] {
        let mut c = Commutation::new();
        c.forward = forward;
        let start = c.step;
        for _ in 0..6 {
            c.advance();
        }
        assert_eq!(c.step, start);
    }
}

#[test]
fn motor_mode_codes_round_trip() {
    for m in [MotorMode::Disarmed, MotorMode::Armed, MotorMode::StepperSine, MotorMode::OldRoutine, MotorMode::Running] {
        assert_eq!(MotorMode::from_u8(m.to_u8()), m);
        assert_eq!(m.transition(MotorEvent::Disarm), MotorMode::Disarmed);
        if m.is_running() {
            assert!(m.is_armed());
        }
    }
    assert_eq!(MotorMode::from_u8(200), MotorMode::Disarmed);
}

#[test]
fn stopped_motor_reports_longest_period() {
    let mut a = [0u32; 37];
    let mut b = [0u32; 37];
    encode_telemetry(1234, false, &mut a, 0);
    encode_telemetry(65535, true, &mut b, 0);
    assert_eq!(a, b);
    assert_eq!(erpm_to_12bit(1234, false), 4095);
}

#[test]
fn gcr_padding_and_levels() {
    let mut gcr = [7u32; 40];
    encode_telemetry_with_shift(500, true, &mut gcr, 3, GCR_SHIFT_F0);
    assert_eq!(&gcr[0..3], &[7, 7, 7]);
    assert_eq!(gcr[3], 0);
    assert_eq!(gcr[4], 64);
    for v in &gcr[4..25] {
        assert!(*v == 0 || *v == 64);
    }
    assert_eq!(&gcr[25..40], &[7u32; 15]);
}

#[test]
fn bidir_dshot_range_law() {
    for x in [0u16, 47, 48, 500, 1047, 1048, 1500, 2047] {
        for forward in [true, false] {
            let r = dshot_bidir(x, forward, false, 5000, 100, false, 1500);
            let mismatch = if x > 1047 { !forward } else { forward };
            assert_eq!(r.reverse, x > 47 && mismatch);
            assert!(!r.prop_brake);
            assert!(r.adjusted <= 2045);
            if x <= 47 {
                assert_eq!(r.adjusted, 0);
            }
            if r.adjusted != 0 {
                assert!(r.adjusted >= 46);
            }
        }
    }
    assert_eq!(dshot_bidir(1048, true, false, 5000, 100, false, 1500).adjusted, 46);
    let r = dshot_bidir(1200, false, false, 5000, 100, false, 1500);
    assert!(r.adjusted == 350 && r.reverse && !r.prop_brake);
    let r = dshot_bidir(1200, false, false, 1000, 100, false, 1500);
    assert!(r.adjusted == 0 && !r.reverse);
    assert_eq!(dshot_bidir(2047, true, false, 5000, 100, false, 1500).adjusted, 2044);
}

#[test]
fn rc_car_brakes_before_reversing() {
    // Moving forward, reverse requested: brake first.
    let r = dshot_rc_car(500, true, false, false, false);
    assert!(r.prop_brake && r.adjusted == 0 && !r.reverse);
    // After the stick returned to centre, the reversal happens.
    let r = dshot_rc_car(500, true, false, true, true);
    assert!(r.reverse && !r.prop_brake && r.adjusted == 950);
    // Centre: no brake, no throttle.
    let r = dshot_rc_car(0, true, false, true, false);
    assert!(!r.prop_brake && r.adjusted == 0);
}

#[test]
fn ntc_hotter_reads_hotter() {
    let mut last = 151;
    for raw in (0..4096u16).step_by(37) {
        let t = ntc_degrees(raw).0;
        assert!(t <= last);
        assert!((0..=150).contains(&t));
        last = t;
    }
    assert_eq!(ntc_degrees(0).0, 150);
    assert_eq!(ntc_degrees(4095).0, 0);
}

#[test]
fn sine_step_is_undone_by_the_opposite_step() {
    let mut p = PhasePositions { a: 0, b: 120, c: 359 };
    p.advance(true);
    assert_eq!((p.a, p.b, p.c), (359, 119, 358));
    p.advance(false);
    assert_eq!((p.a, p.b, p.c), (0, 120, 359));
}

#[test]
fn edt_never_sends_two_extended_frames_in_a_row() {
    let mut s = EdtScheduler::default();
    s.active = true;
    let mut last_extended = false;
    for _ in 0..1000 {
        let f = s.next_frame(1500, 16800, 40);
        let ext = matches!(f, EdtFrame::Extended(_));
        assert!(!(ext && last_extended));
        if let EdtFrame::Extended(v) = f {
            assert!(v < 4096);
            let tag = v >> 8;
            assert!(tag == 2 || tag == 4 || tag == 6);
        }
        last_extended = ext;
    }
}

#[test]
fn servo_rate_limit_steps_down() {
    let mut s = ServoState::default();
    s.max_deviation = 100;
    match s.compute(1100, 1000, false) {
        ServoResult::Throttle(v) => assert_eq!(v, 900),
        _ => panic!("expected throttle"),
    }
}

#[test]
fn servo_calibration_completes_with_settings() {
    let mut s = ServoState::default();
    s.calibration_required = true;
    s.high_calibration_set = true;
    let mut done = None;
    for _ in 0..76 {
        if let ServoResult::CalibrationDone { low_threshold_eeprom, high_threshold_eeprom } = s.compute(1100, 0, false) {
            done = Some((low_threshold_eeprom, high_threshold_eeprom));
        }
    }
    // low threshold stays 1100 (7/8 of 1100 + 1/8 of 1100), then +25
    assert_eq!(done, Some((((1125 - 750) / 2) as u8, ((1900 - 1750) / 2) as u8)));
    assert!(!s.calibration_required);
    assert_eq!(s.low_threshold, 1125);
}

#[test]
fn servo_calibration_aborts_on_unsteady_high() {
    let mut s = ServoState::default();
    s.calibration_required = true;
    assert!(matches!(s.compute(1500, 0, false), ServoResult::Calibrating));
    assert!(!s.calibration_required);
}

#[test]
fn overheated_esc_gets_at_most_half_duty() {
    for deg in [81i16, 85, 90, 100, 120] {
        assert!(duty_ceiling(1000, 2000, 14, deg, 80) <= 1000);
    }
    assert_eq!(duty_ceiling(0, 2000, 14, 90, 80), 1);
}

#[test]
fn commands_ignored_while_running_or_disarmed() {
    let mut cp = CommandProcessor::default();
    let mut cfg = EepromConfig::default();
    let mut forward = true;
    let mut edt = false;
    for _ in 0..10 {
        assert_eq!(cp.process(8, true, true, &mut cfg, &mut forward, &mut edt, false), CommandResult::NoAction);
        assert_eq!(cp.process(8, false, false, &mut cfg, &mut forward, &mut edt, false), CommandResult::NoAction);
    }
    assert_eq!(cfg.dir_reversed, 0);
    assert!(forward);
}

#[test]
fn command_results_of_each_kind() {
    let mut cp = CommandProcessor::default();
    let mut cfg = EepromConfig::default();
    let mut forward = true;
    let mut edt = false;
    let mut last = CommandResult::NoAction;
    for _ in 0..6 {
        last = cp.process(12, true, false, &mut cfg, &mut forward, &mut edt, false);
    }
    assert_eq!(last, CommandResult::SaveSettings);
    for _ in 0..6 {
        last = cp.process(6, true, false, &mut cfg, &mut forward, &mut edt, false);
    }
    assert_eq!(last, CommandResult::SendEscInfo);
    assert_eq!(cp.process(3, true, false, &mut cfg, &mut forward, &mut edt, false), CommandResult::PlayTone(3));
    for _ in 0..6 {
        cp.process(36, true, false, &mut cfg, &mut forward, &mut edt, false);
    }
    assert!(cp.in_programming_mode());
    assert_eq!(cp.process_programming(27, &mut cfg), None);
    assert_eq!(cp.process_programming(3, &mut cfg), None);
    assert_eq!(cp.process_programming(36, &mut cfg), None);
    assert_eq!(cp.process_programming(37, &mut cfg), Some(CommandResult::ProgrammingCommit { position: 27, value: 3 }));
    assert_eq!(cfg.motor_poles, 3);
    assert!(!cp.in_programming_mode());
}

#[test]
fn programming_commit_outside_image_writes_nothing() {
    let mut cp = CommandProcessor::default();
    let mut cfg = EepromConfig::default();
    cp.programming_mode = 1;
    cp.process_programming(500, &mut cfg);
    cp.process_programming(9, &mut cfg);
    let before = cfg.as_bytes();
    assert_eq!(cp.process_programming(37, &mut cfg), Some(CommandResult::ProgrammingCommit { position: 500, value: 9 }));
    assert_eq!(cfg.as_bytes(), before);
}

#[test]
fn edt_flags_are_taken_once() {
    let mut cp = CommandProcessor::default();
    let mut cfg = EepromConfig::default();
    let mut forward = true;
    let mut edt = false;
    for _ in 0..6 {
        cp.process(13, true, false, &mut cfg, &mut forward, &mut edt, true);
    }
    assert!(cp.extended_telemetry());
    assert!(edt);
    assert!(cp.take_edt_init());
    assert!(!cp.take_edt_init());
    for _ in 0..6 {
        cp.process(14, true, false, &mut cfg, &mut forward, &mut edt, true);
    }
    assert!(!cp.extended_telemetry());
    assert!(cp.take_edt_deinit());
    assert!(!cp.take_edt_deinit());
}

#[test]
fn crsf_throttle_is_monotonic() {
    let mut last = 0;
    for v in (0..2048u16).step_by(13) {
        let t = CrsfParser::channel_to_throttle(v);
        assert!(t >= last);
        last = t;
    }
}

#[test]
fn motor_state_default_values() {
    let s = MotorState::default();
    assert_eq!(s.timing.commutation_interval, 12500);
    assert_eq!(s.timing.polling_mode_changeover, 2000);
    assert_eq!(s.reverse_speed_threshold, 1500);
    assert_eq!(s.tim1_arr, 1999);
    assert!(!s.armed && !s.running);
}

#[test]
fn constant_width_pulse_trains_are_classified_by_width() {
    for (step, expected) in [
        (0u32, SignalType::NoSignal),
        (2, SignalType::Dshot600),
        (6, SignalType::Dshot300),
        (100, SignalType::NoSignal),
        (300, SignalType::ServoPwm),
    ] {
        let buf: Vec<u32> = (0..32u32).map(|j| 5000 + j * step).collect();
        assert_eq!(detect_input(&buf, 64), expected);
    }
}
