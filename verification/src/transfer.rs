//! Capture-complete dispatcher: input auto-detection, DShot frame decoding,
//! servo pulse processing, unarmed DShot frame-time averaging and stick
//! calibration entry.
use vstd::prelude::*;
use crate::dshot::{decode_frame, decode_spec, DshotFrame};
use crate::functions::get_abs_dif;
use crate::servo::{compute_ok, compute_spec, servo_state_default, ServoResult, ServoState};
use crate::signal::{detect_input, detect_spec, pulse_sum, SignalType};

verus! {

/// Transfer processing state.
#[derive(Clone, Copy)]
pub struct TransferState {
    pub servo: ServoState,
    /// Unarmed DShot frame averaging.
    pub average_count: u8,
    pub average_packet_length: u32,
    /// Calibration entry.
    pub enter_calibration_count: u8,
    pub last_input: u16,
}

impl Default for TransferState {
    fn default() -> (r: Self)
        ensures
            r.servo == servo_state_default(),
            r.average_count == 0 && r.average_packet_length == 0,
            r.enter_calibration_count == 0 && r.last_input == 0,
    {
        TransferState { servo: ServoState::default(), average_count: 0, average_packet_length: 0, enter_calibration_count: 0, last_input: 0 }
    }
}

/// What the interrupt handler should do after a capture completes.
#[derive(Clone, Copy)]
pub struct TransferActions {
    pub newinput: Option<u16>,
    pub send_telemetry: bool,
    pub signal_timeout_reset: bool,
    pub input_detected: bool,
    pub input_is_dshot: bool,
    pub input_is_servo: bool,
    pub save_settings: bool,
    /// 0 none, 1 default, 2 changed, 3 beacon.
    pub play_tone: u8,
    /// 0 none, 1-47 a DShot command to dispatch.
    pub dshot_command: u16,
    pub frametime_high: Option<u16>,
    pub frametime_low: Option<u16>,
}

pub open spec fn no_actions() -> TransferActions {
    TransferActions {
        newinput: None,
        send_telemetry: false,
        signal_timeout_reset: false,
        input_detected: false,
        input_is_dshot: false,
        input_is_servo: false,
        save_settings: false,
        play_tone: 0,
        dshot_command: 0,
        frametime_high: None,
        frametime_low: None,
    }
}

impl Default for TransferActions {
    fn default() -> (r: Self)
        ensures
            r == no_actions(),
    {
        TransferActions {
            newinput: None,
            send_telemetry: false,
            signal_timeout_reset: false,
            input_detected: false,
            input_is_dshot: false,
            input_is_servo: false,
            save_settings: false,
            play_tone: 0,
            dshot_command: 0,
            frametime_high: None,
            frametime_low: None,
        }
    }
}

/// Detection phase: DShot (600 or 300) or servo input recognised.
pub open spec fn detection_actions(sig: SignalType) -> TransferActions {
    match sig {
        SignalType::Dshot600 | SignalType::Dshot300 => TransferActions { input_detected: true, input_is_dshot: true, ..no_actions() },
        SignalType::ServoPwm => TransferActions { input_detected: true, input_is_servo: true, ..no_actions() },
        _ => no_actions(),
    }
}

/// DShot phase: a throttle frame sets the input, a command frame zero input and the
/// command; both carry the telemetry request and reset the signal timeout.
pub open spec fn dshot_actions(a: TransferActions, frame: DshotFrame) -> TransferActions {
    match frame {
        DshotFrame::Throttle { value, telemetry } => TransferActions { newinput: Some(value), send_telemetry: telemetry, signal_timeout_reset: true, ..a },
        DshotFrame::Command { cmd, telemetry } => TransferActions { newinput: Some(0u16), send_telemetry: telemetry, signal_timeout_reset: true, dshot_command: cmd, ..a },
        _ => a,
    }
}

/// The servo pulse of a falling edge: the first two captures apart, 16 bits.
pub open spec fn servo_pulse(d: Seq<u32>) -> u16 {
    vstd::wrapping::u32_specs::wrapping_sub(d[1], d[0]) as u16
}

/// Servo phase: the outcome of the servo step on the actions and the zero-input
/// counter.
pub open spec fn servo_actions(a: TransferActions, zic: u16, res: ServoResult) -> (TransferActions, u16) {
    match res {
        ServoResult::Throttle(v) => (TransferActions { newinput: Some(v), signal_timeout_reset: true, ..a }, zic),
        ServoResult::OutOfRange => (a, 0),
        ServoResult::Calibrating => (TransferActions { signal_timeout_reset: true, ..a }, zic),
        ServoResult::CalibrationHighDone => (TransferActions { play_tone: 1, signal_timeout_reset: true, ..a }, zic),
        ServoResult::CalibrationDone { .. } => (TransferActions { save_settings: true, play_tone: 2, signal_timeout_reset: true, ..a }, zic),
    }
}

/// Frame length of a DShot capture (16 bits).
pub open spec fn frame_length(d: Seq<u32>) -> u32 {
    (vstd::wrapping::u32_specs::wrapping_sub(d[31], d[0]) as u16) as u32
}

/// Unarmed DShot averaging: while fewer than 8 frames are summed and zero input has
/// lasted over 5 frames, add this frame's length; at the eighth, report the
/// average plus and minus 1/16 of it as the new frame-time window.
pub open spec fn averaging_spec(s: TransferState, a: TransferActions, d: Seq<u32>, dshot_mode: bool, zic: u16) -> (TransferState, TransferActions) {
    if dshot_mode && s.average_count < 8 && zic > 5 {
        let cnt = (s.average_count + 1) as u8;
        let apl = if d.len() >= 32 { (s.average_packet_length + frame_length(d)) as u32 } else { s.average_packet_length };
        let s1 = TransferState { average_count: cnt, average_packet_length: apl, ..s };
        if cnt == 8 {
            let avg = apl / 8;
            (s1, TransferActions { frametime_high: Some((avg + apl / 128) as u16), frametime_low: Some((avg - apl / 128) as u16), ..a })
        } else {
            (s1, a)
        }
    } else {
        (s, a)
    }
}

/// Unarmed calibration entry: zero throttle counts zero-input frames; otherwise
/// (unless disabled) the count restarts, and a steady throttle above 1500 for more
/// than 50 frames requests calibration with a beacon tone.
pub open spec fn calibration_entry_spec(s: TransferState, a: TransferActions, adjusted_input: u16, disable_stick_cal: bool, zic: u16) -> (TransferState, TransferActions, u16) {
    if adjusted_input == 0 && !s.servo.calibration_required {
        (s, a, (zic + 1) as u16)
    } else if !disable_stick_cal {
        if adjusted_input > 1500 {
            let far = (if adjusted_input >= s.last_input { adjusted_input - s.last_input } else { s.last_input - adjusted_input }) > 50;
            let c = if far { 0u8 } else { (s.enter_calibration_count + 1) as u8 };
            let s1 = TransferState { enter_calibration_count: c, ..s };
            let (s2, a2) = if c > 50 && !s.servo.high_calibration_set {
                (TransferState { servo: ServoState { calibration_required: true, ..s1.servo }, enter_calibration_count: 0, ..s1 }, TransferActions { play_tone: 3, ..a })
            } else {
                (s1, a)
            };
            (TransferState { last_input: adjusted_input, ..s2 }, a2, 0)
        } else {
            (s, a, 0)
        }
    } else {
        (s, a, zic)
    }
}

/// The whole dispatch, phase by phase: detection until an input type is set;
/// then DShot decoding, servo processing on a falling edge, and the unarmed
/// averaging and calibration entry.
pub open spec fn process_spec(
    s: TransferState, d: Seq<u32>, input_set: bool, dshot_mode: bool, servo_mode: bool, dshot_telemetry: bool, armed: bool,
    input_pin_high: bool, adjusted_input: u16, current_newinput: u16, bidirectional: bool, disable_stick_cal: bool, zic: u16,
    frametime_low: u16, frametime_high: u16,
) -> (TransferState, TransferActions, u16) {
    if !input_set {
        (s, detection_actions(detect_spec(d)), zic)
    } else {
        let a1 = if dshot_mode && d.len() >= 32 { dshot_actions(no_actions(), decode_spec(d, frametime_low, frametime_high, dshot_telemetry)) } else { no_actions() };
        let (s2, a2, z2) = if servo_mode && !input_pin_high && d.len() >= 2 {
            let (sv, res) = compute_spec(s.servo, servo_pulse(d), current_newinput, bidirectional);
            let (a, z) = servo_actions(a1, zic, res);
            (TransferState { servo: sv, ..s }, a, z)
        } else {
            (s, a1, zic)
        };
        if !armed {
            let (s3, a3) = averaging_spec(s2, a2, d, dshot_mode, z2);
            calibration_entry_spec(s3, a3, adjusted_input, disable_stick_cal, z2)
        } else {
            (s2, a2, z2)
        }
    }
}

/// What dispatching asks: detection needs 31 captures whose pulse sum fits 32
/// bits; the servo step its own conditions; the unarmed counters room to count.
pub open spec fn process_ok(
    s: TransferState, d: Seq<u32>, input_set: bool, dshot_mode: bool, servo_mode: bool, armed: bool,
    input_pin_high: bool, adjusted_input: u16, current_newinput: u16, bidirectional: bool, disable_stick_cal: bool, zic: u16,
) -> bool {
    if !input_set {
        d.len() >= 31 && pulse_sum(d, 31) <= u32::MAX
    } else {
        let servo_step = servo_mode && !input_pin_high && d.len() >= 2;
        let (sv, res) = compute_spec(s.servo, servo_pulse(d), current_newinput, bidirectional);
        let s2 = if servo_step { TransferState { servo: sv, ..s } } else { s };
        let z2: u16 = if servo_step && res is OutOfRange { 0 } else { zic };
        &&& servo_step ==> compute_ok(s.servo, servo_pulse(d))
        &&& !armed ==> {
            &&& (dshot_mode && s2.average_count < 8 && z2 > 5 && d.len() >= 32 ==> s2.average_packet_length + frame_length(d) <= u32::MAX)
            &&& (adjusted_input == 0 && !s2.servo.calibration_required ==> z2 < u16::MAX)
            &&& (!(adjusted_input == 0 && !s2.servo.calibration_required) && !disable_stick_cal && adjusted_input > 1500
                ==> s2.enter_calibration_count < u8::MAX)
        }
    }
}

fn dshot_actions_exec(a: TransferActions, frame: DshotFrame) -> (r: TransferActions)
    ensures
        r == dshot_actions(a, frame),
{
    let mut a = a;
    match frame {
        DshotFrame::Throttle { value, telemetry } => {
            a.newinput = Some(value);
            a.send_telemetry = telemetry;
            a.signal_timeout_reset = true;
        },
        DshotFrame::Command { cmd, telemetry } => {
            a.newinput = Some(0);
            a.send_telemetry = telemetry;
            a.signal_timeout_reset = true;
            a.dshot_command = cmd;
        },
        _ => {},
    }
    a
}

impl TransferState {
    fn average_frames(&mut self, actions: &mut TransferActions, dma_buffer: &[u32], dshot_mode: bool, zic: u16)
        requires
            dshot_mode && old(self).average_count < 8 && zic > 5 && dma_buffer@.len() >= 32
                ==> old(self).average_packet_length + frame_length(dma_buffer@) <= u32::MAX,
        ensures
            (*final(self), *final(actions)) == averaging_spec(*old(self), *old(actions), dma_buffer@, dshot_mode, zic),
    {
        if dshot_mode && self.average_count < 8 && zic > 5 {
            self.average_count += 1;
            if dma_buffer.len() >= 32 {
                self.average_packet_length += (dma_buffer[31].wrapping_sub(dma_buffer[0])) as u16 as u32;
            }
            if self.average_count == 8 {
                let avg = self.average_packet_length / 8;
                actions.frametime_high = Some((avg + self.average_packet_length / 128) as u16);
                actions.frametime_low = Some((avg - self.average_packet_length / 128) as u16);
            }
        }
    }

    fn calibration_entry(&mut self, actions: &mut TransferActions, adjusted_input: u16, disable_stick_cal: bool, zero_input_count: &mut u16)
        requires
            adjusted_input == 0 && !old(self).servo.calibration_required ==> *old(zero_input_count) < u16::MAX,
            !(adjusted_input == 0 && !old(self).servo.calibration_required) && !disable_stick_cal && adjusted_input > 1500
                ==> old(self).enter_calibration_count < u8::MAX,
        ensures
            (*final(self), *final(actions), *final(zero_input_count))
                == calibration_entry_spec(*old(self), *old(actions), adjusted_input, disable_stick_cal, *old(zero_input_count)),
    {
        if adjusted_input == 0 && !self.servo.calibration_required {
            *zero_input_count += 1;
        } else if !disable_stick_cal {
            *zero_input_count = 0;
            if adjusted_input > 1500 {
                if get_abs_dif(adjusted_input as i32, self.last_input as i32) > 50 {
                    self.enter_calibration_count = 0;
                } else {
                    self.enter_calibration_count += 1;
                }
                if self.enter_calibration_count > 50 && !self.servo.high_calibration_set {
                    actions.play_tone = 3;
                    self.servo.calibration_required = true;
                    self.enter_calibration_count = 0;
                }
                self.last_input = adjusted_input;
            }
        }
    }

    fn servo_step(&mut self, actions: &mut TransferActions, pulse: u16, current_newinput: u16, bidirectional: bool, zero_input_count: &mut u16)
        requires
            compute_ok(old(self).servo, pulse),
        ensures
            ({
                let (sv, res) = compute_spec(old(self).servo, pulse, current_newinput, bidirectional);
                let (a, z) = servo_actions(*old(actions), *old(zero_input_count), res);
                &&& *final(self) == (TransferState { servo: sv, ..*old(self) })
                &&& *final(actions) == a
                &&& *final(zero_input_count) == z
            }),
    {
        match self.servo.compute(pulse, current_newinput, bidirectional) {
            ServoResult::Throttle(v) => {
                actions.newinput = Some(v);
                actions.signal_timeout_reset = true;
            },
            ServoResult::OutOfRange => {
                *zero_input_count = 0;
            },
            ServoResult::Calibrating => {
                actions.signal_timeout_reset = true;
            },
            ServoResult::CalibrationHighDone => {
                actions.play_tone = 1;
                actions.signal_timeout_reset = true;
            },
            ServoResult::CalibrationDone { .. } => {
                actions.save_settings = true;
                actions.play_tone = 2;
                actions.signal_timeout_reset = true;
            },
        }
    }

    /// Process a capture-complete event.
    #[allow(clippy::too_many_arguments)]
    #[verifier::rlimit(40)]
    pub fn process(
        &mut self,
        dma_buffer: &[u32],
        input_set: bool,
        dshot_mode: bool,
        servo_mode: bool,
        dshot_telemetry: bool,
        armed: bool,
        input_pin_high: bool,
        adjusted_input: u16,
        current_newinput: u16,
        bidirectional: bool,
        disable_stick_cal: bool,
        zero_input_count: &mut u16,
        frametime_low: u16,
        frametime_high: u16,
    ) -> (r: TransferActions)
        requires
            process_ok(*old(self), dma_buffer@, input_set, dshot_mode, servo_mode, armed, input_pin_high, adjusted_input,
                current_newinput, bidirectional, disable_stick_cal, *old(zero_input_count)),
        ensures
            (*final(self), r, *final(zero_input_count)) == process_spec(*old(self), dma_buffer@, input_set, dshot_mode, servo_mode,
                dshot_telemetry, armed, input_pin_high, adjusted_input, current_newinput, bidirectional, disable_stick_cal,
                *old(zero_input_count), frametime_low, frametime_high),
    {
        let mut actions = TransferActions::default();
        if !input_set {
            let sig = detect_input(dma_buffer, 48);
            match sig {
                SignalType::Dshot600 | SignalType::Dshot300 => {
                    actions.input_detected = true;
                    actions.input_is_dshot = true;
                },
                SignalType::ServoPwm => {
                    actions.input_detected = true;
                    actions.input_is_servo = true;
                },
                _ => {},
            }
            return actions;
        }
        if dshot_mode && dma_buffer.len() >= 32 {
            let mut buf = [0u32; 32];
            let mut i: usize = 0;
            while i < 32
                invariant
                    i <= 32,
                    dma_buffer@.len() >= 32,
                    forall|k: int| 0 <= k < i ==> buf@[k] == dma_buffer@[k],
                decreases 32 - i,
            {
                buf[i] = dma_buffer[i];
                i = i + 1;
            }
            assert(buf@ =~= dma_buffer@.take(32));
            let frame = decode_frame(&buf, frametime_low, frametime_high, dshot_telemetry);
            assert(decode_spec(buf@, frametime_low, frametime_high, dshot_telemetry) == decode_spec(dma_buffer@, frametime_low, frametime_high, dshot_telemetry));
            actions = dshot_actions_exec(actions, frame);
        }
        if servo_mode && !input_pin_high && dma_buffer.len() >= 2 {
            let pulse = dma_buffer[1].wrapping_sub(dma_buffer[0]) as u16;
            self.servo_step(&mut actions, pulse, current_newinput, bidirectional, zero_input_count);
        }
        if !armed {
            let zic = *zero_input_count;
            self.average_frames(&mut actions, dma_buffer, dshot_mode, zic);
            self.calibration_entry(&mut actions, adjusted_input, disable_stick_cal, zero_input_count);
        }
        actions
    }
}

} // verus!
