//! Servo PWM input processing: threshold mapping (unidirectional or around a
//! neutral point), rate limiting, and the two-stage stick calibration.
use vstd::prelude::*;
use crate::functions::{get_abs_dif, lemma_map_endpoints, lemma_map_in_output_range, lemma_map_monotone, map_spec};

verus! {

/// Servo input processing state.
#[derive(Clone, Copy)]
pub struct ServoState {
    pub low_threshold: u16,
    pub high_threshold: u16,
    pub neutral: u16,
    pub dead_band: u8,
    pub max_deviation: u16,
    pub raw_input: i32,
    pub calibration_required: bool,
    pub high_calibration_set: bool,
    pub high_calibration_counts: u8,
    pub low_calibration_counts: u8,
    pub last_high_threshold: u16,
}

impl Default for ServoState {
    fn default() -> (r: Self)
        ensures
            r == servo_state_default(),
    {
        Self {
            low_threshold: 1100,
            high_threshold: 1900,
            neutral: 1500,
            dead_band: 100,
            max_deviation: 250,
            raw_input: 0,
            calibration_required: false,
            high_calibration_set: false,
            high_calibration_counts: 0,
            low_calibration_counts: 0,
            last_high_threshold: 0,
        }
    }
}

pub open spec fn servo_state_default() -> ServoState {
    ServoState {
        low_threshold: 1100,
        high_threshold: 1900,
        neutral: 1500,
        dead_band: 100,
        max_deviation: 250,
        raw_input: 0,
        calibration_required: false,
        high_calibration_set: false,
        high_calibration_counts: 0,
        low_calibration_counts: 0,
        last_high_threshold: 0,
    }
}

/// Result of processing a servo pulse.
#[derive(Clone, Copy, PartialEq, Eq, Debug, Structural)]
pub enum ServoResult {
    /// Valid throttle value.
    Throttle(u16),
    /// Pulse out of range.
    OutOfRange,
    /// Calibration in progress (no output).
    Calibrating,
    /// High end of the calibration complete.
    CalibrationHighDone,
    /// Calibration complete: the thresholds to store in the settings.
    CalibrationDone { low_threshold_eeprom: u8, high_threshold_eeprom: u8 },
}

/// The target throttle of a pulse: bidirectional maps low..neutral onto 0..1000
/// and above neutral onto 1001..2000; unidirectional maps low..high onto
/// 47..2047, reading results up to 48 as 0.
pub open spec fn servo_target(s: ServoState, pulse_width: u16, bidirectional: bool) -> int {
    if bidirectional {
        if pulse_width <= s.neutral {
            map_spec(pulse_width as int, s.low_threshold as int, s.neutral as int, 0, 1000)
        } else {
            map_spec(pulse_width as int, s.neutral + 1, s.high_threshold as int, 1001, 2000)
        }
    } else {
        let r = map_spec(pulse_width as int, s.low_threshold as int, s.high_threshold as int, 47, 2047);
        if r <= 48 { 0 } else { r }
    }
}

/// Rate limiting: the output moves from `current` toward `target` by at most
/// `max_deviation`.
pub open spec fn rate_limit_spec(target: int, current: u16, max_deviation: u16) -> u16 {
    if target - current > max_deviation {
        (current + max_deviation) as u16
    } else if current - target > max_deviation {
        (current - max_deviation) as u16
    } else {
        target as u16
    }
}

/// One calibration step. High end first: the first pulse is taken as reference,
/// a pulse more than 50 away from the threshold aborts calibration, otherwise the
/// threshold follows the pulses (7/8 old, 1/8 new) and after 51 pulses drops by 25.
/// Low end then: pulses under 1250 are averaged in the same way, and after 76 of
/// them the threshold rises by 25 and both thresholds are reported as settings bytes.
pub open spec fn calibration_spec(s: ServoState, pw: u16) -> (ServoState, ServoResult) {
    if !s.high_calibration_set {
        let lht = if s.high_calibration_counts == 0 { pw } else { s.last_high_threshold };
        let counts = (s.high_calibration_counts + 1) as u8;
        let s1 = ServoState { last_high_threshold: lht, high_calibration_counts: counts, ..s };
        if (if lht >= s.high_threshold { lht - s.high_threshold } else { s.high_threshold - lht }) > 50 {
            (ServoState { calibration_required: false, ..s1 }, ServoResult::Calibrating)
        } else {
            let h = ((7 * s.high_threshold + pw) / 8) as u16;
            if counts > 50 {
                let h2 = (h - 25) as u16;
                (ServoState { high_threshold: h2, high_calibration_set: true, last_high_threshold: h2, ..s1 }, ServoResult::CalibrationHighDone)
            } else {
                (ServoState { high_threshold: h, last_high_threshold: h, ..s1 }, ServoResult::Calibrating)
            }
        }
    } else {
        let s1 = if pw < 1250 {
            ServoState {
                low_calibration_counts: (s.low_calibration_counts + 1) as u8,
                low_threshold: ((7 * s.low_threshold + pw) / 8) as u16,
                ..s
            }
        } else {
            s
        };
        if s1.low_calibration_counts > 75 {
            let low = (s1.low_threshold + 25) as u16;
            (
                ServoState { low_threshold: low, calibration_required: false, low_calibration_counts: 0, ..s1 },
                ServoResult::CalibrationDone {
                    low_threshold_eeprom: ((low - 750) / 2) as u8,
                    high_threshold_eeprom: ((s1.high_threshold - 1750) / 2) as u8,
                },
            )
        } else {
            (s1, ServoResult::Calibrating)
        }
    }
}

/// What a calibration step asks: counters with room to count, and (when the low
/// end completes) thresholds within the settings' encoding range.
pub open spec fn calibration_ok(s: ServoState, pw: u16) -> bool {
    if !s.high_calibration_set {
        s.high_calibration_counts < 255
    } else {
        &&& (pw < 1250 ==> s.low_calibration_counts < 255)
        &&& ({
            let cnt = if pw < 1250 { s.low_calibration_counts + 1 } else { s.low_calibration_counts as int };
            let low = if pw < 1250 { (7 * s.low_threshold + pw) / 8 } else { s.low_threshold as int };
            cnt > 75 ==> low + 25 <= u16::MAX && low + 25 >= 750 && s.high_threshold >= 1750
        })
    }
}

/// The whole step: pulses outside 801..2199 are out of range and change nothing;
/// in calibration the calibration step runs; otherwise the target throttle is
/// stored and returned rate-limited from `current_newinput`.
pub open spec fn compute_spec(s: ServoState, pulse_width: u16, current_newinput: u16, bidirectional: bool) -> (ServoState, ServoResult) {
    if pulse_width <= 800 || pulse_width >= 2200 {
        (s, ServoResult::OutOfRange)
    } else if s.calibration_required {
        calibration_spec(s, pulse_width)
    } else {
        let t = servo_target(s, pulse_width, bidirectional);
        (ServoState { raw_input: t as i32, ..s }, ServoResult::Throttle(rate_limit_spec(t, current_newinput, s.max_deviation)))
    }
}

pub open spec fn compute_ok(s: ServoState, pulse_width: u16) -> bool {
    (800 < pulse_width < 2200 && s.calibration_required) ==> calibration_ok(s, pulse_width)
}

impl ServoState {
    /// Process a servo pulse width, returning the new throttle with rate limiting,
    /// or the calibration progress.
    pub fn compute(&mut self, pulse_width: u16, current_newinput: u16, bidirectional: bool) -> (r: ServoResult)
        requires
            compute_ok(*old(self), pulse_width),
        ensures
            (*final(self), r) == compute_spec(*old(self), pulse_width, current_newinput, bidirectional),
    {
        if pulse_width <= 800 || pulse_width >= 2200 {
            return ServoResult::OutOfRange;
        }
        if self.calibration_required {
            return self.process_calibration(pulse_width);
        }
        if bidirectional {
            if pulse_width <= self.neutral {
                self.raw_input = crate::functions::map(pulse_width as i32, self.low_threshold as i32, self.neutral as i32, 0, 1000);
            } else {
                self.raw_input = crate::functions::map(pulse_width as i32, self.neutral as i32 + 1, self.high_threshold as i32, 1001, 2000);
            }
        } else {
            self.raw_input = crate::functions::map(pulse_width as i32, self.low_threshold as i32, self.high_threshold as i32, 47, 2047);
            if self.raw_input <= 48 {
                self.raw_input = 0;
            }
        }
        let newinput = self.rate_limit(current_newinput);
        ServoResult::Throttle(newinput)
    }

    fn rate_limit(&self, current: u16) -> (r: u16)
        requires
            0 <= self.raw_input <= 2047,
        ensures
            r == rate_limit_spec(self.raw_input as int, current, self.max_deviation),
    {
        let target = self.raw_input;
        let max_dev = self.max_deviation as i32;
        let cur = current as i32;
        if target - cur > max_dev {
            (cur + max_dev) as u16
        } else if cur - target > max_dev {
            (cur - max_dev) as u16
        } else {
            target as u16
        }
    }

    fn process_calibration(&mut self, pulse_width: u16) -> (r: ServoResult)
        requires
            800 < pulse_width < 2200,
            calibration_ok(*old(self), pulse_width),
        ensures
            (*final(self), r) == calibration_spec(*old(self), pulse_width),
    {
        if !self.high_calibration_set {
            if self.high_calibration_counts == 0 {
                self.last_high_threshold = pulse_width;
            }
            self.high_calibration_counts += 1;
            if get_abs_dif(self.last_high_threshold as i32, self.high_threshold as i32) > 50 {
                self.calibration_required = false;
                return ServoResult::Calibrating;
            }
            self.high_threshold = ((7 * self.high_threshold as u32 + pulse_width as u32) / 8) as u16;
            if self.high_calibration_counts > 50 {
                self.high_threshold -= 25;
                self.high_calibration_set = true;
                self.last_high_threshold = self.high_threshold;
                return ServoResult::CalibrationHighDone;
            }
            self.last_high_threshold = self.high_threshold;
            ServoResult::Calibrating
        } else {
            if pulse_width < 1250 {
                self.low_calibration_counts += 1;
                self.low_threshold = ((7 * self.low_threshold as u32 + pulse_width as u32) / 8) as u16;
            }
            if self.low_calibration_counts > 75 {
                self.low_threshold += 25;
                let high_eeprom = ((self.high_threshold - 1750) / 2) as u8;
                let low_eeprom = ((self.low_threshold - 750) / 2) as u8;
                self.calibration_required = false;
                self.low_calibration_counts = 0;
                return ServoResult::CalibrationDone { low_threshold_eeprom: low_eeprom, high_threshold_eeprom: high_eeprom };
            }
            ServoResult::Calibrating
        }
    }
}

/// Rate limiting never moves the throttle by more than the allowed deviation.
pub proof fn lemma_rate_limit_bounded(target: int, current: u16, max_deviation: u16)
    requires
        0 <= target <= 2047,
        current as int + max_deviation as int <= u16::MAX,
        current >= max_deviation || current - target <= max_deviation,
    ensures
        -(max_deviation as int) <= rate_limit_spec(target, current, max_deviation) - current <= max_deviation,
{
}

/// Bidirectional servo mapping, outside calibration and with
/// `low_threshold < neutral < high_threshold`: the stored target never falls as
/// the pulse widens, is 0 (full reverse) at the low threshold, 1000 at neutral and
/// 2000 at a high threshold more than one step above neutral; a target within
/// `max_deviation` of the current throttle is returned as it is.
pub proof fn lemma_servo_bidirectional_mapping(s: ServoState, p1: u16, p2: u16, c1: u16, c2: u16)
    requires
        !s.calibration_required,
        s.low_threshold < s.neutral < s.high_threshold,
        800 < p1 <= p2 < 2200,
    ensures
        ({
            let r1 = compute_spec(s, p1, c1, true).0.raw_input;
            let r2 = compute_spec(s, p2, c2, true).0.raw_input;
            &&& 0 <= r1 <= r2 <= 2000
            &&& p1 == s.low_threshold ==> r1 == 0
            &&& p1 == s.neutral ==> r1 == 1000
            &&& p2 == s.high_threshold && s.neutral + 1 < s.high_threshold ==> r2 == 2000
            &&& -(s.max_deviation as int) <= r1 - c1 <= s.max_deviation
                ==> compute_spec(s, p1, c1, true).1 == ServoResult::Throttle(r1 as u16)
        }),
{
    let lo = s.low_threshold as int;
    let n = s.neutral as int;
    let h = s.high_threshold as int;
    lemma_map_in_output_range(p1 as int, lo, n, 0, 1000);
    lemma_map_in_output_range(p2 as int, lo, n, 0, 1000);
    lemma_map_in_output_range(p1 as int, n + 1, h, 1001, 2000);
    lemma_map_in_output_range(p2 as int, n + 1, h, 1001, 2000);
    lemma_map_monotone(p1 as int, p2 as int, lo, n, 0, 1000);
    if n + 1 < h {
        lemma_map_monotone(p1 as int, p2 as int, n + 1, h, 1001, 2000);
        lemma_map_endpoints(n + 1, h, 1001, 2000);
    } else {
        reveal(map_spec);
    }
    lemma_map_endpoints(lo, n, 0, 1000);
}

} // verus!
