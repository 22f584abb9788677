//! Applying the stored settings to the motor state: version defaults, advance
//! timing, motor kv, servo thresholds, current-limit gains, input type, sanitised
//! sine/temperature/brake settings, ramp rates and the polling changeover.
use vstd::prelude::*;
use crate::config::{input_type_spec, EepromConfig, InputType, EEPROM_VERSION};
use crate::control::state::{BemfState, DutyState, MotorInput, MotorState, PidState, TimingState};
use crate::pid::Pid;

verus! {

/// Four zero bytes in place of `a`.
pub open spec fn zero4(a: [u8; 4]) -> [u8; 4] {
    let z = vstd::array::spec_array_update(a, 0, 0u8);
    let z = vstd::array::spec_array_update(z, 1, 0u8);
    let z = vstd::array::spec_array_update(z, 2, 0u8);
    vstd::array::spec_array_update(z, 3, 0u8)
}

/// Version stage: settings older than the current version get the defaults of
/// the fields added since.
#[verifier::opaque]
pub open spec fn defaults_stage(s: MotorState) -> MotorState {
    if s.config.eeprom_version < EEPROM_VERSION {
        MotorState {
            config: EepromConfig {
                max_ramp: 160,
                minimum_duty_cycle: 1,
                disable_stick_calibration: 0,
                absolute_voltage_cutoff: 10,
                current_p: 100,
                current_i: 0,
                current_d: 100,
                active_brake_power: 0,
                reserved_eeprom_3: zero4(s.config.reserved_eeprom_3),
                ..s.config
            },
            ..s
        }
    } else {
        s
    }
}

/// Advance stage: the stored advance level in the new format (10-42) gives the
/// timing advance `level - 10`; the old format (0-3) is converted (times 8, and
/// stored plus 10); other values give the default advance 16.
#[verifier::opaque]
pub open spec fn advance_stage(s: MotorState) -> MotorState {
    let a = s.config.advance_level;
    let ta1: u8 = if a > 42 || (a < 10 && a > 3) { 16 } else { s.bemf.temp_advance };
    let ta2: u8 = if a < 4 { (a * 8) as u8 } else { ta1 };
    let a2: u8 = if a < 4 { (a * 8 + 10) as u8 } else { a };
    let ta3: u8 = if a2 < 43 && a2 > 9 { (a2 - 10) as u8 } else { ta2 };
    MotorState {
        bemf: BemfState { temp_advance: ta3, ..s.bemf },
        config: EepromConfig { advance_level: a2, ..s.config },
        motor_kv: (s.config.motor_kv * 40 + 20) as u16,
        ..s
    }
}

/// The input flags an input type selects.
#[verifier::opaque]
pub open spec fn input_type_flags(i: MotorInput, t: InputType) -> MotorInput {
    match t {
        InputType::Auto => MotorInput { dshot: false, servo_pwm: false, edt_armed: true, ..i },
        InputType::Dshot => MotorInput { dshot: true, edt_armed: true, ..i },
        InputType::Servo => MotorInput { servo_pwm: true, ..i },
        InputType::EdtArm => MotorInput { edt_arm_enable: true, edt_armed: false, dshot: true, ..i },
        _ => i,
    }
}

/// Input stage (settings version 1 and later): servo thresholds, current-limit
/// gains (P and D doubled), current limiting for limits 1-99, and the input type.
#[verifier::opaque]
pub open spec fn input_stage(s: MotorState) -> MotorState {
    if s.config.eeprom_version > 0 {
        let c = s.config;
        let i1 = MotorInput {
            servo_low_threshold: (c.servo_low_threshold * 2 + 750) as u16,
            servo_high_threshold: (c.servo_high_threshold * 2 + 1750) as u16,
            servo_neutral: (c.servo_neutral + 1374) as u16,
            ..s.input
        };
        MotorState {
            input: input_type_flags(i1, input_type_spec(c.input_type)),
            pid: PidState {
                current: Pid { kp: (c.current_p * 2) as u32, ki: c.current_i as u32, kd: (c.current_d * 2) as u32, ..s.pid.current },
                use_current_limit: if c.current_limit > 0 && c.current_limit < 100 { true } else { s.pid.use_current_limit },
                ..s.pid
            },
            ..s
        }
    } else {
        s
    }
}

/// Sanitising stage (version 1 and later): out-of-range sine changeover (5),
/// sine power (5), temperature limit (255, i.e. off), drag brake (10) and driving
/// brake (10) settings are replaced.
#[verifier::opaque]
pub open spec fn sanitise_stage(s: MotorState) -> MotorState {
    if s.config.eeprom_version > 0 {
        let c = s.config;
        MotorState {
            config: EepromConfig {
                sine_mode_changeover_throttle_level: if c.sine_mode_changeover_throttle_level < 5 || c.sine_mode_changeover_throttle_level > 25 { 5 } else { c.sine_mode_changeover_throttle_level },
                sine_mode_power: if c.sine_mode_power == 0 || c.sine_mode_power > 10 { 5 } else { c.sine_mode_power },
                temperature_limit: if c.temperature_limit < 70 || c.temperature_limit > 140 { 255 } else { c.temperature_limit },
                drag_brake_strength: if c.drag_brake_strength == 0 || c.drag_brake_strength > 10 { 10 } else { c.drag_brake_strength },
                driving_brake_strength: if c.driving_brake_strength == 0 || c.driving_brake_strength > 9 { 10 } else { c.driving_brake_strength },
                ..c
            },
            ..s
        }
    } else {
        s
    }
}

/// Ramp stage (version 1 and later): a stored ramp under 10 is used directly with
/// a divider of 9; otherwise the divider is 0 and each ramp rate is capped at a
/// tenth of the setting. Then the polling changeover: 1000 bidirectional, 2000 not.
#[verifier::opaque]
pub open spec fn ramp_stage(s: MotorState) -> MotorState {
    let d = s.duty;
    let mr = s.config.max_ramp;
    let d1 = if s.config.eeprom_version > 0 {
        if mr < 10 {
            DutyState { ramp_divider: 9, max_ramp_startup: mr, max_ramp_low_rpm: mr, max_ramp_high_rpm: mr, ..d }
        } else {
            let r = mr / 10;
            DutyState {
                ramp_divider: 0,
                max_ramp_startup: if r < d.max_ramp_startup { r } else { d.max_ramp_startup },
                max_ramp_low_rpm: if r < d.max_ramp_low_rpm { r } else { d.max_ramp_low_rpm },
                max_ramp_high_rpm: if r < d.max_ramp_high_rpm { r } else { d.max_ramp_high_rpm },
                ..d
            }
        }
    } else {
        d
    };
    MotorState {
        duty: d1,
        timing: TimingState { polling_mode_changeover: if s.config.bi_direction != 0 { 1000 } else { 2000 }, ..s.timing },
        ..s
    }
}

/// The motor state after loading the settings.
pub open spec fn load_settings_spec(s: MotorState) -> MotorState {
    ramp_stage(sanitise_stage(input_stage(advance_stage(defaults_stage(s)))))
}

fn apply_input_type(i: &mut MotorInput, t: InputType)
    ensures
        *final(i) == input_type_flags(*old(i), t),
{
    proof { reveal(input_type_flags); }
    match t {
        InputType::Auto => {
            i.dshot = false;
            i.servo_pwm = false;
            i.edt_armed = true;
        },
        InputType::Dshot => {
            i.dshot = true;
            i.edt_armed = true;
        },
        InputType::Servo => {
            i.servo_pwm = true;
        },
        InputType::Serial => {},
        InputType::EdtArm => {
            i.edt_arm_enable = true;
            i.edt_armed = false;
            i.dshot = true;
        },
        InputType::DroneCan => {},
    }
}

impl MotorState {
    fn load_defaults(&mut self)
        ensures
            *final(self) == defaults_stage(*old(self)),
    {
        proof { reveal(defaults_stage); }
        if self.config.eeprom_version < EEPROM_VERSION {
            self.config.max_ramp = 160;
            self.config.minimum_duty_cycle = 1;
            self.config.disable_stick_calibration = 0;
            self.config.absolute_voltage_cutoff = 10;
            self.config.current_p = 100;
            self.config.current_i = 0;
            self.config.current_d = 100;
            self.config.active_brake_power = 0;
            let ghost r0 = self.config.reserved_eeprom_3;
            self.config.reserved_eeprom_3 = [0u8; 4];
            assert(self.config.reserved_eeprom_3 =~= zero4(r0)) by {
                vstd::array::axiom_spec_array_update(r0, 0, 0u8);
                let z1 = vstd::array::spec_array_update(r0, 0, 0u8);
                vstd::array::axiom_spec_array_update(z1, 1, 0u8);
                let z2 = vstd::array::spec_array_update(z1, 1, 0u8);
                vstd::array::axiom_spec_array_update(z2, 2, 0u8);
                let z3 = vstd::array::spec_array_update(z2, 2, 0u8);
                vstd::array::axiom_spec_array_update(z3, 3, 0u8);
            }
        }
    }

    fn load_advance(&mut self)
        ensures
            *final(self) == advance_stage(*old(self)),
    {
        proof { reveal(advance_stage); }
        if self.config.advance_level > 42 || (self.config.advance_level < 10 && self.config.advance_level > 3) {
            self.bemf.temp_advance = 16;
        }
        if self.config.advance_level < 4 {
            self.bemf.temp_advance = self.config.advance_level * 8;
            self.config.advance_level = self.bemf.temp_advance + 10;
        }
        if self.config.advance_level < 43 && self.config.advance_level > 9 {
            self.bemf.temp_advance = self.config.advance_level - 10;
        }
        self.motor_kv = (self.config.motor_kv as u16) * 40 + 20;
    }

    fn load_input(&mut self)
        ensures
            *final(self) == input_stage(*old(self)),
    {
        proof { reveal(input_stage); }
        if self.config.eeprom_version > 0 {
            let mut inp = self.input;
            inp.servo_low_threshold = (self.config.servo_low_threshold as u16) * 2 + 750;
            inp.servo_high_threshold = (self.config.servo_high_threshold as u16) * 2 + 1750;
            inp.servo_neutral = self.config.servo_neutral as u16 + 1374;
            let t = self.config.input_type();
            apply_input_type(&mut inp, t);
            let mut pid = self.pid;
            pid.current.kp = (self.config.current_p as u32) * 2;
            pid.current.ki = self.config.current_i as u32;
            pid.current.kd = (self.config.current_d as u32) * 2;
            if self.config.current_limit > 0 && self.config.current_limit < 100 {
                pid.use_current_limit = true;
            }
            self.input = inp;
            self.pid = pid;
        }
    }

    fn load_sanitise(&mut self)
        ensures
            *final(self) == sanitise_stage(*old(self)),
    {
        proof { reveal(sanitise_stage); }
        if self.config.eeprom_version > 0 {
            if self.config.sine_mode_changeover_throttle_level < 5 || self.config.sine_mode_changeover_throttle_level > 25 {
                self.config.sine_mode_changeover_throttle_level = 5;
            }
            if self.config.sine_mode_power == 0 || self.config.sine_mode_power > 10 {
                self.config.sine_mode_power = 5;
            }
            if self.config.temperature_limit < 70 || self.config.temperature_limit > 140 {
                self.config.temperature_limit = 255;
            }
            if self.config.drag_brake_strength == 0 || self.config.drag_brake_strength > 10 {
                self.config.drag_brake_strength = 10;
            }
            if self.config.driving_brake_strength == 0 || self.config.driving_brake_strength > 9 {
                self.config.driving_brake_strength = 10;
            }
        }
    }

    fn load_ramp(&mut self)
        ensures
            *final(self) == ramp_stage(*old(self)),
    {
        proof { reveal(ramp_stage); }
        if self.config.eeprom_version > 0 {
            if self.config.max_ramp < 10 {
                self.duty.ramp_divider = 9;
                self.duty.max_ramp_startup = self.config.max_ramp;
                self.duty.max_ramp_low_rpm = self.config.max_ramp;
                self.duty.max_ramp_high_rpm = self.config.max_ramp;
            } else {
                self.duty.ramp_divider = 0;
                let r = self.config.max_ramp / 10;
                if r < self.duty.max_ramp_startup {
                    self.duty.max_ramp_startup = r;
                }
                if r < self.duty.max_ramp_low_rpm {
                    self.duty.max_ramp_low_rpm = r;
                }
                if r < self.duty.max_ramp_high_rpm {
                    self.duty.max_ramp_high_rpm = r;
                }
            }
        }
        if self.config.bi_direction != 0 {
            self.timing.polling_mode_changeover = 1000;
        } else {
            self.timing.polling_mode_changeover = 2000;
        }
    }

    /// Load and apply the stored settings.
    pub fn load_settings(&mut self)
        ensures
            *final(self) == load_settings_spec(*old(self)),
    {
        self.load_defaults();
        self.load_advance();
        self.load_input();
        self.load_sanitise();
        self.load_ramp();
    }
}

/// After loading (from settings version 1 on), the timing advance lies within
/// 0..=32, the sine, temperature and brake settings lie within their ranges, and
/// the ramp rates are non-zero only where the setting is.
pub proof fn lemma_loaded_settings_in_range(s: MotorState)
    requires
        s.config.eeprom_version > 0,
    ensures
        ({
            let t = load_settings_spec(s);
            &&& t.bemf.temp_advance <= 32
            &&& 5 <= t.config.sine_mode_changeover_throttle_level <= 25
            &&& 1 <= t.config.sine_mode_power <= 10
            &&& (70 <= t.config.temperature_limit <= 140 || t.config.temperature_limit == 255)
            &&& 1 <= t.config.drag_brake_strength <= 10
            &&& 1 <= t.config.driving_brake_strength <= 10
            &&& t.timing.polling_mode_changeover == (if s.config.bi_direction != 0 { 1000u32 } else { 2000u32 })
        }),
{
    reveal(defaults_stage);
    reveal(advance_stage);
    reveal(input_stage);
    reveal(sanitise_stage);
    reveal(ramp_stage);
}

/// Loading twice gives what loading once gives, for settings of the current version.
pub proof fn lemma_load_settings_idempotent(s: MotorState)
    requires
        s.config.eeprom_version == EEPROM_VERSION,
    ensures
        load_settings_spec(load_settings_spec(s)).config == load_settings_spec(s).config,
        load_settings_spec(load_settings_spec(s)).bemf.temp_advance == load_settings_spec(s).bemf.temp_advance,
        load_settings_spec(load_settings_spec(s)).motor_kv == load_settings_spec(s).motor_kv,
        load_settings_spec(load_settings_spec(s)).duty == load_settings_spec(s).duty,
{
    reveal(defaults_stage);
    reveal(advance_stage);
    reveal(input_stage);
    reveal(sanitise_stage);
    reveal(ramp_stage);
}

} // verus!
