//! Persistent ESC settings: the 192-byte EEPROM image, its field accessors, its
//! validity check and the migration of old versions.
use vstd::prelude::*;

verus! {

/// Input type selection.
#[derive(Clone, Copy, PartialEq, Eq, Structural, Debug)]
pub enum InputType {
    Auto,
    Dshot,
    Servo,
    Serial,
    EdtArm,
    DroneCan,
}

/// The EEPROM layout version this firmware writes.
pub const EEPROM_VERSION: u8 = 3;

/// Size of the EEPROM image in bytes.
pub const EEPROM_SIZE: usize = 192;

/// Persistent ESC settings (192 bytes, in EEPROM layout order).
#[derive(Clone, Copy)]
pub struct EepromConfig {
    pub reserved_0: u8,
    pub eeprom_version: u8,
    pub reserved_1: u8,
    pub version_major: u8,
    pub version_minor: u8,
    pub max_ramp: u8,
    pub minimum_duty_cycle: u8,
    pub disable_stick_calibration: u8,
    pub absolute_voltage_cutoff: u8,
    pub current_p: u8,
    pub current_i: u8,
    pub current_d: u8,
    pub active_brake_power: u8,
    pub reserved_eeprom_3: [u8; 4],
    pub dir_reversed: u8,
    pub bi_direction: u8,
    pub use_sine_start: u8,
    pub comp_pwm: u8,
    pub variable_pwm: u8,
    pub stuck_rotor_protection: u8,
    pub advance_level: u8,
    pub pwm_frequency: u8,
    pub startup_power: u8,
    pub motor_kv: u8,
    pub motor_poles: u8,
    pub brake_on_stop: u8,
    pub stall_protection: u8,
    pub beep_volume: u8,
    pub telemetry_on_interval: u8,
    pub servo_low_threshold: u8,
    pub servo_high_threshold: u8,
    pub servo_neutral: u8,
    pub servo_dead_band: u8,
    pub low_voltage_cut_off: u8,
    pub low_cell_volt_cutoff: u8,
    pub rc_car_reverse: u8,
    pub use_hall_sensors: u8,
    pub sine_mode_changeover_throttle_level: u8,
    pub drag_brake_strength: u8,
    pub driving_brake_strength: u8,
    pub temperature_limit: u8,
    pub current_limit: u8,
    pub sine_mode_power: u8,
    pub input_type: u8,
    pub auto_advance: u8,
    pub tune: [u8; 128],
    pub can_node: u8,
    pub esc_index: u8,
    pub can_require_arming: u8,
    pub can_telem_rate: u8,
    pub can_require_zero_throttle: u8,
    pub can_filter_hz: u8,
    pub can_debug_rate: u8,
    pub can_term_enable: u8,
    pub can_reserved: [u8; 8],
}

impl EepromConfig {
    /// The EEPROM image: every field in layout order, one byte each, arrays in place.
    pub open spec fn bytes_spec(&self) -> Seq<u8> {
        seq![self.reserved_0, self.eeprom_version, self.reserved_1, self.version_major, self.version_minor, self.max_ramp, self.minimum_duty_cycle, self.disable_stick_calibration, self.absolute_voltage_cutoff, self.current_p, self.current_i, self.current_d, self.active_brake_power] + self.reserved_eeprom_3@ + seq![self.dir_reversed, self.bi_direction, self.use_sine_start, self.comp_pwm, self.variable_pwm, self.stuck_rotor_protection, self.advance_level, self.pwm_frequency, self.startup_power, self.motor_kv, self.motor_poles, self.brake_on_stop, self.stall_protection, self.beep_volume, self.telemetry_on_interval, self.servo_low_threshold, self.servo_high_threshold, self.servo_neutral, self.servo_dead_band, self.low_voltage_cut_off, self.low_cell_volt_cutoff, self.rc_car_reverse, self.use_hall_sensors, self.sine_mode_changeover_throttle_level, self.drag_brake_strength, self.driving_brake_strength, self.temperature_limit, self.current_limit, self.sine_mode_power, self.input_type, self.auto_advance] + self.tune@ + seq![self.can_node, self.esc_index, self.can_require_arming, self.can_telem_rate, self.can_require_zero_throttle, self.can_filter_hz, self.can_debug_rate, self.can_term_enable] + self.can_reserved@
    }

    /// The settings as their 192-byte EEPROM image.
    pub fn as_bytes(&self) -> (r: Vec<u8>)
        ensures
            r@ == self.bytes_spec(),
            r@.len() == EEPROM_SIZE,
    {
        let mut v: Vec<u8> = Vec::new();
        v.push(self.reserved_0);
        v.push(self.eeprom_version);
        v.push(self.reserved_1);
        v.push(self.version_major);
        v.push(self.version_minor);
        v.push(self.max_ramp);
        v.push(self.minimum_duty_cycle);
        v.push(self.disable_stick_calibration);
        v.push(self.absolute_voltage_cutoff);
        v.push(self.current_p);
        v.push(self.current_i);
        v.push(self.current_d);
        v.push(self.active_brake_power);
        assert(v@ =~= self.bytes_spec().take(13));
        let mut i: usize = 0;
        while i < 4
            invariant
                i <= 4,
                v@ =~= self.bytes_spec().take(13 + i),
            decreases 4 - i,
        {
            v.push(self.reserved_eeprom_3[i]);
            i = i + 1;
        }
        v.push(self.dir_reversed);
        v.push(self.bi_direction);
        v.push(self.use_sine_start);
        v.push(self.comp_pwm);
        v.push(self.variable_pwm);
        v.push(self.stuck_rotor_protection);
        v.push(self.advance_level);
        v.push(self.pwm_frequency);
        v.push(self.startup_power);
        v.push(self.motor_kv);
        v.push(self.motor_poles);
        v.push(self.brake_on_stop);
        v.push(self.stall_protection);
        v.push(self.beep_volume);
        v.push(self.telemetry_on_interval);
        v.push(self.servo_low_threshold);
        v.push(self.servo_high_threshold);
        v.push(self.servo_neutral);
        v.push(self.servo_dead_band);
        v.push(self.low_voltage_cut_off);
        v.push(self.low_cell_volt_cutoff);
        v.push(self.rc_car_reverse);
        v.push(self.use_hall_sensors);
        v.push(self.sine_mode_changeover_throttle_level);
        v.push(self.drag_brake_strength);
        v.push(self.driving_brake_strength);
        v.push(self.temperature_limit);
        v.push(self.current_limit);
        v.push(self.sine_mode_power);
        v.push(self.input_type);
        v.push(self.auto_advance);
        assert(v@ =~= self.bytes_spec().take(48));
        let mut i: usize = 0;
        while i < 128
            invariant
                i <= 128,
                v@ =~= self.bytes_spec().take(48 + i),
            decreases 128 - i,
        {
            v.push(self.tune[i]);
            i = i + 1;
        }
        v.push(self.can_node);
        v.push(self.esc_index);
        v.push(self.can_require_arming);
        v.push(self.can_telem_rate);
        v.push(self.can_require_zero_throttle);
        v.push(self.can_filter_hz);
        v.push(self.can_debug_rate);
        v.push(self.can_term_enable);
        assert(v@ =~= self.bytes_spec().take(184));
        let mut i: usize = 0;
        while i < 8
            invariant
                i <= 8,
                v@ =~= self.bytes_spec().take(184 + i),
            decreases 8 - i,
        {
            v.push(self.can_reserved[i]);
            i = i + 1;
        }
        assert(v@ =~= self.bytes_spec());
        v
    }

    /// Create settings from a raw EEPROM image (e.g. a flash read).
    pub fn from_bytes(bytes: &[u8; 192]) -> (r: Self)
        ensures
            r.bytes_spec() == bytes@,
    {
        let mut reserved_eeprom_3 = [0u8; 4];
        let mut i: usize = 0;
        while i < 4
            invariant
                i <= 4,
                bytes@.len() == 192,
                forall|j: int| 0 <= j < i ==> reserved_eeprom_3@[j] == bytes@[13 + j],
            decreases 4 - i,
        {
            reserved_eeprom_3[i] = bytes[13 + i];
            i = i + 1;
        }
        let mut tune = [0u8; 128];
        let mut i: usize = 0;
        while i < 128
            invariant
                i <= 128,
                bytes@.len() == 192,
                forall|j: int| 0 <= j < i ==> tune@[j] == bytes@[48 + j],
            decreases 128 - i,
        {
            tune[i] = bytes[48 + i];
            i = i + 1;
        }
        let mut can_reserved = [0u8; 8];
        let mut i: usize = 0;
        while i < 8
            invariant
                i <= 8,
                bytes@.len() == 192,
                forall|j: int| 0 <= j < i ==> can_reserved@[j] == bytes@[184 + j],
            decreases 8 - i,
        {
            can_reserved[i] = bytes[184 + i];
            i = i + 1;
        }
        EepromConfig {
            reserved_0: bytes[0],
            eeprom_version: bytes[1],
            reserved_1: bytes[2],
            version_major: bytes[3],
            version_minor: bytes[4],
            max_ramp: bytes[5],
            minimum_duty_cycle: bytes[6],
            disable_stick_calibration: bytes[7],
            absolute_voltage_cutoff: bytes[8],
            current_p: bytes[9],
            current_i: bytes[10],
            current_d: bytes[11],
            active_brake_power: bytes[12],
            reserved_eeprom_3,
            dir_reversed: bytes[17],
            bi_direction: bytes[18],
            use_sine_start: bytes[19],
            comp_pwm: bytes[20],
            variable_pwm: bytes[21],
            stuck_rotor_protection: bytes[22],
            advance_level: bytes[23],
            pwm_frequency: bytes[24],
            startup_power: bytes[25],
            motor_kv: bytes[26],
            motor_poles: bytes[27],
            brake_on_stop: bytes[28],
            stall_protection: bytes[29],
            beep_volume: bytes[30],
            telemetry_on_interval: bytes[31],
            servo_low_threshold: bytes[32],
            servo_high_threshold: bytes[33],
            servo_neutral: bytes[34],
            servo_dead_band: bytes[35],
            low_voltage_cut_off: bytes[36],
            low_cell_volt_cutoff: bytes[37],
            rc_car_reverse: bytes[38],
            use_hall_sensors: bytes[39],
            sine_mode_changeover_throttle_level: bytes[40],
            drag_brake_strength: bytes[41],
            driving_brake_strength: bytes[42],
            temperature_limit: bytes[43],
            current_limit: bytes[44],
            sine_mode_power: bytes[45],
            input_type: bytes[46],
            auto_advance: bytes[47],
            tune,
            can_node: bytes[176],
            esc_index: bytes[177],
            can_require_arming: bytes[178],
            can_telem_rate: bytes[179],
            can_require_zero_throttle: bytes[180],
            can_filter_hz: bytes[181],
            can_debug_rate: bytes[182],
            can_term_enable: bytes[183],
            can_reserved,
        }
    }

    /// Overwrite one byte of the EEPROM image in place.
    pub fn set_byte(&mut self, pos: usize, value: u8)
        requires
            pos < EEPROM_SIZE,
        ensures
            final(self).bytes_spec() == old(self).bytes_spec().update(pos as int, value),
    {
        let v = self.as_bytes();
        let mut b = [0u8; 192];
        let mut i: usize = 0;
        while i < 192
            invariant
                i <= 192,
                v@.len() == 192,
                forall|j: int| 0 <= j < i ==> b@[j] == v@[j],
            decreases 192 - i,
        {
            b[i] = v[i];
            i = i + 1;
        }
        b[pos] = value;
        assert(b@ =~= old(self).bytes_spec().update(pos as int, value));
        *self = Self::from_bytes(&b);
    }

    pub fn is_dir_reversed(&self) -> (r: bool)
        ensures r == (self.dir_reversed != 0),
    {
        self.dir_reversed != 0
    }

    pub fn is_bidirectional(&self) -> (r: bool)
        ensures r == (self.bi_direction != 0),
    {
        self.bi_direction != 0
    }

    pub fn use_sine_start(&self) -> (r: bool)
        ensures r == (self.use_sine_start != 0),
    {
        self.use_sine_start != 0
    }

    pub fn use_comp_pwm(&self) -> (r: bool)
        ensures r == (self.comp_pwm != 0),
    {
        self.comp_pwm != 0
    }

    pub fn has_stuck_rotor_protection(&self) -> (r: bool)
        ensures r == (self.stuck_rotor_protection != 0),
    {
        self.stuck_rotor_protection != 0
    }

    pub fn has_stall_protection(&self) -> (r: bool)
        ensures r == (self.stall_protection != 0),
    {
        self.stall_protection != 0
    }

    pub fn has_low_voltage_cutoff(&self) -> (r: bool)
        ensures r == (self.low_voltage_cut_off != 0),
    {
        self.low_voltage_cut_off != 0
    }

    pub fn is_lvc_per_cell(&self) -> (r: bool)
        ensures r == (self.low_voltage_cut_off == 1),
    {
        self.low_voltage_cut_off == 1
    }

    pub fn is_lvc_absolute(&self) -> (r: bool)
        ensures r == (self.low_voltage_cut_off == 2),
    {
        self.low_voltage_cut_off == 2
    }

    pub fn disable_stick_cal(&self) -> (r: bool)
        ensures r == (self.disable_stick_calibration != 0),
    {
        self.disable_stick_calibration != 0
    }

    pub fn is_rc_car_reverse(&self) -> (r: bool)
        ensures r == (self.rc_car_reverse != 0),
    {
        self.rc_car_reverse != 0
    }

    pub fn input_type(&self) -> (r: InputType)
        ensures
            r == input_type_spec(self.input_type),
    {
        match self.input_type {
            0 => InputType::Auto,
            1 => InputType::Dshot,
            2 => InputType::Servo,
            3 => InputType::Serial,
            4 => InputType::EdtArm,
            5 => InputType::DroneCan,
            _ => InputType::Auto,
        }
    }

    /// Loaded EEPROM data is valid unless its version is newer than this firmware's
    /// (blank flash reads version 255).
    pub fn is_valid(&self) -> (r: bool)
        ensures
            r == (self.eeprom_version <= EEPROM_VERSION),
    {
        self.eeprom_version <= EEPROM_VERSION
    }

    /// Apply defaults for fields added in newer EEPROM versions, then mark the
    /// settings current.
    pub fn apply_version_defaults(&mut self)
        ensures
            final(self).bytes_spec() == version_defaults_bytes(old(self).bytes_spec()),
            final(self).eeprom_version == EEPROM_VERSION,
            old(self).eeprom_version < EEPROM_VERSION ==> final(self).max_ramp == 160
                && final(self).minimum_duty_cycle == 1 && final(self).disable_stick_calibration == 0
                && final(self).absolute_voltage_cutoff == 10 && final(self).current_p == 100
                && final(self).current_i == 0 && final(self).current_d == 100
                && final(self).active_brake_power == 0,
    {
        if self.eeprom_version < EEPROM_VERSION {
            self.max_ramp = 160;
            self.minimum_duty_cycle = 1;
            self.disable_stick_calibration = 0;
            self.absolute_voltage_cutoff = 10;
            self.current_p = 100;
            self.current_i = 0;
            self.current_d = 100;
            self.active_brake_power = 0;
            self.reserved_eeprom_3 = [0u8; 4];
        }
        self.eeprom_version = EEPROM_VERSION;
        assert(self.bytes_spec() =~= version_defaults_bytes(old(self).bytes_spec()));
    }
}

/// The input type a stored byte selects; unknown values select Auto.
pub open spec fn input_type_spec(v: u8) -> InputType {
    if v == 1 {
        InputType::Dshot
    } else if v == 2 {
        InputType::Servo
    } else if v == 3 {
        InputType::Serial
    } else if v == 4 {
        InputType::EdtArm
    } else if v == 5 {
        InputType::DroneCan
    } else {
        InputType::Auto
    }
}

/// Settings older than the current version get the defaults of the fields added
/// since (bytes 5-16 of the image); every version is then marked current (byte 1).
pub open spec fn version_defaults_bytes(b: Seq<u8>) -> Seq<u8> {
    if b[1] < EEPROM_VERSION {
        b.update(5, 160).update(6, 1).update(7, 0).update(8, 10).update(9, 100).update(10, 0)
            .update(11, 100).update(12, 0).update(13, 0).update(14, 0).update(15, 0).update(16, 0)
            .update(1, EEPROM_VERSION)
    } else {
        b.update(1, EEPROM_VERSION)
    }
}

/// Migrating twice is migrating once, and a migrated image is always valid.
pub proof fn lemma_version_defaults_idempotent(c: Seq<u8>)
    requires
        c.len() == EEPROM_SIZE,
    ensures
        version_defaults_bytes(version_defaults_bytes(c)) == version_defaults_bytes(c),
        version_defaults_bytes(c)[1] <= EEPROM_VERSION,
{
    assert(version_defaults_bytes(version_defaults_bytes(c)) =~= version_defaults_bytes(c));
}

/// Settings are determined by their image: two settings with the same 192 bytes
/// are the same settings. With `from_bytes` giving back exactly the image it is
/// given, writing an image and reading it back gives the settings written.
pub proof fn lemma_image_determines_settings(a: EepromConfig, b: EepromConfig)
    requires
        a.bytes_spec() == b.bytes_spec(),
    ensures
        a == b,
{
    let sa = a.bytes_spec();
    let sb = b.bytes_spec();
    assert(sa.len() == EEPROM_SIZE);
    assert(sa[0] == a.reserved_0 && sb[0] == b.reserved_0);
    assert(sa[1] == a.eeprom_version && sb[1] == b.eeprom_version);
    assert(sa[2] == a.reserved_1 && sb[2] == b.reserved_1);
    assert(sa[3] == a.version_major && sb[3] == b.version_major);
    assert(sa[4] == a.version_minor && sb[4] == b.version_minor);
    assert(sa[5] == a.max_ramp && sb[5] == b.max_ramp);
    assert(sa[6] == a.minimum_duty_cycle && sb[6] == b.minimum_duty_cycle);
    assert(sa[7] == a.disable_stick_calibration && sb[7] == b.disable_stick_calibration);
    assert(sa[8] == a.absolute_voltage_cutoff && sb[8] == b.absolute_voltage_cutoff);
    assert(sa[9] == a.current_p && sb[9] == b.current_p);
    assert(sa[10] == a.current_i && sb[10] == b.current_i);
    assert(sa[11] == a.current_d && sb[11] == b.current_d);
    assert(sa[12] == a.active_brake_power && sb[12] == b.active_brake_power);
    assert(sa[17] == a.dir_reversed && sb[17] == b.dir_reversed);
    assert(sa[18] == a.bi_direction && sb[18] == b.bi_direction);
    assert(sa[19] == a.use_sine_start && sb[19] == b.use_sine_start);
    assert(sa[20] == a.comp_pwm && sb[20] == b.comp_pwm);
    assert(sa[21] == a.variable_pwm && sb[21] == b.variable_pwm);
    assert(sa[22] == a.stuck_rotor_protection && sb[22] == b.stuck_rotor_protection);
    assert(sa[23] == a.advance_level && sb[23] == b.advance_level);
    assert(sa[24] == a.pwm_frequency && sb[24] == b.pwm_frequency);
    assert(sa[25] == a.startup_power && sb[25] == b.startup_power);
    assert(sa[26] == a.motor_kv && sb[26] == b.motor_kv);
    assert(sa[27] == a.motor_poles && sb[27] == b.motor_poles);
    assert(sa[28] == a.brake_on_stop && sb[28] == b.brake_on_stop);
    assert(sa[29] == a.stall_protection && sb[29] == b.stall_protection);
    assert(sa[30] == a.beep_volume && sb[30] == b.beep_volume);
    assert(sa[31] == a.telemetry_on_interval && sb[31] == b.telemetry_on_interval);
    assert(sa[32] == a.servo_low_threshold && sb[32] == b.servo_low_threshold);
    assert(sa[33] == a.servo_high_threshold && sb[33] == b.servo_high_threshold);
    assert(sa[34] == a.servo_neutral && sb[34] == b.servo_neutral);
    assert(sa[35] == a.servo_dead_band && sb[35] == b.servo_dead_band);
    assert(sa[36] == a.low_voltage_cut_off && sb[36] == b.low_voltage_cut_off);
    assert(sa[37] == a.low_cell_volt_cutoff && sb[37] == b.low_cell_volt_cutoff);
    assert(sa[38] == a.rc_car_reverse && sb[38] == b.rc_car_reverse);
    assert(sa[39] == a.use_hall_sensors && sb[39] == b.use_hall_sensors);
    assert(sa[40] == a.sine_mode_changeover_throttle_level && sb[40] == b.sine_mode_changeover_throttle_level);
    assert(sa[41] == a.drag_brake_strength && sb[41] == b.drag_brake_strength);
    assert(sa[42] == a.driving_brake_strength && sb[42] == b.driving_brake_strength);
    assert(sa[43] == a.temperature_limit && sb[43] == b.temperature_limit);
    assert(sa[44] == a.current_limit && sb[44] == b.current_limit);
    assert(sa[45] == a.sine_mode_power && sb[45] == b.sine_mode_power);
    assert(sa[46] == a.input_type && sb[46] == b.input_type);
    assert(sa[47] == a.auto_advance && sb[47] == b.auto_advance);
    assert(sa[176] == a.can_node && sb[176] == b.can_node);
    assert(sa[177] == a.esc_index && sb[177] == b.esc_index);
    assert(sa[178] == a.can_require_arming && sb[178] == b.can_require_arming);
    assert(sa[179] == a.can_telem_rate && sb[179] == b.can_telem_rate);
    assert(sa[180] == a.can_require_zero_throttle && sb[180] == b.can_require_zero_throttle);
    assert(sa[181] == a.can_filter_hz && sb[181] == b.can_filter_hz);
    assert(sa[182] == a.can_debug_rate && sb[182] == b.can_debug_rate);
    assert(sa[183] == a.can_term_enable && sb[183] == b.can_term_enable);
    assert(a.reserved_eeprom_3@ =~= sa.subrange(13, 17));
    assert(b.reserved_eeprom_3@ =~= sb.subrange(13, 17));
    assert(a.reserved_eeprom_3 =~= b.reserved_eeprom_3);
    assert(a.tune@ =~= sa.subrange(48, 176));
    assert(b.tune@ =~= sb.subrange(48, 176));
    assert(a.tune =~= b.tune);
    assert(a.can_reserved@ =~= sa.subrange(184, 192));
    assert(b.can_reserved@ =~= sb.subrange(184, 192));
    assert(a.can_reserved =~= b.can_reserved);
}

impl Default for EepromConfig {
    /// All-zero settings.
    fn default() -> (r: Self)
        ensures
            r.bytes_spec() == Seq::new(192, |i: int| 0u8),
    {
        let r = EepromConfig {
            reserved_0: 0,
            eeprom_version: 0,
            reserved_1: 0,
            version_major: 0,
            version_minor: 0,
            max_ramp: 0,
            minimum_duty_cycle: 0,
            disable_stick_calibration: 0,
            absolute_voltage_cutoff: 0,
            current_p: 0,
            current_i: 0,
            current_d: 0,
            active_brake_power: 0,
            reserved_eeprom_3: [0u8; 4],
            dir_reversed: 0,
            bi_direction: 0,
            use_sine_start: 0,
            comp_pwm: 0,
            variable_pwm: 0,
            stuck_rotor_protection: 0,
            advance_level: 0,
            pwm_frequency: 0,
            startup_power: 0,
            motor_kv: 0,
            motor_poles: 0,
            brake_on_stop: 0,
            stall_protection: 0,
            beep_volume: 0,
            telemetry_on_interval: 0,
            servo_low_threshold: 0,
            servo_high_threshold: 0,
            servo_neutral: 0,
            servo_dead_band: 0,
            low_voltage_cut_off: 0,
            low_cell_volt_cutoff: 0,
            rc_car_reverse: 0,
            use_hall_sensors: 0,
            sine_mode_changeover_throttle_level: 0,
            drag_brake_strength: 0,
            driving_brake_strength: 0,
            temperature_limit: 0,
            current_limit: 0,
            sine_mode_power: 0,
            input_type: 0,
            auto_advance: 0,
            tune: [0u8; 128],
            can_node: 0,
            esc_index: 0,
            can_require_arming: 0,
            can_telem_rate: 0,
            can_require_zero_throttle: 0,
            can_filter_hz: 0,
            can_debug_rate: 0,
            can_term_enable: 0,
            can_reserved: [0u8; 8],
        };
        assert(r.bytes_spec() =~= Seq::new(192, |i: int| 0u8));
        r
    }
}

} // verus!
