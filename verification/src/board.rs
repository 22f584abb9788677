//! Board target configuration: dead time, voltage divider, current sensor scaling
//! and ADC channel assignments of each supported ESC board.
use vstd::prelude::*;

verus! {

/// Board-specific hardware configuration.
#[derive(Clone, Copy)]
pub struct BoardConfig {
    /// Firmware name (at most 12 characters).
    pub name: &'static str,
    /// PWM dead time in TIM1 DTG units.
    pub dead_time: u8,
    /// Voltage divider ratio (110 = 11:1 divider times 10).
    pub voltage_divider: u16,
    /// Current sensor millivolts per amp.
    pub millivolt_per_amp: u16,
    /// Current sensor offset (ADC counts).
    pub current_offset: i16,
    /// ADC channel for current sense.
    pub current_adc_channel: u8,
    /// ADC channel for voltage sense.
    pub voltage_adc_channel: u8,
    /// Stall protection target interval.
    pub stall_protect_interval: u16,
    /// Minimum BEMF filter counts for zero-cross detection.
    pub min_bemf_counts: u8,
    /// Whether the board has a WS2812 LED.
    pub has_led: bool,
    /// WS2812 LED pin number on GPIOB.
    pub led_pin: Option<u8>,
}

/// The generic board's values, which the named boards override.
pub open spec fn is_generic_board(b: BoardConfig) -> bool {
    &&& b.dead_time == 60
    &&& b.voltage_divider == 110
    &&& b.millivolt_per_amp == 20
    &&& b.current_offset == 0
    &&& b.current_adc_channel == 4
    &&& b.voltage_adc_channel == 6
    &&& b.stall_protect_interval == 6500
    &&& b.min_bemf_counts == 2
    &&& !b.has_led
    &&& b.led_pin.is_none()
}

impl BoardConfig {
    /// Generic board defaults.
    pub fn generic() -> (r: Self)
        ensures
            is_generic_board(r),
    {
        BoardConfig {
            name: "Generic",
            dead_time: 60,
            voltage_divider: 110,
            millivolt_per_amp: 20,
            current_offset: 0,
            current_adc_channel: 4,
            voltage_adc_channel: 6,
            stall_protect_interval: 6500,
            min_bemf_counts: 2,
            has_led: false,
            led_pin: None,
        }
    }

    /// G071 64k ESC: WS2812 LED on PB8.
    pub fn gen_64k_g071() -> (r: Self)
        ensures
            is_generic_board(BoardConfig { has_led: false, led_pin: None, ..r }),
            r.has_led && r.led_pin == Some(8u8),
    {
        BoardConfig { name: "G071 64kESC", has_led: true, led_pin: Some(8), ..Self::generic() }
    }

    /// TBS 4-in-1 G071: current sense on PA5.
    pub fn tbs_4in1_g071() -> (r: Self)
        ensures
            is_generic_board(BoardConfig { current_adc_channel: 4, ..r }),
            r.current_adc_channel == 5,
    {
        BoardConfig { name: "TBS 4N1 G071", current_adc_channel: 5, ..Self::generic() }
    }

    /// TBS 12S G071: high-voltage divider, 25 mV/A sensor, longer dead time.
    pub fn tbs_12s_g071() -> (r: Self)
        ensures
            is_generic_board(BoardConfig { dead_time: 60, voltage_divider: 110, millivolt_per_amp: 20, ..r }),
            r.dead_time == 80 && r.voltage_divider == 210 && r.millivolt_per_amp == 25,
    {
        BoardConfig { name: "TBS 12S G071", dead_time: 80, voltage_divider: 210, millivolt_per_amp: 25, ..Self::generic() }
    }

    /// Flycolor G071: short dead time.
    pub fn flycolor_g071() -> (r: Self)
        ensures
            is_generic_board(BoardConfig { dead_time: 60, ..r }),
            r.dead_time == 40,
    {
        BoardConfig { name: "Flycolor G071", dead_time: 40, ..Self::generic() }
    }

    /// Mamba F55 G071: short dead time.
    pub fn mamba_f55_g071() -> (r: Self)
        ensures
            is_generic_board(BoardConfig { dead_time: 60, ..r }),
            r.dead_time == 40,
    {
        BoardConfig { name: "Mamba F55 G071", dead_time: 40, ..Self::generic() }
    }

    /// iFlight 12S G071: high-voltage divider, 25 mV/A sensor, longer dead time.
    pub fn iflight_12s_g071() -> (r: Self)
        ensures
            is_generic_board(BoardConfig { dead_time: 60, voltage_divider: 110, millivolt_per_amp: 20, ..r }),
            r.dead_time == 80 && r.voltage_divider == 210 && r.millivolt_per_amp == 25,
    {
        BoardConfig { name: "iFlight 12S", dead_time: 80, voltage_divider: 210, millivolt_per_amp: 25, ..Self::generic() }
    }

    /// SISKIN F051: F0 ADC channels (current CH6, voltage CH3).
    pub fn siskin_f051() -> (r: Self)
        ensures
            is_generic_board(BoardConfig { dead_time: 60, current_adc_channel: 4, voltage_adc_channel: 6, ..r }),
            r.dead_time == 45 && r.current_adc_channel == 6 && r.voltage_adc_channel == 3,
    {
        BoardConfig { name: "SISKIN PA2", dead_time: 45, current_adc_channel: 6, voltage_adc_channel: 3, ..Self::generic() }
    }

    /// Wraith32 V2 F051: F0 ADC channels.
    pub fn wraith32v2_f051() -> (r: Self)
        ensures
            is_generic_board(BoardConfig { dead_time: 60, current_adc_channel: 4, voltage_adc_channel: 6, ..r }),
            r.dead_time == 45 && r.current_adc_channel == 6 && r.voltage_adc_channel == 3,
    {
        BoardConfig { name: "Wraith32 V2", dead_time: 45, current_adc_channel: 6, voltage_adc_channel: 3, ..Self::generic() }
    }

    /// iFlight F051: F0 ADC channels, 30 mV/A sensor.
    pub fn iflight_f051() -> (r: Self)
        ensures
            is_generic_board(BoardConfig { dead_time: 60, millivolt_per_amp: 20, current_adc_channel: 4, voltage_adc_channel: 6, ..r }),
            r.dead_time == 45 && r.millivolt_per_amp == 30 && r.current_adc_channel == 6 && r.voltage_adc_channel == 3,
    {
        BoardConfig { name: "iFlight F051", dead_time: 45, millivolt_per_amp: 30, current_adc_channel: 6, voltage_adc_channel: 3, ..Self::generic() }
    }

    /// Neutron L431: high-voltage divider, offset current sensor, L4 ADC channels.
    pub fn neutron_l431() -> (r: Self)
        ensures
            is_generic_board(BoardConfig { voltage_divider: 110, millivolt_per_amp: 20, current_offset: 0, current_adc_channel: 4, voltage_adc_channel: 6, ..r }),
            r.voltage_divider == 210 && r.millivolt_per_amp == 16 && r.current_offset == 498,
            r.current_adc_channel == 8 && r.voltage_adc_channel == 11,
    {
        BoardConfig {
            name: "L431 Neutron",
            voltage_divider: 210,
            millivolt_per_amp: 16,
            current_offset: 498,
            current_adc_channel: 8,
            voltage_adc_channel: 11,
            ..Self::generic()
        }
    }

    /// VimDrones L431: high-voltage divider, 8 mV/A offset sensor, L4 ADC channels.
    pub fn vimdrones_l431() -> (r: Self)
        ensures
            is_generic_board(BoardConfig { voltage_divider: 110, millivolt_per_amp: 20, current_offset: 0, current_adc_channel: 4, voltage_adc_channel: 6, ..r }),
            r.voltage_divider == 210 && r.millivolt_per_amp == 8 && r.current_offset == 498,
            r.current_adc_channel == 8 && r.voltage_adc_channel == 11,
    {
        BoardConfig {
            name: "VimDrones L4",
            voltage_divider: 210,
            millivolt_per_amp: 8,
            current_offset: 498,
            current_adc_channel: 8,
            voltage_adc_channel: 11,
            ..Self::generic()
        }
    }
}

} // verus!
