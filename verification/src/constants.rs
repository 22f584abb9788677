//! Named constants of the control code: throttle scale, duty scale, timeouts,
//! thresholds. Each names what its value represents.
use vstd::prelude::*;

verus! {

/// DShot throttle resolution (11-bit): valid range 0-2047.
pub const DSHOT_MAX_THROTTLE: u16 = 2047;

/// Highest signal value that is not yet throttle (DShot values 0-47 are commands).
pub const THROTTLE_MIN_SIGNAL: u16 = 47;

/// Maximum duty cycle in the PWM scaling system (100% of the timer period).
pub const DUTY_SCALE_MAX: u16 = 2000;

/// Default TIM1 auto-reload value.
pub const TIM1_DEFAULT_ARR: u16 = 1999;

/// Arming timeout in 20kHz ticks (one second).
pub const ARMING_TIMEOUT_TICKS: u32 = 20000;

/// Initial commutation interval in timer ticks: very slow startup.
pub const INITIAL_COMMUTATION_INTERVAL: u32 = 10000;

/// Zero-cross counter cap.
pub const ZERO_CROSS_CAP: u32 = 10000;

/// Commutation interval below which polling mode is left for interrupt-driven detection.
pub const OLD_ROUTINE_EXIT_INTERVAL: u32 = 2000;

/// Minimum zero-cross count before polling mode is left.
pub const OLD_ROUTINE_EXIT_ZC: u32 = 20;

/// Bidirectional DShot midpoint: 1048-2047 is forward.
pub const BIDIR_MIDPOINT: u16 = 1048;

/// Highest bidirectional DShot value of the reverse half.
pub const DSHOT_BIDIR_BRAKE_LIMIT: u16 = 1047;

/// Low voltage cutoff counter threshold in normal running.
pub const LVC_NORMAL_THRESHOLD: u16 = 10000;

/// Low voltage cutoff counter threshold during sinusoidal startup.
pub const LVC_STARTUP_THRESHOLD: u16 = 1000;

/// Average interval set after a desync of a motor that was running.
pub const DESYNC_RESET_INTERVAL: u32 = 5000;

/// Desync detection only triggers below this average interval.
pub const DESYNC_MAX_INTERVAL: u32 = 2000;

/// BEMF timeout threshold at low throttle.
pub const BEMF_TIMEOUT_LENIENT: u8 = 100;

/// BEMF timeout threshold at high throttle.
pub const BEMF_TIMEOUT_STRICT: u8 = 10;

/// Throttle level below which the lenient BEMF timeout applies.
pub const BEMF_LENIENT_THROTTLE: u16 = 150;

/// Value the BEMF timeout counter is latched to once stuck-rotor protection trips.
pub const BEMF_FAULT_LATCHED: u8 = 102;

/// Fixed-point shift for commutation advance timing.
pub const ADVANCE_SHIFT: u32 = 6;

/// Zero-cross count under which startup duty limits apply (shifted right by the
/// stall protection setting).
pub const STARTUP_ZC_BASE: u32 = 20;

/// With sine start, BEMF timeouts are cleared below this throttle.
pub const SINE_BEMF_CLEAR_THROTTLE: u16 = 160;

/// Signal timeout (in ticks) after which the ESC disarms.
pub const SIGNAL_TIMEOUT_DISARM: u16 = 10000;

/// Half period of the throttle LED blink, in main-loop ticks.
pub const LED_BLINK_HALF_PERIOD: u16 = 500;

/// Throttle above which the LED is lit steadily.
pub const LED_HIGH_THROTTLE: u16 = 1947;

} // verus!
