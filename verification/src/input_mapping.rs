//! Throttle input mapping: bidirectional DShot and servo, RC-car reverse with
//! brake-and-return-to-centre, sine-start mapping and duty setpoint limits.
use vstd::prelude::*;
use crate::constants::{BIDIR_MIDPOINT, DSHOT_BIDIR_BRAKE_LIMIT, DSHOT_MAX_THROTTLE, DUTY_SCALE_MAX, STARTUP_ZC_BASE, THROTTLE_MIN_SIGNAL};
use crate::crsf::pow2_small;
use crate::functions::{lemma_map_endpoints, lemma_map_in_output_range, lemma_map_monotone, map_args_ok, map_spec, sat_sub_u16};

verus! {

/// Result of bidirectional input mapping.
#[derive(Clone, Copy)]
pub struct BidirResult {
    /// Mapped throttle value (0-2047).
    pub adjusted: u16,
    /// Whether the direction should be reversed.
    pub reverse: bool,
    /// Whether the proportional brake is active.
    pub prop_brake: bool,
}

pub open spec fn bidir(adjusted: u16, reverse: bool, prop_brake: bool) -> BidirResult {
    BidirResult { adjusted, reverse, prop_brake }
}

/// DShot bidirectional scaling of one half of the range: `(x - base) * 2 + 47 - 1`,
/// each subtraction saturating at 0.
pub open spec fn bidir_scale(x: u16, base: u16) -> u16 {
    sat_sub_u16((sat_sub_u16(x, base) * 2 + 47) as u16, 1)
}

/// Reversal is allowed when the motor turns slowly at low duty, or in sine stepping.
pub open spec fn can_reverse_spec(commutation_interval: u32, duty_cycle: u16, stepper_sine: bool, reverse_speed_threshold: u16) -> bool {
    (commutation_interval > reverse_speed_threshold && duty_cycle < 200) || stepper_sine
}

/// DShot bidirectional mapping: 48-1047 is reverse, 1048-2047 forward. A request
/// against the current direction reports a reversal and is scaled when reversal
/// is allowed; otherwise it gives 0.
pub open spec fn dshot_bidir_spec(newinput: u16, forward: bool, dir_reversed: bool, commutation_interval: u32, duty_cycle: u16, stepper_sine: bool, reverse_speed_threshold: u16) -> BidirResult {
    let can = can_reverse_spec(commutation_interval, duty_cycle, stepper_sine, reverse_speed_threshold);
    if newinput > 1047 {
        let mismatch = forward != !dir_reversed;
        bidir(if !mismatch || can { bidir_scale(newinput, 1048) } else { 0 }, mismatch && can, false)
    } else if newinput > 47 {
        let mismatch = forward != dir_reversed;
        bidir(if !mismatch || can { bidir_scale(newinput, 48) } else { 0 }, mismatch && can, false)
    } else {
        bidir(0, false, false)
    }
}

pub(crate) fn bidir_scale_exec(x: u16, base: u16) -> (r: u16)
    requires
        sat_sub_u16(x, base) * 2 + 47 <= u16::MAX,
    ensures
        r == bidir_scale(x, base),
{
    (x.saturating_sub(base) * 2 + THROTTLE_MIN_SIGNAL).saturating_sub(1)
}

/// Map DShot bidirectional input (0-47 commands, 48-1047 reverse, 1048-2047 forward),
/// with whether the direction should be reversed.
pub fn dshot_bidir(
    newinput: u16,
    forward: bool,
    dir_reversed: bool,
    commutation_interval: u32,
    duty_cycle: u16,
    stepper_sine: bool,
    reverse_speed_threshold: u16,
) -> (r: BidirResult)
    requires
        newinput <= 33792,
    ensures
        r == dshot_bidir_spec(newinput, forward, dir_reversed, commutation_interval, duty_cycle, stepper_sine, reverse_speed_threshold),
{
    let can_reverse = (commutation_interval > reverse_speed_threshold as u32 && duty_cycle < 200) || stepper_sine;
    if newinput > DSHOT_BIDIR_BRAKE_LIMIT {
        let want_forward = !dir_reversed;
        let reverse = forward != want_forward && can_reverse;
        let adjusted = if reverse || forward == want_forward { bidir_scale_exec(newinput, BIDIR_MIDPOINT) } else { 0 };
        BidirResult { adjusted, reverse, prop_brake: false }
    } else if newinput > THROTTLE_MIN_SIGNAL {
        let needs_reversal = forward != dir_reversed;
        let reverse = needs_reversal && can_reverse;
        let adjusted = if reverse || !needs_reversal { bidir_scale_exec(newinput, THROTTLE_MIN_SIGNAL + 1) } else { 0 };
        BidirResult { adjusted, reverse, prop_brake: false }
    } else {
        BidirResult { adjusted: 0, reverse: false, prop_brake: false }
    }
}

/// RC-car handling of one half of the range: against the current direction the
/// brake engages (throttle 0) until the stick has been back at centre, after which
/// the direction flips and `value` applies; with the direction right, `value`
/// applies unless the brake is held.
pub open spec fn rc_car_half(wrong_direction: bool, prop_brake_active: bool, return_to_center: bool, value: u16) -> BidirResult {
    if wrong_direction {
        if return_to_center { bidir(value, true, false) } else { bidir(0, false, true) }
    } else if !prop_brake_active {
        bidir(value, false, false)
    } else {
        bidir(0, false, true)
    }
}

fn rc_car_half_exec(wrong_direction: bool, prop_brake_active: bool, return_to_center: bool, value: u16) -> (r: BidirResult)
    ensures
        r == rc_car_half(wrong_direction, prop_brake_active, return_to_center, value),
{
    if wrong_direction {
        if return_to_center {
            return BidirResult { adjusted: value, reverse: true, prop_brake: false };
        }
        return BidirResult { adjusted: 0, reverse: false, prop_brake: true };
    }
    if !prop_brake_active {
        BidirResult { adjusted: value, reverse: false, prop_brake: false }
    } else {
        BidirResult { adjusted: 0, reverse: false, prop_brake: true }
    }
}

pub open spec fn dshot_rc_car_spec(newinput: u16, forward: bool, dir_reversed: bool, prop_brake_active: bool, return_to_center: bool) -> BidirResult {
    if newinput > 1047 {
        rc_car_half(forward != !dir_reversed, prop_brake_active, return_to_center, bidir_scale(newinput, 1048))
    } else if newinput > 47 {
        rc_car_half(forward != dir_reversed, prop_brake_active, return_to_center, bidir_scale(newinput, 48))
    } else {
        bidir(0, false, false)
    }
}

/// Map DShot RC-car reverse input.
pub fn dshot_rc_car(newinput: u16, forward: bool, dir_reversed: bool, prop_brake_active: bool, return_to_center: bool) -> (r: BidirResult)
    requires
        newinput <= 33792,
    ensures
        r == dshot_rc_car_spec(newinput, forward, dir_reversed, prop_brake_active, return_to_center),
{
    if newinput > DSHOT_BIDIR_BRAKE_LIMIT {
        let want_forward = !dir_reversed;
        let fwd_adjusted = bidir_scale_exec(newinput, BIDIR_MIDPOINT);
        rc_car_half_exec(forward != want_forward, prop_brake_active, return_to_center, fwd_adjusted)
    } else if newinput > THROTTLE_MIN_SIGNAL {
        let rev_adjusted = bidir_scale_exec(newinput, THROTTLE_MIN_SIGNAL + 1);
        rc_car_half_exec(forward != dir_reversed, prop_brake_active, return_to_center, rev_adjusted)
    } else {
        BidirResult { adjusted: 0, reverse: false, prop_brake: false }
    }
}

/// The doubled dead band as the firmware computes it (16-bit shift).
pub open spec fn dead_band2(dead_band: u16) -> u16 {
    ((dead_band * 2) % 65536) as u16
}

/// Servo forward range mapping: `(1000 + db2)..2000` onto 47..2047.
pub open spec fn servo_fwd(newinput: u16, db2: u16) -> u16 {
    map_spec(newinput as int, 1000 + db2, 2000, 47, 2047) as u16
}

/// Servo reverse range mapping: `0..(1000 - db2)` onto 2047..47.
pub open spec fn servo_rev(newinput: u16, db2: u16) -> u16 {
    map_spec(newinput as int, 0, 1000 - db2, 2047, 47) as u16
}

/// The servo throttle of a raw input: above the dead band `1000 + db..2000` onto
/// 47..2047, below it `0..1000 - db` onto 2047..47.
pub open spec fn servo_map_spec(x: u16, upper: bool, db: u16) -> u16 {
    if upper { servo_fwd(x, db) } else { servo_rev(x, db) }
}

pub(crate) fn servo_map(x: u16, upper: bool, db: u16) -> (r: u16)
    requires
        db <= 510,
    ensures
        r == servo_map_spec(x, upper, db),
{
    if upper {
        servo_fwd_exec(x, db)
    } else {
        servo_rev_exec(x, db)
    }
}

pub open spec fn servo_bidir_spec(newinput: u16, forward: bool, dir_reversed: bool, commutation_interval: u32, duty_cycle: u16, stepper_sine: bool, reverse_speed_threshold: u16, dead_band: u16) -> BidirResult {
    let db2 = dead_band2(dead_band);
    let can = can_reverse_spec(commutation_interval, duty_cycle, stepper_sine, reverse_speed_threshold);
    if newinput > 1000 + db2 {
        if forward != !dir_reversed {
            if can { bidir(servo_fwd(newinput, db2), true, false) } else { bidir(0, false, false) }
        } else {
            bidir(servo_fwd(newinput, db2), false, false)
        }
    } else if newinput < sat_sub_u16(1000, db2) {
        if forward != dir_reversed {
            if can { bidir(servo_rev(newinput, db2), true, false) } else { bidir(0, false, false) }
        } else {
            bidir(servo_rev(newinput, db2), false, false)
        }
    } else {
        bidir(0, false, false)
    }
}

fn dead_band2_exec(dead_band: u16) -> (r: u16)
    ensures
        r == dead_band2(dead_band),
{
    ((dead_band as u32 * 2) % 65536) as u16
}

pub(crate) fn servo_fwd_exec(newinput: u16, db2: u16) -> (r: u16)
    requires
        1000 + db2 <= u16::MAX,
    ensures
        r == servo_fwd(newinput, db2),
        47 <= r <= 2047,
{
    let center: u16 = 1000;
    crate::functions::map(newinput as i32, (center + db2) as i32, 2000, THROTTLE_MIN_SIGNAL as i32, DSHOT_MAX_THROTTLE as i32) as u16
}

pub(crate) fn servo_rev_exec(newinput: u16, db2: u16) -> (r: u16)
    requires
        db2 <= 1000,
    ensures
        r == servo_rev(newinput, db2),
        47 <= r <= 2047,
{
    let center: u16 = 1000;
    crate::functions::map(newinput as i32, 0, (center - db2) as i32, DSHOT_MAX_THROTTLE as i32, THROTTLE_MIN_SIGNAL as i32) as u16
}

/// Map servo bidirectional input (non-RC-car): speed-gated direction reversal
/// with a dead band around the 1000 centre.
#[allow(clippy::too_many_arguments)]
pub fn servo_bidir(
    newinput: u16,
    forward: bool,
    dir_reversed: bool,
    commutation_interval: u32,
    duty_cycle: u16,
    stepper_sine: bool,
    reverse_speed_threshold: u16,
    dead_band: u16,
) -> (r: BidirResult)
    requires
        1000 + dead_band2(dead_band) <= u16::MAX,
    ensures
        r == servo_bidir_spec(newinput, forward, dir_reversed, commutation_interval, duty_cycle, stepper_sine, reverse_speed_threshold, dead_band),
{
    let db2 = dead_band2_exec(dead_band);
    let center: u16 = 1000;
    let can_reverse = (commutation_interval > reverse_speed_threshold as u32 && duty_cycle < 200) || stepper_sine;
    if newinput > center + db2 {
        let want_forward = !dir_reversed;
        if forward != want_forward {
            if can_reverse {
                let adjusted = servo_fwd_exec(newinput, db2);
                return BidirResult { adjusted, reverse: true, prop_brake: false };
            }
            return BidirResult { adjusted: 0, reverse: false, prop_brake: false };
        }
        let adjusted = servo_fwd_exec(newinput, db2);
        BidirResult { adjusted, reverse: false, prop_brake: false }
    } else if newinput < center.saturating_sub(db2) {
        let needs_reversal = forward != dir_reversed;
        if needs_reversal {
            if can_reverse {
                let adjusted = servo_rev_exec(newinput, db2);
                return BidirResult { adjusted, reverse: true, prop_brake: false };
            }
            return BidirResult { adjusted: 0, reverse: false, prop_brake: false };
        }
        let adjusted = servo_rev_exec(newinput, db2);
        BidirResult { adjusted, reverse: false, prop_brake: false }
    } else {
        BidirResult { adjusted: 0, reverse: false, prop_brake: false }
    }
}

pub open spec fn servo_rc_car_spec(newinput: u16, forward: bool, dir_reversed: bool, prop_brake_active: bool, return_to_center: bool, dead_band: u16) -> BidirResult {
    let db2 = dead_band2(dead_band);
    if newinput > 1000 + db2 {
        rc_car_half(forward != !dir_reversed, prop_brake_active, return_to_center, servo_fwd(newinput, db2))
    } else if newinput < sat_sub_u16(1000, db2) {
        rc_car_half(forward != dir_reversed, prop_brake_active, return_to_center, servo_rev(newinput, db2))
    } else {
        bidir(0, false, false)
    }
}

/// Map servo RC-car bidirectional input: brake-and-reverse with the
/// return-to-centre handshake, dead band around 1000.
pub fn servo_rc_car(newinput: u16, forward: bool, dir_reversed: bool, prop_brake_active: bool, return_to_center: bool, dead_band: u16) -> (r: BidirResult)
    requires
        1000 + dead_band2(dead_band) <= u16::MAX,
    ensures
        r == servo_rc_car_spec(newinput, forward, dir_reversed, prop_brake_active, return_to_center, dead_band),
{
    let db2 = dead_band2_exec(dead_band);
    let center: u16 = 1000;
    if newinput > center + db2 {
        let want_forward = !dir_reversed;
        let fwd_adjusted = servo_fwd_exec(newinput, db2);
        rc_car_half_exec(forward != want_forward, prop_brake_active, return_to_center, fwd_adjusted)
    } else if newinput < center.saturating_sub(db2) {
        let rev_adjusted = servo_rev_exec(newinput, db2);
        rc_car_half_exec(forward != dir_reversed, prop_brake_active, return_to_center, rev_adjusted)
    } else {
        BidirResult { adjusted: 0, reverse: false, prop_brake: false }
    }
}

/// Sine start: input dead band (below this, zero throttle).
pub const SINE_DEAD_BAND: u16 = 30;
/// Sine start: throttle at the slow-to-fast transition.
pub const SINE_MID_THROTTLE: u16 = 160;
/// Sine start: minimum input for slow stepping.
pub const SINE_SLOW_STEP_MIN: u16 = 137;
/// Sine start: extra minimum duty in sine mode.
pub const SINE_DUTY_OFFSET: i32 = 40;

/// Sine-start throttle: below 30 nothing, up to the changeover (`level * 20`)
/// slow stepping from 47 to 160, above it 160 to 2047.
pub open spec fn sine_start_map_spec(adjusted: u16, changeover_level: u8) -> u16 {
    let changeover = changeover_level * 20;
    if adjusted < 30 {
        0
    } else if adjusted < changeover {
        map_spec(adjusted as int, 30, changeover, 47, 160) as u16
    } else {
        map_spec(adjusted as int, changeover, 2047, 160, 2047) as u16
    }
}

/// Map sine-start throttle to the input value.
pub fn sine_start_map(adjusted: u16, changeover_level: u8) -> (r: u16)
    ensures
        r == sine_start_map_spec(adjusted, changeover_level),
        r <= 2047,
{
    let changeover = (changeover_level as u16) * 20;
    if adjusted < 30 {
        0
    } else if adjusted < changeover {
        crate::functions::map(adjusted as i32, SINE_DEAD_BAND as i32, changeover as i32, THROTTLE_MIN_SIGNAL as i32, SINE_MID_THROTTLE as i32) as u16
    } else {
        crate::functions::map(adjusted as i32, changeover as i32, DSHOT_MAX_THROTTLE as i32, SINE_MID_THROTTLE as i32, DSHOT_MAX_THROTTLE as i32) as u16
    }
}

/// Duty setpoint of a throttle input: 47..2047 (137..2047 in sine mode) onto
/// `minimum_duty..2000` (`minimum_duty + 40..2000` in sine mode).
pub open spec fn throttle_to_setpoint_spec(input: u16, use_sine_start: bool, minimum_duty: u16) -> u16 {
    if use_sine_start {
        map_spec(input as int, 137, 2047, minimum_duty + 40, 2000) as u16
    } else {
        map_spec(input as int, 47, 2047, minimum_duty as int, 2000) as u16
    }
}

/// Map throttle input to the duty cycle setpoint (0-2000 scale).
pub fn throttle_to_setpoint(input: u16, use_sine_start: bool, minimum_duty: u16) -> (r: u16)
    ensures
        r == throttle_to_setpoint_spec(input, use_sine_start, minimum_duty),
{
    if use_sine_start {
        crate::functions::map(input as i32, SINE_SLOW_STEP_MIN as i32, DSHOT_MAX_THROTTLE as i32, minimum_duty as i32 + SINE_DUTY_OFFSET, DUTY_SCALE_MAX as i32) as u16
    } else {
        crate::functions::map(input as i32, THROTTLE_MIN_SIGNAL as i32, DSHOT_MAX_THROTTLE as i32, minimum_duty as i32, DUTY_SCALE_MAX as i32) as u16
    }
}

/// Number of zero crosses counted as startup: `20 >> min(stall_protection, 5)`.
pub open spec fn startup_zc_limit(stall_protection: u8) -> int {
    let s: int = if stall_protection < 5 { stall_protection as int } else { 5 };
    20int / pow2_small(s)
}

/// Startup limits: while the input asks for spin and fewer than the startup number
/// of zero crosses have passed, the setpoint is held within
/// `min_startup..=startup_max`; then it is capped at `maximum`.
pub open spec fn clamp_startup_duty_spec(setpoint: u16, input: u16, zero_crosses: u32, stall_protection: u8, min_startup: u16, startup_max: u16, maximum: u16) -> u16 {
    let sp1 = if input >= 47 && zero_crosses < startup_zc_limit(stall_protection) {
        let a = if setpoint < min_startup { min_startup } else { setpoint };
        if a > startup_max { startup_max } else { a }
    } else {
        setpoint
    };
    if sp1 > maximum { maximum } else { sp1 }
}

fn startup_zc_limit_exec(stall_protection: u8) -> (r: u32)
    ensures
        r == startup_zc_limit(stall_protection),
{
    let safe_shift = if stall_protection < 5 { stall_protection } else { 5 };
    let div: u32 = if safe_shift == 0 { 1 } else if safe_shift == 1 { 2 } else if safe_shift == 2 { 4 } else if safe_shift == 3 { 8 } else if safe_shift == 4 { 16 } else { 32 };
    STARTUP_ZC_BASE / div
}

/// Apply the startup duty floor/ceiling and the duty maximum.
pub fn clamp_startup_duty(
    setpoint: u16,
    input: u16,
    zero_crosses: u32,
    stall_protection: u8,
    min_startup: u16,
    startup_max: u16,
    maximum: u16,
) -> (r: u16)
    ensures
        r == clamp_startup_duty_spec(setpoint, input, zero_crosses, stall_protection, min_startup, startup_max, maximum),
        r <= maximum,
{
    let mut sp = setpoint;
    if input >= THROTTLE_MIN_SIGNAL && zero_crosses < startup_zc_limit_exec(stall_protection) {
        if sp < min_startup {
            sp = min_startup;
        }
        if sp > startup_max {
            sp = startup_max;
        }
    }
    if sp > maximum {
        sp = maximum;
    }
    sp
}

/// Bidirectional DShot mapping never brakes; it reports a reversal only for a
/// throttle request when reversal is allowed, and then drives; its throttle is 0
/// exactly on commands and on a refused reversal, and otherwise lies in 46..=2045.
pub proof fn lemma_dshot_bidir_range(newinput: u16, forward: bool, dir_reversed: bool, commutation_interval: u32, duty_cycle: u16, stepper_sine: bool, reverse_speed_threshold: u16)
    requires
        newinput <= 2047,
    ensures
        ({
            let r = dshot_bidir_spec(newinput, forward, dir_reversed, commutation_interval, duty_cycle, stepper_sine, reverse_speed_threshold);
            &&& !r.prop_brake
            &&& r.reverse ==> newinput > 47 && can_reverse_spec(commutation_interval, duty_cycle, stepper_sine, reverse_speed_threshold)
            &&& r.reverse ==> r.adjusted >= 46
            &&& r.adjusted <= 2045
            &&& newinput <= 47 ==> r.adjusted == 0
            &&& r.adjusted != 0 ==> r.adjusted >= 46
        }),
{
}

/// RC-car mode never drives against the current direction: a request the other way
/// either brakes with zero throttle or, after the return to centre, reverses.
pub proof fn lemma_rc_car_brakes_before_reversing(newinput: u16, forward: bool, dir_reversed: bool, prop_brake_active: bool, return_to_center: bool)
    requires
        newinput <= 2047,
    ensures
        ({
            let r = dshot_rc_car_spec(newinput, forward, dir_reversed, prop_brake_active, return_to_center);
            &&& r.prop_brake ==> r.adjusted == 0
            &&& r.reverse ==> return_to_center
            &&& !return_to_center ==> !r.reverse
        }),
{
}

/// Bidirectional DShot scales both halves alike: a granted request `x` in the
/// reverse half 48..=1047 gives `(x - 48) * 2 + 46`, one in the forward half
/// 1048..=2047 gives `(x - 1048) * 2 + 46`, so full reverse (1047) and full
/// forward (2047) both reach 2044. A request is granted when it agrees with the
/// current direction or reversal is allowed.
pub proof fn lemma_dshot_bidir_scaling(newinput: u16, forward: bool, dir_reversed: bool, commutation_interval: u32, duty_cycle: u16, stepper_sine: bool, reverse_speed_threshold: u16)
    requires
        48 <= newinput <= 2047,
    ensures
        ({
            let r = dshot_bidir_spec(newinput, forward, dir_reversed, commutation_interval, duty_cycle, stepper_sine, reverse_speed_threshold);
            let can = can_reverse_spec(commutation_interval, duty_cycle, stepper_sine, reverse_speed_threshold);
            &&& newinput <= 1047 && (forward == dir_reversed || can) ==> r.adjusted == (newinput - 48) * 2 + 46
            &&& newinput >= 1048 && (forward == !dir_reversed || can) ==> r.adjusted == (newinput - 1048) * 2 + 46
            &&& newinput <= 1047 && forward != dir_reversed && !can ==> r.adjusted == 0
            &&& newinput >= 1048 && forward != !dir_reversed && !can ==> r.adjusted == 0
        }),
{
}

/// A reverse request and the forward request 1000 steps above it get the same
/// throttle when both are granted.
pub proof fn lemma_dshot_bidir_halves_match(x: u16, forward: bool, dir_reversed: bool, commutation_interval: u32, duty_cycle: u16, stepper_sine: bool, reverse_speed_threshold: u16)
    requires
        48 <= x <= 1047,
        can_reverse_spec(commutation_interval, duty_cycle, stepper_sine, reverse_speed_threshold),
    ensures
        dshot_bidir_spec(x, forward, dir_reversed, commutation_interval, duty_cycle, stepper_sine, reverse_speed_threshold).adjusted
            == dshot_bidir_spec((x + 1000) as u16, forward, dir_reversed, commutation_interval, duty_cycle, stepper_sine, reverse_speed_threshold).adjusted,
{
    lemma_dshot_bidir_scaling(x, forward, dir_reversed, commutation_interval, duty_cycle, stepper_sine, reverse_speed_threshold);
    lemma_dshot_bidir_scaling((x + 1000) as u16, forward, dir_reversed, commutation_interval, duty_cycle, stepper_sine, reverse_speed_threshold);
}

/// The sine-start throttle never falls as the stick rises, whatever the
/// changeover level.
pub proof fn lemma_sine_start_map_monotone(a1: u16, a2: u16, changeover_level: u8)
    requires
        a1 <= a2,
    ensures
        sine_start_map_spec(a1, changeover_level) <= sine_start_map_spec(a2, changeover_level),
{
    let ch: int = changeover_level * 20;
    lemma_map_in_output_range(a1 as int, 30, ch, 47, 160);
    lemma_map_in_output_range(a2 as int, 30, ch, 47, 160);
    lemma_map_in_output_range(a1 as int, ch, 2047, 160, 2047);
    lemma_map_in_output_range(a2 as int, ch, 2047, 160, 2047);
    if 30 <= a1 && a2 < ch {
        lemma_map_monotone(a1 as int, a2 as int, 30, ch, 47, 160);
    }
    if a1 >= ch && ch < 2047 {
        lemma_map_monotone(a1 as int, a2 as int, ch, 2047, 160, 2047);
    }
    if a1 >= ch && ch > 2047 {
        reveal(map_spec);
    }
}

/// Slow stepping, from just above the dead band (30) up to the changeover
/// (`level * 20`), gives throttle from 47 to 160, starting at 47; past the dead band,
/// at and above a changeover under 2047 the throttle runs from 160 to 2047, and full stick gives 2047.
pub proof fn lemma_sine_start_map_ranges(adjusted: u16, changeover_level: u8)
    ensures
        ({
            let ch: int = changeover_level * 20;
            let r = sine_start_map_spec(adjusted, changeover_level);
            &&& adjusted < 30 ==> r == 0
            &&& 30 <= adjusted < ch ==> 47 <= r <= 160
            &&& adjusted == 30 && 30 < ch ==> r == 47
            &&& 30 <= adjusted && ch <= adjusted && ch < 2047 ==> 160 <= r <= 2047
            &&& adjusted == 2047 && 30 <= ch < 2047 ==> r == 2047
        }),
{
    let ch: int = changeover_level * 20;
    lemma_map_in_output_range(adjusted as int, 30, ch, 47, 160);
    lemma_map_in_output_range(adjusted as int, ch, 2047, 160, 2047);
    if 30 < ch {
        lemma_map_endpoints(30, ch, 47, 160);
    }
    if ch < 2047 {
        lemma_map_endpoints(ch, 2047, 160, 2047);
    }
}

/// Servo bidirectional throttle, plain or RC-car, for a request along the current
/// direction with the brake off: below the dead band more reverse stick gives more
/// throttle, full reverse (0) giving 2047; above it the throttle rises with the
/// stick to 2047 at 2000 (both ends reached while the doubled dead band is under
/// 1000). Two calls with raw inputs `x1 <= x2` compare so.
pub proof fn lemma_servo_throttle_shape(x1: u16, x2: u16, forward: bool, dir_reversed: bool, commutation_interval: u32, duty_cycle: u16, stepper_sine: bool, reverse_speed_threshold: u16, dead_band: u16)
    requires
        x1 <= x2,
        1000 + dead_band2(dead_band) <= u16::MAX,
    ensures
        ({
            let db2 = dead_band2(dead_band);
            let a1 = servo_bidir_spec(x1, forward, dir_reversed, commutation_interval, duty_cycle, stepper_sine, reverse_speed_threshold, dead_band).adjusted;
            let a2 = servo_bidir_spec(x2, forward, dir_reversed, commutation_interval, duty_cycle, stepper_sine, reverse_speed_threshold, dead_band).adjusted;
            let c1 = servo_rc_car_spec(x1, forward, dir_reversed, false, false, dead_band).adjusted;
            let c2 = servo_rc_car_spec(x2, forward, dir_reversed, false, false, dead_band).adjusted;
            &&& forward == dir_reversed && x2 + db2 < 1000 ==> 47 <= a2 <= a1 <= 2047 && a2 == c2 && a1 == c1
            &&& forward == dir_reversed && x1 == 0 && db2 < 1000 ==> a1 == 2047 && c1 == 2047
            &&& forward == !dir_reversed && x1 > 1000 + db2 ==> 47 <= a1 <= a2 <= 2047 && a2 == c2 && a1 == c1
            &&& forward == !dir_reversed && x2 >= 2000 && db2 < 1000 ==> a2 == 2047 && c2 == 2047
        }),
{
    let db2: int = dead_band2(dead_band) as int;
    lemma_map_in_output_range(x1 as int, 0, 1000 - db2, 2047, 47);
    lemma_map_in_output_range(x2 as int, 0, 1000 - db2, 2047, 47);
    lemma_map_in_output_range(x1 as int, 1000 + db2, 2000, 47, 2047);
    lemma_map_in_output_range(x2 as int, 1000 + db2, 2000, 47, 2047);
    if db2 < 1000 {
        lemma_map_monotone(x1 as int, x2 as int, 0, 1000 - db2, 2047, 47);
        lemma_map_monotone(x1 as int, x2 as int, 1000 + db2, 2000, 47, 2047);
        lemma_map_endpoints(0, 1000 - db2, 2047, 47);
        lemma_map_endpoints(1000 + db2, 2000, 47, 2047);
        if x2 >= 2000 {
            lemma_map_monotone(2000, x2 as int, 1000 + db2, 2000, 47, 2047);
        }
    } else {
        reveal(map_spec);
    }
}

} // verus!
