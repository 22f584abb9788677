//! Fixed duty / fixed speed bench modes: they bypass signal detection and run the
//! motor at a constant duty cycle or target speed.
use vstd::prelude::*;

verus! {

/// Fixed duty mode: `power` (0-100 percent) maps to input `power * 20 + 47`.
pub fn fixed_duty_input(power: u8) -> (r: u16)
    ensures
        r == power * 20 + 47,
{
    power as u16 * 20 + 47
}

/// The pole count used: the configured one, or 14 below 2.
pub open spec fn effective_poles(motor_poles: u8) -> int {
    if motor_poles < 2 { 14 } else { motor_poles as int }
}

/// Fixed speed mode: the target electrical commutation time
/// `60_000_000 / rpm / (poles / 2)` for a mechanical `rpm`.
pub fn fixed_speed_target(rpm: u32, motor_poles: u8) -> (r: u32)
    requires
        rpm > 0,
    ensures
        r == 60_000_000int / (rpm as int) / (effective_poles(motor_poles) / 2),
{
    let poles = if motor_poles < 2 { 14 } else { motor_poles as u32 };
    60_000_000 / rpm / (poles / 2)
}

} // verus!
