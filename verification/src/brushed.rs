//! Brushed motor control: duty cycle with direction on two PWM channels, no BEMF
//! sensing.
use vstd::prelude::*;
use crate::functions::map_spec;

verus! {

/// Brushed motor direction.
#[derive(Clone, Copy, PartialEq, Eq, Debug, Structural)]
pub enum BrushedDirection {
    Forward,
    Reverse,
}

/// Brushed motor control state: the latched direction, and whether it is latched
/// for the current throttle-up.
#[derive(Clone, Copy)]
pub struct BrushedState {
    pub direction: BrushedDirection,
    pub direction_set: bool,
}

impl Default for BrushedState {
    fn default() -> (r: Self)
        ensures
            r.direction == BrushedDirection::Forward,
            !r.direction_set,
    {
        Self { direction: BrushedDirection::Forward, direction_set: false }
    }
}

/// Result of a brushed control tick.
#[derive(Clone, Copy)]
pub struct BrushedOutput {
    /// Duty cycle for the active channel (0-2000 scale).
    pub duty: u16,
    pub direction: BrushedDirection,
}

/// One tick: below 48 no duty and the direction unlatched; bidirectional maps
/// 1048..2047 forward and 1047..48 reverse onto `0..max_duty`, latching the
/// direction at throttle-up; unidirectional maps 48..2047 onto 0..95% of `max_duty`.
pub open spec fn brushed_tick_spec(state: BrushedState, input: u16, bidirectional: bool, max_duty: u16) -> (BrushedState, BrushedOutput) {
    if input < 48 {
        (BrushedState { direction_set: false, ..state }, BrushedOutput { duty: 0, direction: state.direction })
    } else if bidirectional {
        if input >= 1048 {
            let s = if !state.direction_set { BrushedState { direction: BrushedDirection::Forward, direction_set: true } } else { state };
            (s, BrushedOutput { duty: map_spec(input as int, 1048, 2047, 0, max_duty as int) as u16, direction: BrushedDirection::Forward })
        } else {
            let s = if !state.direction_set { BrushedState { direction: BrushedDirection::Reverse, direction_set: true } } else { state };
            (s, BrushedOutput { duty: map_spec(input as int, 1047, 48, 0, max_duty as int) as u16, direction: BrushedDirection::Reverse })
        }
    } else {
        (state, BrushedOutput { duty: map_spec(input as int, 48, 2047, 0, (max_duty * 95) / 100) as u16, direction: BrushedDirection::Forward })
    }
}

/// Run one tick of the brushed control loop.
pub fn brushed_tick(state: &mut BrushedState, input: u16, bidirectional: bool, max_duty: u16) -> (r: BrushedOutput)
    ensures
        (*final(state), r) == brushed_tick_spec(*old(state), input, bidirectional, max_duty),
        r.duty <= max_duty,
{
    proof {
        crate::functions::lemma_map_in_output_range(input as int, 1048, 2047, 0, max_duty as int);
        crate::functions::lemma_map_in_output_range(input as int, 1047, 48, 0, max_duty as int);
        crate::functions::lemma_map_in_output_range(input as int, 48, 2047, 0, (max_duty * 95) / 100);
    }
    if input < 48 {
        state.direction_set = false;
        return BrushedOutput { duty: 0, direction: state.direction };
    }
    if bidirectional {
        if input >= 1048 {
            if !state.direction_set {
                state.direction = BrushedDirection::Forward;
                state.direction_set = true;
            }
            let duty = crate::functions::map(input as i32, 1048, 2047, 0, max_duty as i32) as u16;
            BrushedOutput { duty, direction: BrushedDirection::Forward }
        } else {
            if !state.direction_set {
                state.direction = BrushedDirection::Reverse;
                state.direction_set = true;
            }
            let duty = crate::functions::map(input as i32, 1047, 48, 0, max_duty as i32) as u16;
            BrushedOutput { duty, direction: BrushedDirection::Reverse }
        }
    } else {
        let duty = crate::functions::map(input as i32, 48, 2047, 0, (max_duty as i32 * 95) / 100) as u16;
        BrushedOutput { duty, direction: BrushedDirection::Forward }
    }
}

} // verus!
