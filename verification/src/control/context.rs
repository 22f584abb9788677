//! The motor state and hardware bundle handed to the interrupt entry points.
use vstd::prelude::*;
use crate::commutation::Commutation;
use crate::config::EepromConfig;
use crate::control::isr_logic::TickCounters;
use crate::control::state::{BemfState, DutyState};
use crate::control::tick::ControlHal;
use crate::shared_comm::SharedComm;

verus! {

/// Motor state, shared state and hardware for the interrupt entry points.
pub struct MotorContext<'a, S: SharedComm, H: ControlHal> {
    pub commutation: &'a mut Commutation,
    pub bemf: &'a mut BemfState,
    pub duty: &'a mut DutyState,
    pub config: &'a EepromConfig,
    pub counters: &'a mut TickCounters,
    pub shared: &'a mut S,
    pub hal: &'a mut H,
}

} // verus!
