//! Motor state machine: Disarmed -> Armed -> StepperSine -> OldRoutine -> Running.
use vstd::prelude::*;

verus! {

/// Motor operating mode.
#[derive(Clone, Copy, PartialEq, Eq, Structural, Debug)]
pub enum MotorMode {
    /// Not armed. Waiting for input signal detection + zero throttle timeout.
    Disarmed,
    /// Armed, not running. Ready to accept throttle.
    Armed,
    /// Sinusoidal startup (open-loop phase stepping).
    StepperSine,
    /// BEMF polling mode. Transitional startup phase.
    OldRoutine,
    /// Normal running: interrupt-driven BEMF zero-cross detection.
    Running,
}

/// The number that encodes each mode, in the order of the progression.
pub open spec fn mode_code(m: MotorMode) -> u8 {
    match m {
        MotorMode::Disarmed => 0,
        MotorMode::Armed => 1,
        MotorMode::StepperSine => 2,
        MotorMode::OldRoutine => 3,
        MotorMode::Running => 4,
    }
}

/// The mode a stored number decodes to; unknown numbers decode to Disarmed.
pub open spec fn mode_from_code(v: u8) -> MotorMode {
    if v == 1 {
        MotorMode::Armed
    } else if v == 2 {
        MotorMode::StepperSine
    } else if v == 3 {
        MotorMode::OldRoutine
    } else if v == 4 {
        MotorMode::Running
    } else {
        MotorMode::Disarmed
    }
}

/// Motor state transition events.
#[derive(Clone, Copy, Debug, PartialEq, Eq, Structural)]
pub enum MotorEvent {
    /// Input detected, zero throttle confirmed: Disarmed -> Armed
    Arm,
    /// Safety disarm (timeout, error, LVC): any -> Disarmed
    Disarm,
    /// Throttle applied: Armed -> OldRoutine
    StartMotor,
    /// Throttle zero or desync: Running/OldRoutine -> Armed
    StopMotor,
    /// Enter sinusoidal startup: Armed -> StepperSine
    EnterSine,
    /// Sine changeover: StepperSine -> OldRoutine
    ExitSine,
    /// Enough zero-crosses: OldRoutine -> Running
    BemfLocked,
    /// Desync fallback: Running -> OldRoutine
    DesyncFallback,
}

/// The transition table; any pair not listed leaves the mode unchanged.
pub open spec fn transition_spec(m: MotorMode, e: MotorEvent) -> MotorMode {
    match (m, e) {
        (MotorMode::Disarmed, MotorEvent::Arm) => MotorMode::Armed,
        (_, MotorEvent::Disarm) => MotorMode::Disarmed,
        (MotorMode::Armed, MotorEvent::StartMotor) => MotorMode::OldRoutine,
        (MotorMode::OldRoutine, MotorEvent::StopMotor) => MotorMode::Armed,
        (MotorMode::Running, MotorEvent::StopMotor) => MotorMode::Armed,
        (MotorMode::Armed, MotorEvent::EnterSine) => MotorMode::StepperSine,
        (MotorMode::StepperSine, MotorEvent::ExitSine) => MotorMode::OldRoutine,
        (MotorMode::OldRoutine, MotorEvent::BemfLocked) => MotorMode::Running,
        (MotorMode::Running, MotorEvent::DesyncFallback) => MotorMode::OldRoutine,
        _ => m,
    }
}

impl MotorMode {
    pub fn from_u8(v: u8) -> (r: Self)
        ensures
            r == mode_from_code(v),
    {
        match v {
            0 => MotorMode::Disarmed,
            1 => MotorMode::Armed,
            2 => MotorMode::StepperSine,
            3 => MotorMode::OldRoutine,
            4 => MotorMode::Running,
            _ => MotorMode::Disarmed,
        }
    }

    /// The number that encodes this mode.
    pub fn to_u8(self) -> (r: u8)
        ensures
            r == mode_code(self),
    {
        match self {
            MotorMode::Disarmed => 0,
            MotorMode::Armed => 1,
            MotorMode::StepperSine => 2,
            MotorMode::OldRoutine => 3,
            MotorMode::Running => 4,
        }
    }

    pub fn is_armed(self) -> (r: bool)
        ensures
            r == (mode_code(self) >= 1),
    {
        !matches!(self, MotorMode::Disarmed)
    }

    pub fn is_running(self) -> (r: bool)
        ensures
            r == (self == MotorMode::OldRoutine || self == MotorMode::Running),
    {
        matches!(self, MotorMode::OldRoutine | MotorMode::Running)
    }

    pub fn is_old_routine(self) -> (r: bool)
        ensures
            r == (self == MotorMode::OldRoutine),
    {
        matches!(self, MotorMode::OldRoutine)
    }

    pub fn is_stepper_sine(self) -> (r: bool)
        ensures
            r == (self == MotorMode::StepperSine),
    {
        matches!(self, MotorMode::StepperSine)
    }

    /// Apply a state transition event. Invalid transitions leave the mode unchanged.
    pub fn transition(self, event: MotorEvent) -> (r: Self)
        ensures
            r == transition_spec(self, event),
    {
        match (self, event) {
            (MotorMode::Disarmed, MotorEvent::Arm) => MotorMode::Armed,
            (_, MotorEvent::Disarm) => MotorMode::Disarmed,
            (MotorMode::Armed, MotorEvent::StartMotor) => MotorMode::OldRoutine,
            (MotorMode::OldRoutine, MotorEvent::StopMotor) => MotorMode::Armed,
            (MotorMode::Running, MotorEvent::StopMotor) => MotorMode::Armed,
            (MotorMode::Armed, MotorEvent::EnterSine) => MotorMode::StepperSine,
            (MotorMode::StepperSine, MotorEvent::ExitSine) => MotorMode::OldRoutine,
            (MotorMode::OldRoutine, MotorEvent::BemfLocked) => MotorMode::Running,
            (MotorMode::Running, MotorEvent::DesyncFallback) => MotorMode::OldRoutine,
            _ => self,
        }
    }
}

/// Decoding the code of a mode gives the mode back; every code above 4 decodes to Disarmed.
pub proof fn lemma_code_roundtrip(m: MotorMode, v: u8)
    ensures
        mode_from_code(mode_code(m)) == m,
        v <= 4 ==> mode_code(mode_from_code(v)) == v,
        v > 4 ==> mode_from_code(v) == MotorMode::Disarmed,
{
}

/// A running mode is always an armed mode.
pub proof fn lemma_running_implies_armed(m: MotorMode)
    ensures
        (m == MotorMode::OldRoutine || m == MotorMode::Running) ==> mode_code(m) >= 1,
{
}

/// Disarm reaches Disarmed from every mode, and the only way out of Disarmed is Arm,
/// which leads to Armed.
pub proof fn lemma_disarm_safety(m: MotorMode, e: MotorEvent)
    ensures
        transition_spec(m, MotorEvent::Disarm) == MotorMode::Disarmed,
        m == MotorMode::Disarmed && e != MotorEvent::Arm ==> transition_spec(m, e) == MotorMode::Disarmed,
        transition_spec(MotorMode::Disarmed, MotorEvent::Arm) == MotorMode::Armed,
{
}

/// The motor can only start running from Armed (by StartMotor) or from sine startup
/// (by ExitSine): no event leads from Disarmed straight to a running mode.
pub proof fn lemma_start_requires_armed(m: MotorMode, e: MotorEvent)
    requires
        m == MotorMode::Disarmed || m == MotorMode::Armed || m == MotorMode::StepperSine,
        transition_spec(m, e) == MotorMode::OldRoutine || transition_spec(m, e) == MotorMode::Running,
    ensures
        (m == MotorMode::Armed && e == MotorEvent::StartMotor) || (m == MotorMode::StepperSine && e
            == MotorEvent::ExitSine),
{
}

} // verus!
