//! Throttle input processing on the motor state: bidirectional and RC-car
//! mapping, the stuck-rotor latch, sine-start mapping, start/stop/brake decisions
//! and the setpoint limits.
use vstd::prelude::*;
use crate::commutation::Commutation;
use crate::control::state::{MotorState, TimingState, DutyState, MotorInput, ProtectionState};
use crate::control::tick::{ControlHal, commutate_ok, start_motor_calls, start_motor_spec};
use crate::hal::{HalCall, HalLog};
use crate::functions::{map_spec, sat_sub_u16};
use crate::input_mapping::{bidir_scale, bidir_scale_exec, servo_map, servo_map_spec};

verus! {

/// Direction reversal is allowed when the motor turns slowly at low duty, or during
/// sine startup.
pub open spec fn can_reverse(s: MotorState) -> bool {
    (s.timing.commutation_interval > s.reverse_speed_threshold as u32 && s.duty.cycle < 200) || s.stepper_sine
}

pub open spec fn with_adjusted(s: MotorState, adjusted: u16) -> MotorState {
    MotorState { input: MotorInput { adjusted, ..s.input }, ..s }
}

/// Reverse to `new_forward` (restarting the zero-cross count in polling mode) if
/// allowed; otherwise replace the raw input by `blocked_input`.
#[verifier::opaque]
pub open spec fn try_reverse(s: MotorState, new_forward: bool, blocked_input: u16) -> MotorState {
    if can_reverse(s) {
        MotorState {
            commutation: Commutation { forward: new_forward, ..s.commutation },
            timing: TimingState { zero_crosses: 0, ..s.timing },
            old_routine: true,
            ..s
        }
    } else {
        MotorState { input: MotorInput { newinput: blocked_input, ..s.input }, ..s }
    }
}

/// One half of the DShot bidirectional range: reverse first if the request is
/// against the current direction (a refused reversal drops the raw input to 0),
/// then scale the raw input from `base`.
#[verifier::opaque]
pub open spec fn dshot_half_spec(s: MotorState, wrong_direction: bool, new_forward: bool, base: u16) -> MotorState {
    let s1 = if wrong_direction { try_reverse(s, new_forward, 0) } else { s };
    with_adjusted(s1, bidir_scale(s1.input.newinput, base))
}

/// DShot bidirectional mapping: 1048-2047 forward, 48-1047 reverse; a request
/// against the current direction reverses only when allowed.
#[verifier::opaque]
pub open spec fn dshot_bidir_spec(s: MotorState) -> MotorState {
    let x = s.input.newinput;
    let rev = s.config.dir_reversed != 0;
    if x > 1047 {
        dshot_half_spec(s, s.commutation.forward == rev, !rev, 1048)
    } else if x > 47 {
        dshot_half_spec(s, s.commutation.forward == !rev, rev, 48)
    } else {
        with_adjusted(s, 0)
    }
}

/// One half of the servo bidirectional range: reverse if needed (holding the raw
/// input at the centre when reversal is refused), then map the raw input.
#[verifier::opaque]
pub open spec fn servo_half_spec(s: MotorState, wrong_direction: bool, new_forward: bool, upper: bool) -> MotorState {
    let s1 = if wrong_direction { try_reverse(s, new_forward, 1000) } else { s };
    with_adjusted(s1, servo_map_spec(s1.input.newinput, upper, servo_db(s)))
}

#[verifier::opaque]
pub open spec fn servo_bidir_spec(s: MotorState) -> MotorState {
    let rev = s.config.dir_reversed != 0;
    let db = servo_db(s);
    let region = servo_region(s.input.newinput, db);
    if region == 2 {
        servo_half_spec(s, s.commutation.forward == rev, !rev, true)
    } else if region == 1 {
        servo_half_spec(s, s.commutation.forward == !rev, rev, false)
    } else {
        with_adjusted(s, 0)
    }
}

/// The doubled servo dead band.
pub open spec fn servo_db(s: MotorState) -> u16 {
    (s.config.servo_dead_band * 2) as u16
}

/// Where a servo input lies: 2 above the dead band, 1 below it, 0 inside.
pub open spec fn servo_region(x: u16, db: u16) -> u8 {
    if x > 1000 + db { 2 } else if x + db < 1000 { 1 } else { 0 }
}

fn servo_region_exec(x: u16, db: u16) -> (r: u8)
    requires
        db <= 510,
    ensures
        r == servo_region(x, db),
{
    if x > 1000 + db {
        2
    } else if x < 1000u16.saturating_sub(db) {
        1
    } else {
        0
    }
}

/// RC-car handling of one half of the range: driving against the current direction
/// brakes (throttle 0) until the stick has returned to centre, after which the
/// direction flips; without the brake, throttle is `value`.
#[verifier::opaque]
pub open spec fn rc_branch(s: MotorState, wrong_direction: bool, new_forward: bool, value: u16) -> MotorState {
    let s1 = if wrong_direction {
        if s.return_to_center {
            MotorState {
                commutation: Commutation { forward: new_forward, ..s.commutation },
                input: MotorInput { adjusted: 0, ..s.input },
                prop_brake_active: false,
                return_to_center: false,
                ..s
            }
        } else {
            MotorState { input: MotorInput { adjusted: 0, ..s.input }, prop_brake_active: true, ..s }
        }
    } else {
        s
    };
    if !s1.prop_brake_active {
        MotorState { input: MotorInput { adjusted: value, ..s1.input }, return_to_center: false, ..s1 }
    } else {
        s1
    }
}

/// Centre position in RC-car mode: throttle 0, and a pending brake turns into
/// "returned to centre".
#[verifier::opaque]
pub open spec fn rc_center(s: MotorState) -> MotorState {
    let s1 = with_adjusted(s, 0);
    if s1.prop_brake_active {
        MotorState { prop_brake_active: false, return_to_center: true, ..s1 }
    } else {
        s1
    }
}

#[verifier::opaque]
pub open spec fn dshot_rc_car_spec(s: MotorState) -> MotorState {
    let x = s.input.newinput;
    let rev = s.config.dir_reversed != 0;
    if x > 1047 {
        rc_branch(s, s.commutation.forward == rev, !rev, bidir_scale(x, 1048))
    } else if x > 47 {
        rc_branch(s, s.commutation.forward == !rev, rev, bidir_scale(x, 48))
    } else {
        rc_center(s)
    }
}

#[verifier::opaque]
pub open spec fn servo_rc_car_spec(s: MotorState) -> MotorState {
    let x = s.input.newinput;
    let rev = s.config.dir_reversed != 0;
    let db: int = s.config.servo_dead_band * 2;
    if x > 1000 + db {
        rc_branch(s, s.commutation.forward == rev, !rev, map_spec(x as int, 1000 + db, 2000, 47, 2047) as u16)
    } else if x + db < 1000 {
        rc_branch(s, s.commutation.forward == !rev, rev, map_spec(x as int, 0, 1000 - db, 2047, 47) as u16)
    } else {
        rc_center(s)
    }
}

/// Throttle mapping stage: bidirectional modes by protocol and RC-car setting,
/// unidirectional input passes through.
#[verifier::opaque]
pub open spec fn input_mapping_spec(s: MotorState) -> MotorState {
    if s.config.bi_direction != 0 {
        if !s.input.dshot {
            if s.config.rc_car_reverse != 0 { servo_rc_car_spec(s) } else { servo_bidir_spec(s) }
        } else {
            if s.config.rc_car_reverse != 0 { dshot_rc_car_spec(s) } else { dshot_bidir_spec(s) }
        }
    } else {
        with_adjusted(s, s.input.newinput)
    }
}

/// Sine-start stage: below 30 nothing, up to the changeover slow stepping (47-160),
/// above it the full range; without sine start (and without speed control) the
/// adjusted input passes through.
pub open spec fn sine_input_value(s: MotorState) -> u16 {
    let a = s.input.adjusted;
    let co = (s.config.sine_mode_changeover_throttle_level * 20) as u16;
    if s.config.use_sine_start != 0 {
        if a < 30 {
            0
        } else if a > 30 && a < co {
            map_spec(a as int, 30, co as int, 47, 160) as u16
        } else if a >= co {
            map_spec(a as int, co as int, 2047, 160, 2047) as u16
        } else {
            s.input.input
        }
    } else if !s.pid.use_speed_control {
        a
    } else {
        s.input.input
    }
}

pub open spec fn sine_input_spec(s: MotorState) -> MotorState {
    MotorState { input: MotorInput { input: sine_input_value(s), ..s.input }, ..s }
}

/// What the input stages leave alone: the settings, the commutation step and the
/// polling changeover.
pub open spec fn input_frame(a: MotorState, b: MotorState) -> bool {
    &&& a.config == b.config
    &&& a.commutation.step == b.commutation.step
    &&& a.timing.polling_mode_changeover == b.timing.polling_mode_changeover
    &&& a.armed == b.armed
    &&& a.running == b.running
    &&& a.duty == b.duty
    &&& a.stepper_sine == b.stepper_sine
    &&& a.protection == b.protection
}

proof fn lemma_rc_branch_frame(s: MotorState, w: bool, f: bool, v: u16)
    ensures
        input_frame(s, rc_branch(s, w, f, v)),
        input_frame(s, rc_center(s)),
{
    reveal(rc_branch);
    reveal(rc_center);
}

proof fn lemma_rc_frame(s: MotorState)
    ensures
        input_frame(s, servo_rc_car_spec(s)),
        input_frame(s, dshot_rc_car_spec(s)),
{
    reveal(servo_rc_car_spec);
    reveal(dshot_rc_car_spec);
    assert forall|w: bool, f: bool, v: u16| #[trigger] input_frame(s, rc_branch(s, w, f, v)) by {
        lemma_rc_branch_frame(s, w, f, v);
    }
    lemma_rc_branch_frame(s, false, false, 0);
}

proof fn lemma_half_frame(s: MotorState, w: bool, f: bool, base: u16, upper: bool)
    ensures
        input_frame(s, dshot_half_spec(s, w, f, base)),
        input_frame(s, servo_half_spec(s, w, f, upper)),
{
    reveal(dshot_half_spec);
    reveal(servo_half_spec);
    reveal(try_reverse);
}

proof fn lemma_bidir_frame(s: MotorState)
    ensures
        input_frame(s, servo_bidir_spec(s)),
        input_frame(s, dshot_bidir_spec(s)),
{
    reveal(servo_bidir_spec);
    reveal(dshot_bidir_spec);
    let rev = s.config.dir_reversed != 0;
    lemma_half_frame(s, s.commutation.forward == rev, !rev, 1048, true);
    lemma_half_frame(s, s.commutation.forward == !rev, rev, 48, false);
}

proof fn lemma_mapping_frame(s: MotorState)
    ensures
        input_frame(s, input_mapping_spec(s)),
{
    reveal(input_mapping_spec);
    lemma_rc_frame(s);
    lemma_bidir_frame(s);
}

/// Throttle above the start threshold: start a stopped motor (from polling mode or
/// through `start_motor`) and set the duty setpoint from the input.
#[verifier::opaque]
pub open spec fn drive_on_spec(s: MotorState) -> MotorState {
    let t = if !s.running {
        let u = if !s.old_routine { start_motor_spec(s) } else { s };
        MotorState { running: true, duty: DutyState { last: u.duty.min_startup, ..u.duty }, ..u }
    } else {
        s
    };
    let sp = if t.config.use_sine_start != 0 {
        map_spec(t.input.input as int, 137, 2047, t.duty.minimum + 40, 2000) as u16
    } else {
        map_spec(t.input.input as int, 47, 2047, t.duty.minimum as int, 2000) as u16
    };
    MotorState {
        duty: DutyState { setpoint: sp, ..t.duty },
        prop_brake_active: if t.config.rc_car_reverse == 0 { false } else { t.prop_brake_active },
        ..t
    }
}

/// Throttle below the start threshold: zero setpoint; a stopped motor restarts in
/// polling mode and, with complementary PWM and drag braking, gets the proportional
/// brake; sine start switches to stepper mode.
#[verifier::opaque]
pub open spec fn drive_off_spec(s: MotorState) -> MotorState {
    let t = MotorState { play_tone_flag: 0, ..s };
    let stopped = MotorState { old_routine: true, timing: TimingState { zero_crosses: 0, ..t.timing }, ..t };
    if t.config.comp_pwm == 0 {
        let u = if !t.running { stopped } else { t };
        MotorState { duty: DutyState { setpoint: 0, ..u.duty }, ..u }
    } else {
        let u = if !t.running {
            if t.config.brake_on_stop > 0 && t.config.use_sine_start == 0 && t.config.brake_on_stop == 1 {
                let pb = (t.config.drag_brake_strength * 200) as u16;
                MotorState {
                    prop_brake_duty_cycle: pb,
                    prop_brake_active: if pb >= 1999 { stopped.prop_brake_active } else { true },
                    ..stopped
                }
            } else {
                stopped
            }
        } else {
            t
        };
        let w = if t.config.use_sine_start == 1 { MotorState { stepper_sine: true, ..u } } else { u };
        MotorState { duty: DutyState { setpoint: 0, ..w.duty }, ..w }
    }
}

/// Setpoint limits (skipped while the proportional brake holds): startup floor and
/// ceiling during the first zero crosses, the duty maximum, and the current limit.
#[verifier::opaque]
pub open spec fn setpoint_limits_spec(s: MotorState) -> MotorState {
    if !s.prop_brake_active {
        let sp0 = s.duty.setpoint;
        let sp1 = if s.input.input >= 47 && s.timing.zero_crosses < (30u32 >> s.config.stall_protection) {
            let a = if sp0 < s.duty.min_startup { s.duty.min_startup } else { sp0 };
            if a > s.duty.startup_max { s.duty.startup_max } else { a }
        } else {
            sp0
        };
        let sp2 = if sp1 > s.duty.maximum { s.duty.maximum } else { sp1 };
        let sp3 = if s.pid.use_current_limit && sp2 > s.pid.current_limit_adjust as u16 {
            s.pid.current_limit_adjust as u16
        } else {
            sp2
        };
        MotorState { duty: DutyState { setpoint: sp3, ..s.duty }, ..s }
    } else {
        s
    }
}

/// Start/stop stage, active only when armed and not in sine stepping.
#[verifier::opaque]
pub open spec fn drive_spec(s: MotorState) -> MotorState {
    let thr = 47 + 80 * s.config.use_sine_start;
    if !s.stepper_sine && s.armed {
        let t = if s.input.input >= thr { drive_on_spec(s) } else { drive_off_spec(s) };
        setpoint_limits_spec(t)
    } else {
        s
    }
}

/// The whole input step: mapping, stuck-rotor latch (input forced to 0), sine
/// mapping, start/stop and setpoint limits.
pub open spec fn set_input_spec(s: MotorState) -> MotorState {
    after_mapping_spec(input_mapping_spec(s))
}

/// The stages after the mapping: the stuck-rotor latch, or sine mapping followed
/// by start/stop and the setpoint limits.
#[verifier::opaque]
pub open spec fn after_mapping_spec(s1: MotorState) -> MotorState {
    if s1.protection.bemf_timeout_happened > s1.protection.bemf_timeout && s1.config.stuck_rotor_protection != 0 {
        MotorState {
            input: MotorInput { input: 0, ..s1.input },
            protection: ProtectionState { bemf_timeout_happened: crate::constants::BEMF_FAULT_LATCHED, ..s1.protection },
            ..s1
        }
    } else {
        drive_spec(sine_input_spec(s1))
    }
}

/// Whether a latched stuck-rotor fault holds the input at zero.
pub open spec fn stuck_rotor_latched(s: MotorState) -> bool {
    s.protection.bemf_timeout_happened > s.protection.bemf_timeout && s.config.stuck_rotor_protection != 0
}

/// Whether the drive stage starts the motor through `start_motor`: armed, not
/// sine stepping, throttle above the start threshold, stopped and not polling.
pub open spec fn drive_starts(s: MotorState) -> bool {
    &&& !s.stepper_sine
    &&& s.armed
    &&& s.input.input >= 47 + 80 * s.config.use_sine_start
    &&& !s.running
    &&& !s.old_routine
}

/// Whether the input step starts the motor.
pub open spec fn set_input_starts(s: MotorState) -> bool {
    let s1 = input_mapping_spec(s);
    !stuck_rotor_latched(s1) && drive_starts(sine_input_spec(s1))
}

/// What the input step asks: a valid commutation state when it starts the motor,
/// a raw DShot bidirectional input small enough to scale, and a stall protection
/// shift below 32.
pub open spec fn set_input_ok(s: MotorState) -> bool {
    &&& set_input_starts(s) ==> commutate_ok(s)
    &&& (s.config.bi_direction != 0 && s.input.dshot ==> s.input.newinput <= 33792)
    &&& s.config.stall_protection < 32
}


/// Board commands of a reversal attempt: comparator interrupts masked when the
/// reversal is taken.
pub open spec fn try_reverse_calls(s: MotorState) -> Seq<HalCall> {
    if can_reverse(s) { seq![HalCall::MaskComparatorInterrupts] } else { Seq::empty() }
}

/// Whether a bidirectional DShot input asks against the current direction.
pub open spec fn dshot_wrong_direction(s: MotorState) -> bool {
    let x = s.input.newinput;
    let rev = s.config.dir_reversed != 0;
    (x > 1047 && s.commutation.forward == rev) || (47 < x <= 1047 && s.commutation.forward == !rev)
}

/// Whether a bidirectional servo input asks against the current direction.
pub open spec fn servo_wrong_direction(s: MotorState) -> bool {
    let region = servo_region(s.input.newinput, servo_db(s));
    let rev = s.config.dir_reversed != 0;
    (region == 2 && s.commutation.forward == rev) || (region == 1 && s.commutation.forward == !rev)
}

/// Board commands of the bidirectional DShot or servo mapping.
pub open spec fn bidir_calls(s: MotorState, wrong_direction: bool) -> Seq<HalCall> {
    if wrong_direction { try_reverse_calls(s) } else { Seq::empty() }
}

/// Board commands of the mapping stage: only the non RC-car bidirectional
/// mappings may reverse.
pub open spec fn mapping_calls(s: MotorState) -> Seq<HalCall> {
    if s.config.bi_direction != 0 && s.config.rc_car_reverse == 0 {
        bidir_calls(s, if s.input.dshot { dshot_wrong_direction(s) } else { servo_wrong_direction(s) })
    } else {
        Seq::empty()
    }
}

/// Board commands of starting to drive: a stopped motor has its outputs switched
/// off and, outside polling mode, is started.
pub open spec fn drive_on_calls(s: MotorState) -> Seq<HalCall> {
    if !s.running {
        seq![HalCall::AllOff] + (if !s.old_routine { start_motor_calls(s) } else { Seq::empty() })
    } else {
        Seq::empty()
    }
}

/// Board commands of stopping: a stopped motor is braked fully, braked
/// proportionally (drag brake below full strength), or switched off, by the
/// brake-on-stop settings.
pub open spec fn drive_off_calls(s: MotorState) -> Seq<HalCall> {
    if s.running {
        Seq::empty()
    } else if s.config.comp_pwm == 0 {
        if s.config.brake_on_stop != 0 {
            seq![HalCall::FullBrake]
        } else if !s.prop_brake_active {
            seq![HalCall::AllOff]
        } else {
            Seq::empty()
        }
    } else if s.config.brake_on_stop > 0 {
        if s.config.use_sine_start == 0 && s.config.brake_on_stop == 1 {
            if s.config.drag_brake_strength * 200 >= 1999 { seq![HalCall::FullBrake] } else { seq![HalCall::ProportionalBrake] }
        } else {
            Seq::empty()
        }
    } else {
        seq![HalCall::AllOff]
    }
}

/// Board commands of the drive stage (armed, not sine stepping).
pub open spec fn drive_calls(s: MotorState) -> Seq<HalCall> {
    if !s.stepper_sine && s.armed {
        if s.input.input >= 47 + 80 * s.config.use_sine_start { drive_on_calls(s) } else { drive_off_calls(s) }
    } else {
        Seq::empty()
    }
}

/// Board commands after the mapping: a latched stuck rotor switches the outputs
/// off and masks comparator interrupts; otherwise those of the drive stage.
pub open spec fn after_mapping_calls(s1: MotorState) -> Seq<HalCall> {
    if s1.protection.bemf_timeout_happened > s1.protection.bemf_timeout && s1.config.stuck_rotor_protection != 0 {
        seq![HalCall::AllOff, HalCall::MaskComparatorInterrupts]
    } else {
        drive_calls(sine_input_spec(s1))
    }
}

/// Board commands of the whole input step.
pub open spec fn set_input_calls(s: MotorState) -> Seq<HalCall> {
    mapping_calls(s) + after_mapping_calls(input_mapping_spec(s))
}

impl MotorState {
    fn try_reverse<H: ControlHal>(&mut self, hal: &mut H, new_forward: bool, blocked_input: u16)
        ensures
            *final(self) == try_reverse(*old(self), new_forward, blocked_input),
            final(self).input.newinput == old(self).input.newinput || final(self).input.newinput == blocked_input,
            final(hal).hal_calls() == old(hal).hal_calls() + try_reverse_calls(*old(self)),
    {
        proof { reveal(try_reverse); }
        if (self.timing.commutation_interval > self.reverse_speed_threshold as u32 && self.duty.cycle < 200)
            || self.stepper_sine
        {
            self.commutation.forward = new_forward;
            self.timing.zero_crosses = 0;
            self.old_routine = true;
            hal.mask_interrupts();
        } else {
            self.input.newinput = blocked_input;
        }
    }

    fn dshot_half<H: ControlHal>(&mut self, hal: &mut H, wrong_direction: bool, new_forward: bool, base: u16)
        requires
            sat_sub_u16(old(self).input.newinput, base) * 2 + 47 <= u16::MAX,
        ensures
            *final(self) == dshot_half_spec(*old(self), wrong_direction, new_forward, base),
            final(hal).hal_calls() == old(hal).hal_calls() + (if wrong_direction { try_reverse_calls(*old(self)) } else { Seq::empty() }),
    {
        proof { reveal(dshot_half_spec); }
        if wrong_direction {
            self.try_reverse(hal, new_forward, 0);
        }
        let v = bidir_scale_exec(self.input.newinput, base);
        self.input.adjusted = v;
    }

    fn set_input_dshot_bidir<H: ControlHal>(&mut self, hal: &mut H)
        requires
            old(self).input.newinput <= 33792,
        ensures
            *final(self) == dshot_bidir_spec(*old(self)),
            final(hal).hal_calls() == old(hal).hal_calls() + bidir_calls(*old(self), dshot_wrong_direction(*old(self))),
    {
        proof { reveal(dshot_bidir_spec); }
        let rev = self.config.dir_reversed != 0;
        if self.input.newinput > 1047 {
            let w = self.commutation.forward == rev;
            self.dshot_half(hal, w, !rev, 1048);
        } else if self.input.newinput > 47 {
            let w = self.commutation.forward == !rev;
            self.dshot_half(hal, w, rev, 48);
        } else {
            self.input.adjusted = 0;
        }
    }

    fn servo_half<H: ControlHal>(&mut self, hal: &mut H, wrong_direction: bool, new_forward: bool, upper: bool)
        ensures
            *final(self) == servo_half_spec(*old(self), wrong_direction, new_forward, upper),
            final(hal).hal_calls() == old(hal).hal_calls() + (if wrong_direction { try_reverse_calls(*old(self)) } else { Seq::empty() }),
    {
        proof { reveal(servo_half_spec); }
        let db = (self.config.servo_dead_band as u16) * 2;
        if wrong_direction {
            self.try_reverse(hal, new_forward, 1000);
        }
        let v = servo_map(self.input.newinput, upper, db);
        self.input.adjusted = v;
    }

    #[verifier::rlimit(60)]
    fn set_input_servo_bidir<H: ControlHal>(&mut self, hal: &mut H)
        ensures
            *final(self) == servo_bidir_spec(*old(self)),
            final(hal).hal_calls() == old(hal).hal_calls() + bidir_calls(*old(self), servo_wrong_direction(*old(self))),
    {
        proof { reveal(servo_bidir_spec); }
        let rev = self.config.dir_reversed != 0;
        let dead_band = (self.config.servo_dead_band as u16) * 2;
        assert(dead_band == servo_db(*self));
        let region = servo_region_exec(self.input.newinput, dead_band);
        if region == 2 {
            let w = self.commutation.forward == rev;
            self.servo_half(hal, w, !rev, true);
        } else if region == 1 {
            let w = self.commutation.forward == !rev;
            self.servo_half(hal, w, rev, false);
        } else {
            self.input.adjusted = 0;
        }
    }

    fn rc_branch(&mut self, wrong_direction: bool, new_forward: bool, value: u16)
        ensures
            *final(self) == rc_branch(*old(self), wrong_direction, new_forward, value),
    {
        proof { reveal(rc_branch); }
        if wrong_direction {
            self.input.adjusted = 0;
            self.prop_brake_active = true;
            if self.return_to_center {
                self.commutation.forward = new_forward;
                self.prop_brake_active = false;
                self.return_to_center = false;
            }
        }
        if !self.prop_brake_active {
            self.return_to_center = false;
            self.input.adjusted = value;
        }
    }

    fn rc_center(&mut self)
        ensures
            *final(self) == rc_center(*old(self)),
    {
        proof { reveal(rc_center); }
        self.input.adjusted = 0;
        if self.prop_brake_active {
            self.prop_brake_active = false;
            self.return_to_center = true;
        }
    }

    fn set_input_dshot_rc_car(&mut self)
        requires
            old(self).input.newinput <= 33792,
        ensures
            *final(self) == dshot_rc_car_spec(*old(self)),
    {
        proof { reveal(dshot_rc_car_spec); }
        let rev = self.config.dir_reversed != 0;
        let x = self.input.newinput;
        if x > 1047 {
            let v = bidir_scale_exec(x, 1048);
            self.rc_branch(self.commutation.forward == rev, !rev, v);
        } else if x > 47 {
            let v = bidir_scale_exec(x, 48);
            self.rc_branch(self.commutation.forward == !rev, rev, v);
        } else {
            self.rc_center();
        }
    }

    fn set_input_servo_rc_car(&mut self)
        ensures
            *final(self) == servo_rc_car_spec(*old(self)),
    {
        proof { reveal(servo_rc_car_spec); }
        let rev = self.config.dir_reversed != 0;
        let dead_band = (self.config.servo_dead_band as u16) * 2;
        let x = self.input.newinput;
        if x > 1000 + dead_band {
            let v = crate::functions::map(x as i32, (1000 + dead_band) as i32, 2000, 47, 2047) as u16;
            self.rc_branch(self.commutation.forward == rev, !rev, v);
        } else if x < 1000u16.saturating_sub(dead_band) {
            let v = crate::functions::map(x as i32, 0, 1000i32 - dead_band as i32, 2047, 47) as u16;
            self.rc_branch(self.commutation.forward == !rev, rev, v);
        } else {
            self.rc_center();
        }
    }

    fn drive_on<H: ControlHal>(&mut self, hal: &mut H)
        requires
            !old(self).running && !old(self).old_routine ==> commutate_ok(*old(self)),
        ensures
            *final(self) == drive_on_spec(*old(self)),
            final(self).config == old(self).config,
            final(hal).hal_calls() == old(hal).hal_calls() + drive_on_calls(*old(self)),
    {
        proof { reveal(drive_on_spec); }
        if !self.running {
            hal.all_off();
            if !self.old_routine {
                self.start_motor(hal);
            }
            self.running = true;
            self.duty.last = self.duty.min_startup;
        }
        self.duty.setpoint = if self.config.use_sine_start != 0 {
            crate::functions::map(self.input.input as i32, 137, 2047, self.duty.minimum as i32 + 40, 2000) as u16
        } else {
            crate::functions::map(self.input.input as i32, 47, 2047, self.duty.minimum as i32, 2000) as u16
        };
        if self.config.rc_car_reverse == 0 {
            self.prop_brake_active = false;
        }
    }

    fn drive_off<H: ControlHal>(&mut self, hal: &mut H)
        ensures
            *final(self) == drive_off_spec(*old(self)),
            final(self).config == old(self).config,
            final(hal).hal_calls() == old(hal).hal_calls() + drive_off_calls(*old(self)),
    {
        proof { reveal(drive_off_spec); }
        if self.play_tone_flag != 0 {
            self.play_tone_flag = 0;
        }
        if self.config.comp_pwm == 0 {
            self.duty.setpoint = 0;
            if !self.running {
                self.old_routine = true;
                self.timing.zero_crosses = 0;
                if self.config.brake_on_stop != 0 {
                    hal.full_brake();
                } else if !self.prop_brake_active {
                    hal.all_off();
                }
            }
        } else {
            if !self.running {
                self.old_routine = true;
                self.timing.zero_crosses = 0;
                if self.config.brake_on_stop > 0 {
                    if self.config.use_sine_start == 0 && self.config.brake_on_stop == 1 {
                        self.prop_brake_duty_cycle = self.config.drag_brake_strength as u16 * 200;
                        if self.prop_brake_duty_cycle >= 1999 {
                            hal.full_brake();
                        } else {
                            hal.proportional_brake();
                            self.prop_brake_active = true;
                        }
                    }
                } else {
                    hal.all_off();
                }
                self.duty.setpoint = 0;
            }
            if self.config.use_sine_start == 1 {
                self.stepper_sine = true;
            }
            self.duty.setpoint = 0;
        }
    }

    fn setpoint_limits(&mut self)
        requires
            old(self).config.stall_protection < 32,
        ensures
            *final(self) == setpoint_limits_spec(*old(self)),
    {
        proof { reveal(setpoint_limits_spec); }
        if !self.prop_brake_active {
            if self.input.input >= 47 && self.timing.zero_crosses < (30u32 >> self.config.stall_protection) {
                if self.duty.setpoint < self.duty.min_startup {
                    self.duty.setpoint = self.duty.min_startup;
                }
                if self.duty.setpoint > self.duty.startup_max {
                    self.duty.setpoint = self.duty.startup_max;
                }
            }
            if self.duty.setpoint > self.duty.maximum {
                self.duty.setpoint = self.duty.maximum;
            }
            if self.pid.use_current_limit && self.duty.setpoint > self.pid.current_limit_adjust as u16 {
                self.duty.setpoint = self.pid.current_limit_adjust as u16;
            }
        }
    }

    /// Process throttle input: bidirectional mapping, stuck-rotor protection,
    /// sine-start mapping, motor start/stop/brake and the setpoint limits.
    fn map_input<H: ControlHal>(&mut self, hal: &mut H)
        requires
            old(self).config.bi_direction != 0 && old(self).input.dshot ==> old(self).input.newinput <= 33792,
        ensures
            *final(self) == input_mapping_spec(*old(self)),
            final(hal).hal_calls() == old(hal).hal_calls() + mapping_calls(*old(self)),
    {
        proof { reveal(input_mapping_spec); }
        if self.config.bi_direction != 0 {
            if !self.input.dshot {
                if self.config.rc_car_reverse != 0 {
                    self.set_input_servo_rc_car();
                } else {
                    self.set_input_servo_bidir(hal);
                }
            } else {
                if self.config.rc_car_reverse != 0 {
                    self.set_input_dshot_rc_car();
                } else {
                    self.set_input_dshot_bidir(hal);
                }
            }
        } else {
            self.input.adjusted = self.input.newinput;
        }
    }

    fn sine_input_value(&self) -> (r: u16)
        ensures
            r == sine_input_value(*self),
    {
        if self.config.use_sine_start != 0 {
            let changeover = (self.config.sine_mode_changeover_throttle_level as u16) * 20;
            let a = self.input.adjusted;
            if a < 30 {
                0
            } else if a > 30 && a < changeover {
                crate::functions::map(a as i32, 30, changeover as i32, 47, 160) as u16
            } else if a >= changeover {
                crate::functions::map(a as i32, changeover as i32, 2047, 160, 2047) as u16
            } else {
                self.input.input
            }
        } else if !self.pid.use_speed_control {
            self.input.adjusted
        } else {
            self.input.input
        }
    }

    fn drive<H: ControlHal>(&mut self, hal: &mut H)
        requires
            drive_starts(*old(self)) ==> commutate_ok(*old(self)),
            old(self).config.stall_protection < 32,
        ensures
            *final(self) == drive_spec(*old(self)),
            final(hal).hal_calls() == old(hal).hal_calls() + drive_calls(*old(self)),
    {
        proof { reveal(drive_spec); }
        let ghost s0 = *self;
        let threshold = 47 + 80 * self.config.use_sine_start as u16;
        if !self.stepper_sine && self.armed {
            if self.input.input >= threshold {
                self.drive_on(hal);
            } else {
                self.drive_off(hal);
            }
            assert(*self == (if s0.input.input >= threshold { drive_on_spec(s0) } else { drive_off_spec(s0) }));
            self.setpoint_limits();
        }
    }

    #[verifier::rlimit(40)]
    fn after_mapping<H: ControlHal>(&mut self, hal: &mut H)
        requires
            !stuck_rotor_latched(*old(self)) && drive_starts(sine_input_spec(*old(self))) ==> commutate_ok(*old(self)),
            old(self).config.stall_protection < 32,
        ensures
            *final(self) == after_mapping_spec(*old(self)),
            final(hal).hal_calls() == old(hal).hal_calls() + after_mapping_calls(*old(self)),
    {
        proof { reveal(after_mapping_spec); }
        if self.protection.bemf_timeout_happened > self.protection.bemf_timeout
            && self.config.stuck_rotor_protection != 0
        {
            hal.all_off();
            hal.mask_interrupts();
            assert(hal.hal_calls() =~= old(hal).hal_calls() + after_mapping_calls(*old(self)));
            self.input.input = 0;
            self.protection.bemf_timeout_happened = crate::constants::BEMF_FAULT_LATCHED;
            return;
        }
        let v = self.sine_input_value();
        self.input.input = v;
        self.drive(hal);
    }

    /// Process throttle input: bidirectional mapping, stuck-rotor protection,
    /// sine-start mapping, motor start/stop/brake and the setpoint limits.
    pub fn set_input<H: ControlHal>(&mut self, hal: &mut H)
        requires
            set_input_ok(*old(self)),
        ensures
            *final(self) == set_input_spec(*old(self)),
            final(hal).hal_calls() == old(hal).hal_calls() + set_input_calls(*old(self)),
    {
        proof {
            lemma_mapping_frame(*old(self));
        }
        self.map_input(hal);
        self.after_mapping(hal);
    }
}

/// A disarmed ESC never starts the motor and never changes the duty setpoint,
/// whatever the input.
pub proof fn lemma_disarmed_never_starts(s: MotorState)
    requires
        !s.armed,
    ensures
        set_input_spec(s).running == s.running,
        set_input_spec(s).duty.setpoint == s.duty.setpoint,
        !set_input_spec(s).armed,
{
    lemma_mapping_frame(s);
    reveal(after_mapping_spec);
    reveal(drive_spec);
}

/// With stuck-rotor protection on, a latched BEMF timeout forces zero throttle and
/// keeps the fault latched, whatever the input.
pub proof fn lemma_stuck_rotor_cuts_throttle(s: MotorState)
    requires
        s.protection.bemf_timeout_happened > s.protection.bemf_timeout,
        s.config.stuck_rotor_protection != 0,
    ensures
        set_input_spec(s).input.input == 0,
        set_input_spec(s).protection.bemf_timeout_happened == crate::constants::BEMF_FAULT_LATCHED,
        set_input_spec(s).running == s.running,
{
    lemma_mapping_frame(s);
    reveal(after_mapping_spec);
}

/// An armed ESC outside sine stepping and without a latched stuck rotor never sets
/// a duty above the duty maximum, nor above a nonnegative current limit, unless the
/// brake holds.
pub proof fn lemma_setpoint_within_limits(s: MotorState)
    requires
        s.armed,
        !s.stepper_sine,
        !(s.protection.bemf_timeout_happened > s.protection.bemf_timeout && s.config.stuck_rotor_protection != 0),
    ensures
        ({
            let t = set_input_spec(s);
            !t.prop_brake_active ==> {
                &&& t.duty.setpoint <= t.duty.maximum
                &&& (t.pid.use_current_limit && t.pid.current_limit_adjust >= 0 ==> t.duty.setpoint <= t.pid.current_limit_adjust as u16)
            }
        }),
{
    lemma_mapping_frame(s);
    reveal(after_mapping_spec);
    reveal(drive_spec);
    reveal(setpoint_limits_spec);
}

/// Whether a servo bidirectional request is carried out: it agrees with the
/// current direction (and, in RC-car mode, the brake is off), or it goes the other
/// way and reversal is allowed (in RC-car mode: the stick has been back at centre).
pub open spec fn servo_request_granted(s: MotorState) -> bool {
    let rev = s.config.dir_reversed != 0;
    let above = s.input.newinput > 1000 + s.config.servo_dead_band * 2;
    let against = if above { s.commutation.forward == rev } else { s.commutation.forward == !rev };
    if s.config.rc_car_reverse != 0 {
        &&& against ==> s.return_to_center
        &&& !against ==> !s.prop_brake_active
    } else {
        against ==> can_reverse(s)
    }
}

/// Bidirectional mode on a servo signal.
pub open spec fn servo_bidir_mode(s: MotorState) -> bool {
    s.config.bi_direction != 0 && !s.input.dshot
}

proof fn lemma_after_mapping_keeps_adjusted(s1: MotorState)
    ensures
        after_mapping_spec(s1).input.adjusted == s1.input.adjusted,
{
    reveal(after_mapping_spec);
    reveal(drive_spec);
    reveal(drive_on_spec);
    reveal(drive_off_spec);
    reveal(setpoint_limits_spec);
}

/// The adjusted throttle of a granted servo bidirectional request.
proof fn lemma_servo_value(s: MotorState)
    requires
        servo_bidir_mode(s),
        servo_request_granted(s),
    ensures
        ({
            let x = s.input.newinput as int;
            let db: int = s.config.servo_dead_band * 2;
            let a = set_input_spec(s).input.adjusted;
            &&& x > 1000 + db ==> a == map_spec(x, 1000 + db, 2000, 47, 2047)
            &&& x + db < 1000 ==> a == map_spec(x, 0, 1000 - db, 2047, 47)
            &&& 1000 - db <= x <= 1000 + db ==> a == 0
        }),
{
    lemma_after_mapping_keeps_adjusted(input_mapping_spec(s));
    reveal(input_mapping_spec);
    reveal(servo_rc_car_spec);
    reveal(rc_branch);
    reveal(rc_center);
    reveal(servo_bidir_spec);
    reveal(servo_half_spec);
    reveal(try_reverse);
    let x = s.input.newinput as int;
    let db: int = s.config.servo_dead_band * 2;
    crate::functions::lemma_map_in_output_range(x, 1000 + db, 2000, 47, 2047);
    crate::functions::lemma_map_in_output_range(x, 0, 1000 - db, 2047, 47);
}

/// Servo bidirectional throttle, with or without RC-car reverse: below the dead
/// band the stick drives in reverse and more reverse stick gives more throttle,
/// full reverse stick (0) giving full throttle 2047; above the dead band the
/// throttle rises with the stick and reaches 2047 at 2000; inside the dead band it
/// is 0. This holds for granted requests (see `servo_request_granted`) of any two
/// states with the same dead band.
pub proof fn lemma_servo_bidir_throttle(s: MotorState, t: MotorState)
    requires
        servo_bidir_mode(s),
        servo_bidir_mode(t),
        servo_request_granted(s),
        servo_request_granted(t),
        s.config.servo_dead_band == t.config.servo_dead_band,
        s.input.newinput <= t.input.newinput,
    ensures
        ({
            let db: int = s.config.servo_dead_band * 2;
            let x = s.input.newinput as int;
            let y = t.input.newinput as int;
            let a = set_input_spec(s).input.adjusted;
            let b = set_input_spec(t).input.adjusted;
            &&& y + db < 1000 ==> 47 <= b <= a <= 2047
            &&& x > 1000 + db ==> 47 <= a <= b <= 2047
            &&& x == 0 ==> a == 2047
            &&& y >= 2000 ==> b == 2047
            &&& 1000 - db <= x <= 1000 + db ==> a == 0
        }),
{
    lemma_servo_value(s);
    lemma_servo_value(t);
    let db: int = s.config.servo_dead_band * 2;
    let x = s.input.newinput as int;
    let y = t.input.newinput as int;
    crate::functions::lemma_map_in_output_range(x, 0, 1000 - db, 2047, 47);
    crate::functions::lemma_map_in_output_range(y, 0, 1000 - db, 2047, 47);
    crate::functions::lemma_map_in_output_range(x, 1000 + db, 2000, 47, 2047);
    crate::functions::lemma_map_in_output_range(y, 1000 + db, 2000, 47, 2047);
    crate::functions::lemma_map_monotone(x, y, 0, 1000 - db, 2047, 47);
    crate::functions::lemma_map_monotone(x, y, 1000 + db, 2000, 47, 2047);
    crate::functions::lemma_map_endpoints(0, 1000 - db, 2047, 47);
    crate::functions::lemma_map_endpoints(1000 + db, 2000, 47, 2047);
    if y >= 2000 {
        crate::functions::lemma_map_monotone(2000, y, 1000 + db, 2000, 47, 2047);
    }
}

/// Whether a DShot bidirectional request is carried out: it agrees with the
/// current direction (and, in RC-car mode, the brake is off), or it goes the other
/// way and reversal is allowed (in RC-car mode: the stick has been back at centre).
pub open spec fn dshot_request_granted(s: MotorState) -> bool {
    let rev = s.config.dir_reversed != 0;
    let against = if s.input.newinput > 1047 { s.commutation.forward == rev } else { s.commutation.forward == !rev };
    if s.config.rc_car_reverse != 0 {
        &&& against ==> s.return_to_center
        &&& !against ==> !s.prop_brake_active
    } else {
        against ==> can_reverse(s)
    }
}

/// Bidirectional DShot throttle, with or without RC-car reverse: a granted request
/// `x` in the reverse half 48..=1047 gives `(x - 48) * 2 + 46` and one in the
/// forward half 1048..=2047 gives `(x - 1048) * 2 + 46`, so both halves span the
/// same 46..=2044.
pub proof fn lemma_dshot_bidir_throttle(s: MotorState)
    requires
        s.config.bi_direction != 0,
        s.input.dshot,
        48 <= s.input.newinput <= 2047,
        dshot_request_granted(s),
    ensures
        ({
            let x = s.input.newinput as int;
            let a = set_input_spec(s).input.adjusted;
            &&& x <= 1047 ==> a == (x - 48) * 2 + 46
            &&& x >= 1048 ==> a == (x - 1048) * 2 + 46
        }),
{
    lemma_after_mapping_keeps_adjusted(input_mapping_spec(s));
    reveal(input_mapping_spec);
    reveal(dshot_rc_car_spec);
    reveal(dshot_bidir_spec);
    reveal(dshot_half_spec);
    reveal(try_reverse);
    reveal(rc_branch);
}

} // verus!
