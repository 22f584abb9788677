//! Input pipeline between the raw DShot/servo input and the 20 kHz tick:
//! bidirectional DShot and RC-car mapping, the stuck-rotor latch, sine-start
//! mapping and brake-on-stop.
use vstd::prelude::*;
use crate::commutation::Commutation;
use crate::config::EepromConfig;
use crate::constants::BEMF_FAULT_LATCHED;
use crate::control::state::{DutyState, ProtectionState};
use crate::input_mapping::{dshot_bidir, dshot_bidir_spec, dshot_rc_car, dshot_rc_car_spec, sine_start_map, sine_start_map_spec};
use crate::motor_mode::MotorMode;
use crate::shared_comm::{is_armed_mode, set_old_routine_mode, with_mode, SharedComm, SharedView};

verus! {

/// Persistent state of bidirectional input processing.
#[derive(Clone, Copy)]
pub struct InputState {
    pub prop_brake_active: bool,
    pub return_to_center: bool,
    pub reverse_speed_threshold: u16,
    /// The mapped input after all processing (0-2047).
    pub input: u16,
}

impl Default for InputState {
    fn default() -> (r: Self)
        ensures
            r == (InputState { prop_brake_active: false, return_to_center: false, reverse_speed_threshold: 0, input: 0 }),
    {
        InputState { prop_brake_active: false, return_to_center: false, reverse_speed_threshold: 0, input: 0 }
    }
}

impl InputState {
    /// No brake, no pending return to centre, reversal below 1500 ticks.
    pub fn new() -> (r: Self)
        ensures
            r == (InputState { prop_brake_active: false, return_to_center: false, reverse_speed_threshold: 1500, input: 0 }),
    {
        InputState { reverse_speed_threshold: 1500, ..Self::default() }
    }
}

/// Mapping stage. Unidirectional input passes through; bidirectional DShot maps
/// by the RC-car or plain bidirectional rules (a reversal flips the direction;
/// in RC-car mode a brake request holds the brake, and zero throttle releases it
/// into return-to-centre); bidirectional servo input is already mapped.
pub open spec fn mapping_stage(sv: SharedView, c: Commutation, config: EepromConfig, duty: DutyState, st: InputState, is_dshot: bool)
    -> (SharedView, Commutation, InputState) {
    let x = sv.newinput;
    let rev = config.dir_reversed != 0;
    if config.bi_direction != 0 {
        if is_dshot {
            if config.rc_car_reverse != 0 {
                let r = dshot_rc_car_spec(x, c.forward, rev, st.prop_brake_active, st.return_to_center);
                let c1 = if r.reverse { Commutation { forward: !c.forward, ..c } } else { c };
                let s1 = if r.reverse { InputState { return_to_center: false, ..st } } else { st };
                let s2 = if r.prop_brake { InputState { prop_brake_active: true, ..s1 } } else { s1 };
                let s3 = if x <= 47 && s2.prop_brake_active { InputState { prop_brake_active: false, return_to_center: true, ..s2 } } else { s2 };
                (SharedView { adjusted_input: r.adjusted, ..sv }, c1, s3)
            } else {
                let r = dshot_bidir_spec(x, c.forward, rev, sv.commutation_interval, duty.cycle, sv.mode == MotorMode::StepperSine, st.reverse_speed_threshold);
                let sv1 = SharedView { adjusted_input: r.adjusted, ..sv };
                if r.reverse {
                    let sv2 = SharedView { zero_crosses: 0, ..sv1 };
                    (with_mode(sv2, set_old_routine_mode(sv2.mode, true)), Commutation { forward: !c.forward, ..c }, st)
                } else {
                    (sv1, c, st)
                }
            }
        } else {
            (sv, c, st)
        }
    } else {
        (SharedView { adjusted_input: x, ..sv }, c, st)
    }
}

/// After mapping: a latched stuck rotor forces zero input; otherwise the input is
/// the adjusted input (sine-start mapped when sine start is on), and an armed ESC
/// below throttle with brake-on-stop and complementary PWM engages the brake.
pub open spec fn after_mapping_stage(sv: SharedView, config: EepromConfig, p: ProtectionState, st: InputState) -> (ProtectionState, InputState) {
    if p.bemf_timeout_happened > p.bemf_timeout && config.stuck_rotor_protection != 0 {
        (ProtectionState { bemf_timeout_happened: BEMF_FAULT_LATCHED, ..p }, InputState { input: 0, ..st })
    } else {
        let input = if config.use_sine_start != 0 {
            sine_start_map_spec(sv.adjusted_input, config.sine_mode_changeover_throttle_level)
        } else {
            sv.adjusted_input
        };
        let brake = is_armed_mode(sv.mode) && sv.mode != MotorMode::StepperSine && input < 47 && config.brake_on_stop == 1 && config.comp_pwm != 0;
        (p, InputState { input, prop_brake_active: if brake { true } else { st.prop_brake_active }, ..st })
    }
}

#[verifier::rlimit(50)]
fn map_bidirectional<S: SharedComm>(shared: &mut S, commutation: &mut Commutation, config: &EepromConfig, duty: &DutyState, input_state: &mut InputState, is_dshot: bool)
    requires
        config.bi_direction != 0 && is_dshot ==> old(shared).shared().newinput <= 33792,
    ensures
        (final(shared).shared(), *final(commutation), *final(input_state))
            == mapping_stage(old(shared).shared(), *old(commutation), *config, *duty, *old(input_state), is_dshot),
{
    let newinput = shared.newinput();
    if config.bi_direction != 0 {
        if is_dshot {
            if config.rc_car_reverse != 0 {
                let r = dshot_rc_car(newinput, commutation.forward, config.dir_reversed != 0, input_state.prop_brake_active, input_state.return_to_center);
                shared.set_adjusted_input(r.adjusted);
                let mut st = *input_state;
                if r.reverse {
                    commutation.forward = !commutation.forward;
                    st.return_to_center = false;
                }
                if r.prop_brake {
                    st.prop_brake_active = true;
                }
                if newinput <= 47 && st.prop_brake_active {
                    st.prop_brake_active = false;
                    st.return_to_center = true;
                }
                *input_state = st;
            } else {
                let sine = shared.stepper_sine();
                let r = dshot_bidir(newinput, commutation.forward, config.dir_reversed != 0, shared.commutation_interval(), duty.cycle, sine, input_state.reverse_speed_threshold);
                shared.set_adjusted_input(r.adjusted);
                if r.reverse {
                    commutation.forward = !commutation.forward;
                    shared.set_zero_crosses(0);
                    shared.set_old_routine(true);
                }
            }
        }
    } else {
        shared.set_adjusted_input(newinput);
    }
}

/// Process the raw input through the pipeline: mapping, stuck-rotor latch,
/// sine-start mapping and brake-on-stop.
pub fn process_input<S: SharedComm>(
    shared: &mut S,
    commutation: &mut Commutation,
    config: &EepromConfig,
    duty: &DutyState,
    protection: &mut ProtectionState,
    input_state: &mut InputState,
    is_dshot: bool,
)
    requires
        config.bi_direction != 0 && is_dshot ==> old(shared).shared().newinput <= 33792,
    ensures
        ({
            let (sv, c, st) = mapping_stage(old(shared).shared(), *old(commutation), *config, *duty, *old(input_state), is_dshot);
            let (p, st2) = after_mapping_stage(sv, *config, *old(protection), st);
            &&& final(shared).shared() == sv
            &&& *final(commutation) == c
            &&& *final(protection) == p
            &&& *final(input_state) == st2
        }),
{
    map_bidirectional(shared, commutation, config, duty, input_state, is_dshot);
    if protection.bemf_timeout_happened > protection.bemf_timeout && config.stuck_rotor_protection != 0 {
        input_state.input = 0;
        protection.bemf_timeout_happened = BEMF_FAULT_LATCHED;
        return;
    }
    if config.use_sine_start != 0 {
        input_state.input = sine_start_map(shared.adjusted_input(), config.sine_mode_changeover_throttle_level);
    } else {
        input_state.input = shared.adjusted_input();
    }
    if shared.armed() && !shared.stepper_sine() && input_state.input < 47 && config.brake_on_stop == 1 && config.comp_pwm != 0 {
        input_state.prop_brake_active = true;
    }
}

/// A latched stuck rotor always leaves zero input, whatever the throttle.
pub proof fn lemma_stuck_rotor_zero_input(sv: SharedView, config: EepromConfig, p: ProtectionState, st: InputState)
    requires
        p.bemf_timeout_happened > p.bemf_timeout,
        config.stuck_rotor_protection != 0,
    ensures
        after_mapping_stage(sv, config, p, st).1.input == 0,
        after_mapping_stage(sv, config, p, st).0.bemf_timeout_happened == BEMF_FAULT_LATCHED,
{
}

} // verus!
