//! Main-loop system state shared by the firmware and the host harness, and the
//! brake-on-stop policy of sine mode.
use vstd::prelude::*;
use crate::config::EepromConfig;
use crate::control::input::InputState;
use crate::sine::PhasePositions;
use crate::hal::{Adc, TelemetryUart};
use crate::main_state::{adc_readings, main_tick_ok, main_tick_spec, MainState};
use crate::shared_comm::{with_mode, SharedComm, SharedView};
use crate::motor_mode::{transition_spec, MotorEvent};

verus! {

/// Main-loop system tick state.
#[derive(Clone, Copy)]
pub struct SystemTick {
    pub input_state: InputState,
    pub sine_positions: PhasePositions,
}

/// Whether sine mode idles with the brake: with drag braking (brake on stop 1)
/// the brake compare value `arr - drag * 200 * arr / 2000` must be at least 100.
pub open spec fn sine_idle_brake_spec(config: EepromConfig, tim1_arr: u16) -> bool {
    if config.brake_on_stop == 1 {
        tim1_arr - (config.drag_brake_strength * 200 * tim1_arr) / 2000 >= 100
    } else {
        false
    }
}

impl SystemTick {
    /// Fresh input processing state and phase positions at 0.
    pub fn new() -> (r: Self)
        ensures
            r.input_state == (InputState { prop_brake_active: false, return_to_center: false, reverse_speed_threshold: 1500, input: 0 }),
            r.sine_positions == (PhasePositions { a: 0, b: 0, c: 0 }),
    {
        SystemTick { input_state: InputState::new(), sine_positions: PhasePositions { a: 0, b: 0, c: 0 } }
    }

    /// Run the main-loop pipeline: one main-state tick (after the interrupt
    /// tick). Returns the LED level.
    pub fn tick_main<S: SharedComm, A: Adc, T: TelemetryUart>(&self, shared: &mut S, main: &mut MainState, adc: &mut A, telem: &mut T) -> (led_high: bool)
        requires
            main_tick_ok(*old(main), old(shared).shared(), adc_readings(*old(adc), old(main).use_ntc)),
        ensures
            ({
                let t = main_tick_spec(*old(main), old(shared).shared(), adc_readings(*old(adc), old(main).use_ntc));
                &&& *final(main) == t.0
                &&& final(shared).shared() == t.1
                &&& led_high == t.2
                &&& final(telem).sent() == old(telem).sent() + (if t.3 is Some { seq![t.3->0] } else { Seq::<Seq<u8>>::empty() })
            }),
    {
        main.tick(shared, adc, telem)
    }

    /// Hand over from sine stepping to BEMF commutation at the given interval:
    /// leave sine mode, publish the interval and 20 zero crosses, release the
    /// brake, and start the main loop's averages at that interval.
    pub fn apply_sine_changeover<S: SharedComm>(&mut self, shared: &mut S, main: &mut MainState, commutation_interval: u32)
        ensures
            final(shared).shared() == (SharedView {
                commutation_interval,
                zero_crosses: 20,
                ..with_mode(old(shared).shared(), transition_spec(old(shared).shared().mode, MotorEvent::ExitSine))
            }),
            final(self).input_state == (InputState { prop_brake_active: false, ..old(self).input_state }),
            final(self).sine_positions == old(self).sine_positions,
            *final(main) == (MainState { average_interval: commutation_interval, last_average_interval: commutation_interval, ..*old(main) }),
    {
        shared.transition(MotorEvent::ExitSine);
        shared.set_commutation_interval(commutation_interval);
        shared.set_zero_crosses(20);
        self.input_state.prop_brake_active = false;
        main.average_interval = commutation_interval;
        main.last_average_interval = commutation_interval;
    }

    /// The brake-on-stop policy of sine mode when idle.
    pub fn handle_sine_idle(config: &EepromConfig, tim1_arr: u16) -> (r: bool)
        requires
            config.brake_on_stop == 1 ==> (config.drag_brake_strength * 200 * tim1_arr) / 2000 <= tim1_arr,
        ensures
            r == sine_idle_brake_spec(*config, tim1_arr),
    {
        if config.brake_on_stop == 1 {
            let prop_brake_duty = config.drag_brake_strength as u32 * 200;
            assert(prop_brake_duty * tim1_arr <= 51000 * 65535) by (nonlinear_arith)
                requires prop_brake_duty <= 51000, tim1_arr <= 65535;
            let adjusted = tim1_arr as u32 - ((prop_brake_duty * tim1_arr as u32) / 2000);
            adjusted >= 100
        } else {
            false
        }
    }
}

impl Default for SystemTick {
    fn default() -> (r: Self)
        ensures
            r.input_state.reverse_speed_threshold == 1500,
            r.sine_positions == (PhasePositions { a: 0, b: 0, c: 0 }),
    {
        Self::new()
    }
}

} // verus!
