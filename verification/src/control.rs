//! Motor control state and the control-loop logic: arming, input processing,
//! ramping, PID loops, commutation and zero-cross handling.
pub mod context;
pub mod input;
pub mod isr_logic;
pub mod loop_tick;
pub mod set_input;
pub mod state;
pub mod tick;
