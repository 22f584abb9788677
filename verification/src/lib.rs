use vstd::prelude::*;

pub mod constants;
pub mod functions;
pub mod units;
pub mod commutation;
pub mod motor_mode;
pub mod pid;
pub mod config;
pub mod current;
pub mod filter;
pub mod control;
pub mod bemf;
pub mod hal;
pub mod crsf;
pub mod dshot;
pub mod input_mapping;
pub mod fixed_mode;
pub mod ntc;
pub mod sine;
pub mod signal;
pub mod telemetry;
pub mod edt;
pub mod servo;
pub mod brushed;
pub mod board;
pub mod main_state;
pub mod dshot_commands;
pub mod transfer;
pub mod eeprom;
pub mod polling;
pub mod shared_comm;
pub mod system;
pub mod ws2812;
pub mod sounds;

verus! {
}
