//! DShot command numbers.
use vstd::prelude::*;

verus! {

pub const BEACON_1: u16 = 1;
pub const BEACON_5: u16 = 5;
pub const ESC_INFO: u16 = 6;
pub const DIRECTION_NORMAL: u16 = 7;
pub const DIRECTION_REVERSED: u16 = 8;
pub const BIDIR_OFF: u16 = 9;
pub const BIDIR_ON: u16 = 10;
pub const SAVE_SETTINGS: u16 = 12;
pub const EDT_ENABLE: u16 = 13;
pub const EDT_DISABLE: u16 = 14;
pub const DIRECTION_FWD: u16 = 20;
pub const DIRECTION_REV: u16 = 21;
pub const PROGRAMMING_MODE: u16 = 36;

} // verus!
