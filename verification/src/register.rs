//! Register map: fixed one-byte addresses for every named device register.

use vstd::prelude::*;

verus! {

pub const OFFSET_X_REG_L: u8 = 0x45;
pub const OFFSET_X_REG_H: u8 = 0x46;
pub const OFFSET_Y_REG_L: u8 = 0x47;
pub const OFFSET_Y_REG_H: u8 = 0x48;
pub const OFFSET_Z_REG_L: u8 = 0x49;
pub const OFFSET_Z_REG_H: u8 = 0x4A;
pub const WHO_AM_I: u8 = 0x4F;
pub const CFG_REG_A: u8 = 0x60;
pub const CFG_REG_B: u8 = 0x61;
pub const CFG_REG_C: u8 = 0x62;
pub const INT_CTRL_REG: u8 = 0x63;
pub const INT_SOURCE_REG: u8 = 0x64;
pub const INT_THS_L_REG: u8 = 0x65;
pub const INT_THS_H_REG: u8 = 0x66;
pub const STATUS_REG: u8 = 0x67;
pub const OUTX_L_REG: u8 = 0x68;
pub const OUTX_H_REG: u8 = 0x69;
pub const OUTY_L_REG: u8 = 0x6A;
pub const OUTY_H_REG: u8 = 0x6B;
pub const OUTZ_L_REG: u8 = 0x6C;
pub const OUTZ_H_REG: u8 = 0x6D;
pub const TEMP_OUT_L_REG: u8 = 0x6E;
pub const TEMP_OUT_H_REG: u8 = 0x6F;

} // verus!
