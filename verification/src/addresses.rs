//! Register addresses and block lengths of the IS31FL3729 chip.
//!
//! See the chip's data sheet for the full register map; only the registers
//! that the driver touches are listed here.

use vstd::prelude::*;

verus! {

pub const PWM_BASE_REGISTER: u8 = 0x01;
pub const PWM_LEN: usize = 0x8F;
pub const SCALING_BASE_REGISTER: u8 = 0x90;
pub const SCALING_LEN: usize = 0x10;
pub const CONFIG_REGISTER: u8 = 0xA0;
/// "Global Current Control" register
pub const GCC_REGISTER: u8 = 0xA1;
pub const PULL_DOWN_UP_REGISTER: u8 = 0xB0;
pub const SPREAD_SPECTRUM_REGISTER: u8 = 0xB1;
pub const PWM_FREQ_REGISTER: u8 = 0xB2;
pub const OPEN_SHORT_BASE_REGISTER: u8 = 0xB3;
pub const OPEN_SHORT_LEN: usize = 0x12;
pub const RESET_REGISTER: u8 = 0xCF;

pub const SHUTDOWN: u8 = 0x0A;

pub const CONFIG_WRITE_ENABLE: u8 = 0b1100_0101;
/// Writing this value to the reset register triggers a chip reset.
pub const RESET: u8 = 0xAE;

} // verus!
