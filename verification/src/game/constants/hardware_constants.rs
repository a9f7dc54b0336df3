//! Registers of the bank controller, as the binary names them.

use vstd::prelude::*;

verus! {

/// Any address of the range that switches cartridge RAM on and off.
pub const MBC1_SRAM_ENABLE: u16 = 0x0000;

/// Any address of the range that selects the RAM bank.
pub const MBC1_SRAM_BANK: u16 = 0x4000;

/// Any address of the range that selects the addressing mode.
pub const MBC1_SRAM_BANKING_MODE: u16 = 0x6000;

pub const SRAM_DISABLE: u8 = 0x00;

pub const SRAM_ENABLE: u8 = 0x0A;

} // verus!
