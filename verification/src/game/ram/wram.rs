//! Variables in work RAM.

use vstd::prelude::*;

verus! {

pub const W_PARTY_AND_BILLS_PC_SAVED_MENU_ITEM: u16 = 0xCC2D;

pub const W_DEFAULT_MAP: u16 = 0xD07B;

pub const W_SAVE_FILE_STATUS: u16 = 0xD087;

pub const W_OPTIONS_INITIALIZED: u16 = 0xD088;

pub const W_LINK_STATE: u16 = 0xD12A;

pub const W_POKEDEX_OWNED: u16 = 0xD2F6;

pub const W_POKEDEX_OWNED_END: u16 = 0xD309;

pub const W_OPTIONS: u16 = 0xD354;

pub const W_OBTAINED_BADGES: u16 = 0xD355;

pub const W_LETTER_PRINTING_DELAY_FLAGS: u16 = 0xD357;

pub const W_PRINTER_SETTINGS: u16 = 0xD497;

pub const W_D72E: u16 = 0xD72D;

pub const W_PLAY_TIME_HOURS: u16 = 0xDA40;

pub const W_PLAY_TIME_MINUTES: u16 = 0xDA42;

} // verus!
