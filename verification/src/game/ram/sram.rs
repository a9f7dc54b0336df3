//! Variables in cartridge RAM, bank 1.

use vstd::prelude::*;

verus! {

pub const S_PLAYER_NAME: u16 = 0xA598;

} // verus!
