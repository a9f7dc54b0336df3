//! Settings of the text printer.

use vstd::prelude::*;

verus! {

pub const TEXT_DELAY_FAST: u8 = 1;

pub const TEXT_DELAY_MEDIUM: u8 = 3;

pub const TEXT_DELAY_SLOW: u8 = 5;

} // verus!
