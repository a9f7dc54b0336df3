//! Sizes of the binary's text fields.

use vstd::prelude::*;

verus! {

/// Bytes of a name, the terminator included.
pub const NAME_LENGTH: u16 = 11;

/// The byte that ends a text.
pub const TERMINATOR: u8 = 0x50;

} // verus!
