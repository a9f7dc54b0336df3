//! States of the link cable.

use vstd::prelude::*;

verus! {

pub const LINK_STATE_NONE: u8 = 0;

} // verus!
