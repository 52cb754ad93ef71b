//! USB language identifiers for string descriptors.

use vstd::prelude::*;

verus! {

/// English (United States), the one language this device advertises.
pub const ENGLISH_US: u16 = 0x0409;

} // verus!
