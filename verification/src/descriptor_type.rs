//! Standard descriptor type codes, as the USB specification assigns them.

use vstd::prelude::*;

verus! {

/// Device descriptor.
pub const DEVICE: u8 = 1;

/// Configuration descriptor.
pub const CONFIGURATION: u8 = 2;

/// String descriptor.
pub const STRING: u8 = 3;

/// Binary Object Store descriptor.
pub const BOS: u8 = 15;

} // verus!
