//! Bus addresses the sensor answers to, chosen by the level of its address pin.

use vstd::prelude::*;

verus! {

/// Address with the address pin tied low.
pub const DEFAULT: u8 = 0x76;

/// Address with the address pin tied high.
pub const ALTERNATIVE: u8 = 0x77;

} // verus!
