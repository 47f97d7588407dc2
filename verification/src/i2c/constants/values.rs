//! Values with a fixed meaning to the sensor.

use vstd::prelude::*;

verus! {

/// Written to the reset register, it restarts the sensor as after power-on.
pub const SOFT_RESET: u8 = 0xB6;

} // verus!
