//! Constants of the USB printer class.

use vstd::prelude::*;

verus! {

// Printer class requests.
pub const GET_DEVICE_ID: u8 = 0;
pub const GET_PORT_STATUS: u8 = 1;
pub const SOFT_RESET: u8 = 2;

} // verus!
