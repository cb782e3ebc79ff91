//! Group IDs of payload IEs.

use vstd::prelude::*;

verus! {

pub const ESDU: u8 = 0x00;

/// Holds nested IEs.
pub const MLME: u8 = 0x01;

pub const VENDOR_SPECIFIC: u8 = 0x02;

/// Ends the list of payload IEs.
pub const TERMINATION: u8 = 0x0f;

} // verus!
