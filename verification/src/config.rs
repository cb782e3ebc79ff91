//! Default values of the MAC attributes.

use vstd::prelude::*;

verus! {

/// Minimum backoff exponent.
pub const MAC_MIN_BE: u8 = 0;

/// Maximum backoff exponent.
pub const MAC_MAX_BE: u8 = 8;

/// Maximum number of backoffs before a channel access failure.
pub const MAC_MAX_CSMA_BACKOFFS: u8 = 16;

/// Maximum number of retransmissions.
pub const MAC_MAX_FRAME_RETRIES: u8 = 3;

/// The PAN ID in little-endian order.
pub const MAC_PAN_ID: [u8; 2] = [0xed, 0xfe];

/// Whether frames without a destination address are accepted.
pub const MAC_IMPLICIT_BROADCAST: bool = false;

} // verus!
