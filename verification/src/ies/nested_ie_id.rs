//! Sub-IDs of nested IEs.

use vstd::prelude::*;

verus! {

// Short format.
pub const TSCH_SYNC: u8 = 0x1a;

pub const TSCH_SLOTFRAME_LINK: u8 = 0x1b;

pub const TSCH_TIMESLOT: u8 = 0x1c;

pub const HOPPING_TIMING: u8 = 0x1d;

// Long format.
pub const CHANNEL_HOPPING: u8 = 0x09;

} // verus!
