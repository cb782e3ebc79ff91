//! Element IDs of header IEs.

use vstd::prelude::*;

verus! {

pub const TIME_CORRECTION: u8 = 0x1e;

/// Header termination 1: payload IEs follow.
pub const HT1: u8 = 0x7e;

/// Header termination 2: the frame payload follows.
pub const HT2: u8 = 0x7f;

/// The element IDs that end a list of header IEs.
pub open spec fn termination_ids() -> Set<int> {
    set![HT1 as int, HT2 as int]
}

/// Whether an element ID ends a list of header IEs.
pub fn is_termination(id: u8) -> (r: bool)
    ensures
        r <==> termination_ids().contains(id as int),
{
    id == HT1 || id == HT2
}

} // verus!
