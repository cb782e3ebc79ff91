//! Frames of a network stack that is attached to the MAC layer.

use vstd::prelude::*;

use crate::frame::addressing::{broadcast_octets, AddressingMode, PanId};
use crate::frame::addressing_fields::AddressingFields;
use crate::frame::addressing_repr::{
    announced_length, announced_lengths, lemma_announced, AddressingRepr,
};
use crate::frame::frame_control::{FrameControl, FrameControlFields};
use crate::mpdu::frame::{
    control_fields_at, lemma_control_replaced, same_but_control, MpduFrame,
};
use crate::octets::{splice, subslice_mut, Octets, OctetsMut};

verus! {

/// The longest MPDU without FCS that the network stack may hand over.
pub const MAX_TRANSMISSION_UNIT: usize = 125;

/// How many frames the network stack may hand over at once.
pub const MAX_BURST_SIZE: usize = 1;

/// Offset of the addressing fields of an MPDU.
pub open spec fn addressing_start<Buffer: Octets>(mpdu: MpduFrame<Buffer>) -> int {
    mpdu.start() + 2 + (if mpdu.control_fields().sequence_number_suppression {
        0int
    } else {
        1int
    })
}

/// Whether the addressing modes of an MPDU are known, its addressing is valid and
/// the buffer holds the addressing fields.
pub open spec fn addressed<Buffer: Octets>(mpdu: MpduFrame<Buffer>) -> bool {
    let f = mpdu.control_fields();
    &&& f.dst_addressing_mode != AddressingMode::Unknown
    &&& f.src_addressing_mode != AddressingMode::Unknown
    &&& announced_length(f) matches Some(length) && addressing_start(mpdu) + length
        <= mpdu@.len()
}

/// Offset of the destination PAN ID of an MPDU, if it has one.
#[verifier::opaque]
pub open spec fn dst_pan_id_start<Buffer: Octets>(mpdu: MpduFrame<Buffer>) -> Option<int> {
    let (dst_pan_id, _, _, _) = announced_lengths(mpdu.control_fields())->0;
    if addressed(mpdu) && dst_pan_id == 2 {
        Some(addressing_start(mpdu))
    } else {
        None
    }
}

/// Whether an MPDU is addressed to a single device.
#[verifier::opaque]
pub open spec fn has_unicast_dst<Buffer: Octets>(mpdu: MpduFrame<Buffer>) -> bool {
    let (dst_pan_id, dst, _, _) = announced_lengths(mpdu.control_fields())->0;
    let start = addressing_start(mpdu) + dst_pan_id;
    &&& addressed(mpdu)
    &&& dst > 0
    &&& mpdu@.subrange(start, start + dst) != broadcast_octets()
}

/// The octet of a buffer at `k` after a PAN ID was stored in it.
pub open spec fn octet_with_pan_id(b: Seq<u8>, at: Option<int>, pan_id: u16, k: int) -> u8 {
    match at {
        Some(at) => if k == at {
            (pan_id % 0x100) as u8
        } else if k == at + 1 {
            (pan_id / 0x100) as u8
        } else {
            b[k]
        },
        None => b[k],
    }
}

/// How the destination of an outgoing MPDU is addressed.
struct Destination {
    /// Offset of the destination PAN ID, if there is one.
    pan_id: Option<usize>,
    unicast: bool,
}

fn destination<Buffer: Octets>(mpdu: &MpduFrame<Buffer>) -> (r: Destination)
    requires
        mpdu.parsable(),
    ensures
        r.pan_id is Some <==> dst_pan_id_start(*mpdu) is Some,
        r.pan_id matches Some(offset) ==> dst_pan_id_start(*mpdu) == Some(offset as int)
            && mpdu.start() + 2 <= offset && offset + 2 <= mpdu@.len(),
        r.unicast == has_unicast_dst(*mpdu),
        0 <= mpdu.start(),
{
    proof {
        reveal(dst_pan_id_start);
        reveal(has_unicast_dst);
    }
    let unknown = Destination { pan_id: None, unicast: false };
    let mpdu_start: usize = mpdu.offset_mpdu() as usize;
    let fc = mpdu.frame_control();
    if fc.dst_addressing_mode() == AddressingMode::Unknown || fc.src_addressing_mode()
        == AddressingMode::Unknown {
        return unknown;
    }
    let start: usize = mpdu_start + 2 + if fc.sequence_number_suppression() {
        0
    } else {
        1
    };
    let repr = match AddressingRepr::from_frame_control(fc) {
        Ok(repr) => repr,
        Err(_) => return unknown,
    };
    proof {
        lemma_announced(repr, mpdu.control_fields());
    }
    let length: usize = match repr.addressing_fields_length() {
        Ok(length) => length as usize,
        Err(_) => return unknown,
    };
    let octets: &[u8] = mpdu.buffer_ref();
    if octets.len() < start + length {
        return unknown;
    }
    let fields = match AddressingFields::new(&octets[start..start + length], repr) {
        Ok(fields) => fields,
        Err(_) => return unknown,
    };
    let unicast = match fields.dst_address() {
        Some(address) => address.is_unicast(),
        None => false,
    };
    let pan_id = match fields.dst_pan_id() {
        Some(_) => Some(start),
        None => None,
    };
    proof {
        let (a, b, c, d) = announced_lengths(mpdu.control_fields())->0;
        assert(fields.dst_address_octets() == mpdu@.subrange(start + a, start + a + b));
    }
    Destination { pan_id, unicast }
}

fn set_pan_id(octets: &mut [u8], offset: usize, pan_id: u16)
    requires
        offset + 2 <= old(octets)@.len(),
    ensures
        final(octets)@.len() == old(octets)@.len(),
        forall|k: int|
            0 <= k < old(octets)@.len() ==> #[trigger] final(octets)@[k] == octet_with_pan_id(
                old(octets)@,
                Some(offset as int),
                pan_id,
                k,
            ),
{
    assert(octets.len() == octets@.len());
    let mut field = PanId::new(subslice_mut(octets, offset, offset + 2));
    field.set_u16(pan_id);
    proof {
        field.lemma_released();
    }
}

fn set_ack_request(octets: &mut [u8], start: usize, ack_request: bool)
    requires
        start + 2 <= old(octets)@.len(),
    ensures
        same_but_control(old(octets)@, final(octets)@, start as int),
        control_fields_at(final(octets)@, start as int) == (FrameControlFields {
            ack_request,
            ..control_fields_at(old(octets)@, start as int)
        }),
{
    let ghost before = octets@;
    assert(octets.len() == octets@.len());
    let mut fc = FrameControl::new_unchecked(subslice_mut(octets, start, start + 2));
    assert(fc.fields() == control_fields_at(before, start as int));
    fc.set_ack_request(ack_request);
    let ghost control = fc@;
    let ghost fields = fc.fields();
    proof {
        fc.lemma_released();
    }
    assert(octets@ == splice(before, start as int, start + 2, control));
    assert(control_fields_at(octets@, start as int) == fields && same_but_control(
        before,
        octets@,
        start as int,
    )) by {
        lemma_control_replaced(before, start as int, control);
    }
}

/// Sets the destination PAN ID of an outgoing MPDU, if it has one, and requests an
/// acknowledgment if and only if it is addressed to a single device.
#[verifier::spinoff_prover]
#[verifier::rlimit(50)]
pub fn prepare_data_request<Buffer: OctetsMut>(mpdu: &mut MpduFrame<Buffer>, pan_id: u16)
    requires
        old(mpdu).parsable(),
    ensures
        final(mpdu).start() == old(mpdu).start(),
        final(mpdu).octets_wo_fcs() == old(mpdu).octets_wo_fcs(),
        final(mpdu)@.len() == old(mpdu)@.len(),
        final(mpdu).control_fields() == (FrameControlFields {
            ack_request: has_unicast_dst(*old(mpdu)),
            ..old(mpdu).control_fields()
        }),
        forall|k: int|
            0 <= k < old(mpdu)@.len() && k != old(mpdu).start() && k != old(mpdu).start() + 1
                ==> #[trigger] final(mpdu)@[k] == octet_with_pan_id(
                old(mpdu)@,
                dst_pan_id_start(*old(mpdu)),
                pan_id,
                k,
            ),
        exists|x: &mut Buffer, w: &mut [u8]|
            {
                &&& #[trigger] call_ensures(Buffer::octets_mut, (x,), w)
                &&& *x == old(mpdu).container()
                &&& *final(x) == final(mpdu).container()
            },
{
    let destination = destination(mpdu);
    let start: usize = mpdu.offset_mpdu() as usize;
    let octets = mpdu.buffer_mut();
    let ghost before = octets@;
    if let Some(offset) = destination.pan_id {
        set_pan_id(octets, offset, pan_id);
    }
    let ghost with_pan_id = octets@;
    assert(with_pan_id.len() == before.len());
    assert(with_pan_id[start as int] == before[start as int]);
    assert(with_pan_id[start + 1] == before[start + 1]);
    assert(control_fields_at(with_pan_id, start as int) == control_fields_at(
        before,
        start as int,
    ));
    set_ack_request(octets, start, destination.unicast);
}

} // verus!
