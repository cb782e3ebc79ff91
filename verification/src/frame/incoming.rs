//! Filtering of incoming frames.

use vstd::prelude::*;

use crate::config::{MAC_IMPLICIT_BROADCAST, MAC_PAN_ID};
use crate::frame::addressing::{broadcast_octets, Address};
use crate::frame::addressing_fields::AddressingFields;
use crate::frame::frame_control::{frame_control_valid, FrameControl};

verus! {

/// What is known of a frame while it is still being received.
#[derive(Debug)]
pub struct PreliminaryFrameInfo<'frame> {
    /// Length of the MPDU as given by the PHY header.
    pub mpdu_length: u16,
    /// Frame control field, if it has been received.
    pub frame_control: Option<FrameControl<[u8; 2]>>,
    /// Sequence number, if it is present and has been received.
    pub seq_nr: Option<u8>,
    /// Addressing fields, if they are present and the destination has been
    /// received.
    pub addressing_fields: Option<AddressingFields<&'frame [u8]>>,
}

/// Whether a destination PAN ID is that of the device or the broadcast PAN ID.
/// An elided PAN ID counts as the latter.
pub open spec fn pan_id_accepted(dst_pan_id: Seq<u8>, own_pan_id: Seq<u8>) -> bool {
    dst_pan_id.len() == 0 || dst_pan_id == own_pan_id || dst_pan_id == broadcast_octets()
}

/// Whether a destination address in little-endian order denotes a device with
/// the given hardware address in big-endian order: it is the broadcast address,
/// the hardware address, the short address made of the last two octets of the
/// hardware address, or absent where frames without a destination are accepted.
pub open spec fn address_accepted(
    dst_address: Seq<u8>,
    hardware_addr: Seq<u8>,
    implicit_broadcast: bool,
) -> bool {
    ||| dst_address.len() == 0 && implicit_broadcast
    ||| dst_address == broadcast_octets()
    ||| dst_address.len() == 2 && dst_address == hardware_addr.subrange(6, 8).reverse()
    ||| dst_address.len() == 8 && dst_address == hardware_addr.reverse()
}

impl<'frame> PreliminaryFrameInfo<'frame> {
    /// Whether the addressing fields can be read.
    pub open spec fn wf(&self) -> bool {
        self.addressing_fields matches Some(fields) ==> fields.wf()
    }

    /// Whether a valid frame is addressed to the device.
    pub open spec fn accepted(
        &self,
        hardware_addr: Seq<u8>,
        pan_id: Seq<u8>,
        implicit_broadcast: bool,
    ) -> bool {
        &&& self.frame_control matches Some(fc)
        &&& self.addressing_fields matches Some(fields)
        &&& frame_control_valid(fc.fields())
        &&& pan_id_accepted(fields.dst_pan_id_octets(), pan_id)
        &&& address_accepted(fields.dst_address_octets(), hardware_addr, implicit_broadcast)
    }
}

/// Whether two octets equal two others.
fn same_pair(a: &[u8], b0: u8, b1: u8) -> (r: bool)
    requires
        a@.len() == 2,
    ensures
        r <==> a@ == seq![b0, b1],
{
    let r: bool = a[0] == b0 && a[1] == b1;
    assert(r ==> a@ =~= seq![b0, b1]);
    r
}

/// Whether eight octets equal eight others.
fn same_octets(a: &[u8; 8], b: &[u8; 8]) -> (r: bool)
    ensures
        r <==> a@ == b@,
{
    let mut i: usize = 0;
    while i < 8
        invariant
            i <= 8,
            forall|k: int| 0 <= k < i ==> a@[k] == b@[k],
        decreases 8 - i,
    {
        if a[i] != b[i] {
            return false;
        }
        i = i + 1;
    }
    assert(a@ =~= b@);
    true
}

/// Whether a frame is valid and addressed to the device with the given hardware
/// address in big-endian order and the given PAN ID in little-endian order.
pub fn is_frame_valid_and_for(
    hardware_addr: &[u8; 8],
    pan_id: &[u8; 2],
    implicit_broadcast: bool,
    info: &PreliminaryFrameInfo,
) -> (r: bool)
    requires
        info.wf(),
    ensures
        r <==> info.accepted(hardware_addr@, pan_id@, implicit_broadcast),
{
    let (fc, fields) = match (&info.frame_control, &info.addressing_fields) {
        (Some(fc), Some(fields)) => (fc, fields),
        _ => return false,
    };
    if !fc.is_valid() {
        return false;
    }
    // Check the destination PAN ID.
    if let Some(dst_pan_id) = fields.dst_pan_id() {
        let b = dst_pan_id.as_ref();
        assert(seq![pan_id@[0], pan_id@[1]] =~= pan_id@);
        if !same_pair(b, pan_id[0], pan_id[1]) && !same_pair(b, 0xff, 0xff) {
            return false;
        }
    }
    // Check the destination address.

    match fields.dst_address() {
        None => {
            assert(fields.dst_address_octets() != broadcast_octets());
            implicit_broadcast
        },
        Some(Address::Short(short)) => {
            let b = short.as_ref();
            assert(seq![hardware_addr@[7], hardware_addr@[6]] =~= hardware_addr@.subrange(
                6,
                8,
            ).reverse());
            same_pair(b, 0xff, 0xff) || same_pair(b, hardware_addr[7], hardware_addr[6])
        },
        Some(Address::Extended(extended)) => {
            let be_bytes: [u8; 8] = extended.into_be_bytes();
            assert(extended@.reverse().reverse() =~= extended@);
            assert(hardware_addr@.reverse().reverse() =~= hardware_addr@);
            assert(extended@ != broadcast_octets());
            same_octets(hardware_addr, &be_bytes)
        },
        Some(Address::Absent) => implicit_broadcast,
    }
}

/// Whether a frame is valid and intended for us, given the full hardware address
/// in big-endian order.
pub fn is_frame_valid_and_for_us(
    hardware_addr: &[u8; 8],
    preliminary_frame_info: &PreliminaryFrameInfo,
) -> (r: bool)
    requires
        preliminary_frame_info.wf(),
    ensures
        r <==> preliminary_frame_info.accepted(
            hardware_addr@,
            seq![0xed, 0xfe],
            MAC_IMPLICIT_BROADCAST,
        ),
{
    let pan_id: [u8; 2] = MAC_PAN_ID;
    assert(pan_id@ =~= seq![0xed, 0xfe]);
    is_frame_valid_and_for(hardware_addr, &pan_id, MAC_IMPLICIT_BROADCAST, preliminary_frame_info)
}

/// A frame that is sent to the broadcast address of a PAN that is accepted is
/// accepted by every device.
pub proof fn lemma_broadcast_accepted(
    info: PreliminaryFrameInfo,
    hardware_addr: Seq<u8>,
    pan_id: Seq<u8>,
    implicit_broadcast: bool,
)
    requires
        info.frame_control matches Some(fc) && frame_control_valid(fc.fields()),
        info.addressing_fields matches Some(fields) && fields.dst_address_octets()
            == broadcast_octets() && pan_id_accepted(fields.dst_pan_id_octets(), pan_id),
    ensures
        info.accepted(hardware_addr, pan_id, implicit_broadcast),
{
}

/// Two devices accept the same frame that is sent to an extended address only if
/// they have the same hardware address.
pub proof fn lemma_extended_address_unique(
    info: PreliminaryFrameInfo,
    hardware_addr1: Seq<u8>,
    hardware_addr2: Seq<u8>,
    pan_id: Seq<u8>,
    implicit_broadcast: bool,
)
    requires
        hardware_addr1.len() == 8,
        hardware_addr2.len() == 8,
        info.addressing_fields matches Some(fields) && fields.dst_address_octets().len() == 8,
        info.accepted(hardware_addr1, pan_id, implicit_broadcast),
        info.accepted(hardware_addr2, pan_id, implicit_broadcast),
    ensures
        hardware_addr1 == hardware_addr2,
{
    assert(hardware_addr1.reverse().reverse() =~= hardware_addr1);
    assert(hardware_addr2.reverse().reverse() =~= hardware_addr2);
}

} // verus!
