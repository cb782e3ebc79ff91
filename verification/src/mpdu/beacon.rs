//! Beacon frames.

use vstd::prelude::*;

use crate::fields::ie_layout::all_encodable;
use crate::fields::mpdu::MpduParser;
use crate::fields::mpdu_writer::{initialized, ordered_ies};
use crate::frame::addressing::AddressingMode;
use crate::frame::addressing_repr::{AddressingRepr, PanIdCompressionRepr};
use crate::frame::driver_config::{config_valid, DriverConfig};
use crate::frame::frame_control::{FrameType, FrameVersion};
use crate::mpdu::frame::MpduFrame;
use crate::octets::OctetsMut;
use crate::repr::ies::{IeListRepr, IeRepr, IeReprList};
use crate::repr::mpdu::{MpduRepr, SeqNrRepr};
use crate::states::{MpduWithAllFields, MpduWithIes, MpduWithSecurity};
use crate::Error;

verus! {

/// The addressing of a beacon: a short destination address with its PAN ID.
pub open spec fn is_beacon_addressing(addressing: AddressingRepr) -> bool {
    &&& addressing.dst_mode() == AddressingMode::Short
    &&& addressing.src_mode() == AddressingMode::Absent
    &&& !addressing.same_pan()
    &&& addressing.compression() == PanIdCompressionRepr::Legacy
}

/// The part of the structural representation that all beacons have in common:
/// everything but the IEs.
pub fn beacon_frame_repr<'ies>() -> (r: MpduRepr<'ies, MpduWithSecurity>)
    ensures
        r.seq() == SeqNrRepr::No,
        r.addr() matches Some(addressing) && is_beacon_addressing(addressing)
            && addressing.total_length() == Some(4int),
        r.sec() is None,
        r.ie_list() is Empty,
{
    MpduRepr::new().with_frame_control(SeqNrRepr::No).with_addressing(
        AddressingRepr::new(
            AddressingMode::Short,
            AddressingMode::Absent,
            false,
            PanIdCompressionRepr::Legacy,
        ),
    ).without_security()
}

/// The list of IEs of a beacon.
pub open spec fn beacon_ies<'ies>(ies: Option<IeReprList<'ies, IeRepr<'ies>>>) -> IeListRepr<'ies> {
    match ies {
        Some(list) => IeListRepr::WithoutTerminationIes(list),
        None => IeListRepr::Empty,
    }
}

/// Structural representation of a beacon with the given IEs.
pub fn beacon_frame_repr_with_ies<'ies>(ies: Option<IeReprList<'ies, IeRepr<'ies>>>) -> (r:
    MpduRepr<'ies, MpduWithIes>)
    ensures
        r.seq() == SeqNrRepr::No,
        r.addr() matches Some(addressing) && is_beacon_addressing(addressing)
            && addressing.total_length() == Some(4int),
        r.sec() is None,
        r.ie_list() == beacon_ies(ies),
{
    match ies {
        Some(list) => beacon_frame_repr().with_ies(IeListRepr::WithoutTerminationIes(list)),
        None => beacon_frame_repr().without_ies(),
    }
}

/// The length of a beacon without its FCS.
pub open spec fn beacon_length(ies: IeListRepr<'_>, beacon_payload_length: int) -> int {
    6 + ies.total_length(beacon_payload_length > 0)->0 + beacon_payload_length
}

/// The length of a buffer for a beacon.
///
/// # Errors
///
/// Fails if the beacon is longer than the driver allows.
pub fn beacon_buffer_size<'ies, Config: DriverConfig>(
    ies: Option<IeReprList<'ies, IeRepr<'ies>>>,
    beacon_payload_length: u16,
) -> (r: Result<u16, Error>)
    requires
        config_valid::<Config>(),
        beacon_ies(ies).wf(beacon_payload_length > 0),
    ensures
        r is Ok <==> beacon_length(beacon_ies(ies), beacon_payload_length as int)
            + Config::FCS_LENGTH <= Config::MAX_SDU_LENGTH,
        r matches Ok(size) ==> size == Config::HEADROOM + beacon_length(
            beacon_ies(ies),
            beacon_payload_length as int,
        ) + Config::FCS_LENGTH + Config::TAILROOM,
{
    beacon_frame_repr_with_ies(ies).min_buffer_size::<Config>(beacon_payload_length)
}

/// Initializes a beacon with the given IEs, to which termination IEs are added,
/// and with room for a payload of the given length.
///
/// The content of the IEs and the payload have to be written into the returned
/// MPDU.
///
/// # Errors
///
/// Fails and returns the unchanged buffer if the length of an IE cannot be told
/// by its descriptor.
pub fn beacon_frame<'ies, Config: DriverConfig, Buffer: OctetsMut>(
    ies: Option<IeReprList<'ies, IeRepr<'ies>>>,
    beacon_payload_length: u16,
    buffer: Buffer,
) -> (r: Result<MpduParser<MpduFrame<Buffer>, MpduWithAllFields>, Buffer>)
    requires
        config_valid::<Config>(),
        beacon_ies(ies).wf(beacon_payload_length > 0),
        beacon_length(beacon_ies(ies), beacon_payload_length as int) + Config::FCS_LENGTH
            <= Config::MAX_SDU_LENGTH,
        Config::HEADROOM + beacon_length(beacon_ies(ies), beacon_payload_length as int)
            + Config::FCS_LENGTH + Config::TAILROOM <= buffer.bytes().len(),
        Config::HEADROOM + 6 <= u8::MAX,
    ensures
        r is Ok <==> all_encodable(ordered_ies(beacon_ies(ies), beacon_payload_length > 0)),
        r matches Ok(parser) ==> exists|repr: MpduRepr<'ies, MpduWithIes>| #[trigger]
            is_beacon_repr(repr, beacon_ies(ies)) && initialized::<Config, Buffer, MpduWithIes>(
                parser,
                buffer.bytes(),
                repr,
                FrameVersion::Ieee802154_2006,
                FrameType::Beacon,
                beacon_payload_length as int,
            ),
        r matches Ok(parser) ==> exists|x: &mut Buffer, w: &mut [u8]|
            {
                &&& #[trigger] call_ensures(Buffer::octets_mut, (x,), w)
                &&& *x == buffer
                &&& *final(x) == parser.inner().container()
            },
        r matches Err(returned) ==> returned == buffer,
{
    let repr = beacon_frame_repr_with_ies(ies);
    assert(is_beacon_repr(repr, beacon_ies(ies)));
    repr.into_writer::<Config, Buffer>(
        FrameVersion::Ieee802154_2006,
        FrameType::Beacon,
        beacon_payload_length,
        buffer,
    )
}

/// Whether this is the structural representation of a beacon with the given IEs.
pub open spec fn is_beacon_repr<'ies>(
    repr: MpduRepr<'ies, MpduWithIes>,
    ies: IeListRepr<'ies>,
) -> bool {
    &&& repr.seq() == SeqNrRepr::No
    &&& repr.addr() matches Some(addressing) && is_beacon_addressing(addressing)
    &&& repr.sec() is None
    &&& repr.ie_list() == ies
}

} // verus!
