//! What the getters and setters of the TSCH IEs are for.
//!
//! The laws speak of calls: each relates the arguments and the results of one or
//! more functions.

use vstd::prelude::*;

use crate::ies::link_options::TschLinkOption;
use crate::ies::timeslot_timings::TschTimeslotTimings;
use crate::ies::tsch::{
    ChannelHoppingIe, LinkDescriptor, LinkIter, LinkIterMut, SlotframeDescriptor, SlotframeIter,
    SlotframeIterMut, TschSlotframeLinkIe, TschSyncIe, TschTimeslotIe,
};
use crate::octets::{
    lemma_u16_round_trip, lemma_u32_round_trip, lemma_u40_round_trip, Octets, OctetsMut,
};

verus! {

/// Whether two lists of octets differ at most from one position to another.
pub open spec fn same_outside(a: Seq<u8>, b: Seq<u8>, start: int, end: int) -> bool {
    &&& a.len() == b.len()
    &&& forall|i: int|
        0 <= i < a.len() && !(start <= i < end) ==> #[trigger] a[i] == b[i]
}

/// A timeslot IE of 25 octets holds an ID and twelve timings of two octets each, the
/// least significant octet first.
pub proof fn lemma_timeslot_fields<Bytes: Octets>(
    ie: TschTimeslotIe<Bytes>,
    id: u8,
    reduced: bool,
    cca_offset: Option<u16>,
    cca: Option<u16>,
    tx_offset: Option<u16>,
    rx_offset: Option<u16>,
    rx_ack_delay: Option<u16>,
    tx_ack_delay: Option<u16>,
    rx_wait: Option<u16>,
    ack_wait: Option<u16>,
    rx_tx: Option<u16>,
    max_ack: Option<u16>,
    max_tx: Option<u16>,
    timeslot_length: Option<u16>,
)
    requires
        ie@.len() == 25,
        call_ensures(TschTimeslotIe::<Bytes>::timeslot_id, (&ie,), id),
        call_ensures(TschTimeslotIe::<Bytes>::is_reduced, (&ie,), reduced),
        call_ensures(TschTimeslotIe::<Bytes>::cca_offset, (&ie,), cca_offset),
        call_ensures(TschTimeslotIe::<Bytes>::cca, (&ie,), cca),
        call_ensures(TschTimeslotIe::<Bytes>::tx_offset, (&ie,), tx_offset),
        call_ensures(TschTimeslotIe::<Bytes>::rx_offset, (&ie,), rx_offset),
        call_ensures(TschTimeslotIe::<Bytes>::rx_ack_delay, (&ie,), rx_ack_delay),
        call_ensures(TschTimeslotIe::<Bytes>::tx_ack_delay, (&ie,), tx_ack_delay),
        call_ensures(TschTimeslotIe::<Bytes>::rx_wait, (&ie,), rx_wait),
        call_ensures(TschTimeslotIe::<Bytes>::ack_wait, (&ie,), ack_wait),
        call_ensures(TschTimeslotIe::<Bytes>::rx_tx, (&ie,), rx_tx),
        call_ensures(TschTimeslotIe::<Bytes>::max_ack, (&ie,), max_ack),
        call_ensures(TschTimeslotIe::<Bytes>::max_tx, (&ie,), max_tx),
        call_ensures(TschTimeslotIe::<Bytes>::timeslot_length, (&ie,), timeslot_length),
    ensures
        id == ie@[0],
        !reduced,
        cca_offset matches Some(value) && value == ie@[1] + 0x100 * ie@[2],
        cca matches Some(value) && value == ie@[3] + 0x100 * ie@[4],
        tx_offset matches Some(value) && value == ie@[5] + 0x100 * ie@[6],
        rx_offset matches Some(value) && value == ie@[7] + 0x100 * ie@[8],
        rx_ack_delay matches Some(value) && value == ie@[9] + 0x100 * ie@[10],
        tx_ack_delay matches Some(value) && value == ie@[11] + 0x100 * ie@[12],
        rx_wait matches Some(value) && value == ie@[13] + 0x100 * ie@[14],
        ack_wait matches Some(value) && value == ie@[15] + 0x100 * ie@[16],
        rx_tx matches Some(value) && value == ie@[17] + 0x100 * ie@[18],
        max_ack matches Some(value) && value == ie@[19] + 0x100 * ie@[20],
        max_tx matches Some(value) && value == ie@[21] + 0x100 * ie@[22],
        timeslot_length matches Some(value) && value == ie@[23] + 0x100 * ie@[24],
{
}

/// A timeslot IE that is shorter holds the fields that fit into it. The longest
/// duration of a frame is only there together with the octet behind it.
pub proof fn lemma_reduced_timeslot_fields<Bytes: Octets>(
    ie: TschTimeslotIe<Bytes>,
    reduced: bool,
    cca_offset: Option<u16>,
    cca: Option<u16>,
    tx_offset: Option<u16>,
    rx_offset: Option<u16>,
    rx_ack_delay: Option<u16>,
    tx_ack_delay: Option<u16>,
    rx_wait: Option<u16>,
    ack_wait: Option<u16>,
    rx_tx: Option<u16>,
    max_ack: Option<u16>,
    max_tx: Option<u16>,
    timeslot_length: Option<u16>,
)
    requires
        call_ensures(TschTimeslotIe::<Bytes>::is_reduced, (&ie,), reduced),
        call_ensures(TschTimeslotIe::<Bytes>::cca_offset, (&ie,), cca_offset),
        call_ensures(TschTimeslotIe::<Bytes>::cca, (&ie,), cca),
        call_ensures(TschTimeslotIe::<Bytes>::tx_offset, (&ie,), tx_offset),
        call_ensures(TschTimeslotIe::<Bytes>::rx_offset, (&ie,), rx_offset),
        call_ensures(TschTimeslotIe::<Bytes>::rx_ack_delay, (&ie,), rx_ack_delay),
        call_ensures(TschTimeslotIe::<Bytes>::tx_ack_delay, (&ie,), tx_ack_delay),
        call_ensures(TschTimeslotIe::<Bytes>::rx_wait, (&ie,), rx_wait),
        call_ensures(TschTimeslotIe::<Bytes>::ack_wait, (&ie,), ack_wait),
        call_ensures(TschTimeslotIe::<Bytes>::rx_tx, (&ie,), rx_tx),
        call_ensures(TschTimeslotIe::<Bytes>::max_ack, (&ie,), max_ack),
        call_ensures(TschTimeslotIe::<Bytes>::max_tx, (&ie,), max_tx),
        call_ensures(TschTimeslotIe::<Bytes>::timeslot_length, (&ie,), timeslot_length),
    ensures
        reduced <==> ie@.len() < 25,
        cca_offset is Some <==> ie@.len() >= 3,
        cca is Some <==> ie@.len() >= 5,
        tx_offset is Some <==> ie@.len() >= 7,
        rx_offset is Some <==> ie@.len() >= 9,
        rx_ack_delay is Some <==> ie@.len() >= 11,
        tx_ack_delay is Some <==> ie@.len() >= 13,
        rx_wait is Some <==> ie@.len() >= 15,
        ack_wait is Some <==> ie@.len() >= 17,
        rx_tx is Some <==> ie@.len() >= 19,
        max_ack is Some <==> ie@.len() >= 21,
        max_tx is Some <==> ie@.len() >= 24,
        timeslot_length is Some <==> ie@.len() >= 25,
        cca_offset matches Some(value) ==> value == ie@[1] + 0x100 * ie@[2],
        cca matches Some(value) ==> value == ie@[3] + 0x100 * ie@[4],
        tx_offset matches Some(value) ==> value == ie@[5] + 0x100 * ie@[6],
        rx_offset matches Some(value) ==> value == ie@[7] + 0x100 * ie@[8],
        rx_ack_delay matches Some(value) ==> value == ie@[9] + 0x100 * ie@[10],
        tx_ack_delay matches Some(value) ==> value == ie@[11] + 0x100 * ie@[12],
        rx_wait matches Some(value) ==> value == ie@[13] + 0x100 * ie@[14],
        ack_wait matches Some(value) ==> value == ie@[15] + 0x100 * ie@[16],
        rx_tx matches Some(value) ==> value == ie@[17] + 0x100 * ie@[18],
        max_ack matches Some(value) ==> value == ie@[19] + 0x100 * ie@[20],
        max_tx matches Some(value) ==> value == ie@[21] + 0x100 * ie@[22],
        timeslot_length matches Some(value) ==> value == ie@[23] + 0x100 * ie@[24],
{
}

/// The offset of the CCA is read as it was set, and setting it changes nothing else.
pub proof fn lemma_set_cca_offset<Bytes: OctetsMut>(
    ie: &mut TschTimeslotIe<Bytes>,
    value: u16,
    read: Option<u16>,
)
    requires
        call_ensures(TschTimeslotIe::<Bytes>::set_cca_offset, (ie, value), ()),
        call_ensures(TschTimeslotIe::<Bytes>::cca_offset, (&*final(ie),), read),
    ensures
        old(ie)@.len() >= 3 ==> read == Some(value) && same_outside(
            final(ie)@,
            old(ie)@,
            1,
            3,
        ),
        old(ie)@.len() < 3 ==> read is None && final(ie)@ == old(ie)@,
{
}

/// The duration of the CCA is read as it was set, and setting it changes nothing else.
pub proof fn lemma_set_cca<Bytes: OctetsMut>(
    ie: &mut TschTimeslotIe<Bytes>,
    value: u16,
    read: Option<u16>,
)
    requires
        call_ensures(TschTimeslotIe::<Bytes>::set_cca, (ie, value), ()),
        call_ensures(TschTimeslotIe::<Bytes>::cca, (&*final(ie),), read),
    ensures
        old(ie)@.len() >= 5 ==> read == Some(value) && same_outside(
            final(ie)@,
            old(ie)@,
            3,
            5,
        ),
        old(ie)@.len() < 5 ==> read is None && final(ie)@ == old(ie)@,
{
}

/// The offset of the transmission is read as it was set, and setting it changes nothing
/// else.
pub proof fn lemma_set_tx_offset<Bytes: OctetsMut>(
    ie: &mut TschTimeslotIe<Bytes>,
    value: u16,
    read: Option<u16>,
)
    requires
        call_ensures(TschTimeslotIe::<Bytes>::set_tx_offset, (ie, value), ()),
        call_ensures(TschTimeslotIe::<Bytes>::tx_offset, (&*final(ie),), read),
    ensures
        old(ie)@.len() >= 7 ==> read == Some(value) && same_outside(
            final(ie)@,
            old(ie)@,
            5,
            7,
        ),
        old(ie)@.len() < 7 ==> read is None && final(ie)@ == old(ie)@,
{
}

/// The offset of the reception is read as it was set, and setting it changes nothing
/// else.
pub proof fn lemma_set_rx_offset<Bytes: OctetsMut>(
    ie: &mut TschTimeslotIe<Bytes>,
    value: u16,
    read: Option<u16>,
)
    requires
        call_ensures(TschTimeslotIe::<Bytes>::set_rx_offset, (ie, value), ()),
        call_ensures(TschTimeslotIe::<Bytes>::rx_offset, (&*final(ie),), read),
    ensures
        old(ie)@.len() >= 9 ==> read == Some(value) && same_outside(
            final(ie)@,
            old(ie)@,
            7,
            9,
        ),
        old(ie)@.len() < 9 ==> read is None && final(ie)@ == old(ie)@,
{
}

/// The time before an acknowledgment is received is read as it was set, and setting it
/// changes nothing else.
pub proof fn lemma_set_rx_ack_delay<Bytes: OctetsMut>(
    ie: &mut TschTimeslotIe<Bytes>,
    value: u16,
    read: Option<u16>,
)
    requires
        call_ensures(TschTimeslotIe::<Bytes>::set_rx_ack_delay, (ie, value), ()),
        call_ensures(TschTimeslotIe::<Bytes>::rx_ack_delay, (&*final(ie),), read),
    ensures
        old(ie)@.len() >= 11 ==> read == Some(value) && same_outside(
            final(ie)@,
            old(ie)@,
            9,
            11,
        ),
        old(ie)@.len() < 11 ==> read is None && final(ie)@ == old(ie)@,
{
}

/// The time before an acknowledgment is sent is read as it was set, and setting it
/// changes nothing else.
pub proof fn lemma_set_tx_ack_delay<Bytes: OctetsMut>(
    ie: &mut TschTimeslotIe<Bytes>,
    value: u16,
    read: Option<u16>,
)
    requires
        call_ensures(TschTimeslotIe::<Bytes>::set_tx_ack_delay, (ie, value), ()),
        call_ensures(TschTimeslotIe::<Bytes>::tx_ack_delay, (&*final(ie),), read),
    ensures
        old(ie)@.len() >= 13 ==> read == Some(value) && same_outside(
            final(ie)@,
            old(ie)@,
            11,
            13,
        ),
        old(ie)@.len() < 13 ==> read is None && final(ie)@ == old(ie)@,
{
}

/// The time to wait for a frame is read as it was set, and setting it changes nothing
/// else.
pub proof fn lemma_set_rx_wait<Bytes: OctetsMut>(
    ie: &mut TschTimeslotIe<Bytes>,
    value: u16,
    read: Option<u16>,
)
    requires
        call_ensures(TschTimeslotIe::<Bytes>::set_rx_wait, (ie, value), ()),
        call_ensures(TschTimeslotIe::<Bytes>::rx_wait, (&*final(ie),), read),
    ensures
        old(ie)@.len() >= 15 ==> read == Some(value) && same_outside(
            final(ie)@,
            old(ie)@,
            13,
            15,
        ),
        old(ie)@.len() < 15 ==> read is None && final(ie)@ == old(ie)@,
{
}

/// The time to wait for an acknowledgment is read as it was set, and setting it changes
/// nothing else.
pub proof fn lemma_set_ack_wait<Bytes: OctetsMut>(
    ie: &mut TschTimeslotIe<Bytes>,
    value: u16,
    read: Option<u16>,
)
    requires
        call_ensures(TschTimeslotIe::<Bytes>::set_ack_wait, (ie, value), ()),
        call_ensures(TschTimeslotIe::<Bytes>::ack_wait, (&*final(ie),), read),
    ensures
        old(ie)@.len() >= 17 ==> read == Some(value) && same_outside(
            final(ie)@,
            old(ie)@,
            15,
            17,
        ),
        old(ie)@.len() < 17 ==> read is None && final(ie)@ == old(ie)@,
{
}

/// The turnaround time is read as it was set, and setting it changes nothing else.
pub proof fn lemma_set_rx_tx<Bytes: OctetsMut>(
    ie: &mut TschTimeslotIe<Bytes>,
    value: u16,
    read: Option<u16>,
)
    requires
        call_ensures(TschTimeslotIe::<Bytes>::set_rx_tx, (ie, value), ()),
        call_ensures(TschTimeslotIe::<Bytes>::rx_tx, (&*final(ie),), read),
    ensures
        old(ie)@.len() >= 19 ==> read == Some(value) && same_outside(
            final(ie)@,
            old(ie)@,
            17,
            19,
        ),
        old(ie)@.len() < 19 ==> read is None && final(ie)@ == old(ie)@,
{
}

/// The longest duration of an acknowledgment is read as it was set, and setting it
/// changes nothing else.
pub proof fn lemma_set_max_ack<Bytes: OctetsMut>(
    ie: &mut TschTimeslotIe<Bytes>,
    value: u16,
    read: Option<u16>,
)
    requires
        call_ensures(TschTimeslotIe::<Bytes>::set_max_ack, (ie, value), ()),
        call_ensures(TschTimeslotIe::<Bytes>::max_ack, (&*final(ie),), read),
    ensures
        old(ie)@.len() >= 21 ==> read == Some(value) && same_outside(
            final(ie)@,
            old(ie)@,
            19,
            21,
        ),
        old(ie)@.len() < 21 ==> read is None && final(ie)@ == old(ie)@,
{
}

/// The longest duration of a frame is read as it was set, and setting it changes
/// nothing else.
pub proof fn lemma_set_max_tx<Bytes: OctetsMut>(
    ie: &mut TschTimeslotIe<Bytes>,
    value: u16,
    read: Option<u16>,
)
    requires
        call_ensures(TschTimeslotIe::<Bytes>::set_max_tx, (ie, value), ()),
        call_ensures(TschTimeslotIe::<Bytes>::max_tx, (&*final(ie),), read),
    ensures
        old(ie)@.len() >= 24 ==> read == Some(value) && same_outside(
            final(ie)@,
            old(ie)@,
            21,
            23,
        ),
        old(ie)@.len() < 24 ==> read is None && final(ie)@ == old(ie)@,
{
}

/// The length of the timeslot is read as it was set, and setting it changes nothing
/// else.
pub proof fn lemma_set_timeslot_length<Bytes: OctetsMut>(
    ie: &mut TschTimeslotIe<Bytes>,
    value: u16,
    read: Option<u16>,
)
    requires
        call_ensures(TschTimeslotIe::<Bytes>::set_timeslot_length, (ie, value), ()),
        call_ensures(TschTimeslotIe::<Bytes>::timeslot_length, (&*final(ie),), read),
    ensures
        old(ie)@.len() >= 25 ==> read == Some(value) && same_outside(
            final(ie)@,
            old(ie)@,
            23,
            25,
        ),
        old(ie)@.len() < 25 ==> read is None && final(ie)@ == old(ie)@,
{
}

/// The ID of a timeslot is read as it was set, and setting it changes nothing else.
pub proof fn lemma_set_timeslot_id<Bytes: OctetsMut>(
    ie: &mut TschTimeslotIe<Bytes>,
    id: u8,
    read: u8,
)
    requires
        ie@.len() >= 1,
        call_ensures(TschTimeslotIe::<Bytes>::set_timeslot_id, (ie, id), ()),
        call_ensures(TschTimeslotIe::<Bytes>::timeslot_id, (&*final(ie),), read),
    ensures
        read == id,
        same_outside(final(ie)@, old(ie)@, 0, 1),
{
}

/// A synchronization IE holds the absolute slot number in five octets, the least
/// significant one first, and the join metric in a sixth.
pub proof fn lemma_sync_fields<Bytes: Octets>(ie: TschSyncIe<Bytes>, asn: u64, metric: u8)
    requires
        ie@.len() >= 6,
        call_ensures(TschSyncIe::<Bytes>::asn, (&ie,), asn),
        call_ensures(TschSyncIe::<Bytes>::join_metric, (&ie,), metric),
    ensures
        asn == ie@[0] + 0x100 * (ie@[1] + 0x100 * (ie@[2] + 0x100 * (ie@[3] + 0x100 * ie@[4]))),
        metric == ie@[5],
{
}

/// The lower 40 bits of an absolute slot number are read as they were set.
pub proof fn lemma_set_asn<Bytes: OctetsMut>(
    ie: &mut TschSyncIe<Bytes>,
    asn: u64,
    read: u64,
)
    requires
        ie@.len() >= 6,
        call_ensures(TschSyncIe::<Bytes>::set_asn, (ie, asn), ()),
        call_ensures(TschSyncIe::<Bytes>::asn, (&*final(ie),), read),
    ensures
        read == asn as int % 0x100_0000_0000,
        same_outside(final(ie)@, old(ie)@, 0, 5),
{
    lemma_u40_round_trip(ie@, 0, asn as int % 0x100_0000_0000);
}

/// The join metric is read as it was set.
pub proof fn lemma_set_join_metric<Bytes: OctetsMut>(
    ie: &mut TschSyncIe<Bytes>,
    metric: u8,
    read: u8,
)
    requires
        ie@.len() >= 6,
        call_ensures(TschSyncIe::<Bytes>::set_join_metric, (ie, metric), ()),
        call_ensures(TschSyncIe::<Bytes>::join_metric, (&*final(ie),), read),
    ensures
        read == metric,
        same_outside(final(ie)@, old(ie)@, 5, 6),
{
}

/// Each IE needs at least its mandatory fields and keeps the octets that it is given.
pub proof fn lemma_ies_recognized<Bytes: Octets>(
    bytes: Bytes,
    sync: Option<TschSyncIe<Bytes>>,
    timeslot: Option<TschTimeslotIe<Bytes>>,
    hopping: Option<ChannelHoppingIe<Bytes>>,
    slotframes: Option<TschSlotframeLinkIe<Bytes>>,
    slotframe: Option<SlotframeDescriptor<Bytes>>,
    link: Option<LinkDescriptor<Bytes>>,
)
    requires
        call_ensures(TschSyncIe::<Bytes>::new, (bytes,), sync),
        call_ensures(TschTimeslotIe::<Bytes>::new, (bytes,), timeslot),
        call_ensures(ChannelHoppingIe::<Bytes>::new, (bytes,), hopping),
        call_ensures(TschSlotframeLinkIe::<Bytes>::new, (bytes,), slotframes),
        call_ensures(SlotframeDescriptor::<Bytes>::new, (bytes,), slotframe),
        call_ensures(LinkDescriptor::<Bytes>::new, (bytes,), link),
    ensures
        sync is Some <==> bytes.bytes().len() >= 5 + 1,
        timeslot is Some <==> bytes.bytes().len() > 0,
        hopping is Some <==> bytes.bytes().len() > 0,
        slotframes is Some <==> bytes.bytes().len() > 0,
        slotframe is Some <==> bytes.bytes().len() >= 1 + 2 + 1,
        link is Some <==> bytes.bytes().len() >= 2 + 2 + 1,
        sync matches Some(ie) ==> ie@ == bytes.bytes(),
        timeslot matches Some(ie) ==> ie@ == bytes.bytes(),
        hopping matches Some(ie) ==> ie@ == bytes.bytes(),
        slotframes matches Some(ie) ==> ie@ == bytes.bytes(),
        slotframe matches Some(ie) ==> ie@ == bytes.bytes(),
        link matches Some(ie) ==> ie@ == bytes.bytes(),
{
}

/// A channel hopping IE holds the ID of the hopping sequence in one octet, the
/// channel page in one, the number of channels in two and the PHY configuration in
/// four. Only the ID is mandatory.
pub proof fn lemma_hopping_fields<Bytes: Octets>(
    ie: ChannelHoppingIe<Bytes>,
    reduced: bool,
    id: u8,
    page: Option<u8>,
    channels: Option<u16>,
    configuration: Option<u32>,
)
    requires
        ie@.len() >= 1,
        call_ensures(ChannelHoppingIe::<Bytes>::is_reduced, (&ie,), reduced),
        call_ensures(ChannelHoppingIe::<Bytes>::hopping_sequence_id, (&ie,), id),
        call_ensures(ChannelHoppingIe::<Bytes>::channel_page, (&ie,), page),
        call_ensures(ChannelHoppingIe::<Bytes>::num_channels, (&ie,), channels),
        call_ensures(ChannelHoppingIe::<Bytes>::phy_configuration, (&ie,), configuration),
    ensures
        reduced <==> ie@.len() == 1,
        id == ie@[0],
        page is Some <==> ie@.len() >= 2,
        page matches Some(page) ==> page == ie@[1],
        channels is Some <==> ie@.len() >= 4,
        channels matches Some(channels) ==> channels == ie@[2] + 0x100 * ie@[3],
        configuration is Some <==> ie@.len() >= 8,
        configuration matches Some(configuration) ==> configuration == ie@[4] + 0x100 * (ie@[5]
            + 0x100 * (ie@[6] + 0x100 * ie@[7])),
{
}

/// The fields of a channel hopping IE are read as they were set.
pub proof fn lemma_set_hopping_fields<Bytes: OctetsMut>(
    first: &mut ChannelHoppingIe<Bytes>,
    second: &mut ChannelHoppingIe<Bytes>,
    third: &mut ChannelHoppingIe<Bytes>,
    fourth: &mut ChannelHoppingIe<Bytes>,
    set: (u8, u8, u16, u32),
    id: u8,
    page: Option<u8>,
    channels: Option<u16>,
    configuration: Option<u32>,
)
    requires
        first@.len() >= 1,
        call_ensures(ChannelHoppingIe::<Bytes>::set_hopping_sequence_id, (first, set.0), ()),
        call_ensures(ChannelHoppingIe::<Bytes>::set_channel_page, (second, set.1), ()),
        call_ensures(ChannelHoppingIe::<Bytes>::set_num_channels, (third, set.2), ()),
        call_ensures(ChannelHoppingIe::<Bytes>::set_phy_configuration, (fourth, set.3), ()),
        call_ensures(ChannelHoppingIe::<Bytes>::hopping_sequence_id, (&*final(first),), id),
        call_ensures(ChannelHoppingIe::<Bytes>::channel_page, (&*final(second),), page),
        call_ensures(ChannelHoppingIe::<Bytes>::num_channels, (&*final(third),), channels),
        call_ensures(
            ChannelHoppingIe::<Bytes>::phy_configuration,
            (&*final(fourth),),
            configuration,
        ),
    ensures
        id == set.0 && same_outside(final(first)@, old(first)@, 0, 1),
        old(second)@.len() >= 2 ==> page == Some(set.1) && same_outside(
            final(second)@,
            old(second)@,
            1,
            2,
        ),
        old(second)@.len() < 2 ==> final(second)@ == old(second)@,
        old(third)@.len() >= 4 ==> channels == Some(set.2) && same_outside(
            final(third)@,
            old(third)@,
            2,
            4,
        ),
        old(third)@.len() < 4 ==> final(third)@ == old(third)@,
        old(fourth)@.len() >= 8 ==> configuration == Some(set.3) && same_outside(
            final(fourth)@,
            old(fourth)@,
            4,
            8,
        ),
        old(fourth)@.len() < 8 ==> final(fourth)@ == old(fourth)@,
{
    if fourth@.len() >= 8 {
        lemma_u32_round_trip(fourth@, 4, set.3 as int);
    }
    if third@.len() >= 4 {
        lemma_u16_round_trip(third@, 2, set.2 as int);
    }
}

/// A link holds a timeslot and a channel offset in two octets each, the least
/// significant one first, and its options in a fifth octet. From the least
/// significant one on, the bits of the options say whether the link is for sending,
/// for receiving, shared, for keeping time, or of priority.
pub proof fn lemma_link_fields<Bytes: Octets>(
    link: LinkDescriptor<Bytes>,
    timeslot: u16,
    channel_offset: u16,
    options: u8,
    tx: bool,
    rx: bool,
    shared: bool,
    timekeeping: bool,
    priority: bool,
)
    requires
        link@.len() >= 5,
        call_ensures(LinkDescriptor::<Bytes>::timeslot, (&link,), timeslot),
        call_ensures(LinkDescriptor::<Bytes>::channel_offset, (&link,), channel_offset),
        call_ensures(LinkDescriptor::<Bytes>::options, (&link,), options),
        call_ensures(LinkDescriptor::<Bytes>::is_tx, (&link,), tx),
        call_ensures(LinkDescriptor::<Bytes>::is_rx, (&link,), rx),
        call_ensures(LinkDescriptor::<Bytes>::is_shared, (&link,), shared),
        call_ensures(LinkDescriptor::<Bytes>::is_timekeeping, (&link,), timekeeping),
        call_ensures(LinkDescriptor::<Bytes>::is_priority, (&link,), priority),
    ensures
        timeslot == link@[0] + 0x100 * link@[1],
        channel_offset == link@[2] + 0x100 * link@[3],
        options == link@[4],
        tx <==> options as int % 2 == 1,
        rx <==> options as int / 2 % 2 == 1,
        shared <==> options as int / 4 % 2 == 1,
        timekeeping <==> options as int / 8 % 2 == 1,
        priority <==> options as int / 16 % 2 == 1,
{
}

/// The fields of a link are read as they were set.
pub proof fn lemma_set_link_fields<Bytes: OctetsMut>(
    first: &mut LinkDescriptor<Bytes>,
    second: &mut LinkDescriptor<Bytes>,
    third: &mut LinkDescriptor<Bytes>,
    set: (u16, u16, u8),
    timeslot: u16,
    channel_offset: u16,
    options: u8,
)
    requires
        first@.len() >= 5,
        second@.len() >= 5,
        third@.len() >= 5,
        call_ensures(LinkDescriptor::<Bytes>::set_timeslot, (first, set.0), ()),
        call_ensures(LinkDescriptor::<Bytes>::set_channel_offset, (second, set.1), ()),
        call_ensures(LinkDescriptor::<Bytes>::set_options, (third, set.2), ()),
        call_ensures(LinkDescriptor::<Bytes>::timeslot, (&*final(first),), timeslot),
        call_ensures(LinkDescriptor::<Bytes>::channel_offset, (&*final(second),), channel_offset),
        call_ensures(LinkDescriptor::<Bytes>::options, (&*final(third),), options),
    ensures
        timeslot == set.0 && same_outside(final(first)@, old(first)@, 0, 2),
        channel_offset == set.1 && same_outside(final(second)@, old(second)@, 2, 4),
        options == set.2 && same_outside(final(third)@, old(third)@, 4, 5),
{
}

/// A slotframe holds its handle in one octet, its size in two and the number of its
/// links in one. Then follow the links with five octets each.
pub proof fn lemma_slotframe_fields<Bytes: Octets>(
    slotframe: SlotframeDescriptor<Bytes>,
    handle: u8,
    size: u16,
    links: u8,
    total: usize,
)
    requires
        slotframe@.len() >= 4,
        call_ensures(SlotframeDescriptor::<Bytes>::handle, (&slotframe,), handle),
        call_ensures(SlotframeDescriptor::<Bytes>::size, (&slotframe,), size),
        call_ensures(SlotframeDescriptor::<Bytes>::num_links, (&slotframe,), links),
        call_ensures(SlotframeDescriptor::<Bytes>::total_length, (&slotframe,), total),
    ensures
        handle == slotframe@[0],
        size == slotframe@[1] + 0x100 * slotframe@[2],
        links == slotframe@[3],
        total == 4 + 5 * links,
{
}

/// The fields of a slotframe are read as they were set.
pub proof fn lemma_set_slotframe_fields<Bytes: OctetsMut>(
    first: &mut SlotframeDescriptor<Bytes>,
    second: &mut SlotframeDescriptor<Bytes>,
    third: &mut SlotframeDescriptor<Bytes>,
    set: (u8, u16, u8),
    handle: u8,
    size: u16,
    links: u8,
)
    requires
        first@.len() >= 4,
        second@.len() >= 4,
        third@.len() >= 4,
        call_ensures(SlotframeDescriptor::<Bytes>::set_handle, (first, set.0), ()),
        call_ensures(SlotframeDescriptor::<Bytes>::set_size, (second, set.1), ()),
        call_ensures(SlotframeDescriptor::<Bytes>::set_num_links, (third, set.2), ()),
        call_ensures(SlotframeDescriptor::<Bytes>::handle, (&*final(first),), handle),
        call_ensures(SlotframeDescriptor::<Bytes>::size, (&*final(second),), size),
        call_ensures(SlotframeDescriptor::<Bytes>::num_links, (&*final(third),), links),
    ensures
        handle == set.0 && same_outside(final(first)@, old(first)@, 0, 1),
        size == set.1 && same_outside(final(second)@, old(second)@, 1, 3),
        links == set.2 && same_outside(final(third)@, old(third)@, 3, 4),
{
}

/// The number of slotframes is the first octet of its IE.
pub proof fn lemma_slotframe_number<Bytes: OctetsMut>(
    ie: &mut TschSlotframeLinkIe<Bytes>,
    number: u8,
    before: u8,
    after: u8,
)
    requires
        ie@.len() >= 1,
        call_ensures(TschSlotframeLinkIe::<Bytes>::num_slotframes, (&*old(ie),), before),
        call_ensures(TschSlotframeLinkIe::<Bytes>::set_num_slotframes, (ie, number), ()),
        call_ensures(TschSlotframeLinkIe::<Bytes>::num_slotframes, (&*final(ie),), after),
    ensures
        before == old(ie)@[0],
        after == number,
        same_outside(final(ie)@, old(ie)@, 0, 1),
{
}

/// The first link of a slotframe follows the four octets before it, and each other
/// link follows the one before it. There are as many as the slotframe tells, unless
/// its octets end before.
pub proof fn lemma_links_walked<Bytes: Octets>(
    slotframe: SlotframeDescriptor<Bytes>,
    links: LinkIter<'_>,
    iter: &mut LinkIter<'_>,
    link: Option<LinkDescriptor<&[u8]>>,
)
    requires
        slotframe@.len() >= 4,
        call_ensures(SlotframeDescriptor::<Bytes>::links, (&slotframe,), links),
        call_ensures(LinkIter::<'_>::next, (iter,), link),
    ensures
        links.left() == slotframe@[3],
        4 + 5 * slotframe@[3] <= slotframe@.len() ==> links.buffer() == slotframe@.subrange(
            4,
            4 + 5 * slotframe@[3],
        ),
        4 + 5 * slotframe@[3] > slotframe@.len() ==> links.buffer() == slotframe@.skip(4),
        link is Some <==> old(iter).left() > 0 && old(iter).buffer().len() >= 5,
        link matches Some(link) ==> link@ == old(iter).buffer().take(5) && final(iter).buffer()
            == old(iter).buffer().skip(5) && final(iter).left() + 1 == old(iter).left(),
        link is None ==> *final(iter) == *old(iter),
{
}

/// The first slotframe follows the octet that tells their number. Each other one
/// follows the links of the one before it.
pub proof fn lemma_slotframes_walked<Bytes: Octets>(
    ie: TschSlotframeLinkIe<Bytes>,
    slotframes: SlotframeIter<'_>,
    iter: &mut SlotframeIter<'_>,
    slotframe: Option<SlotframeDescriptor<&[u8]>>,
)
    requires
        ie@.len() >= 1,
        call_ensures(TschSlotframeLinkIe::<Bytes>::slotframes, (&ie,), slotframes),
        call_ensures(SlotframeIter::<'_>::next, (iter,), slotframe),
    ensures
        slotframes.left() == ie@[0],
        slotframes.buffer() == ie@.skip(1),
        slotframe is Some <==> old(iter).left() > 0 && old(iter).buffer().len() >= 4
            && old(iter).buffer().len() >= 4 + 5 * old(iter).buffer()[3],
        slotframe matches Some(slotframe) ==> {
            let total = 4 + 5 * old(iter).buffer()[3];
            &&& slotframe@ == old(iter).buffer().take(total)
            &&& final(iter).buffer() == old(iter).buffer().skip(total)
            &&& final(iter).left() + 1 == old(iter).left()
        },
        slotframe is None ==> *final(iter) == *old(iter),
{
}

/// A link that is written is the one with the given index, and no other octet of the
/// slotframe changes.
pub proof fn lemma_link_written<Bytes: OctetsMut>(
    slotframe: &mut SlotframeDescriptor<Bytes>,
    index: u8,
    link: Option<LinkDescriptor<&mut [u8]>>,
)
    requires
        slotframe@.len() >= 4,
        call_ensures(SlotframeDescriptor::<Bytes>::link_mut, (slotframe, index), link),
        link matches Some(link) ==> (*final(link.container()))@.len() == 5,
    ensures
        link is Some <==> index < old(slotframe)@[3] && 4 + 5 * (index + 1)
            <= old(slotframe)@.len(),
        link matches Some(link) ==> {
            let start = 4 + 5 * index;
            &&& link@ == old(slotframe)@.subrange(start, start + 5)
            &&& final(slotframe)@.subrange(start, start + 5) == (*final(link.container()))@
            &&& same_outside(final(slotframe)@, old(slotframe)@, start, start + 5)
        },
        link is None ==> final(slotframe)@ == old(slotframe)@,
{
}

/// The default timings are those of the timeslot with the ID zero: of 10 ms, with a
/// transmission after 2120 microseconds and a guard time of 2200 microseconds around
/// it.
pub proof fn lemma_default_timings(timings: TschTimeslotTimings, made: TschTimeslotTimings)
    requires
        call_ensures(<TschTimeslotTimings as Default>::default, (), timings),
        call_ensures(TschTimeslotTimings::new, (0u8, 2200u16), made),
    ensures
        timings == made,
        timings.id == 0,
        timings.cca_offset == 1800 && timings.cca == 128,
        timings.tx_offset == 2120 && timings.rx_offset == 1020,
        timings.rx_ack_delay == 800 && timings.tx_ack_delay == 1000,
        timings.rx_wait == 2200 && timings.ack_wait == 400,
        timings.rx_tx == 192 && timings.max_ack == 2400,
        timings.max_tx == 4256 && timings.timeslot_length == 10_000,
{
}

/// With any guard time, the transmission lies in the middle of the time during which
/// a frame is waited for, and all other timings are the default ones.
pub proof fn lemma_guard_time(
    id: u8,
    guard_time: u16,
    timings: TschTimeslotTimings,
    default: TschTimeslotTimings,
)
    requires
        guard_time as int / 2 <= 2120,
        call_ensures(TschTimeslotTimings::new, (id, guard_time), timings),
        call_ensures(<TschTimeslotTimings as Default>::default, (), default),
    ensures
        timings.id == id,
        timings.rx_wait == guard_time,
        timings.rx_offset + guard_time as int / 2 == timings.tx_offset,
        timings == (TschTimeslotTimings {
            id: timings.id,
            rx_wait: timings.rx_wait,
            rx_offset: timings.rx_offset,
            ..default
        }),
{
}

/// Link options have five bits, from the least significant one on: sending,
/// receiving, shared, keeping time, priority.
pub proof fn lemma_link_options(
    bits: u8,
    checked: Option<TschLinkOption>,
    retained: TschLinkOption,
    back: u8,
)
    requires
        call_ensures(TschLinkOption::from_bits, (bits,), checked),
        call_ensures(TschLinkOption::from_bits_retain, (bits,), retained),
        call_ensures(TschLinkOption::bits, (&retained,), back),
    ensures
        back == bits,
        checked is Some <==> bits as int / 32 == 0,
        checked matches Some(options) ==> options == retained,
        crate::ies::link_options::TX == 1 && crate::ies::link_options::RX == 2,
        crate::ies::link_options::SHARED == 4 && crate::ies::link_options::TIMEKEEPING == 8,
        crate::ies::link_options::PRIORITY == 16,
{
}

/// Options contain others if these have no bit more.
pub proof fn lemma_options_contain(a: TschLinkOption, b: TschLinkOption, contains: bool, i: u8)
    requires
        call_ensures(TschLinkOption::contains, (&a, b), contains),
        i < 8,
    ensures
        contains ==> ((b.bits >> i) & 1 == 1 ==> (a.bits >> i) & 1 == 1),
        contains <==> b.bits & !a.bits == 0,
{
    let (x, y) = (a.bits, b.bits);
    assert((x & y == y) == (y & !x == 0)) by (bit_vector);
    assert(x & y == y && (y >> i) & 1 == 1 ==> (x >> i) & 1 == 1) by (bit_vector)
        requires
            i < 8,
    ;
}

/// The timings are read from the fields that are named like them.
pub proof fn lemma_timings_read(
    timings: TschTimeslotTimings,
    id: u8,
    cca_offset: u16,
    cca: u16,
    tx_offset: u16,
    rx_offset: u16,
    rx_ack_delay: u16,
    tx_ack_delay: u16,
    rx_wait: u16,
    ack_wait: u16,
    rx_tx: u16,
    max_ack: u16,
    max_tx: u16,
    timeslot_length: u16,
)
    requires
        call_ensures(TschTimeslotTimings::id, (&timings,), id),
        call_ensures(TschTimeslotTimings::cca_offset, (&timings,), cca_offset),
        call_ensures(TschTimeslotTimings::cca, (&timings,), cca),
        call_ensures(TschTimeslotTimings::tx_offset, (&timings,), tx_offset),
        call_ensures(TschTimeslotTimings::rx_offset, (&timings,), rx_offset),
        call_ensures(TschTimeslotTimings::rx_ack_delay, (&timings,), rx_ack_delay),
        call_ensures(TschTimeslotTimings::tx_ack_delay, (&timings,), tx_ack_delay),
        call_ensures(TschTimeslotTimings::rx_wait, (&timings,), rx_wait),
        call_ensures(TschTimeslotTimings::ack_wait, (&timings,), ack_wait),
        call_ensures(TschTimeslotTimings::rx_tx, (&timings,), rx_tx),
        call_ensures(TschTimeslotTimings::max_ack, (&timings,), max_ack),
        call_ensures(TschTimeslotTimings::max_tx, (&timings,), max_tx),
        call_ensures(TschTimeslotTimings::timeslot_length, (&timings,), timeslot_length),
    ensures
        timings == (TschTimeslotTimings {
            id,
            cca_offset,
            cca,
            tx_offset,
            rx_offset,
            rx_ack_delay,
            tx_ack_delay,
            rx_wait,
            ack_wait,
            rx_tx,
            max_ack,
            max_tx,
            timeslot_length,
        }),
{
}

/// Setting `cca_offset` changes that timing and no other.
pub proof fn lemma_timing_cca_offset_set(timings: &mut TschTimeslotTimings, value: u16, read: u16)
    requires
        call_ensures(TschTimeslotTimings::set_cca_offset, (timings, value), ()),
        call_ensures(TschTimeslotTimings::cca_offset, (&*final(timings),), read),
    ensures
        read == value,
        *final(timings) == (TschTimeslotTimings { cca_offset: value, ..*old(timings) }),
{
}

/// Setting `cca` changes that timing and no other.
pub proof fn lemma_timing_cca_set(timings: &mut TschTimeslotTimings, value: u16, read: u16)
    requires
        call_ensures(TschTimeslotTimings::set_cca, (timings, value), ()),
        call_ensures(TschTimeslotTimings::cca, (&*final(timings),), read),
    ensures
        read == value,
        *final(timings) == (TschTimeslotTimings { cca: value, ..*old(timings) }),
{
}

/// Setting `tx_offset` changes that timing and no other.
pub proof fn lemma_timing_tx_offset_set(timings: &mut TschTimeslotTimings, value: u16, read: u16)
    requires
        call_ensures(TschTimeslotTimings::set_tx_offset, (timings, value), ()),
        call_ensures(TschTimeslotTimings::tx_offset, (&*final(timings),), read),
    ensures
        read == value,
        *final(timings) == (TschTimeslotTimings { tx_offset: value, ..*old(timings) }),
{
}

/// Setting `rx_offset` changes that timing and no other.
pub proof fn lemma_timing_rx_offset_set(timings: &mut TschTimeslotTimings, value: u16, read: u16)
    requires
        call_ensures(TschTimeslotTimings::set_rx_offset, (timings, value), ()),
        call_ensures(TschTimeslotTimings::rx_offset, (&*final(timings),), read),
    ensures
        read == value,
        *final(timings) == (TschTimeslotTimings { rx_offset: value, ..*old(timings) }),
{
}

/// Setting `rx_ack_delay` changes that timing and no other.
pub proof fn lemma_timing_rx_ack_delay_set(timings: &mut TschTimeslotTimings, value: u16, read: u16)
    requires
        call_ensures(TschTimeslotTimings::set_rx_ack_delay, (timings, value), ()),
        call_ensures(TschTimeslotTimings::rx_ack_delay, (&*final(timings),), read),
    ensures
        read == value,
        *final(timings) == (TschTimeslotTimings { rx_ack_delay: value, ..*old(timings) }),
{
}

/// Setting `tx_ack_delay` changes that timing and no other.
pub proof fn lemma_timing_tx_ack_delay_set(timings: &mut TschTimeslotTimings, value: u16, read: u16)
    requires
        call_ensures(TschTimeslotTimings::set_tx_ack_delay, (timings, value), ()),
        call_ensures(TschTimeslotTimings::tx_ack_delay, (&*final(timings),), read),
    ensures
        read == value,
        *final(timings) == (TschTimeslotTimings { tx_ack_delay: value, ..*old(timings) }),
{
}

/// Setting `rx_wait` changes that timing and no other.
pub proof fn lemma_timing_rx_wait_set(timings: &mut TschTimeslotTimings, value: u16, read: u16)
    requires
        call_ensures(TschTimeslotTimings::set_rx_wait, (timings, value), ()),
        call_ensures(TschTimeslotTimings::rx_wait, (&*final(timings),), read),
    ensures
        read == value,
        *final(timings) == (TschTimeslotTimings { rx_wait: value, ..*old(timings) }),
{
}

/// Setting `ack_wait` changes that timing and no other.
pub proof fn lemma_timing_ack_wait_set(timings: &mut TschTimeslotTimings, value: u16, read: u16)
    requires
        call_ensures(TschTimeslotTimings::set_ack_wait, (timings, value), ()),
        call_ensures(TschTimeslotTimings::ack_wait, (&*final(timings),), read),
    ensures
        read == value,
        *final(timings) == (TschTimeslotTimings { ack_wait: value, ..*old(timings) }),
{
}

/// Setting `rx_tx` changes that timing and no other.
pub proof fn lemma_timing_rx_tx_set(timings: &mut TschTimeslotTimings, value: u16, read: u16)
    requires
        call_ensures(TschTimeslotTimings::set_rx_tx, (timings, value), ()),
        call_ensures(TschTimeslotTimings::rx_tx, (&*final(timings),), read),
    ensures
        read == value,
        *final(timings) == (TschTimeslotTimings { rx_tx: value, ..*old(timings) }),
{
}

/// Setting `max_ack` changes that timing and no other.
pub proof fn lemma_timing_max_ack_set(timings: &mut TschTimeslotTimings, value: u16, read: u16)
    requires
        call_ensures(TschTimeslotTimings::set_max_ack, (timings, value), ()),
        call_ensures(TschTimeslotTimings::max_ack, (&*final(timings),), read),
    ensures
        read == value,
        *final(timings) == (TschTimeslotTimings { max_ack: value, ..*old(timings) }),
{
}

/// Setting `max_tx` changes that timing and no other.
pub proof fn lemma_timing_max_tx_set(timings: &mut TschTimeslotTimings, value: u16, read: u16)
    requires
        call_ensures(TschTimeslotTimings::set_max_tx, (timings, value), ()),
        call_ensures(TschTimeslotTimings::max_tx, (&*final(timings),), read),
    ensures
        read == value,
        *final(timings) == (TschTimeslotTimings { max_tx: value, ..*old(timings) }),
{
}

/// Setting `timeslot_length` changes that timing and no other.
pub proof fn lemma_timing_timeslot_length_set(
    timings: &mut TschTimeslotTimings,
    value: u16,
    read: u16,
)
    requires
        call_ensures(TschTimeslotTimings::set_timeslot_length, (timings, value), ()),
        call_ensures(TschTimeslotTimings::timeslot_length, (&*final(timings),), read),
    ensures
        read == value,
        *final(timings) == (TschTimeslotTimings { timeslot_length: value, ..*old(timings) }),
{
}

/// Links that are walked to be written are those that are walked to be read: each takes
/// five octets, and what is written to a link and to the rest makes up the whole.
pub proof fn lemma_links_written<'a>(
    iter: &mut LinkIterMut<'a>,
    link: Option<LinkDescriptor<&mut [u8]>>,
)
    requires
        call_ensures(LinkIterMut::<'a>::next, (iter,), link),
    ensures
        link is Some <==> old(iter).left() > 0 && old(iter).container()@.len() >= 5,
        link is None ==> *final(iter) == *old(iter),
        link matches Some(link) ==> {
            &&& link@ == old(iter).container()@.take(5)
            &&& final(iter).container()@ == old(iter).container()@.skip(5)
            &&& final(iter).left() + 1 == old(iter).left()
            &&& (*final(old(iter).container()))@ == (*final(link.container()))@
                + (*final(final(iter).container()))@
        },
{
}

/// The same holds of slotframes, which take four octets and five for each of their links.
pub proof fn lemma_slotframes_written<'a>(
    iter: &mut SlotframeIterMut<'a>,
    slotframe: Option<SlotframeDescriptor<&mut [u8]>>,
)
    requires
        call_ensures(SlotframeIterMut::<'a>::next, (iter,), slotframe),
    ensures
        ({
            let b = old(iter).container()@;
            let total = 4 + 5 * b[3];
            &&& slotframe is Some <==> old(iter).left() > 0 && b.len() >= 4 && b.len() >= total
            &&& slotframe is None ==> *final(iter) == *old(iter)
            &&& slotframe matches Some(slotframe) ==> {
                &&& slotframe@ == b.take(total)
                &&& final(iter).container()@ == b.skip(total)
                &&& final(iter).left() + 1 == old(iter).left()
                &&& (*final(old(iter).container()))@ == (*final(slotframe.container()))@
                    + (*final(final(iter).container()))@
            }
        }),
{
}

/// A walk over the links or slotframes that are written begins where they do.
pub proof fn lemma_written_walks_started<'a, Bytes: OctetsMut>(
    slotframe: &mut SlotframeDescriptor<Bytes>,
    ie: &mut TschSlotframeLinkIe<Bytes>,
    borrowed: SlotframeDescriptor<&'a [u8]>,
    links: LinkIterMut<'_>,
    slotframes: SlotframeIterMut<'_>,
    read: LinkIter<'a>,
)
    requires
        slotframe@.len() >= 4,
        ie@.len() >= 1,
        borrowed@.len() >= 4,
        call_ensures(SlotframeDescriptor::<Bytes>::links_mut, (slotframe,), links),
        call_ensures(TschSlotframeLinkIe::<Bytes>::slotframes_mut, (ie,), slotframes),
        call_ensures(LinkIter::<'a>::new, (&borrowed,), read),
    ensures
        links.left() == old(slotframe)@[3] && slotframes.left() == old(ie)@[0],
        read.left() == borrowed@[3] && read.buffer() == borrowed@.skip(4),
        slotframes.container()@ == old(ie)@.skip(1),
        final(ie)@ == seq![old(ie)@[0]] + (*final(slotframes.container()))@,
        4 + 5 * old(slotframe)@[3] <= old(slotframe)@.len() ==> links.container()@
            == old(slotframe)@.subrange(4, 4 + 5 * old(slotframe)@[3]) && final(slotframe)@
            == old(slotframe)@.take(4) + (*final(links.container()))@ + old(slotframe)@.skip(
            4 + 5 * old(slotframe)@[3],
        ),
        4 + 5 * old(slotframe)@[3] > old(slotframe)@.len() ==> links.container()@
            == old(slotframe)@.skip(4) && final(slotframe)@ == old(slotframe)@.take(4)
            + (*final(links.container()))@,
{
    let empty = slotframe@.subrange(slotframe@.len() as int, slotframe@.len() as int);
    assert(empty =~= Seq::empty());
}

/// Octets that are not checked are kept as they are.
pub proof fn lemma_ies_kept<Bytes: Octets>(
    bytes: Bytes,
    sync: TschSyncIe<Bytes>,
    timeslot: TschTimeslotIe<Bytes>,
    hopping: ChannelHoppingIe<Bytes>,
    slotframes: TschSlotframeLinkIe<Bytes>,
    slotframe: SlotframeDescriptor<Bytes>,
    link: LinkDescriptor<Bytes>,
)
    requires
        call_ensures(TschSyncIe::<Bytes>::new_unchecked, (bytes,), sync),
        call_ensures(TschTimeslotIe::<Bytes>::new_unchecked, (bytes,), timeslot),
        call_ensures(ChannelHoppingIe::<Bytes>::new_unchecked, (bytes,), hopping),
        call_ensures(TschSlotframeLinkIe::<Bytes>::new_unchecked, (bytes,), slotframes),
        call_ensures(SlotframeDescriptor::<Bytes>::new_unchecked, (bytes,), slotframe),
        call_ensures(LinkDescriptor::<Bytes>::new_unchecked, (bytes,), link),
    ensures
        sync@ == bytes.bytes() && timeslot@ == bytes.bytes() && hopping@ == bytes.bytes(),
        slotframes@ == bytes.bytes() && slotframe@ == bytes.bytes() && link@ == bytes.bytes(),
{
}

} // verus!
