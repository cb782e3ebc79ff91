//! What descriptors of information elements and the search for IEs are for.
//!
//! The laws speak of calls: each relates the arguments and the results of one or
//! more functions.

use vstd::prelude::*;

use crate::ies::descriptor::{
    lemma_long_ie_word, long_ie_id, long_ie_length, long_ie_type, long_ie_word,
};
use crate::ies::header::{
    find_header_ie_content, find_header_ie_content_mut, find_header_ie_content_range,
    header_ie_element_id, header_ie_length, header_ie_type, header_ie_word, header_ies_from,
    lemma_header_ie_word, lemma_time_correction_word, HeaderIe, HeaderIeHeader, HeaderIeIter,
    TimeCorrectionIe,
};
use crate::ies::header_ie_id;
use crate::ies::header_ie_id::{is_termination, termination_ids};
use crate::ies::nested::{
    find_nested_ie_content, find_nested_ie_content_mut, find_nested_ie_content_range,
    lemma_short_ie_word, nested_ies_from, short_ie_id, short_ie_length, short_ie_type,
    short_ie_word, NestedIe, NestedIeIter, NestedIeLongHeader, NestedIeShortHeader,
};
use crate::ies::nested_ie_id;
use crate::ies::payload::{find_mlme_content_range, payload_ies_from, PayloadIeHeader};
use crate::ies::payload_ie_id;
use crate::ies::span::{lemma_scan_step, scan, IeSpan};
use crate::ies::tsch::{ChannelHoppingIe, TschSlotframeLinkIe, TschSyncIe, TschTimeslotIe};
use crate::ies::tsch_laws::same_outside;
use crate::octets::{lemma_u16_round_trip, u16_at, Octets, OctetsMut};

verus! {

/// The content length of the header IE at a position: seven bits of the first octet.
pub open spec fn header_length_at(b: Seq<u8>, at: int) -> int {
    b[at] as int % 0x80
}

/// The element ID of the header IE at a position: the remaining bit of the first octet
/// and seven bits of the second one.
pub open spec fn header_id_at(b: Seq<u8>, at: int) -> int {
    b[at] as int / 0x80 + 2 * (b[at + 1] as int % 0x80)
}

/// Whether there is a whole header IE at a position.
pub open spec fn header_at(b: Seq<u8>, at: int) -> bool {
    &&& 0 <= at && at + 2 <= b.len()
    &&& b[at + 1] < 0x80
    &&& at + 2 + header_length_at(b, at) <= b.len()
}

/// The content length of the payload IE or long nested IE at a position: the first
/// octet and three bits of the second one.
pub open spec fn payload_length_at(b: Seq<u8>, at: int) -> int {
    b[at] + 0x100 * (b[at + 1] as int % 8)
}

/// The ID of the payload IE or long nested IE at a position: four bits of the second
/// octet.
pub open spec fn payload_id_at(b: Seq<u8>, at: int) -> int {
    b[at + 1] as int / 8 % 0x10
}

/// Whether there is a whole payload IE at a position.
pub open spec fn payload_at(b: Seq<u8>, at: int) -> bool {
    &&& 0 <= at && at + 2 <= b.len()
    &&& b[at + 1] >= 0x80
    &&& at + 2 + payload_length_at(b, at) <= b.len()
}

/// Whether the nested IE at a position is a long one: the last bit of its second
/// octet.
pub open spec fn nested_long_at(b: Seq<u8>, at: int) -> bool {
    b[at + 1] >= 0x80
}

/// The content length of the nested IE at a position: the first octet of a short one.
pub open spec fn nested_length_at(b: Seq<u8>, at: int) -> int {
    if nested_long_at(b, at) {
        payload_length_at(b, at)
    } else {
        b[at] as int
    }
}

/// The ID of the nested IE at a position: seven bits of the second octet of a short
/// one.
pub open spec fn nested_id_at(b: Seq<u8>, at: int) -> int {
    if nested_long_at(b, at) {
        payload_id_at(b, at)
    } else {
        b[at + 1] as int % 0x80
    }
}

/// Whether there is a whole nested IE at a position, before the given end.
pub open spec fn nested_at(b: Seq<u8>, at: int, end: int) -> bool {
    &&& 0 <= at && at + 2 <= end <= b.len()
    &&& at + 2 + nested_length_at(b, at) <= end
}

/// The fields of a word, told by its octets.
pub(crate) proof fn lemma_word_fields(b: Seq<u8>, at: int)
    ensures
        ({
            let word = u16_at(b, at);
            &&& header_ie_length(word) == header_length_at(b, at)
            &&& header_ie_element_id(word) == header_id_at(b, at)
            &&& header_ie_type(word) == b[at + 1] as int / 0x80
            &&& long_ie_length(word) == payload_length_at(b, at)
            &&& long_ie_id(word) == payload_id_at(b, at)
            &&& long_ie_type(word) == b[at + 1] as int / 0x80
            &&& short_ie_length(word) == b[at]
            &&& short_ie_id(word) == b[at + 1] as int % 0x80
            &&& short_ie_type(word) == b[at + 1] as int / 0x80
        }),
{
}

/// The descriptor of a header IE holds its length, its ID and its type.
pub proof fn lemma_header_descriptor_read<Bytes: Octets>(
    bytes: Bytes,
    header: HeaderIeHeader<Bytes>,
    checked: Option<HeaderIeHeader<Bytes>>,
    length: u8,
    id: u8,
    ie_type: u8,
    total: usize,
)
    requires
        bytes.bytes().len() >= 2,
        call_ensures(HeaderIeHeader::<Bytes>::new_unchecked, (bytes,), header),
        call_ensures(HeaderIeHeader::<Bytes>::new, (bytes,), checked),
        call_ensures(HeaderIeHeader::<Bytes>::length, (&header,), length),
        call_ensures(HeaderIeHeader::<Bytes>::element_id, (&header,), id),
        call_ensures(HeaderIeHeader::<Bytes>::ie_type, (&header,), ie_type),
        call_ensures(HeaderIeHeader::<Bytes>::total_length, (&header,), total),
    ensures
        header@ == bytes.bytes(),
        length == header_length_at(header@, 0),
        id == header_id_at(header@, 0),
        ie_type == header@[1] as int / 0x80,
        total == 2 + length,
        checked is Some <==> ie_type == 0,
        checked matches Some(checked) ==> checked@ == bytes.bytes(),
{
    lemma_word_fields(bytes.bytes(), 0);
}

/// Two octets are needed for it.
pub proof fn lemma_header_descriptor_incomplete<Bytes: Octets>(
    bytes: Bytes,
    checked: Option<HeaderIeHeader<Bytes>>,
)
    requires
        bytes.bytes().len() < 2,
        call_ensures(HeaderIeHeader::<Bytes>::new, (bytes,), checked),
    ensures
        checked is None,
{
}


/// The length of it is set without a change of anything else.
pub proof fn lemma_header_set_length<Bytes: OctetsMut>(
    header: &mut HeaderIeHeader<Bytes>,
    length: u8,
)
    requires
        header@.len() >= 2,
        length <= 127,
        call_ensures(HeaderIeHeader::<Bytes>::set_length, (header, length), ()),
    ensures
        header_length_at(final(header)@, 0) == length,
        header_id_at(final(header)@, 0) == header_id_at(old(header)@, 0),
        final(header)@[1] as int / 0x80 == old(header)@[1] as int / 0x80,
        same_outside(final(header)@, old(header)@, 0, 2),
{
    let before = *header;
    let after = *final(header);
    let word = header_ie_word(
        header_ie_type(u16_at(before@, 0)),
        header_ie_element_id(u16_at(before@, 0)),
        length as int,
    );
    lemma_header_ie_word(
        header_ie_type(u16_at(before@, 0)),
        header_ie_element_id(u16_at(before@, 0)),
        length as int,
        u16_at(before@, 0),
    );
    lemma_u16_round_trip(before@, 0, word);
    lemma_word_fields(before@, 0);
    lemma_word_fields(after@, 0);
}

/// The ID of it is set without a change of anything else.
pub proof fn lemma_header_set_id<Bytes: OctetsMut>(
    header: &mut HeaderIeHeader<Bytes>,
    id: u8,
)
    requires
        header@.len() >= 2,
        call_ensures(HeaderIeHeader::<Bytes>::set_element_id, (header, id), ()),
    ensures
        header_length_at(final(header)@, 0) == header_length_at(old(header)@, 0),
        header_id_at(final(header)@, 0) == id as int,
        final(header)@[1] as int / 0x80 == old(header)@[1] as int / 0x80,
        same_outside(final(header)@, old(header)@, 0, 2),
{
    let before = *header;
    let after = *final(header);
    let word = header_ie_word(
        header_ie_type(u16_at(before@, 0)),
        id as int,
        header_ie_length(u16_at(before@, 0)),
    );
    lemma_header_ie_word(
        header_ie_type(u16_at(before@, 0)),
        id as int,
        header_ie_length(u16_at(before@, 0)),
        u16_at(before@, 0),
    );
    lemma_u16_round_trip(before@, 0, word);
    lemma_word_fields(before@, 0);
    lemma_word_fields(after@, 0);
}

/// The type of it is set without a change of anything else.
pub proof fn lemma_header_set_ie_type<Bytes: OctetsMut>(
    header: &mut HeaderIeHeader<Bytes>,
    ie_type: u8,
)
    requires
        header@.len() >= 2,
        call_ensures(HeaderIeHeader::<Bytes>::set_ie_type, (header, ie_type), ()),
    ensures
        header_length_at(final(header)@, 0) == header_length_at(old(header)@, 0),
        header_id_at(final(header)@, 0) == header_id_at(old(header)@, 0),
        final(header)@[1] as int / 0x80 == ie_type as int % 2,
        same_outside(final(header)@, old(header)@, 0, 2),
{
    let before = *header;
    let after = *final(header);
    let word = header_ie_word(
        ie_type as int % 2,
        header_ie_element_id(u16_at(before@, 0)),
        header_ie_length(u16_at(before@, 0)),
    );
    lemma_header_ie_word(
        ie_type as int % 2,
        header_ie_element_id(u16_at(before@, 0)),
        header_ie_length(u16_at(before@, 0)),
        u16_at(before@, 0),
    );
    lemma_u16_round_trip(before@, 0, word);
    lemma_word_fields(before@, 0);
    lemma_word_fields(after@, 0);
}

/// It is initialized with a length and an ID, and with the type of its kind.
pub proof fn lemma_header_init<Bytes: OctetsMut>(
    header: &mut HeaderIeHeader<Bytes>,
    id: u8,
    length: u8,
)
    requires
        header@.len() >= 2,
        length <= 127,
        call_ensures(HeaderIeHeader::<Bytes>::init, (header, id, length), ()),
    ensures
        header_length_at(final(header)@, 0) == length,
        header_id_at(final(header)@, 0) == id as int,
        final(header)@[1] as int / 0x80 == 0,
        same_outside(final(header)@, old(header)@, 0, 2),
{
    let before = *header;
    let after = *final(header);
    let word = header_ie_word(0, id as int, length as int);
    lemma_header_ie_word(0, id as int, length as int, u16_at(before@, 0));
    lemma_u16_round_trip(before@, 0, word);
    lemma_word_fields(before@, 0);
    lemma_word_fields(after@, 0);
}

/// The descriptor of a payload IE holds its length, its ID and its type.
pub proof fn lemma_payload_descriptor_read<Bytes: Octets>(
    bytes: Bytes,
    header: PayloadIeHeader<Bytes>,
    checked: Option<PayloadIeHeader<Bytes>>,
    length: u16,
    id: u8,
    ie_type: u8,
    total: usize,
)
    requires
        bytes.bytes().len() >= 2,
        call_ensures(PayloadIeHeader::<Bytes>::new_unchecked, (bytes,), header),
        call_ensures(PayloadIeHeader::<Bytes>::new, (bytes,), checked),
        call_ensures(PayloadIeHeader::<Bytes>::length, (&header,), length),
        call_ensures(PayloadIeHeader::<Bytes>::group_id, (&header,), id),
        call_ensures(PayloadIeHeader::<Bytes>::ie_type, (&header,), ie_type),
        call_ensures(PayloadIeHeader::<Bytes>::total_length, (&header,), total),
    ensures
        header@ == bytes.bytes(),
        length == payload_length_at(header@, 0),
        id == payload_id_at(header@, 0),
        ie_type == header@[1] as int / 0x80,
        total == 2 + length,
        checked is Some <==> ie_type == 1,
        checked matches Some(checked) ==> checked@ == bytes.bytes(),
{
    lemma_word_fields(bytes.bytes(), 0);
}

/// Two octets are needed for it.
pub proof fn lemma_payload_descriptor_incomplete<Bytes: Octets>(
    bytes: Bytes,
    checked: Option<PayloadIeHeader<Bytes>>,
)
    requires
        bytes.bytes().len() < 2,
        call_ensures(PayloadIeHeader::<Bytes>::new, (bytes,), checked),
    ensures
        checked is None,
{
}


/// The length of it is set without a change of anything else.
pub proof fn lemma_payload_set_length<Bytes: OctetsMut>(
    header: &mut PayloadIeHeader<Bytes>,
    length: u16,
)
    requires
        header@.len() >= 2,
        length <= 2047,
        call_ensures(PayloadIeHeader::<Bytes>::set_length, (header, length), ()),
    ensures
        payload_length_at(final(header)@, 0) == length,
        payload_id_at(final(header)@, 0) == payload_id_at(old(header)@, 0),
        final(header)@[1] as int / 0x80 == old(header)@[1] as int / 0x80,
        same_outside(final(header)@, old(header)@, 0, 2),
{
    let before = *header;
    let after = *final(header);
    let word = long_ie_word(
        long_ie_type(u16_at(before@, 0)),
        long_ie_id(u16_at(before@, 0)),
        length as int,
    );
    lemma_long_ie_word(
        long_ie_type(u16_at(before@, 0)),
        long_ie_id(u16_at(before@, 0)),
        length as int,
        u16_at(before@, 0),
    );
    lemma_u16_round_trip(before@, 0, word);
    lemma_word_fields(before@, 0);
    lemma_word_fields(after@, 0);
}

/// The ID of it is set without a change of anything else.
pub proof fn lemma_payload_set_id<Bytes: OctetsMut>(
    header: &mut PayloadIeHeader<Bytes>,
    id: u8,
)
    requires
        header@.len() >= 2,
        call_ensures(PayloadIeHeader::<Bytes>::set_group_id, (header, id), ()),
    ensures
        payload_length_at(final(header)@, 0) == payload_length_at(old(header)@, 0),
        payload_id_at(final(header)@, 0) == id as int % 0x10,
        final(header)@[1] as int / 0x80 == old(header)@[1] as int / 0x80,
        same_outside(final(header)@, old(header)@, 0, 2),
{
    let before = *header;
    let after = *final(header);
    let word = long_ie_word(
        long_ie_type(u16_at(before@, 0)),
        id as int % 0x10,
        long_ie_length(u16_at(before@, 0)),
    );
    lemma_long_ie_word(
        long_ie_type(u16_at(before@, 0)),
        id as int % 0x10,
        long_ie_length(u16_at(before@, 0)),
        u16_at(before@, 0),
    );
    lemma_u16_round_trip(before@, 0, word);
    lemma_word_fields(before@, 0);
    lemma_word_fields(after@, 0);
}

/// The type of it is set without a change of anything else.
pub proof fn lemma_payload_set_ie_type<Bytes: OctetsMut>(
    header: &mut PayloadIeHeader<Bytes>,
    ie_type: u8,
)
    requires
        header@.len() >= 2,
        call_ensures(PayloadIeHeader::<Bytes>::set_ie_type, (header, ie_type), ()),
    ensures
        payload_length_at(final(header)@, 0) == payload_length_at(old(header)@, 0),
        payload_id_at(final(header)@, 0) == payload_id_at(old(header)@, 0),
        final(header)@[1] as int / 0x80 == ie_type as int % 2,
        same_outside(final(header)@, old(header)@, 0, 2),
{
    let before = *header;
    let after = *final(header);
    let word = long_ie_word(
        ie_type as int % 2,
        long_ie_id(u16_at(before@, 0)),
        long_ie_length(u16_at(before@, 0)),
    );
    lemma_long_ie_word(
        ie_type as int % 2,
        long_ie_id(u16_at(before@, 0)),
        long_ie_length(u16_at(before@, 0)),
        u16_at(before@, 0),
    );
    lemma_u16_round_trip(before@, 0, word);
    lemma_word_fields(before@, 0);
    lemma_word_fields(after@, 0);
}

/// It is initialized with a length and an ID, and with the type of its kind.
pub proof fn lemma_payload_init<Bytes: OctetsMut>(
    header: &mut PayloadIeHeader<Bytes>,
    id: u8,
    length: u16,
)
    requires
        header@.len() >= 2,
        length <= 2047,
        call_ensures(PayloadIeHeader::<Bytes>::init, (header, id, length), ()),
    ensures
        payload_length_at(final(header)@, 0) == length,
        payload_id_at(final(header)@, 0) == id as int % 0x10,
        final(header)@[1] as int / 0x80 == 1,
        same_outside(final(header)@, old(header)@, 0, 2),
{
    let before = *header;
    let after = *final(header);
    let word = long_ie_word(1, id as int % 0x10, length as int);
    lemma_long_ie_word(1, id as int % 0x10, length as int, u16_at(before@, 0));
    lemma_u16_round_trip(before@, 0, word);
    lemma_word_fields(before@, 0);
    lemma_word_fields(after@, 0);
}

/// The descriptor of a short nested IE holds its length, its ID and its type.
pub proof fn lemma_short_descriptor_read<Bytes: Octets>(
    bytes: Bytes,
    header: NestedIeShortHeader<Bytes>,
    checked: Option<NestedIeShortHeader<Bytes>>,
    length: u8,
    id: u8,
    ie_type: u8,
    total: usize,
)
    requires
        bytes.bytes().len() >= 2,
        call_ensures(NestedIeShortHeader::<Bytes>::new_unchecked, (bytes,), header),
        call_ensures(NestedIeShortHeader::<Bytes>::new, (bytes,), checked),
        call_ensures(NestedIeShortHeader::<Bytes>::length, (&header,), length),
        call_ensures(NestedIeShortHeader::<Bytes>::sub_id, (&header,), id),
        call_ensures(NestedIeShortHeader::<Bytes>::ie_type, (&header,), ie_type),
        call_ensures(NestedIeShortHeader::<Bytes>::total_length, (&header,), total),
    ensures
        header@ == bytes.bytes(),
        length == header@[0] as int,
        id == header@[1] as int % 0x80,
        ie_type == header@[1] as int / 0x80,
        total == 2 + length,
        checked is Some <==> ie_type == 0,
        checked matches Some(checked) ==> checked@ == bytes.bytes(),
{
    lemma_word_fields(bytes.bytes(), 0);
}

/// Two octets are needed for it.
pub proof fn lemma_short_descriptor_incomplete<Bytes: Octets>(
    bytes: Bytes,
    checked: Option<NestedIeShortHeader<Bytes>>,
)
    requires
        bytes.bytes().len() < 2,
        call_ensures(NestedIeShortHeader::<Bytes>::new, (bytes,), checked),
    ensures
        checked is None,
{
}


/// The length of it is set without a change of anything else.
pub proof fn lemma_short_set_length<Bytes: OctetsMut>(
    header: &mut NestedIeShortHeader<Bytes>,
    length: u8,
)
    requires
        header@.len() >= 2,
        call_ensures(NestedIeShortHeader::<Bytes>::set_length, (header, length), ()),
    ensures
        final(header)@[0] as int == length,
        final(header)@[1] as int % 0x80 == old(header)@[1] as int % 0x80,
        final(header)@[1] as int / 0x80 == old(header)@[1] as int / 0x80,
        same_outside(final(header)@, old(header)@, 0, 2),
{
    let before = *header;
    let after = *final(header);
    let word = short_ie_word(
        short_ie_type(u16_at(before@, 0)),
        short_ie_id(u16_at(before@, 0)),
        length as int,
    );
    lemma_short_ie_word(
        short_ie_type(u16_at(before@, 0)),
        short_ie_id(u16_at(before@, 0)),
        length as int,
        u16_at(before@, 0),
    );
    lemma_u16_round_trip(before@, 0, word);
    lemma_word_fields(before@, 0);
    lemma_word_fields(after@, 0);
}

/// The ID of it is set without a change of anything else.
pub proof fn lemma_short_set_id<Bytes: OctetsMut>(
    header: &mut NestedIeShortHeader<Bytes>,
    id: u8,
)
    requires
        header@.len() >= 2,
        call_ensures(NestedIeShortHeader::<Bytes>::set_sub_id, (header, id), ()),
    ensures
        final(header)@[0] as int == old(header)@[0] as int,
        final(header)@[1] as int % 0x80 == id as int % 0x80,
        final(header)@[1] as int / 0x80 == old(header)@[1] as int / 0x80,
        same_outside(final(header)@, old(header)@, 0, 2),
{
    let before = *header;
    let after = *final(header);
    let word = short_ie_word(
        short_ie_type(u16_at(before@, 0)),
        id as int % 0x80,
        short_ie_length(u16_at(before@, 0)),
    );
    lemma_short_ie_word(
        short_ie_type(u16_at(before@, 0)),
        id as int % 0x80,
        short_ie_length(u16_at(before@, 0)),
        u16_at(before@, 0),
    );
    lemma_u16_round_trip(before@, 0, word);
    lemma_word_fields(before@, 0);
    lemma_word_fields(after@, 0);
}

/// The type of it is set without a change of anything else.
pub proof fn lemma_short_set_ie_type<Bytes: OctetsMut>(
    header: &mut NestedIeShortHeader<Bytes>,
    ie_type: u8,
)
    requires
        header@.len() >= 2,
        call_ensures(NestedIeShortHeader::<Bytes>::set_ie_type, (header, ie_type), ()),
    ensures
        final(header)@[0] as int == old(header)@[0] as int,
        final(header)@[1] as int % 0x80 == old(header)@[1] as int % 0x80,
        final(header)@[1] as int / 0x80 == ie_type as int % 2,
        same_outside(final(header)@, old(header)@, 0, 2),
{
    let before = *header;
    let after = *final(header);
    let word = short_ie_word(
        ie_type as int % 2,
        short_ie_id(u16_at(before@, 0)),
        short_ie_length(u16_at(before@, 0)),
    );
    lemma_short_ie_word(
        ie_type as int % 2,
        short_ie_id(u16_at(before@, 0)),
        short_ie_length(u16_at(before@, 0)),
        u16_at(before@, 0),
    );
    lemma_u16_round_trip(before@, 0, word);
    lemma_word_fields(before@, 0);
    lemma_word_fields(after@, 0);
}

/// It is initialized with a length and an ID, and with the type of its kind.
pub proof fn lemma_short_init<Bytes: OctetsMut>(
    header: &mut NestedIeShortHeader<Bytes>,
    id: u8,
    length: u8,
)
    requires
        header@.len() >= 2,
        call_ensures(NestedIeShortHeader::<Bytes>::init, (header, id, length), ()),
    ensures
        final(header)@[0] as int == length,
        final(header)@[1] as int % 0x80 == id as int % 0x80,
        final(header)@[1] as int / 0x80 == 0,
        same_outside(final(header)@, old(header)@, 0, 2),
{
    let before = *header;
    let after = *final(header);
    let word = short_ie_word(0, id as int % 0x80, length as int);
    lemma_short_ie_word(0, id as int % 0x80, length as int, u16_at(before@, 0));
    lemma_u16_round_trip(before@, 0, word);
    lemma_word_fields(before@, 0);
    lemma_word_fields(after@, 0);
}

/// The descriptor of a long nested IE holds its length, its ID and its type.
pub proof fn lemma_long_descriptor_read<Bytes: Octets>(
    bytes: Bytes,
    header: NestedIeLongHeader<Bytes>,
    checked: Option<NestedIeLongHeader<Bytes>>,
    length: u16,
    id: u8,
    ie_type: u8,
    total: usize,
)
    requires
        bytes.bytes().len() >= 2,
        call_ensures(NestedIeLongHeader::<Bytes>::new_unchecked, (bytes,), header),
        call_ensures(NestedIeLongHeader::<Bytes>::new, (bytes,), checked),
        call_ensures(NestedIeLongHeader::<Bytes>::length, (&header,), length),
        call_ensures(NestedIeLongHeader::<Bytes>::sub_id, (&header,), id),
        call_ensures(NestedIeLongHeader::<Bytes>::ie_type, (&header,), ie_type),
        call_ensures(NestedIeLongHeader::<Bytes>::total_length, (&header,), total),
    ensures
        header@ == bytes.bytes(),
        length == payload_length_at(header@, 0),
        id == payload_id_at(header@, 0),
        ie_type == header@[1] as int / 0x80,
        total == 2 + length,
        checked is Some <==> ie_type == 1,
        checked matches Some(checked) ==> checked@ == bytes.bytes(),
{
    lemma_word_fields(bytes.bytes(), 0);
}

/// Two octets are needed for it.
pub proof fn lemma_long_descriptor_incomplete<Bytes: Octets>(
    bytes: Bytes,
    checked: Option<NestedIeLongHeader<Bytes>>,
)
    requires
        bytes.bytes().len() < 2,
        call_ensures(NestedIeLongHeader::<Bytes>::new, (bytes,), checked),
    ensures
        checked is None,
{
}


/// The length of it is set without a change of anything else.
pub proof fn lemma_long_set_length<Bytes: OctetsMut>(
    header: &mut NestedIeLongHeader<Bytes>,
    length: u16,
)
    requires
        header@.len() >= 2,
        length <= 2047,
        call_ensures(NestedIeLongHeader::<Bytes>::set_length, (header, length), ()),
    ensures
        payload_length_at(final(header)@, 0) == length,
        payload_id_at(final(header)@, 0) == payload_id_at(old(header)@, 0),
        final(header)@[1] as int / 0x80 == old(header)@[1] as int / 0x80,
        same_outside(final(header)@, old(header)@, 0, 2),
{
    let before = *header;
    let after = *final(header);
    let word = long_ie_word(
        long_ie_type(u16_at(before@, 0)),
        long_ie_id(u16_at(before@, 0)),
        length as int,
    );
    lemma_long_ie_word(
        long_ie_type(u16_at(before@, 0)),
        long_ie_id(u16_at(before@, 0)),
        length as int,
        u16_at(before@, 0),
    );
    lemma_u16_round_trip(before@, 0, word);
    lemma_word_fields(before@, 0);
    lemma_word_fields(after@, 0);
}

/// The ID of it is set without a change of anything else.
pub proof fn lemma_long_set_id<Bytes: OctetsMut>(
    header: &mut NestedIeLongHeader<Bytes>,
    id: u8,
)
    requires
        header@.len() >= 2,
        call_ensures(NestedIeLongHeader::<Bytes>::set_sub_id, (header, id), ()),
    ensures
        payload_length_at(final(header)@, 0) == payload_length_at(old(header)@, 0),
        payload_id_at(final(header)@, 0) == id as int % 0x10,
        final(header)@[1] as int / 0x80 == old(header)@[1] as int / 0x80,
        same_outside(final(header)@, old(header)@, 0, 2),
{
    let before = *header;
    let after = *final(header);
    let word = long_ie_word(
        long_ie_type(u16_at(before@, 0)),
        id as int % 0x10,
        long_ie_length(u16_at(before@, 0)),
    );
    lemma_long_ie_word(
        long_ie_type(u16_at(before@, 0)),
        id as int % 0x10,
        long_ie_length(u16_at(before@, 0)),
        u16_at(before@, 0),
    );
    lemma_u16_round_trip(before@, 0, word);
    lemma_word_fields(before@, 0);
    lemma_word_fields(after@, 0);
}

/// The type of it is set without a change of anything else.
pub proof fn lemma_long_set_ie_type<Bytes: OctetsMut>(
    header: &mut NestedIeLongHeader<Bytes>,
    ie_type: u8,
)
    requires
        header@.len() >= 2,
        call_ensures(NestedIeLongHeader::<Bytes>::set_ie_type, (header, ie_type), ()),
    ensures
        payload_length_at(final(header)@, 0) == payload_length_at(old(header)@, 0),
        payload_id_at(final(header)@, 0) == payload_id_at(old(header)@, 0),
        final(header)@[1] as int / 0x80 == ie_type as int % 2,
        same_outside(final(header)@, old(header)@, 0, 2),
{
    let before = *header;
    let after = *final(header);
    let word = long_ie_word(
        ie_type as int % 2,
        long_ie_id(u16_at(before@, 0)),
        long_ie_length(u16_at(before@, 0)),
    );
    lemma_long_ie_word(
        ie_type as int % 2,
        long_ie_id(u16_at(before@, 0)),
        long_ie_length(u16_at(before@, 0)),
        u16_at(before@, 0),
    );
    lemma_u16_round_trip(before@, 0, word);
    lemma_word_fields(before@, 0);
    lemma_word_fields(after@, 0);
}

/// It is initialized with a length and an ID, and with the type of its kind.
pub proof fn lemma_long_init<Bytes: OctetsMut>(
    header: &mut NestedIeLongHeader<Bytes>,
    id: u8,
    length: u16,
)
    requires
        header@.len() >= 2,
        length <= 2047,
        call_ensures(NestedIeLongHeader::<Bytes>::init, (header, id, length), ()),
    ensures
        payload_length_at(final(header)@, 0) == length,
        payload_id_at(final(header)@, 0) == id as int % 0x10,
        final(header)@[1] as int / 0x80 == 1,
        same_outside(final(header)@, old(header)@, 0, 2),
{
    let before = *header;
    let after = *final(header);
    let word = long_ie_word(1, id as int % 0x10, length as int);
    lemma_long_ie_word(1, id as int % 0x10, length as int, u16_at(before@, 0));
    lemma_u16_round_trip(before@, 0, word);
    lemma_word_fields(before@, 0);
    lemma_word_fields(after@, 0);
}

/// The kinds of IEs are told by their IDs.
pub proof fn lemma_kinds_told<Bytes: Octets>(
    header: HeaderIeHeader<Bytes>,
    payload: PayloadIeHeader<Bytes>,
    id: u8,
    group_id: u8,
    number: u8,
    header_ends: bool,
    payload_ends: bool,
    mlme: bool,
    ends: bool,
)
    requires
        header@.len() >= 2,
        payload@.len() >= 2,
        call_ensures(HeaderIeHeader::<Bytes>::element_id, (&header,), id),
        call_ensures(PayloadIeHeader::<Bytes>::group_id, (&payload,), group_id),
        call_ensures(HeaderIeHeader::<Bytes>::is_termination, (&header,), header_ends),
        call_ensures(PayloadIeHeader::<Bytes>::is_termination, (&payload,), payload_ends),
        call_ensures(PayloadIeHeader::<Bytes>::is_mlme, (&payload,), mlme),
        call_ensures(is_termination, (number,), ends),
    ensures
        header_ends <==> id == 0x7e || id == 0x7f,
        payload_ends <==> group_id == 0xf,
        mlme <==> group_id == 1,
        ends <==> number == 0x7e || number == 0x7f,
{
}

/// A time correction IE holds a signed number of microseconds in its lower twelve bits,
/// and a negative acknowledgment in its highest bit.
pub proof fn lemma_time_correction_read<Bytes: Octets>(
    ie: TimeCorrectionIe<Bytes>,
    sync: i16,
    nack: bool,
)
    requires
        ie@.len() >= 2,
        call_ensures(TimeCorrectionIe::<Bytes>::time_sync, (&ie,), sync),
        call_ensures(TimeCorrectionIe::<Bytes>::nack, (&ie,), nack),
    ensures
        -0x800 <= sync < 0x800,
        (sync - (ie@[0] + 0x100 * ie@[1])) % 0x1000 == 0,
        nack <==> ie@[1] >= 0x80,
{
}

/// A time correction from -2048 to 2047 is read as it was set, and so is a negative
/// acknowledgment. Neither changes the other.
pub proof fn lemma_time_correction_written<Bytes: OctetsMut>(
    ie: &mut TimeCorrectionIe<Bytes>,
    other: &mut TimeCorrectionIe<Bytes>,
    value: i16,
    negative: bool,
    read: i16,
    nack_before: bool,
    nack_after: bool,
    sync_before: i16,
    sync_after: i16,
    nack: bool,
)
    requires
        ie@.len() >= 2,
        other@.len() >= 2,
        call_ensures(TimeCorrectionIe::<Bytes>::nack, (&*old(ie),), nack_before),
        call_ensures(TimeCorrectionIe::<Bytes>::set_time_sync, (ie, value), ()),
        call_ensures(TimeCorrectionIe::<Bytes>::time_sync, (&*final(ie),), read),
        call_ensures(TimeCorrectionIe::<Bytes>::nack, (&*final(ie),), nack_after),
        call_ensures(TimeCorrectionIe::<Bytes>::time_sync, (&*old(other),), sync_before),
        call_ensures(TimeCorrectionIe::<Bytes>::set_nack, (other, negative), ()),
        call_ensures(TimeCorrectionIe::<Bytes>::time_sync, (&*final(other),), sync_after),
        call_ensures(TimeCorrectionIe::<Bytes>::nack, (&*final(other),), nack),
    ensures
        -0x800 <= value < 0x800 ==> read == value,
        nack_after == nack_before,
        nack == negative,
        sync_after == sync_before,
        same_outside(final(ie)@, old(ie)@, 0, 2),
        same_outside(final(other)@, old(other)@, 0, 2),
{
    let word = u16_at(ie@, 0);
    lemma_time_correction_word(word, value as int, negative);
    lemma_u16_round_trip(ie@, 0, word - word % 0x1000 + value as int % 0x1000);
    let other_word = u16_at(other@, 0);
    lemma_time_correction_word(other_word, value as int, negative);
    lemma_u16_round_trip(
        other@,
        0,
        other_word % 0x8000 + (if negative {
            0x8000int
        } else {
            0int
        }),
    );
}

/// A time correction IE has two octets.
pub proof fn lemma_time_correction_recognized<Bytes: Octets>(
    bytes: Bytes,
    ie: Option<TimeCorrectionIe<Bytes>>,
    unchecked: TimeCorrectionIe<Bytes>,
)
    requires
        call_ensures(TimeCorrectionIe::<Bytes>::new, (bytes,), ie),
        call_ensures(TimeCorrectionIe::<Bytes>::new_unchecked, (bytes,), unchecked),
    ensures
        unchecked@ == bytes.bytes(),
        ie is Some <==> bytes.bytes().len() >= 2,
        ie matches Some(ie) ==> ie@ == bytes.bytes(),
{
}

/// The header IEs are walked one by one: each has the ID and the content that its
/// descriptor tells, and the next one follows its content.
pub proof fn lemma_header_ies_walked<'a>(
    iter: &mut HeaderIeIter<'a>,
    ie: Option<HeaderIe<'a>>,
    id: u8,
    content: &[u8],
    ends: bool,
    correction: Option<TimeCorrectionIe<&'a [u8]>>,
)
    requires
        call_ensures(HeaderIeIter::<'a>::next, (iter,), ie),
        ie matches Some(ie) ==> {
            &&& call_ensures(HeaderIe::<'a>::element_id, (&ie,), id)
            &&& call_ensures(HeaderIe::<'a>::content, (&ie,), content)
            &&& call_ensures(HeaderIe::<'a>::is_termination, (&ie,), ends)
            &&& call_ensures(HeaderIe::<'a>::as_time_correction, (&ie,), correction)
        },
    ensures
        ({
            let (b, at) = (old(iter).buffer(), old(iter).position());
            &&& final(iter).buffer() == b
            &&& ie is Some <==> header_at(b, at)
            &&& ie is None ==> final(iter).position() == at
            &&& ie is Some ==> {
                &&& id == header_id_at(b, at)
                &&& content@ == b.subrange(at + 2, at + 2 + header_length_at(b, at))
                &&& final(iter).position() == at + 2 + header_length_at(b, at)
                &&& ends <==> id == 0x7e || id == 0x7f
                &&& correction is Some <==> id == 0x1e && content@.len() >= 2
                &&& correction matches Some(ie) ==> ie@ == content@
            }
        }),
{
    lemma_word_fields(iter.buffer(), iter.position());
}

/// Wherever a walk has come to, the octets that remain are those behind it.
pub proof fn lemma_header_walk_goes_on<'a>(
    iter: HeaderIeIter<'a>,
    offset: usize,
    remaining: &[u8],
)
    requires
        0 <= iter.position() <= iter.buffer().len(),
        call_ensures(HeaderIeIter::<'a>::offset, (&iter,), offset),
        call_ensures(HeaderIeIter::<'a>::remaining, (&iter,), remaining),
    ensures
        offset == iter.position(),
        remaining@ == iter.buffer().skip(iter.position()),
{
}

/// The walk starts at the first octet.
pub proof fn lemma_header_walk_started<'a>(
    buf: &'a [u8],
    iter: HeaderIeIter<'a>,
    offset: usize,
    remaining: &[u8],
)
    requires
        call_ensures(HeaderIeIter::<'a>::new, (buf,), iter),
        call_ensures(HeaderIeIter::<'a>::offset, (&iter,), offset),
        call_ensures(HeaderIeIter::<'a>::remaining, (&iter,), remaining),
    ensures
        iter.buffer() == buf@,
        offset == 0 && iter.position() == 0,
        remaining@ == buf@,
{
}

/// The nested IEs are walked one by one: each has the format, the ID and the content
/// that its descriptor tells, and the next one follows its content.
pub proof fn lemma_nested_ies_walked<'a>(
    iter: &mut NestedIeIter<'a>,
    ie: Option<NestedIe<'a>>,
    id: u8,
    content: &[u8],
)
    requires
        call_ensures(NestedIeIter::<'a>::next, (iter,), ie),
        ie matches Some(ie) ==> {
            &&& call_ensures(NestedIe::<'a>::sub_id, (&ie,), id)
            &&& call_ensures(NestedIe::<'a>::content, (&ie,), content)
        },
    ensures
        ({
            let (b, at) = (old(iter).buffer(), old(iter).position());
            &&& final(iter).buffer() == b
            &&& ie is Some <==> nested_at(b, at, b.len() as int)
            &&& ie is None ==> final(iter).position() == at
            &&& ie matches Some(ie) ==> {
                &&& ie is Long <==> nested_long_at(b, at)
                &&& id == nested_id_at(b, at)
                &&& content@ == b.subrange(at + 2, at + 2 + nested_length_at(b, at))
                &&& final(iter).position() == at + 2 + nested_length_at(b, at)
            }
        }),
{
    lemma_word_fields(iter.buffer(), iter.position());
}

/// The walk starts at the first octet.
pub proof fn lemma_nested_walk_started<'a>(buf: &'a [u8], iter: NestedIeIter<'a>)
    requires
        call_ensures(NestedIeIter::<'a>::new, (buf,), iter),
    ensures
        iter.buffer() == buf@ && iter.position() == 0,
{
}

/// The IEs of TSCH are told by their IDs and have at least their mandatory octets.
pub proof fn lemma_nested_kinds<'a>(
    ie: NestedIe<'a>,
    id: u8,
    content: &[u8],
    sync: Option<TschSyncIe<&'a [u8]>>,
    timeslot: Option<TschTimeslotIe<&'a [u8]>>,
    slotframes: Option<TschSlotframeLinkIe<&'a [u8]>>,
    hopping: Option<ChannelHoppingIe<&'a [u8]>>,
)
    requires
        call_ensures(NestedIe::<'a>::sub_id, (&ie,), id),
        call_ensures(NestedIe::<'a>::content, (&ie,), content),
        call_ensures(NestedIe::<'a>::as_tsch_sync, (&ie,), sync),
        call_ensures(NestedIe::<'a>::as_tsch_timeslot, (&ie,), timeslot),
        call_ensures(NestedIe::<'a>::as_tsch_slotframe_link, (&ie,), slotframes),
        call_ensures(NestedIe::<'a>::as_channel_hopping, (&ie,), hopping),
    ensures
        sync is Some <==> id == 0x1a && content@.len() >= 6,
        timeslot is Some <==> id == 0x1c && content@.len() >= 1,
        slotframes is Some <==> id == 0x1b && content@.len() >= 1,
        hopping is Some <==> id == 0x09 && content@.len() >= 1,
        sync matches Some(ie) ==> ie@ == content@,
        timeslot matches Some(ie) ==> ie@ == content@,
        slotframes matches Some(ie) ==> ie@ == content@,
        hopping matches Some(ie) ==> ie@ == content@,
        ie matches NestedIe::Short { sub_id, content: octets } ==> id == sub_id && content@
            == octets@,
        ie matches NestedIe::Long { sub_id, content: octets } ==> id == sub_id && content@
            == octets@,
{
}

/// Whether positions lead from one header IE to the next, past IEs that are not the
/// wanted one and do not end the list.
pub open spec fn header_path(b: Seq<u8>, positions: Seq<int>, wanted: int) -> bool {
    &&& positions.len() > 0
    &&& forall|i: int|
        0 <= i < positions.len() - 1 ==> {
            let at = #[trigger] positions[i];
            &&& header_at(b, at)
            &&& header_id_at(b, at) != wanted
            &&& header_id_at(b, at) != 0x7e
            &&& header_id_at(b, at) != 0x7f
            &&& positions[i + 1] == at + 2 + header_length_at(b, at)
        }
}

/// What a scan along a path finds at its end.
proof fn lemma_header_path(b: Seq<u8>, positions: Seq<int>, wanted: int)
    requires
        header_path(b, positions, wanted),
    ensures
        ({
            let at = positions.last();
            let found = scan(header_ies_from(b, positions[0]), wanted, termination_ids());
            &&& header_at(b, at) && header_id_at(b, at) == wanted ==> (found matches Some(span)
                && span.start == at + 2 && span.end == at + 2 + header_length_at(b, at))
            &&& !header_at(b, at) ==> found is None
            &&& header_id_at(b, at) != wanted && (header_id_at(b, at) == 0x7e || header_id_at(
                b,
                at,
            ) == 0x7f) ==> found is None
        }),
    decreases positions.len(),
{
    let at = positions[0];
    lemma_word_fields(b, at);
    if header_at(b, at) {
        lemma_scan_step(
            crate::ies::header::header_ie_span(b, at),
            header_ies_from(b, at + 2 + header_length_at(b, at)),
            wanted,
            termination_ids(),
        );
    }
    if positions.len() > 1 {
        let rest = positions.drop_first();
        assert(header_path(b, rest, wanted)) by {
            assert forall|i: int| 0 <= i < rest.len() - 1 implies ({
                let at = #[trigger] rest[i];
                &&& header_at(b, at)
                &&& header_id_at(b, at) != wanted
                &&& header_id_at(b, at) != 0x7e
                &&& header_id_at(b, at) != 0x7f
                &&& rest[i + 1] == at + 2 + header_length_at(b, at)
            }) by {
                assert(positions[i + 1] == rest[i]);
                assert(positions[i + 2] == rest[i + 1]);
            }
        }
        lemma_header_path(b, rest, wanted);
        assert(rest.last() == positions.last());
        assert(positions[1] == rest[0]);
    }
}

/// The content of a header IE is found at the end of the path that leads to it from
/// the first octet. It is not found if the path ends at an incomplete IE or at an IE
/// that ends the list. All ways of finding it agree.
pub proof fn lemma_header_ie_found(
    buf: &[u8],
    id: u8,
    positions: Seq<int>,
    range: Option<(usize, usize)>,
    content: Option<&[u8]>,
)
    requires
        header_path(buf@, positions, id as int),
        positions[0] == 0,
        call_ensures(find_header_ie_content_range, (buf, id), range),
        call_ensures(find_header_ie_content, (buf, id), content),
    ensures
        ({
            let at = positions.last();
            &&& header_at(buf@, at) && header_id_at(buf@, at) == id ==> (range matches Some(
                (start, end),
            ) && start == at + 2 && end == start + header_length_at(buf@, at))
            &&& !header_at(buf@, at) ==> range is None
            &&& header_id_at(buf@, at) != id && (header_id_at(buf@, at) == 0x7e || header_id_at(
                buf@,
                at,
            ) == 0x7f) ==> range is None
        }),
        content is Some <==> range is Some,
        content matches Some(content) ==> content@ == buf@.subrange(
            (range->0).0 as int,
            (range->0).1 as int,
        ),
{
    lemma_header_path(buf@, positions, id as int);
}

/// The content of a header IE is written where it is read, and nothing else changes.
pub proof fn lemma_header_ie_written(
    buf: &mut [u8],
    before: &[u8],
    id: u8,
    range: Option<(usize, usize)>,
    content: Option<&mut [u8]>,
)
    requires
        before@ == buf@,
        call_ensures(find_header_ie_content_range, (before, id), range),
        call_ensures(find_header_ie_content_mut, (buf, id), content),
        content matches Some(content) ==> (*final(content))@.len() == content@.len(),
    ensures
        content is Some <==> range is Some,
        content is None ==> final(buf)@ == old(buf)@,
        content matches Some(content) ==> {
            let (start, end) = ((range->0).0 as int, (range->0).1 as int);
            &&& content@ == old(buf)@.subrange(start, end)
            &&& final(buf)@.subrange(start, end) == (*final(content))@
            &&& same_outside(final(buf)@, old(buf)@, start, end)
        },
{
}

/// Whether positions lead from one payload IE to the next, past IEs that neither hold
/// nested IEs nor end the list.
pub open spec fn payload_path(b: Seq<u8>, positions: Seq<int>) -> bool {
    &&& positions.len() > 0
    &&& forall|i: int|
        0 <= i < positions.len() - 1 ==> {
            let at = #[trigger] positions[i];
            &&& payload_at(b, at)
            &&& payload_id_at(b, at) != 1
            &&& payload_id_at(b, at) != 0xf
            &&& positions[i + 1] == at + 2 + payload_length_at(b, at)
        }
}

/// What a scan along a path finds at its end.
proof fn lemma_payload_path(b: Seq<u8>, positions: Seq<int>)
    requires
        payload_path(b, positions),
    ensures
        ({
            let at = positions.last();
            let found = scan(payload_ies_from(b, positions[0]), 1int, set![0xfint]);
            &&& payload_at(b, at) && payload_id_at(b, at) == 1 ==> (found matches Some(span)
                && span.start == at + 2 && span.end == at + 2 + payload_length_at(b, at))
            &&& !payload_at(b, at) || payload_id_at(b, at) == 0xf ==> found is None
        }),
    decreases positions.len(),
{
    let at = positions[0];
    lemma_word_fields(b, at);
    if payload_at(b, at) {
        lemma_scan_step(
            crate::ies::payload::payload_ie_span(b, at),
            payload_ies_from(b, at + 2 + payload_length_at(b, at)),
            1int,
            set![0xfint],
        );
    }
    if positions.len() > 1 {
        let rest = positions.drop_first();
        assert(payload_path(b, rest)) by {
            assert forall|i: int| 0 <= i < rest.len() - 1 implies ({
                let at = #[trigger] rest[i];
                &&& payload_at(b, at)
                &&& payload_id_at(b, at) != 1
                &&& payload_id_at(b, at) != 0xf
                &&& rest[i + 1] == at + 2 + payload_length_at(b, at)
            }) by {
                assert(positions[i + 1] == rest[i]);
                assert(positions[i + 2] == rest[i + 1]);
            }
        }
        lemma_payload_path(b, rest);
        assert(rest.last() == positions.last());
        assert(positions[1] == rest[0]);
    }
}

/// Looking for the first kind of termination, it does not matter that it ends the list.
proof fn lemma_termination_scan(list: Seq<IeSpan<int>>)
    ensures
        scan(list, 0x7eint, set![0x7fint]) == scan(list, 0x7eint, termination_ids()),
    decreases list.len(),
{
    if list.len() > 0 {
        lemma_termination_scan(list.drop_first());
    }
}

/// Nested IEs are found in the first payload IE of their group. The payload IEs follow
/// the header IE 0x7e, and the group 0xf ends them.
pub proof fn lemma_mlme_found(
    buf: &[u8],
    termination: Option<(usize, usize)>,
    positions: Seq<int>,
    range: Option<(usize, usize)>,
)
    requires
        call_ensures(find_header_ie_content_range, (buf, 0x7eu8), termination),
        call_ensures(find_mlme_content_range, (buf,), range),
        termination is Some ==> payload_path(buf@, positions) && positions[0] == (termination->0).1,
    ensures
        termination is None ==> range is None,
        termination is Some ==> ({
            let at = positions.last();
            &&& payload_at(buf@, at) && payload_id_at(buf@, at) == 1 ==> (range matches Some(
                (start, end),
            ) && start == at + 2 && end == start + payload_length_at(buf@, at))
            &&& !payload_at(buf@, at) || payload_id_at(buf@, at) == 0xf ==> range is None
        }),
{
    lemma_termination_scan(header_ies_from(buf@, 0));
    if termination is Some {
        lemma_payload_path(buf@, positions);
    }
}

/// Whether positions lead from one nested IE to the next, past IEs that are not the
/// wanted one.
pub open spec fn nested_path(
    b: Seq<u8>,
    positions: Seq<int>,
    end: int,
    long: bool,
    wanted: int,
) -> bool {
    &&& positions.len() > 0
    &&& forall|i: int|
        0 <= i < positions.len() - 1 ==> {
            let at = #[trigger] positions[i];
            &&& nested_at(b, at, end)
            &&& !(nested_long_at(b, at) == long && nested_id_at(b, at) == wanted)
            &&& positions[i + 1] == at + 2 + nested_length_at(b, at)
        }
}

/// What a scan along a path finds at its end.
proof fn lemma_nested_path(
    b: Seq<u8>,
    positions: Seq<int>,
    end: int,
    long: bool,
    wanted: int,
)
    requires
        nested_path(b, positions, end, long, wanted),
    ensures
        ({
            let at = positions.last();
            let found = scan(
                nested_ies_from(b, positions[0], end),
                (long, wanted),
                Set::<(bool, int)>::empty(),
            );
            &&& nested_at(b, at, end) && nested_long_at(b, at) == long && nested_id_at(b, at)
                == wanted ==> (found matches Some(span) && span.start == at + 2 && span.end == at
                + 2 + nested_length_at(b, at))
            &&& !nested_at(b, at, end) ==> found is None
        }),
    decreases positions.len(),
{
    let at = positions[0];
    lemma_word_fields(b, at);
    if nested_at(b, at, end) {
        lemma_scan_step(
            crate::ies::nested::nested_ie_span(b, at),
            nested_ies_from(b, at + 2 + nested_length_at(b, at), end),
            (long, wanted),
            Set::<(bool, int)>::empty(),
        );
    }
    if positions.len() > 1 {
        let rest = positions.drop_first();
        assert(nested_path(b, rest, end, long, wanted)) by {
            assert forall|i: int| 0 <= i < rest.len() - 1 implies ({
                let at = #[trigger] rest[i];
                &&& nested_at(b, at, end)
                &&& !(nested_long_at(b, at) == long && nested_id_at(b, at) == wanted)
                &&& rest[i + 1] == at + 2 + nested_length_at(b, at)
            }) by {
                assert(positions[i + 1] == rest[i]);
                assert(positions[i + 2] == rest[i + 1]);
            }
        }
        lemma_nested_path(b, rest, end, long, wanted);
        assert(rest.last() == positions.last());
        assert(positions[1] == rest[0]);
    }
}

/// The content of a nested IE is found at the end of the path that leads to it from
/// where nested IEs begin. It is not found if there are none, or if the path ends at an
/// incomplete IE. All ways of finding it agree.
pub proof fn lemma_nested_ie_found(
    buf: &[u8],
    id: u8,
    long: bool,
    mlme: Option<(usize, usize)>,
    positions: Seq<int>,
    range: Option<(usize, usize)>,
    content: Option<&[u8]>,
)
    requires
        call_ensures(find_mlme_content_range, (buf,), mlme),
        mlme is Some ==> nested_path(buf@, positions, (mlme->0).1 as int, long, id as int)
            && positions[0] == (mlme->0).0,
        call_ensures(find_nested_ie_content_range, (buf, id, long), range),
        call_ensures(find_nested_ie_content, (buf, id, long), content),
    ensures
        mlme is None ==> range is None,
        mlme is Some ==> ({
            let at = positions.last();
            let end = (mlme->0).1 as int;
            &&& nested_at(buf@, at, end) && nested_long_at(buf@, at) == long && nested_id_at(
                buf@,
                at,
            ) == id ==> (range matches Some((start, end)) && start == at + 2 && end == start
                + nested_length_at(buf@, at))
            &&& !nested_at(buf@, at, end) ==> range is None
        }),
        content is Some <==> range is Some,
        content matches Some(content) ==> content@ == buf@.subrange(
            (range->0).0 as int,
            (range->0).1 as int,
        ),
{
    if mlme is Some {
        lemma_nested_path(buf@, positions, (mlme->0).1 as int, long, id as int);
    }
}

/// The content of a short nested IE is written where it is read, and nothing else
/// changes.
pub proof fn lemma_nested_ie_written(
    buf: &mut [u8],
    before: &[u8],
    id: u8,
    range: Option<(usize, usize)>,
    content: Option<&mut [u8]>,
)
    requires
        before@ == buf@,
        call_ensures(find_nested_ie_content_range, (before, id, false), range),
        call_ensures(find_nested_ie_content_mut, (buf, id), content),
        content matches Some(content) ==> (*final(content))@.len() == content@.len(),
    ensures
        content is Some <==> range is Some,
        content is None ==> final(buf)@ == old(buf)@,
        content matches Some(content) ==> {
            let (start, end) = ((range->0).0 as int, (range->0).1 as int);
            &&& content@ == old(buf)@.subrange(start, end)
            &&& final(buf)@.subrange(start, end) == (*final(content))@
            &&& same_outside(final(buf)@, old(buf)@, start, end)
        },
{
}

/// The IDs of the IEs, each kind with its own.
pub proof fn lemma_ie_ids()
    ensures
        header_ie_id::TIME_CORRECTION == 0x1e,
        header_ie_id::HT1 == 0x7e && header_ie_id::HT2 == 0x7f,
        payload_ie_id::ESDU == 0 && payload_ie_id::MLME == 1,
        payload_ie_id::VENDOR_SPECIFIC == 2 && payload_ie_id::TERMINATION == 0xf,
        nested_ie_id::TSCH_SYNC == 0x1a && nested_ie_id::TSCH_SLOTFRAME_LINK == 0x1b,
        nested_ie_id::TSCH_TIMESLOT == 0x1c && nested_ie_id::HOPPING_TIMING == 0x1d,
        nested_ie_id::CHANNEL_HOPPING == 9,
{
}

} // verus!
