//! IEs that are nested within a payload IE.

use vstd::prelude::*;

use crate::ies::descriptor;
use crate::ies::descriptor::{long_ie_id, long_ie_length, long_ie_type, long_ie_word};
use crate::ies::nested_ie_id;
use crate::ies::payload::{find_mlme_content_range, mlme_ie};
use crate::ies::span::{lemma_scan_step, lemma_splice_keeps, scan, IeSpan};
use crate::ies::tsch::{ChannelHoppingIe, TschSlotframeLinkIe, TschSyncIe, TschTimeslotIe};
use crate::octets::{
    get_u16_le, put_u16, set_u16_le, splice, subslice_mut, u16_at, Octets, OctetsMut,
};

verus! {

/// Content length given by a short descriptor.
pub open spec fn short_ie_length(word: int) -> int {
    word % 0x100
}

/// Sub-ID given by a short descriptor.
pub open spec fn short_ie_id(word: int) -> int {
    word / 0x100 % 0x80
}

/// Type bit of a short descriptor.
pub open spec fn short_ie_type(word: int) -> int {
    word / 0x8000
}

/// The short descriptor with the given fields.
pub open spec fn short_ie_word(ie_type: int, id: int, length: int) -> int {
    length + 0x100 * id + 0x8000 * ie_type
}

/// A short descriptor holds its three fields without loss, and nothing else.
pub proof fn lemma_short_ie_word(ie_type: int, id: int, length: int, word: int)
    ensures
        0 <= ie_type < 2 && 0 <= id < 0x80 && 0 <= length < 0x100 ==> {
            let w = short_ie_word(ie_type, id, length);
            &&& 0 <= w < 0x1_0000
            &&& short_ie_type(w) == ie_type
            &&& short_ie_id(w) == id
            &&& short_ie_length(w) == length
        },
        0 <= word < 0x1_0000 ==> short_ie_word(
            short_ie_type(word),
            short_ie_id(word),
            short_ie_length(word),
        ) == word,
{
}

/// Descriptor of a nested IE in short format (2 octets).
///
/// Format (little-endian):
/// - Bits 0-7: length (0-255)
/// - Bits 8-14: sub-ID
/// - Bit 15: type (0 = short)
#[derive(Clone, Copy)]
pub struct NestedIeShortHeader<Bytes> {
    bytes: Bytes,
}

impl<Bytes> NestedIeShortHeader<Bytes> {
    /// The container of the octets.
    pub closed spec fn container(&self) -> Bytes {
        self.bytes
    }

    /// Once nothing is written any more through the descriptor, nothing is written any more
    /// to its container. If the container is borrowed, then what it was borrowed
    /// from holds what was written last.
    pub proof fn lemma_released(self)
        requires
            has_resolved(self),
        ensures
            has_resolved(self.container()),
    {
    }
}

impl<Bytes: Octets> View for NestedIeShortHeader<Bytes> {
    type V = Seq<u8>;

    open spec fn view(&self) -> Seq<u8> {
        self.container().bytes()
    }
}

impl<Bytes: Octets> NestedIeShortHeader<Bytes> {
    pub const LENGTH: usize = 2;

    /// Interprets the leading octets as a short descriptor.
    pub fn new(bytes: Bytes) -> (r: Option<Self>)
        ensures
            r is Some <==> bytes.bytes().len() >= 2 && short_ie_type(u16_at(bytes.bytes(), 0)) == 0,
            r matches Some(header) ==> header.container() == bytes,
    {
        if bytes.octets().len() < 2 {
            return None;
        }
        let header = Self { bytes };
        if header.ie_type() != 0 {
            return None;
        }
        Some(header)
    }

    /// Interprets octets as a short descriptor without any check.
    pub fn new_unchecked(bytes: Bytes) -> (r: Self)
        ensures
            r.container() == bytes,
    {
        Self { bytes }
    }

    /// Content length (0-255).
    pub fn length(&self) -> (r: u8)
        requires
            self@.len() >= 2,
        ensures
            r == short_ie_length(u16_at(self@, 0)),
    {
        (get_u16_le(self.bytes.octets(), 0) % 0x100) as u8
    }

    /// Sub-ID.
    pub fn sub_id(&self) -> (r: u8)
        requires
            self@.len() >= 2,
        ensures
            r == short_ie_id(u16_at(self@, 0)),
    {
        (get_u16_le(self.bytes.octets(), 0) / 0x100 % 0x80) as u8
    }

    /// Type bit (0 for the short format).
    pub fn ie_type(&self) -> (r: u8)
        requires
            self@.len() >= 2,
        ensures
            r == short_ie_type(u16_at(self@, 0)),
    {
        (get_u16_le(self.bytes.octets(), 0) / 0x8000) as u8
    }

    /// Length of the descriptor and the content.
    pub fn total_length(&self) -> (r: usize)
        requires
            self@.len() >= 2,
        ensures
            r == 2 + short_ie_length(u16_at(self@, 0)),
    {
        2 + self.length() as usize
    }
}

impl<Bytes: OctetsMut> NestedIeShortHeader<Bytes> {
    /// Sets the length field.
    pub fn set_length(&mut self, length: u8)
        requires
            old(self)@.len() >= 2,
        ensures
            final(self)@ == put_u16(
                old(self)@,
                0,
                short_ie_word(
                    short_ie_type(u16_at(old(self)@, 0)),
                    short_ie_id(u16_at(old(self)@, 0)),
                    length as int,
                ),
            ),
            exists|x: &mut Bytes, w: &mut [u8]|
                {
                    &&& #[trigger] call_ensures(Bytes::octets_mut, (x,), w)
                    &&& *x == old(self).container()
                    &&& *final(x) == final(self).container()
                },
    {
        let b = self.bytes.octets_mut();
        let word: u16 = get_u16_le(b, 0);
        proof {
            lemma_short_ie_word(0, 0, 0, word as int);
        }
        set_u16_le(b, 0, word - word % 0x100 + length as u16);
    }

    /// Sets the sub-ID to the lower seven bits of `id`.
    pub fn set_sub_id(&mut self, id: u8)
        requires
            old(self)@.len() >= 2,
        ensures
            final(self)@ == put_u16(
                old(self)@,
                0,
                short_ie_word(
                    short_ie_type(u16_at(old(self)@, 0)),
                    id as int % 0x80,
                    short_ie_length(u16_at(old(self)@, 0)),
                ),
            ),
            exists|x: &mut Bytes, w: &mut [u8]|
                {
                    &&& #[trigger] call_ensures(Bytes::octets_mut, (x,), w)
                    &&& *x == old(self).container()
                    &&& *final(x) == final(self).container()
                },
    {
        let b = self.bytes.octets_mut();
        let word: u16 = get_u16_le(b, 0);
        let low: u16 = word % 0x100;
        let high: u16 = word / 0x8000;
        let middle: u16 = (id % 0x80) as u16;
        set_u16_le(b, 0, high * 0x8000 + 0x100 * middle + low);
    }

    /// Sets the type bit to the lowest bit of `ie_type` (0 for the short format).
    pub fn set_ie_type(&mut self, ie_type: u8)
        requires
            old(self)@.len() >= 2,
        ensures
            final(self)@ == put_u16(
                old(self)@,
                0,
                short_ie_word(
                    ie_type as int % 2,
                    short_ie_id(u16_at(old(self)@, 0)),
                    short_ie_length(u16_at(old(self)@, 0)),
                ),
            ),
            exists|x: &mut Bytes, w: &mut [u8]|
                {
                    &&& #[trigger] call_ensures(Bytes::octets_mut, (x,), w)
                    &&& *x == old(self).container()
                    &&& *final(x) == final(self).container()
                },
    {
        let b = self.bytes.octets_mut();
        let word: u16 = get_u16_le(b, 0);
        let bit: u16 = (ie_type % 2) as u16;
        proof {
            lemma_short_ie_word(0, 0, 0, word as int);
        }
        set_u16_le(b, 0, word - word / 0x8000 * 0x8000 + 0x8000 * bit);
    }

    /// Initializes a short descriptor with the given sub-ID and length.
    pub fn init(&mut self, sub_id: u8, length: u8)
        requires
            old(self)@.len() >= 2,
        ensures
            final(self)@ == put_u16(
                old(self)@,
                0,
                short_ie_word(0, sub_id as int % 0x80, length as int),
            ),
            exists|x: &mut Bytes, w: &mut [u8]|
                {
                    &&& #[trigger] call_ensures(Bytes::octets_mut, (x,), w)
                    &&& *x == old(self).container()
                    &&& *final(x) == final(self).container()
                },
    {
        let id: u16 = (sub_id % 0x80) as u16;
        set_u16_le(self.bytes.octets_mut(), 0, length as u16 + 0x100 * id);
    }
}

/// Descriptor of a nested IE in long format (2 octets).
///
/// Format (little-endian):
/// - Bits 0-10: length (0-2047)
/// - Bits 11-14: sub-ID
/// - Bit 15: type (1 = long)
#[derive(Clone, Copy)]
pub struct NestedIeLongHeader<Bytes> {
    bytes: Bytes,
}

impl<Bytes> NestedIeLongHeader<Bytes> {
    /// The container of the octets.
    pub closed spec fn container(&self) -> Bytes {
        self.bytes
    }

    /// Once nothing is written any more through the descriptor, nothing is written any more
    /// to its container. If the container is borrowed, then what it was borrowed
    /// from holds what was written last.
    pub proof fn lemma_released(self)
        requires
            has_resolved(self),
        ensures
            has_resolved(self.container()),
    {
    }
}

impl<Bytes: Octets> View for NestedIeLongHeader<Bytes> {
    type V = Seq<u8>;

    open spec fn view(&self) -> Seq<u8> {
        self.container().bytes()
    }
}

impl<Bytes: Octets> NestedIeLongHeader<Bytes> {
    pub const LENGTH: usize = 2;

    /// Interprets the leading octets as a long descriptor.
    pub fn new(bytes: Bytes) -> (r: Option<Self>)
        ensures
            r is Some <==> bytes.bytes().len() >= 2 && long_ie_type(u16_at(bytes.bytes(), 0)) == 1,
            r matches Some(header) ==> header.container() == bytes,
    {
        if bytes.octets().len() < 2 {
            return None;
        }
        let header = Self { bytes };
        if header.ie_type() != 1 {
            return None;
        }
        Some(header)
    }

    /// Interprets octets as a long descriptor without any check.
    pub fn new_unchecked(bytes: Bytes) -> (r: Self)
        ensures
            r.container() == bytes,
    {
        Self { bytes }
    }

    /// Content length (0-2047).
    pub fn length(&self) -> (r: u16)
        requires
            self@.len() >= 2,
        ensures
            r == long_ie_length(u16_at(self@, 0)),
    {
        descriptor::length(self.bytes.octets())
    }

    /// Sub-ID.
    pub fn sub_id(&self) -> (r: u8)
        requires
            self@.len() >= 2,
        ensures
            r == long_ie_id(u16_at(self@, 0)),
    {
        descriptor::id(self.bytes.octets())
    }

    /// Type bit (1 for the long format).
    pub fn ie_type(&self) -> (r: u8)
        requires
            self@.len() >= 2,
        ensures
            r == long_ie_type(u16_at(self@, 0)),
    {
        descriptor::ie_type(self.bytes.octets())
    }

    /// Length of the descriptor and the content.
    pub fn total_length(&self) -> (r: usize)
        requires
            self@.len() >= 2,
        ensures
            r == 2 + long_ie_length(u16_at(self@, 0)),
    {
        2 + self.length() as usize
    }
}

impl<Bytes: OctetsMut> NestedIeLongHeader<Bytes> {
    /// Sets the length field.
    pub fn set_length(&mut self, length: u16)
        requires
            old(self)@.len() >= 2,
            length <= 2047,
        ensures
            final(self)@ == put_u16(
                old(self)@,
                0,
                long_ie_word(
                    long_ie_type(u16_at(old(self)@, 0)),
                    long_ie_id(u16_at(old(self)@, 0)),
                    length as int,
                ),
            ),
            exists|x: &mut Bytes, w: &mut [u8]|
                {
                    &&& #[trigger] call_ensures(Bytes::octets_mut, (x,), w)
                    &&& *x == old(self).container()
                    &&& *final(x) == final(self).container()
                },
    {
        descriptor::set_length(self.bytes.octets_mut(), length);
    }

    /// Sets the sub-ID to the lower four bits of `id`.
    pub fn set_sub_id(&mut self, id: u8)
        requires
            old(self)@.len() >= 2,
        ensures
            final(self)@ == put_u16(
                old(self)@,
                0,
                long_ie_word(
                    long_ie_type(u16_at(old(self)@, 0)),
                    id as int % 0x10,
                    long_ie_length(u16_at(old(self)@, 0)),
                ),
            ),
            exists|x: &mut Bytes, w: &mut [u8]|
                {
                    &&& #[trigger] call_ensures(Bytes::octets_mut, (x,), w)
                    &&& *x == old(self).container()
                    &&& *final(x) == final(self).container()
                },
    {
        descriptor::set_id(self.bytes.octets_mut(), id);
    }

    /// Sets the type bit to the lowest bit of `ie_type` (1 for the long format).
    pub fn set_ie_type(&mut self, ie_type: u8)
        requires
            old(self)@.len() >= 2,
        ensures
            final(self)@ == put_u16(
                old(self)@,
                0,
                long_ie_word(
                    ie_type as int % 2,
                    long_ie_id(u16_at(old(self)@, 0)),
                    long_ie_length(u16_at(old(self)@, 0)),
                ),
            ),
            exists|x: &mut Bytes, w: &mut [u8]|
                {
                    &&& #[trigger] call_ensures(Bytes::octets_mut, (x,), w)
                    &&& *x == old(self).container()
                    &&& *final(x) == final(self).container()
                },
    {
        descriptor::set_ie_type(self.bytes.octets_mut(), ie_type);
    }

    /// Initializes a long descriptor with the given sub-ID and length.
    pub fn init(&mut self, sub_id: u8, length: u16)
        requires
            old(self)@.len() >= 2,
            length <= 2047,
        ensures
            final(self)@ == put_u16(
                old(self)@,
                0,
                long_ie_word(1, sub_id as int % 0x10, length as int),
            ),
            exists|x: &mut Bytes, w: &mut [u8]|
                {
                    &&& #[trigger] call_ensures(Bytes::octets_mut, (x,), w)
                    &&& *x == old(self).container()
                    &&& *final(x) == final(self).container()
                },
    {
        descriptor::init(self.bytes.octets_mut(), sub_id, length);
    }
}

/// Whether a nested IE is in long format.
pub open spec fn nested_ie_is_long(word: int) -> bool {
    word / 0x8000 == 1
}

/// Content length given by the descriptor of a nested IE in either format.
pub open spec fn nested_ie_length(word: int) -> int {
    if nested_ie_is_long(word) {
        long_ie_length(word)
    } else {
        short_ie_length(word)
    }
}

/// Sub-ID given by the descriptor of a nested IE in either format.
pub open spec fn nested_ie_sub_id(word: int) -> int {
    if nested_ie_is_long(word) {
        long_ie_id(word)
    } else {
        short_ie_id(word)
    }
}

/// Whether a nested IE, descriptor and content, is completely held by `b` at
/// `at` and ends at `end` at the latest.
pub open spec fn nested_ie_complete(b: Seq<u8>, at: int, end: int) -> bool {
    &&& 0 <= at
    &&& at + 2 <= end <= b.len()
    &&& at + 2 + nested_ie_length(u16_at(b, at)) <= end
}

/// The nested IE at `at`, identified by its format (`true` for long) and its
/// sub-ID.
pub open spec fn nested_ie_span(b: Seq<u8>, at: int) -> IeSpan<(bool, int)> {
    let word = u16_at(b, at);
    IeSpan {
        id: (nested_ie_is_long(word), nested_ie_sub_id(word)),
        start: at + 2,
        end: at + 2 + nested_ie_length(word),
    }
}

/// The nested IEs that follow each other between `at` and `end`.
pub open spec fn nested_ies_from(b: Seq<u8>, at: int, end: int) -> Seq<IeSpan<(bool, int)>>
    decreases end - at,
{
    if nested_ie_complete(b, at, end) {
        seq![nested_ie_span(b, at)] + nested_ies_from(b, nested_ie_span(b, at).end, end)
    } else {
        Seq::empty()
    }
}

/// The first nested IE with the given format and sub-ID within a buffer of
/// header and payload IEs.
pub open spec fn nested_ie_with_id(b: Seq<u8>, is_long: bool, sub_id: int) -> Option<
    IeSpan<(bool, int)>,
> {
    match mlme_ie(b) {
        Some(mlme) => scan(
            nested_ies_from(b, mlme.start, mlme.end),
            (is_long, sub_id),
            Set::<(bool, int)>::empty(),
        ),
        None => None,
    }
}

/// The content of the listed nested IEs lies within the given bounds, in order,
/// and does not overlap.
pub proof fn lemma_nested_ies_ordered(b: Seq<u8>, at: int, end: int)
    ensures
        forall|i: int|
            0 <= i < nested_ies_from(b, at, end).len() ==> {
                let span = #[trigger] nested_ies_from(b, at, end)[i];
                at + 2 <= span.start <= span.end <= end <= b.len()
            },
        forall|i: int, j: int|
            0 <= i < j < nested_ies_from(b, at, end).len() ==> (#[trigger] nested_ies_from(
                b,
                at,
                end,
            )[i]).end + 2 <= (#[trigger] nested_ies_from(b, at, end)[j]).start,
    decreases end - at,
{
    if nested_ie_complete(b, at, end) {
        let span = nested_ie_span(b, at);
        let rest = nested_ies_from(b, span.end, end);
        lemma_nested_ies_ordered(b, span.end, end);
        let list = nested_ies_from(b, at, end);
        assert(list[0] == span);
        assert forall|i: int| 0 <= i < list.len() implies {
            let s = #[trigger] list[i];
            at + 2 <= s.start <= s.end <= end <= b.len()
        } by {
            if i > 0 {
                assert(list[i] == rest[i - 1]);
            }
        }
        assert forall|i: int, j: int| 0 <= i < j < list.len() implies (#[trigger] list[i]).end + 2
            <= (#[trigger] list[j]).start by {
            assert(list[j] == rest[j - 1]);
            if i > 0 {
                assert(list[i] == rest[i - 1]);
            }
        }
    }
}

/// Overwriting the content of one nested IE leaves the structure of the list
/// unchanged.
pub proof fn lemma_nested_ies_content_edit(b: Seq<u8>, at: int, end: int, i: int, t: Seq<u8>)
    requires
        0 <= at,
        0 <= i < nested_ies_from(b, at, end).len(),
        t.len() == nested_ies_from(b, at, end)[i].end - nested_ies_from(b, at, end)[i].start,
    ensures
        ({
            let span = nested_ies_from(b, at, end)[i];
            nested_ies_from(splice(b, span.start, span.end, t), at, end) == nested_ies_from(
                b,
                at,
                end,
            )
        }),
    decreases i,
{
    lemma_nested_ies_ordered(b, at, end);
    let list = nested_ies_from(b, at, end);
    let span = list[i];
    let c = splice(b, span.start, span.end, t);
    lemma_splice_keeps(b, span.start, span.end, t);
    assert(nested_ie_complete(b, at, end));
    let first = nested_ie_span(b, at);
    assert(list[0] == first);
    assert(c[at] == b[at] && c[at + 1] == b[at + 1]);
    assert(nested_ie_span(c, at) == first);
    if i == 0 {
        lemma_nested_ies_agree(b, c, first.end, end);
    } else {
        assert(list[i] == nested_ies_from(b, first.end, end)[i - 1]);
        lemma_nested_ies_content_edit(b, first.end, end, i - 1, t);
    }
}

/// The listed IEs depend on the octets between the given bounds only.
proof fn lemma_nested_ies_agree(b: Seq<u8>, c: Seq<u8>, at: int, end: int)
    requires
        0 <= at,
        b.len() == c.len(),
        forall|k: int| at <= k < b.len() ==> b[k] == c[k],
    ensures
        nested_ies_from(c, at, end) == nested_ies_from(b, at, end),
    decreases end - at,
{
    if at + 2 <= end <= b.len() {
        assert(b[at] == c[at] && b[at + 1] == c[at + 1]);
        if nested_ie_complete(b, at, end) {
            lemma_nested_ies_agree(b, c, nested_ie_span(b, at).end, end);
        }
    }
}

/// The list that a slice of nested IEs holds is the one found within the buffer
/// that it was cut from.
pub proof fn lemma_nested_ies_subrange(b: Seq<u8>, start: int, end: int, at: int)
    requires
        0 <= start <= end <= b.len(),
        0 <= at <= end - start,
    ensures
        ({
            let inner = nested_ies_from(b.subrange(start, end), at, end - start);
            let outer = nested_ies_from(b, start + at, end);
            &&& inner.len() == outer.len()
            &&& forall|i: int|
                0 <= i < inner.len() ==> (#[trigger] inner[i]).id == outer[i].id && inner[i].start
                    + start == outer[i].start && inner[i].end + start == outer[i].end
        }),
    decreases end - start - at,
{
    let c = b.subrange(start, end);
    if at + 2 <= end - start {
        assert(c[at] == b[start + at] && c[at + 1] == b[start + at + 1]);
        if nested_ie_complete(c, at, end - start) {
            let next = nested_ie_span(c, at).end;
            lemma_nested_ies_subrange(b, start, end, next);
            let inner = nested_ies_from(c, at, end - start);
            let outer = nested_ies_from(b, start + at, end);
            let inner_rest = nested_ies_from(c, next, end - start);
            let outer_rest = nested_ies_from(b, start + next, end);
            assert(nested_ie_complete(b, start + at, end));
            assert(outer == seq![nested_ie_span(b, start + at)] + outer_rest);
            assert forall|i: int| 0 <= i < inner.len() implies (#[trigger] inner[i]).id
                == outer[i].id && inner[i].start + start == outer[i].start && inner[i].end + start
                == outer[i].end by {
                if i > 0 {
                    assert(inner[i] == inner_rest[i - 1]);
                    assert(outer[i] == outer_rest[i - 1]);
                }
            }
        }
    }
}

/// A nested IE.
#[derive(Clone, Copy)]
pub enum NestedIe<'a> {
    Short { sub_id: u8, content: &'a [u8] },
    Long { sub_id: u8, content: &'a [u8] },
}

impl<'a> NestedIe<'a> {
    /// The sub-ID of the IE in either format.
    pub open spec fn id(&self) -> u8 {
        match self {
            NestedIe::Short { sub_id, .. } => *sub_id,
            NestedIe::Long { sub_id, .. } => *sub_id,
        }
    }

    /// The content of the IE.
    pub open spec fn data(&self) -> Seq<u8> {
        match self {
            NestedIe::Short { content, .. } => content@,
            NestedIe::Long { content, .. } => content@,
        }
    }

    /// Sub-ID.
    pub fn sub_id(&self) -> (r: u8)
        ensures
            r == self.id(),
    {
        match self {
            NestedIe::Short { sub_id, .. } => *sub_id,
            NestedIe::Long { sub_id, .. } => *sub_id,
        }
    }

    /// Content.
    pub fn content(&self) -> (r: &'a [u8])
        ensures
            r@ == self.data(),
    {
        match self {
            NestedIe::Short { content, .. } => *content,
            NestedIe::Long { content, .. } => *content,
        }
    }

    /// The content as that of a TSCH synchronization IE, if it is one.
    pub fn as_tsch_sync(&self) -> (r: Option<TschSyncIe<&'a [u8]>>)
        ensures
            r is Some <==> self.id() == nested_ie_id::TSCH_SYNC && self.data().len() >= 6,
            r matches Some(ie) ==> ie@ == self.data(),
    {
        if self.sub_id() == nested_ie_id::TSCH_SYNC {
            TschSyncIe::new(self.content())
        } else {
            None
        }
    }

    /// The content as that of a TSCH timeslot IE, if it is one.
    pub fn as_tsch_timeslot(&self) -> (r: Option<TschTimeslotIe<&'a [u8]>>)
        ensures
            r is Some <==> self.id() == nested_ie_id::TSCH_TIMESLOT && self.data().len() >= 1,
            r matches Some(ie) ==> ie@ == self.data(),
    {
        if self.sub_id() == nested_ie_id::TSCH_TIMESLOT {
            TschTimeslotIe::new(self.content())
        } else {
            None
        }
    }

    /// The content as that of a TSCH slotframe and link IE, if it is one.
    pub fn as_tsch_slotframe_link(&self) -> (r: Option<TschSlotframeLinkIe<&'a [u8]>>)
        ensures
            r is Some <==> self.id() == nested_ie_id::TSCH_SLOTFRAME_LINK && self.data().len() >= 1,
            r matches Some(ie) ==> ie@ == self.data(),
    {
        if self.sub_id() == nested_ie_id::TSCH_SLOTFRAME_LINK {
            TschSlotframeLinkIe::new(self.content())
        } else {
            None
        }
    }

    /// The content as that of a channel hopping IE, if it is one.
    pub fn as_channel_hopping(&self) -> (r: Option<ChannelHoppingIe<&'a [u8]>>)
        ensures
            r is Some <==> self.id() == nested_ie_id::CHANNEL_HOPPING && self.data().len() >= 1,
            r matches Some(ie) ==> ie@ == self.data(),
    {
        if self.sub_id() == nested_ie_id::CHANNEL_HOPPING {
            ChannelHoppingIe::new(self.content())
        } else {
            None
        }
    }
}

/// Walks over the nested IEs in the content of a payload IE.
pub struct NestedIeIter<'a> {
    buf: &'a [u8],
    offset: usize,
}

impl<'a> NestedIeIter<'a> {
    #[verifier::type_invariant]
    spec fn wf(self) -> bool {
        self.offset <= self.buf@.len()
    }

    /// The buffer that is walked over.
    pub closed spec fn buffer(&self) -> Seq<u8> {
        self.buf@
    }

    /// The offset of the next IE.
    pub closed spec fn position(&self) -> int {
        self.offset as int
    }

    /// Starts at the beginning of a buffer.
    pub fn new(buf: &'a [u8]) -> (r: Self)
        ensures
            r.buffer() == buf@,
            r.position() == 0,
    {
        Self { buf, offset: 0 }
    }

    /// The next IE, if a complete one follows.
    pub fn next(&mut self) -> (r: Option<NestedIe<'a>>)
        ensures
            final(self).buffer() == old(self).buffer(),
            r is Some <==> nested_ie_complete(
                old(self).buffer(),
                old(self).position(),
                old(self).buffer().len() as int,
            ),
            r matches Some(ie) ==> ({
                let span = nested_ie_span(old(self).buffer(), old(self).position());
                &&& span.id == (ie is Long, ie.id() as int)
                &&& ie.data() == old(self).buffer().subrange(span.start, span.end)
                &&& final(self).position() == span.end
            }),
            r is None ==> final(self).position() == old(self).position(),
    {
        proof {
            use_type_invariant(&*self);
        }
        if self.buf.len() - self.offset < 2 {
            return None;
        }
        let rest: &'a [u8] = &self.buf[self.offset..self.buf.len()];
        assert(u16_at(rest@, 0) == u16_at(self.buf@, self.offset as int));
        let content_start: usize = self.offset + 2;
        let is_long: bool = rest[1] >= 0x80;
        if is_long {
            let header = match NestedIeLongHeader::new(rest) {
                Some(header) => header,
                None => return None,
            };
            let content_len: usize = header.length() as usize;
            if content_len > self.buf.len() - content_start {
                return None;
            }
            let content_end: usize = content_start + content_len;
            let content: &'a [u8] = &self.buf[content_start..content_end];
            self.offset = content_end;
            Some(NestedIe::Long { sub_id: header.sub_id(), content })
        } else {
            let header = match NestedIeShortHeader::new(rest) {
                Some(header) => header,
                None => return None,
            };
            let content_len: usize = header.length() as usize;
            if content_len > self.buf.len() - content_start {
                return None;
            }
            let content_end: usize = content_start + content_len;
            let content: &'a [u8] = &self.buf[content_start..content_end];
            self.offset = content_end;
            Some(NestedIe::Short { sub_id: header.sub_id(), content })
        }
    }
}

/// Finds the content range of a nested IE by format and sub-ID within a buffer
/// of header and payload IEs.
pub fn find_nested_ie_content_range(ies_buf: &[u8], sub_id: u8, is_long_format: bool) -> (r: Option<
    (usize, usize),
>)
    ensures
        r is Some <==> nested_ie_with_id(ies_buf@, is_long_format, sub_id as int) is Some,
        r matches Some((start, end)) ==> ({
            let span = nested_ie_with_id(ies_buf@, is_long_format, sub_id as int)->0;
            start == span.start && end == span.end && start <= end <= ies_buf@.len()
        }),
{
    let (mlme_start, mlme_end) = match find_mlme_content_range(ies_buf) {
        Some(range) => range,
        None => return None,
    };
    let mut offset: usize = mlme_start;
    while mlme_end - offset >= 2
        invariant
            offset <= mlme_end <= ies_buf@.len(),
            nested_ie_with_id(ies_buf@, is_long_format, sub_id as int) == scan(
                nested_ies_from(ies_buf@, offset as int, mlme_end as int),
                (is_long_format, sub_id as int),
                Set::<(bool, int)>::empty(),
            ),
        decreases mlme_end - offset,
    {
        proof {
            lemma_scan_step(
                nested_ie_span(ies_buf@, offset as int),
                nested_ies_from(
                    ies_buf@,
                    nested_ie_span(ies_buf@, offset as int).end,
                    mlme_end as int,
                ),
                (is_long_format, sub_id as int),
                Set::<(bool, int)>::empty(),
            );
        }
        let rest: &[u8] = &ies_buf[offset..ies_buf.len()];
        assert(u16_at(rest@, 0) == u16_at(ies_buf@, offset as int));
        let content_start: usize = offset + 2;
        let is_long: bool = rest[1] >= 0x80;
        if is_long {
            let header = match NestedIeLongHeader::new(rest) {
                Some(header) => header,
                None => return None,
            };
            let content_len: usize = header.length() as usize;
            if content_len > mlme_end - content_start {
                return None;
            }
            let content_end: usize = content_start + content_len;
            assert(nested_ie_complete(ies_buf@, offset as int, mlme_end as int));
            if is_long_format && header.sub_id() == sub_id {
                return Some((content_start, content_end));
            }
            offset = content_end;
        } else {
            let header = match NestedIeShortHeader::new(rest) {
                Some(header) => header,
                None => return None,
            };
            let content_len: usize = header.length() as usize;
            if content_len > mlme_end - content_start {
                return None;
            }
            let content_end: usize = content_start + content_len;
            assert(nested_ie_complete(ies_buf@, offset as int, mlme_end as int));
            if !is_long_format && header.sub_id() == sub_id {
                return Some((content_start, content_end));
            }
            offset = content_end;
        }
    }
    None
}

/// Finds the content of a nested IE by format and sub-ID.
pub fn find_nested_ie_content(buf: &[u8], sub_id: u8, is_long_format: bool) -> (r: Option<&[u8]>)
    ensures
        r is Some <==> nested_ie_with_id(buf@, is_long_format, sub_id as int) is Some,
        r matches Some(content) ==> ({
            let span = nested_ie_with_id(buf@, is_long_format, sub_id as int)->0;
            content@ == buf@.subrange(span.start, span.end)
        }),
{
    match find_nested_ie_content_range(buf, sub_id, is_long_format) {
        Some((start, end)) => Some(&buf[start..end]),
        None => None,
    }
}

/// Finds the content of a nested IE in short format by sub-ID for writing.
pub fn find_nested_ie_content_mut(ies_buf: &mut [u8], sub_id: u8) -> (r: Option<&mut [u8]>)
    ensures
        r is Some <==> nested_ie_with_id(old(ies_buf)@, false, sub_id as int) is Some,
        r matches Some(content) ==> ({
            let span = nested_ie_with_id(old(ies_buf)@, false, sub_id as int)->0;
            &&& content@ == old(ies_buf)@.subrange(span.start, span.end)
            &&& final(ies_buf)@ == splice(old(ies_buf)@, span.start, span.end, final(content)@)
        }),
        r is None ==> final(ies_buf)@ == old(ies_buf)@,
{
    match find_nested_ie_content_range(ies_buf, sub_id, false) {
        Some((start, end)) => Some(subslice_mut(ies_buf, start, end)),
        None => None,
    }
}

} // verus!
