//! Header IEs.

use vstd::prelude::*;

use crate::ies::header_ie_id;
use crate::ies::span::{lemma_scan_step, lemma_splice_keeps, scan, IeSpan};
use crate::octets::{
    get_u16_le, put_u16, set_u16_le, splice, subslice_mut, u16_at, Octets, OctetsMut,
};

verus! {

/// Content length given by the descriptor of a header IE.
pub open spec fn header_ie_length(word: int) -> int {
    word % 0x80
}

/// Element ID given by the descriptor of a header IE.
pub open spec fn header_ie_element_id(word: int) -> int {
    word / 0x80 % 0x100
}

/// Type bit of an IE descriptor.
pub open spec fn header_ie_type(word: int) -> int {
    word / 0x8000
}

/// The descriptor of a header IE with the given fields.
pub open spec fn header_ie_word(ie_type: int, element_id: int, length: int) -> int {
    length + 0x80 * element_id + 0x8000 * ie_type
}

/// The descriptor of a header IE holds its three fields without loss, and
/// nothing else.
pub proof fn lemma_header_ie_word(ie_type: int, element_id: int, length: int, word: int)
    ensures
        0 <= ie_type < 2 && 0 <= element_id < 0x100 && 0 <= length < 0x80 ==> {
            let w = header_ie_word(ie_type, element_id, length);
            &&& 0 <= w < 0x1_0000
            &&& header_ie_type(w) == ie_type
            &&& header_ie_element_id(w) == element_id
            &&& header_ie_length(w) == length
        },
        0 <= word < 0x1_0000 ==> header_ie_word(
            header_ie_type(word),
            header_ie_element_id(word),
            header_ie_length(word),
        ) == word,
{
}

/// Descriptor of a header IE (2 octets).
///
/// Format (little-endian):
/// - Bits 0-6: length (0-127)
/// - Bits 7-14: element ID
/// - Bit 15: type (0 = header IE)
#[derive(Clone, Copy)]
pub struct HeaderIeHeader<Bytes> {
    bytes: Bytes,
}

impl<Bytes> HeaderIeHeader<Bytes> {
    /// The container of the octets.
    pub closed spec fn container(&self) -> Bytes {
        self.bytes
    }

    /// Once nothing is written any more through the descriptor, nothing is written any more
    /// to its container. If the container is borrowed, then what it was borrowed
    /// from holds what was written last.
    pub proof fn lemma_released(self)
        requires
            has_resolved(self),
        ensures
            has_resolved(self.container()),
    {
    }
}

impl<Bytes: Octets> View for HeaderIeHeader<Bytes> {
    type V = Seq<u8>;

    open spec fn view(&self) -> Seq<u8> {
        self.container().bytes()
    }
}

impl<Bytes: Octets> HeaderIeHeader<Bytes> {
    pub const LENGTH: usize = 2;

    /// Interprets the leading octets as the descriptor of a header IE.
    pub fn new(bytes: Bytes) -> (r: Option<Self>)
        ensures
            r is Some <==> bytes.bytes().len() >= 2 && header_ie_type(u16_at(bytes.bytes(), 0)) == 0,
            r matches Some(header) ==> header.container() == bytes,
    {
        if bytes.octets().len() < 2 {
            return None;
        }
        let header = Self { bytes };
        // The type bit of a header IE is zero.
        if header.ie_type() != 0 {
            return None;
        }
        Some(header)
    }

    /// Interprets octets as the descriptor of a header IE without any check.
    pub fn new_unchecked(bytes: Bytes) -> (r: Self)
        ensures
            r.container() == bytes,
    {
        Self { bytes }
    }

    /// Content length (0-127).
    pub fn length(&self) -> (r: u8)
        requires
            self@.len() >= 2,
        ensures
            r == header_ie_length(u16_at(self@, 0)),
    {
        (get_u16_le(self.bytes.octets(), 0) % 0x80) as u8
    }

    /// Element ID.
    pub fn element_id(&self) -> (r: u8)
        requires
            self@.len() >= 2,
        ensures
            r == header_ie_element_id(u16_at(self@, 0)),
    {
        (get_u16_le(self.bytes.octets(), 0) / 0x80 % 0x100) as u8
    }

    /// Type bit (0 for a header IE).
    pub fn ie_type(&self) -> (r: u8)
        requires
            self@.len() >= 2,
        ensures
            r == header_ie_type(u16_at(self@, 0)),
    {
        (get_u16_le(self.bytes.octets(), 0) / 0x8000) as u8
    }

    /// Length of the descriptor and the content.
    pub fn total_length(&self) -> (r: usize)
        requires
            self@.len() >= 2,
        ensures
            r == 2 + header_ie_length(u16_at(self@, 0)),
    {
        2 + self.length() as usize
    }

    /// Whether this IE ends the list of header IEs.
    pub fn is_termination(&self) -> (r: bool)
        requires
            self@.len() >= 2,
        ensures
            r <==> header_ie_id::termination_ids().contains(
                header_ie_element_id(u16_at(self@, 0)),
            ),
    {
        header_ie_id::is_termination(self.element_id())
    }
}

impl<Bytes: OctetsMut> HeaderIeHeader<Bytes> {
    /// Sets the length field.
    pub fn set_length(&mut self, length: u8)
        requires
            old(self)@.len() >= 2,
            length <= 127,
        ensures
            final(self)@ == put_u16(
                old(self)@,
                0,
                header_ie_word(
                    header_ie_type(u16_at(old(self)@, 0)),
                    header_ie_element_id(u16_at(old(self)@, 0)),
                    length as int,
                ),
            ),
            exists|x: &mut Bytes, w: &mut [u8]|
                {
                    &&& #[trigger] call_ensures(Bytes::octets_mut, (x,), w)
                    &&& *x == old(self).container()
                    &&& *final(x) == final(self).container()
                },
    {
        let b = self.bytes.octets_mut();
        let word: u16 = get_u16_le(b, 0);
        proof {
            lemma_header_ie_word(0, 0, 0, word as int);
        }
        set_u16_le(b, 0, word - word % 0x80 + length as u16);
    }

    /// Sets the element ID.
    pub fn set_element_id(&mut self, id: u8)
        requires
            old(self)@.len() >= 2,
        ensures
            final(self)@ == put_u16(
                old(self)@,
                0,
                header_ie_word(
                    header_ie_type(u16_at(old(self)@, 0)),
                    id as int,
                    header_ie_length(u16_at(old(self)@, 0)),
                ),
            ),
            exists|x: &mut Bytes, w: &mut [u8]|
                {
                    &&& #[trigger] call_ensures(Bytes::octets_mut, (x,), w)
                    &&& *x == old(self).container()
                    &&& *final(x) == final(self).container()
                },
    {
        let b = self.bytes.octets_mut();
        let word: u16 = get_u16_le(b, 0);
        set_u16_le(b, 0, word / 0x8000 * 0x8000 + 0x80 * (id as u16) + word % 0x80);
    }

    /// Sets the type bit (0 for a header IE).
    pub fn set_ie_type(&mut self, ie_type: u8)
        requires
            old(self)@.len() >= 2,
        ensures
            final(self)@ == put_u16(
                old(self)@,
                0,
                header_ie_word(
                    ie_type as int % 2,
                    header_ie_element_id(u16_at(old(self)@, 0)),
                    header_ie_length(u16_at(old(self)@, 0)),
                ),
            ),
            exists|x: &mut Bytes, w: &mut [u8]|
                {
                    &&& #[trigger] call_ensures(Bytes::octets_mut, (x,), w)
                    &&& *x == old(self).container()
                    &&& *final(x) == final(self).container()
                },
    {
        let b = self.bytes.octets_mut();
        let word: u16 = get_u16_le(b, 0);
        let bit: u16 = (ie_type % 2) as u16;
        proof {
            lemma_header_ie_word(0, 0, 0, word as int);
        }
        set_u16_le(b, 0, word - word / 0x8000 * 0x8000 + 0x8000 * bit);
    }

    /// Initializes the descriptor of a header IE with the given ID and length.
    pub fn init(&mut self, id: u8, length: u8)
        requires
            old(self)@.len() >= 2,
            length <= 127,
        ensures
            final(self)@ == put_u16(old(self)@, 0, header_ie_word(0, id as int, length as int)),
            exists|x: &mut Bytes, w: &mut [u8]|
                {
                    &&& #[trigger] call_ensures(Bytes::octets_mut, (x,), w)
                    &&& *x == old(self).container()
                    &&& *final(x) == final(self).container()
                },
    {
        set_u16_le(self.bytes.octets_mut(), 0, length as u16 + 0x80 * (id as u16));
    }
}

/// Time synchronization information of a time correction IE: the lower twelve
/// bits as a two's complement integer.
pub open spec fn time_correction_sync(word: int) -> int {
    if word % 0x1000 < 0x800 {
        word % 0x1000
    } else {
        word % 0x1000 - 0x1000
    }
}

/// Negative acknowledgment bit of a time correction IE.
pub open spec fn time_correction_nack(word: int) -> bool {
    word >= 0x8000
}

/// Setting the time synchronization information keeps the upper four bits and
/// stores any twelve-bit value without loss. Setting the negative
/// acknowledgment bit keeps everything else.
pub proof fn lemma_time_correction_word(word: int, value: int, nack: bool)
    requires
        0 <= word < 0x1_0000,
    ensures
        ({
            let w = word - word % 0x1000 + value % 0x1000;
            &&& 0 <= w < 0x1_0000
            &&& -0x800 <= value < 0x800 ==> time_correction_sync(w) == value
            &&& time_correction_nack(w) == time_correction_nack(word)
        }),
        ({
            let w = word % 0x8000 + (if nack { 0x8000int } else { 0int });
            &&& 0 <= w < 0x1_0000
            &&& time_correction_sync(w) == time_correction_sync(word)
            &&& time_correction_nack(w) == nack
        }),
{
    assert(word / 0x1000 * 0x1000 == word - word % 0x1000);
    assert((word - word % 0x1000) % 0x1000 == 0);
}

proof fn lemma_lower_twelve_bits(value: int)
    ensures
        (value + 0x8000) % 0x1000 == value % 0x1000,
{
}

/// Content of a time correction header IE (2 octets).
///
/// Format (little-endian):
/// - Bits 0-11: time synchronization information (signed, about 30.5 us units)
/// - Bit 15: negative acknowledgment
#[derive(Clone, Copy, Debug)]
pub struct TimeCorrectionIe<Bytes> {
    bytes: Bytes,
}

impl<Bytes> TimeCorrectionIe<Bytes> {
    /// The container of the octets.
    pub closed spec fn container(&self) -> Bytes {
        self.bytes
    }

    /// Once nothing is written any more through the content, nothing is written any more
    /// to its container. If the container is borrowed, then what it was borrowed
    /// from holds what was written last.
    pub proof fn lemma_released(self)
        requires
            has_resolved(self),
        ensures
            has_resolved(self.container()),
    {
    }
}

impl<Bytes: Octets> View for TimeCorrectionIe<Bytes> {
    type V = Seq<u8>;

    open spec fn view(&self) -> Seq<u8> {
        self.container().bytes()
    }
}

impl<Bytes: Octets> TimeCorrectionIe<Bytes> {
    pub const LENGTH: usize = 2;

    /// Interprets the leading octets as the content of a time correction IE.
    pub fn new(bytes: Bytes) -> (r: Option<Self>)
        ensures
            r is Some <==> bytes.bytes().len() >= 2,
            r matches Some(ie) ==> ie.container() == bytes,
    {
        if bytes.octets().len() < 2 {
            return None;
        }
        Some(Self { bytes })
    }

    /// Interprets octets as the content of a time correction IE without any
    /// check.
    pub fn new_unchecked(bytes: Bytes) -> (r: Self)
        ensures
            r.container() == bytes,
    {
        Self { bytes }
    }

    /// Time synchronization information (signed, 12 bits).
    pub fn time_sync(&self) -> (r: i16)
        requires
            self@.len() >= 2,
        ensures
            r == time_correction_sync(u16_at(self@, 0)),
    {
        let low: u16 = get_u16_le(self.bytes.octets(), 0) % 0x1000;
        if low < 0x800 {
            low as i16
        } else {
            low as i16 - 0x1000
        }
    }

    /// Negative acknowledgment bit.
    pub fn nack(&self) -> (r: bool)
        requires
            self@.len() >= 2,
        ensures
            r == time_correction_nack(u16_at(self@, 0)),
    {
        get_u16_le(self.bytes.octets(), 0) >= 0x8000
    }
}

impl<Bytes: OctetsMut> TimeCorrectionIe<Bytes> {
    /// Sets the lower twelve bits to those of `value`.
    pub fn set_time_sync(&mut self, value: i16)
        requires
            old(self)@.len() >= 2,
        ensures
            final(self)@ == put_u16(
                old(self)@,
                0,
                u16_at(old(self)@, 0) - u16_at(old(self)@, 0) % 0x1000 + value as int % 0x1000,
            ),
            exists|x: &mut Bytes, w: &mut [u8]|
                {
                    &&& #[trigger] call_ensures(Bytes::octets_mut, (x,), w)
                    &&& *x == old(self).container()
                    &&& *final(x) == final(self).container()
                },
    {
        let b = self.bytes.octets_mut();
        let word: u16 = get_u16_le(b, 0);
        // Shifting by a multiple of 2^12 keeps the lower twelve bits.
        let shifted: u32 = (value as i32 + 0x8000) as u32;
        let low: u16 = (shifted % 0x1000) as u16;
        proof {
            lemma_lower_twelve_bits(value as int);
        }
        set_u16_le(b, 0, word - word % 0x1000 + low);
    }

    /// Sets the negative acknowledgment bit.
    pub fn set_nack(&mut self, nack: bool)
        requires
            old(self)@.len() >= 2,
        ensures
            final(self)@ == put_u16(
                old(self)@,
                0,
                u16_at(old(self)@, 0) % 0x8000 + (if nack { 0x8000int } else { 0int }),
            ),
            exists|x: &mut Bytes, w: &mut [u8]|
                {
                    &&& #[trigger] call_ensures(Bytes::octets_mut, (x,), w)
                    &&& *x == old(self).container()
                    &&& *final(x) == final(self).container()
                },
    {
        let b = self.bytes.octets_mut();
        let word: u16 = get_u16_le(b, 0);
        if nack {
            set_u16_le(b, 0, word % 0x8000 + 0x8000);
        } else {
            set_u16_le(b, 0, word % 0x8000);
        }
    }
}

/// Whether a header IE, descriptor and content, is completely held by `b` at
/// `at`.
pub open spec fn header_ie_complete(b: Seq<u8>, at: int) -> bool {
    &&& 0 <= at
    &&& at + 2 <= b.len()
    &&& header_ie_type(u16_at(b, at)) == 0
    &&& at + 2 + header_ie_length(u16_at(b, at)) <= b.len()
}

/// The header IE at `at`.
pub open spec fn header_ie_span(b: Seq<u8>, at: int) -> IeSpan<int> {
    IeSpan {
        id: header_ie_element_id(u16_at(b, at)),
        start: at + 2,
        end: at + 2 + header_ie_length(u16_at(b, at)),
    }
}

/// The header IEs that follow each other from `at` on.
pub open spec fn header_ies_from(b: Seq<u8>, at: int) -> Seq<IeSpan<int>>
    decreases b.len() - at,
{
    if header_ie_complete(b, at) {
        seq![header_ie_span(b, at)] + header_ies_from(b, header_ie_span(b, at).end)
    } else {
        Seq::empty()
    }
}

/// The header IE with the given element ID: the first one that no termination
/// IE precedes.
pub open spec fn header_ie_with_id(b: Seq<u8>, element_id: int) -> Option<IeSpan<int>> {
    scan(header_ies_from(b, 0), element_id, header_ie_id::termination_ids())
}

/// The content of the listed header IEs lies within the buffer, in order, and
/// does not overlap.
pub proof fn lemma_header_ies_ordered(b: Seq<u8>, at: int)
    ensures
        forall|i: int|
            0 <= i < header_ies_from(b, at).len() ==> {
                let span = #[trigger] header_ies_from(b, at)[i];
                at + 2 <= span.start <= span.end <= b.len()
            },
        forall|i: int, j: int|
            0 <= i < j < header_ies_from(b, at).len() ==> (#[trigger] header_ies_from(b, at)[i]).end
                + 2 <= (#[trigger] header_ies_from(b, at)[j]).start,
    decreases b.len() - at,
{
    if header_ie_complete(b, at) {
        let span = header_ie_span(b, at);
        let rest = header_ies_from(b, span.end);
        lemma_header_ies_ordered(b, span.end);
        let list = header_ies_from(b, at);
        assert(list[0] == span);
        assert forall|i: int| 0 <= i < list.len() implies {
            let s = #[trigger] list[i];
            at + 2 <= s.start <= s.end <= b.len()
        } by {
            if i > 0 {
                assert(list[i] == rest[i - 1]);
            }
        }
        assert forall|i: int, j: int| 0 <= i < j < list.len() implies (#[trigger] list[i]).end + 2
            <= (#[trigger] list[j]).start by {
            assert(list[j] == rest[j - 1]);
            if i > 0 {
                assert(list[i] == rest[i - 1]);
            }
        }
    }
}

/// Overwriting the content of one header IE leaves the structure of the list
/// unchanged.
pub proof fn lemma_header_ies_content_edit(b: Seq<u8>, at: int, i: int, t: Seq<u8>)
    requires
        0 <= at,
        0 <= i < header_ies_from(b, at).len(),
        t.len() == header_ies_from(b, at)[i].end - header_ies_from(b, at)[i].start,
    ensures
        ({
            let span = header_ies_from(b, at)[i];
            header_ies_from(splice(b, span.start, span.end, t), at) == header_ies_from(b, at)
        }),
    decreases i,
{
    lemma_header_ies_ordered(b, at);
    let list = header_ies_from(b, at);
    let span = list[i];
    let c = splice(b, span.start, span.end, t);
    lemma_splice_keeps(b, span.start, span.end, t);
    assert(header_ie_complete(b, at));
    let first = header_ie_span(b, at);
    assert(list[0] == first);
    assert(c[at] == b[at] && c[at + 1] == b[at + 1]);
    assert(header_ie_span(c, at) == first);
    if i == 0 {
        lemma_header_ies_agree(b, c, first.end);
    } else {
        assert(list[i] == header_ies_from(b, first.end)[i - 1]);
        lemma_header_ies_content_edit(b, first.end, i - 1, t);
    }
}

/// The listed IEs depend on the octets from the start of the list on only.
proof fn lemma_header_ies_agree(b: Seq<u8>, c: Seq<u8>, at: int)
    requires
        0 <= at,
        b.len() == c.len(),
        forall|k: int| at <= k < b.len() ==> b[k] == c[k],
    ensures
        header_ies_from(c, at) == header_ies_from(b, at),
    decreases b.len() - at,
{
    if at + 2 <= b.len() {
        assert(b[at] == c[at] && b[at + 1] == c[at + 1]);
        if header_ie_complete(b, at) {
            lemma_header_ies_agree(b, c, header_ie_span(b, at).end);
        }
    }
}

/// A header IE with access to its content.
#[derive(Clone, Copy)]
pub struct HeaderIe<'a> {
    header: HeaderIeHeader<&'a [u8]>,
    content: &'a [u8],
}

impl<'a> HeaderIe<'a> {
    #[verifier::type_invariant]
    spec fn wf(self) -> bool {
        self.header@.len() >= 2
    }

    /// The element ID of the IE.
    pub closed spec fn id(&self) -> int {
        header_ie_element_id(u16_at(self.header@, 0))
    }

    /// The content of the IE.
    pub closed spec fn data(&self) -> Seq<u8> {
        self.content@
    }

    /// Element ID.
    pub fn element_id(&self) -> (r: u8)
        ensures
            r == self.id(),
    {
        proof {
            use_type_invariant(self);
        }
        self.header.element_id()
    }

    /// Content.
    pub fn content(&self) -> (r: &'a [u8])
        ensures
            r@ == self.data(),
    {
        self.content
    }

    /// Whether this IE ends the list of header IEs.
    pub fn is_termination(&self) -> (r: bool)
        ensures
            r <==> header_ie_id::termination_ids().contains(self.id()),
    {
        proof {
            use_type_invariant(self);
        }
        self.header.is_termination()
    }

    /// The content as that of a time correction IE, if it is one.
    pub fn as_time_correction(&self) -> (r: Option<TimeCorrectionIe<&'a [u8]>>)
        ensures
            r is Some <==> self.id() == header_ie_id::TIME_CORRECTION && self.data().len() >= 2,
            r matches Some(ie) ==> ie@ == self.data(),
    {
        if self.element_id() == header_ie_id::TIME_CORRECTION {
            TimeCorrectionIe::new(self.content)
        } else {
            None
        }
    }
}

/// Walks over the header IEs in a buffer.
pub struct HeaderIeIter<'a> {
    buf: &'a [u8],
    offset: usize,
}

impl<'a> HeaderIeIter<'a> {
    #[verifier::type_invariant]
    spec fn wf(self) -> bool {
        self.offset <= self.buf@.len()
    }

    /// The buffer that is walked over.
    pub closed spec fn buffer(&self) -> Seq<u8> {
        self.buf@
    }

    /// The offset of the next IE.
    pub closed spec fn position(&self) -> int {
        self.offset as int
    }

    /// Starts at the beginning of a buffer.
    pub fn new(buf: &'a [u8]) -> (r: Self)
        ensures
            r.buffer() == buf@,
            r.position() == 0,
    {
        Self { buf, offset: 0 }
    }

    /// The octets from the current position on.
    pub fn remaining(&self) -> (r: &'a [u8])
        ensures
            r@ == self.buffer().subrange(self.position(), self.buffer().len() as int),
    {
        proof {
            use_type_invariant(self);
        }
        &self.buf[self.offset..self.buf.len()]
    }

    /// Current offset.
    pub fn offset(&self) -> (r: usize)
        ensures
            r == self.position(),
    {
        self.offset
    }

    /// The next IE, if a complete one follows. Termination IEs are handed out
    /// like any other.
    pub fn next(&mut self) -> (r: Option<HeaderIe<'a>>)
        ensures
            final(self).buffer() == old(self).buffer(),
            r is Some <==> header_ie_complete(old(self).buffer(), old(self).position()),
            r matches Some(ie) ==> ({
                let span = header_ie_span(old(self).buffer(), old(self).position());
                &&& ie.id() == span.id
                &&& ie.data() == old(self).buffer().subrange(span.start, span.end)
                &&& final(self).position() == span.end
            }),
            r is None ==> final(self).position() == old(self).position(),
    {
        proof {
            use_type_invariant(&*self);
        }
        let rest: &'a [u8] = &self.buf[self.offset..self.buf.len()];
        let header = match HeaderIeHeader::new(rest) {
            Some(header) => header,
            None => return None,
        };
        let content_len: usize = header.length() as usize;
        let header_end: usize = self.offset + 2;
        if content_len > self.buf.len() - header_end {
            return None;
        }
        let content_end: usize = header_end + content_len;
        let header_slice: &'a [u8] = &self.buf[self.offset..header_end];
        let content: &'a [u8] = &self.buf[header_end..content_end];
        self.offset = content_end;
        Some(HeaderIe { header: HeaderIeHeader::new_unchecked(header_slice), content })
    }
}

/// Finds the content range of a header IE by element ID.
pub fn find_header_ie_content_range(buf: &[u8], element_id: u8) -> (r: Option<(usize, usize)>)
    ensures
        r is Some <==> header_ie_with_id(buf@, element_id as int) is Some,
        r matches Some((start, end)) ==> ({
            let span = header_ie_with_id(buf@, element_id as int)->0;
            start == span.start && end == span.end && start <= end <= buf@.len()
        }),
{
    let mut offset: usize = 0;
    while buf.len() - offset >= 2
        invariant
            offset <= buf@.len(),
            header_ie_with_id(buf@, element_id as int) == scan(
                header_ies_from(buf@, offset as int),
                element_id as int,
                header_ie_id::termination_ids(),
            ),
        decreases buf@.len() - offset,
    {
        proof {
            lemma_scan_step(
                header_ie_span(buf@, offset as int),
                header_ies_from(buf@, header_ie_span(buf@, offset as int).end),
                element_id as int,
                header_ie_id::termination_ids(),
            );
        }
        let rest: &[u8] = &buf[offset..buf.len()];
        assert(u16_at(rest@, 0) == u16_at(buf@, offset as int));
        let header = match HeaderIeHeader::new(rest) {
            Some(header) => header,
            None => return None,
        };
        let content_len: usize = header.length() as usize;
        let content_start: usize = offset + 2;
        if content_len > buf.len() - content_start {
            return None;
        }
        let content_end: usize = content_start + content_len;
        assert(header_ie_complete(buf@, offset as int));
        if header.element_id() == element_id {
            return Some((content_start, content_end));
        }
        if header.is_termination() {
            return None;
        }
        offset = content_end;
    }
    None
}

/// Finds the content of a header IE by element ID.
pub fn find_header_ie_content(buf: &[u8], element_id: u8) -> (r: Option<&[u8]>)
    ensures
        r is Some <==> header_ie_with_id(buf@, element_id as int) is Some,
        r matches Some(content) ==> ({
            let span = header_ie_with_id(buf@, element_id as int)->0;
            &&& 0 <= span.start <= span.end <= buf@.len()
            &&& content@ == buf@.subrange(span.start, span.end)
        }),
{
    match find_header_ie_content_range(buf, element_id) {
        Some((start, end)) => Some(&buf[start..end]),
        None => None,
    }
}

/// Finds the content of a header IE by element ID for writing.
pub fn find_header_ie_content_mut(buf: &mut [u8], element_id: u8) -> (r: Option<&mut [u8]>)
    ensures
        r is Some <==> header_ie_with_id(old(buf)@, element_id as int) is Some,
        r matches Some(content) ==> ({
            let span = header_ie_with_id(old(buf)@, element_id as int)->0;
            &&& 0 <= span.start <= span.end <= old(buf)@.len()
            &&& content@ == old(buf)@.subrange(span.start, span.end)
            &&& final(buf)@ == splice(old(buf)@, span.start, span.end, final(content)@)
        }),
        r is None ==> final(buf)@ == old(buf)@,
{
    match find_header_ie_content_range(buf, element_id) {
        Some((start, end)) => Some(subslice_mut(buf, start, end)),
        None => None,
    }
}

} // verus!
