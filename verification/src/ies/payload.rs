//! Payload IEs.

use vstd::prelude::*;

use crate::ies::descriptor;
use crate::ies::descriptor::{long_ie_id, long_ie_length, long_ie_type, long_ie_word};
use crate::ies::header::{
    header_ie_complete, header_ie_span, header_ies_from, lemma_header_ies_ordered, HeaderIeHeader,
};
use crate::ies::header_ie_id;
use crate::ies::payload_ie_id;
use crate::ies::span::{lemma_scan, lemma_scan_step, scan, IeSpan};
use crate::octets::{put_u16, u16_at, Octets, OctetsMut};

verus! {

/// Descriptor of a payload IE (2 octets).
///
/// Format (little-endian):
/// - Bits 0-10: length (0-2047)
/// - Bits 11-14: group ID
/// - Bit 15: type (1 = payload IE)
#[derive(Clone, Copy)]
pub struct PayloadIeHeader<Bytes> {
    bytes: Bytes,
}

impl<Bytes> PayloadIeHeader<Bytes> {
    /// The container of the octets.
    pub closed spec fn container(&self) -> Bytes {
        self.bytes
    }

    /// Once nothing is written any more through the descriptor, nothing is written any more
    /// to its container. If the container is borrowed, then what it was borrowed
    /// from holds what was written last.
    pub proof fn lemma_released(self)
        requires
            has_resolved(self),
        ensures
            has_resolved(self.container()),
    {
    }
}

impl<Bytes: Octets> View for PayloadIeHeader<Bytes> {
    type V = Seq<u8>;

    open spec fn view(&self) -> Seq<u8> {
        self.container().bytes()
    }
}

impl<Bytes: Octets> PayloadIeHeader<Bytes> {
    pub const LENGTH: usize = 2;

    /// Interprets the leading octets as the descriptor of a payload IE.
    pub fn new(bytes: Bytes) -> (r: Option<Self>)
        ensures
            r is Some <==> bytes.bytes().len() >= 2 && long_ie_type(u16_at(bytes.bytes(), 0)) == 1,
            r matches Some(header) ==> header.container() == bytes,
    {
        if bytes.octets().len() < 2 {
            return None;
        }
        let header = Self { bytes };
        if header.ie_type() != 1 {
            return None;
        }
        Some(header)
    }

    /// Interprets octets as the descriptor of a payload IE without any check.
    pub fn new_unchecked(bytes: Bytes) -> (r: Self)
        ensures
            r.container() == bytes,
    {
        Self { bytes }
    }

    /// Content length (0-2047).
    pub fn length(&self) -> (r: u16)
        requires
            self@.len() >= 2,
        ensures
            r == long_ie_length(u16_at(self@, 0)),
    {
        descriptor::length(self.bytes.octets())
    }

    /// Group ID.
    pub fn group_id(&self) -> (r: u8)
        requires
            self@.len() >= 2,
        ensures
            r == long_ie_id(u16_at(self@, 0)),
    {
        descriptor::id(self.bytes.octets())
    }

    /// Type bit (1 for a payload IE).
    pub fn ie_type(&self) -> (r: u8)
        requires
            self@.len() >= 2,
        ensures
            r == long_ie_type(u16_at(self@, 0)),
    {
        descriptor::ie_type(self.bytes.octets())
    }

    /// Length of the descriptor and the content.
    pub fn total_length(&self) -> (r: usize)
        requires
            self@.len() >= 2,
        ensures
            r == 2 + long_ie_length(u16_at(self@, 0)),
    {
        2 + self.length() as usize
    }

    /// Whether this IE ends the list of payload IEs.
    pub fn is_termination(&self) -> (r: bool)
        requires
            self@.len() >= 2,
        ensures
            r <==> long_ie_id(u16_at(self@, 0)) == payload_ie_id::TERMINATION,
    {
        self.group_id() == payload_ie_id::TERMINATION
    }

    /// Whether this IE holds nested IEs.
    pub fn is_mlme(&self) -> (r: bool)
        requires
            self@.len() >= 2,
        ensures
            r <==> long_ie_id(u16_at(self@, 0)) == payload_ie_id::MLME,
    {
        self.group_id() == payload_ie_id::MLME
    }
}

impl<Bytes: OctetsMut> PayloadIeHeader<Bytes> {
    /// Sets the length field.
    pub fn set_length(&mut self, length: u16)
        requires
            old(self)@.len() >= 2,
            length <= 2047,
        ensures
            final(self)@ == put_u16(
                old(self)@,
                0,
                long_ie_word(
                    long_ie_type(u16_at(old(self)@, 0)),
                    long_ie_id(u16_at(old(self)@, 0)),
                    length as int,
                ),
            ),
            exists|x: &mut Bytes, w: &mut [u8]|
                {
                    &&& #[trigger] call_ensures(Bytes::octets_mut, (x,), w)
                    &&& *x == old(self).container()
                    &&& *final(x) == final(self).container()
                },
    {
        descriptor::set_length(self.bytes.octets_mut(), length);
    }

    /// Sets the group ID to the lower four bits of `id`.
    pub fn set_group_id(&mut self, id: u8)
        requires
            old(self)@.len() >= 2,
        ensures
            final(self)@ == put_u16(
                old(self)@,
                0,
                long_ie_word(
                    long_ie_type(u16_at(old(self)@, 0)),
                    id as int % 0x10,
                    long_ie_length(u16_at(old(self)@, 0)),
                ),
            ),
            exists|x: &mut Bytes, w: &mut [u8]|
                {
                    &&& #[trigger] call_ensures(Bytes::octets_mut, (x,), w)
                    &&& *x == old(self).container()
                    &&& *final(x) == final(self).container()
                },
    {
        descriptor::set_id(self.bytes.octets_mut(), id);
    }

    /// Sets the type bit to the lowest bit of `ie_type` (1 for a payload IE).
    pub fn set_ie_type(&mut self, ie_type: u8)
        requires
            old(self)@.len() >= 2,
        ensures
            final(self)@ == put_u16(
                old(self)@,
                0,
                long_ie_word(
                    ie_type as int % 2,
                    long_ie_id(u16_at(old(self)@, 0)),
                    long_ie_length(u16_at(old(self)@, 0)),
                ),
            ),
            exists|x: &mut Bytes, w: &mut [u8]|
                {
                    &&& #[trigger] call_ensures(Bytes::octets_mut, (x,), w)
                    &&& *x == old(self).container()
                    &&& *final(x) == final(self).container()
                },
    {
        descriptor::set_ie_type(self.bytes.octets_mut(), ie_type);
    }

    /// Initializes the descriptor of a payload IE with the given group ID and
    /// length.
    pub fn init(&mut self, group_id: u8, length: u16)
        requires
            old(self)@.len() >= 2,
            length <= 2047,
        ensures
            final(self)@ == put_u16(
                old(self)@,
                0,
                long_ie_word(1, group_id as int % 0x10, length as int),
            ),
            exists|x: &mut Bytes, w: &mut [u8]|
                {
                    &&& #[trigger] call_ensures(Bytes::octets_mut, (x,), w)
                    &&& *x == old(self).container()
                    &&& *final(x) == final(self).container()
                },
    {
        descriptor::init(self.bytes.octets_mut(), group_id, length);
    }
}

/// Whether a payload IE, descriptor and content, is completely held by `b` at
/// `at`.
pub open spec fn payload_ie_complete(b: Seq<u8>, at: int) -> bool {
    &&& 0 <= at
    &&& at + 2 <= b.len()
    &&& long_ie_type(u16_at(b, at)) == 1
    &&& at + 2 + long_ie_length(u16_at(b, at)) <= b.len()
}

/// The payload IE at `at`.
pub open spec fn payload_ie_span(b: Seq<u8>, at: int) -> IeSpan<int> {
    IeSpan {
        id: long_ie_id(u16_at(b, at)),
        start: at + 2,
        end: at + 2 + long_ie_length(u16_at(b, at)),
    }
}

/// The payload IEs that follow each other from `at` on.
pub open spec fn payload_ies_from(b: Seq<u8>, at: int) -> Seq<IeSpan<int>>
    decreases b.len() - at,
{
    if payload_ie_complete(b, at) {
        seq![payload_ie_span(b, at)] + payload_ies_from(b, payload_ie_span(b, at).end)
    } else {
        Seq::empty()
    }
}

/// The offset of the first payload IE: behind the header IE that announces
/// payload IEs, unless the list of header IEs ends otherwise.
pub open spec fn payload_ies_start(b: Seq<u8>) -> Option<int> {
    match scan(header_ies_from(b, 0), header_ie_id::HT1 as int, set![header_ie_id::HT2 as int]) {
        Some(span) => Some(span.end),
        None => None,
    }
}

/// The payload IE that holds the nested IEs: the first one that no termination
/// IE precedes.
pub open spec fn mlme_ie(b: Seq<u8>) -> Option<IeSpan<int>> {
    match payload_ies_start(b) {
        Some(at) => scan(
            payload_ies_from(b, at),
            payload_ie_id::MLME as int,
            set![payload_ie_id::TERMINATION as int],
        ),
        None => None,
    }
}

/// The content of a payload IE found in a list lies within the buffer.
pub proof fn lemma_payload_ies_within(b: Seq<u8>, at: int)
    ensures
        forall|i: int|
            0 <= i < payload_ies_from(b, at).len() ==> {
                let span = #[trigger] payload_ies_from(b, at)[i];
                at + 2 <= span.start <= span.end <= b.len()
            },
    decreases b.len() - at,
{
    if payload_ie_complete(b, at) {
        let span = payload_ie_span(b, at);
        let rest = payload_ies_from(b, span.end);
        lemma_payload_ies_within(b, span.end);
        let list = payload_ies_from(b, at);
        assert forall|i: int| 0 <= i < list.len() implies {
            let s = #[trigger] list[i];
            at + 2 <= s.start <= s.end <= b.len()
        } by {
            if i > 0 {
                assert(list[i] == rest[i - 1]);
            }
        }
    }
}

/// The content that holds the nested IEs lies within the buffer.
pub proof fn lemma_mlme_ie_within(b: Seq<u8>)
    ensures
        mlme_ie(b) matches Some(span) ==> 4 <= span.start <= span.end <= b.len(),
{
    if let Some(at) = payload_ies_start(b) {
        let headers = header_ies_from(b, 0);
        lemma_scan(headers, header_ie_id::HT1 as int, set![header_ie_id::HT2 as int]);
        lemma_header_ies_ordered(b, 0);
        lemma_payload_ies_within(b, at);
        lemma_scan(
            payload_ies_from(b, at),
            payload_ie_id::MLME as int,
            set![payload_ie_id::TERMINATION as int],
        );
    }
}

/// The offset behind the header IE that announces payload IEs.
fn find_payload_ies_start(buf: &[u8]) -> (r: Option<usize>)
    ensures
        r is Some <==> payload_ies_start(buf@) is Some,
        r matches Some(at) ==> at == payload_ies_start(buf@)->0 && at <= buf@.len(),
{
    let mut offset: usize = 0;
    while buf.len() - offset >= 2
        invariant
            offset <= buf@.len(),
            scan(header_ies_from(buf@, 0), header_ie_id::HT1 as int, set![header_ie_id::HT2 as int])
                == scan(
                header_ies_from(buf@, offset as int),
                header_ie_id::HT1 as int,
                set![header_ie_id::HT2 as int],
            ),
        decreases buf@.len() - offset,
    {
        proof {
            lemma_scan_step(
                header_ie_span(buf@, offset as int),
                header_ies_from(buf@, header_ie_span(buf@, offset as int).end),
                header_ie_id::HT1 as int,
                set![header_ie_id::HT2 as int],
            );
        }
        let rest: &[u8] = &buf[offset..buf.len()];
        assert(u16_at(rest@, 0) == u16_at(buf@, offset as int));
        let header = match HeaderIeHeader::new(rest) {
            Some(header) => header,
            None => return None,
        };
        let content_len: usize = header.length() as usize;
        if content_len > buf.len() - offset - 2 {
            return None;
        }
        assert(header_ie_complete(buf@, offset as int));
        offset = offset + 2 + content_len;
        let element_id: u8 = header.element_id();
        if element_id == header_ie_id::HT1 {
            return Some(offset);
        }
        if element_id == header_ie_id::HT2 {
            return None;
        }
    }
    None
}

/// Finds the content range of the payload IE that holds the nested IEs within a
/// buffer of header and payload IEs.
pub fn find_mlme_content_range(buf: &[u8]) -> (r: Option<(usize, usize)>)
    ensures
        r is Some <==> mlme_ie(buf@) is Some,
        r matches Some((start, end)) ==> ({
            let span = mlme_ie(buf@)->0;
            start == span.start && end == span.end && 4 <= start <= end <= buf@.len()
        }),
{
    proof {
        lemma_mlme_ie_within(buf@);
    }
    let mut offset: usize = match find_payload_ies_start(buf) {
        Some(offset) => offset,
        None => return None,
    };
    while buf.len() - offset >= 2
        invariant
            offset <= buf@.len(),
            mlme_ie(buf@) == scan(
                payload_ies_from(buf@, offset as int),
                payload_ie_id::MLME as int,
                set![payload_ie_id::TERMINATION as int],
            ),
            mlme_ie(buf@) matches Some(span) ==> 4 <= span.start <= span.end <= buf@.len(),
        decreases buf@.len() - offset,
    {
        proof {
            lemma_scan_step(
                payload_ie_span(buf@, offset as int),
                payload_ies_from(buf@, payload_ie_span(buf@, offset as int).end),
                payload_ie_id::MLME as int,
                set![payload_ie_id::TERMINATION as int],
            );
        }
        let rest: &[u8] = &buf[offset..buf.len()];
        assert(u16_at(rest@, 0) == u16_at(buf@, offset as int));
        let header = match PayloadIeHeader::new(rest) {
            Some(header) => header,
            None => return None,
        };
        let content_len: usize = header.length() as usize;
        let content_start: usize = offset + 2;
        if content_len > buf.len() - content_start {
            return None;
        }
        let content_end: usize = content_start + content_len;
        assert(payload_ie_complete(buf@, offset as int));
        if header.is_mlme() {
            return Some((content_start, content_end));
        }
        if header.is_termination() {
            return None;
        }
        offset = content_end;
    }
    None
}

} // verus!
