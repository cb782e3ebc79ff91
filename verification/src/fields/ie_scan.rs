//! Finding the end of the information elements of an incoming frame.

use vstd::prelude::*;

use crate::ies::header::{header_ie_complete, header_ie_span, HeaderIeHeader};
use crate::ies::header_ie_id;
use crate::ies::payload::{payload_ie_complete, payload_ie_span, PayloadIeHeader};
use crate::ies::payload_ie_id;
use crate::octets::u16_at;

verus! {

/// Where the payload IEs from `at` on end: behind the first termination IE or,
/// if there is none, at the end of the buffer, which must be filled then.
pub open spec fn payload_ies_end(b: Seq<u8>, at: int) -> Option<int>
    decreases b.len() - at,
{
    if at == b.len() {
        Some(at)
    } else if !payload_ie_complete(b, at) {
        None
    } else if payload_ie_span(b, at).id == payload_ie_id::TERMINATION {
        Some(payload_ie_span(b, at).end)
    } else {
        payload_ies_end(b, payload_ie_span(b, at).end)
    }
}

/// Where the IEs of a frame end: behind the header IE that announces a frame
/// payload, behind the payload IEs that a header IE announces or, if there is
/// neither, at the end of the buffer, which must be filled then.
pub open spec fn ies_end(b: Seq<u8>, at: int) -> Option<int>
    decreases b.len() - at,
{
    if at == b.len() {
        Some(at)
    } else if !header_ie_complete(b, at) {
        None
    } else if header_ie_span(b, at).id == header_ie_id::HT2 {
        Some(header_ie_span(b, at).end)
    } else if header_ie_span(b, at).id == header_ie_id::HT1 {
        payload_ies_end(b, header_ie_span(b, at).end)
    } else {
        ies_end(b, header_ie_span(b, at).end)
    }
}

/// The end of the payload IEs lies within the buffer.
pub proof fn lemma_payload_ies_end_within(b: Seq<u8>, at: int)
    requires
        0 <= at <= b.len(),
    ensures
        payload_ies_end(b, at) matches Some(end) ==> at <= end <= b.len(),
    decreases b.len() - at,
{
    if at < b.len() && payload_ie_complete(b, at) {
        lemma_payload_ies_end_within(b, payload_ie_span(b, at).end);
    }
}

/// The end of the IEs lies within the buffer.
pub proof fn lemma_ies_end_within(b: Seq<u8>, at: int)
    requires
        0 <= at <= b.len(),
    ensures
        ies_end(b, at) matches Some(end) ==> at <= end <= b.len(),
    decreases b.len() - at,
{
    if at < b.len() && header_ie_complete(b, at) {
        lemma_ies_end_within(b, header_ie_span(b, at).end);
        lemma_payload_ies_end_within(b, header_ie_span(b, at).end);
    }
}

/// Finds the end of the payload IEs from `start` on.
fn find_payload_ies_end(b: &[u8], start: usize) -> (r: Option<usize>)
    requires
        start <= b@.len(),
    ensures
        r is Some <==> payload_ies_end(b@, start as int) is Some,
        r matches Some(end) ==> end == payload_ies_end(b@, start as int)->0,
{
    let mut at: usize = start;
    while at != b.len()
        invariant
            at <= b@.len(),
            payload_ies_end(b@, start as int) == payload_ies_end(b@, at as int),
        decreases b@.len() - at,
    {
        let rest: &[u8] = &b[at..b.len()];
        assert(rest@.len() >= 2 ==> u16_at(rest@, 0) == u16_at(b@, at as int));
        let header = match PayloadIeHeader::new(rest) {
            Some(header) => header,
            None => return None,
        };
        let total: usize = header.total_length();
        if total > b.len() - at {
            return None;
        }
        assert(payload_ie_complete(b@, at as int));
        let is_termination: bool = header.is_termination();
        at = at + total;
        if is_termination {
            return Some(at);
        }
    }
    Some(at)
}

/// Finds the end of the IEs of a frame.
pub fn find_ies_end(b: &[u8]) -> (r: Option<usize>)
    ensures
        r is Some <==> ies_end(b@, 0) is Some,
        r matches Some(end) ==> end == ies_end(b@, 0)->0 && end <= b@.len(),
{
    proof {
        lemma_ies_end_within(b@, 0);
    }
    let mut at: usize = 0;
    while at != b.len()
        invariant
            at <= b@.len(),
            ies_end(b@, 0) == ies_end(b@, at as int),
            ies_end(b@, 0) matches Some(end) ==> end <= b@.len(),
        decreases b@.len() - at,
    {
        let rest: &[u8] = &b[at..b.len()];
        assert(rest@.len() >= 2 ==> u16_at(rest@, 0) == u16_at(b@, at as int));
        let header = match HeaderIeHeader::new(rest) {
            Some(header) => header,
            None => return None,
        };
        let total: usize = header.total_length();
        if total > b.len() - at {
            return None;
        }
        assert(header_ie_complete(b@, at as int));
        let element_id: u8 = header.element_id();
        at = at + total;
        if element_id == header_ie_id::HT2 {
            return Some(at);
        }
        if element_id == header_ie_id::HT1 {
            return find_payload_ies_end(b, at);
        }
    }
    Some(at)
}

} // verus!
