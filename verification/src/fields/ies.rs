//! Access to the information elements of an MPDU.

use vstd::prelude::*;

use crate::ies::header::{
    find_header_ie_content_mut, find_header_ie_content, header_ie_with_id, TimeCorrectionIe,
};
use crate::ies::header_ie_id;
use crate::octets::{splice, Octets, OctetsMut};

verus! {

/// Reader and writer of the IEs of an MPDU.
#[derive(Debug)]
pub struct IesFields<Bytes> {
    bytes: Bytes,
}

impl<Bytes> IesFields<Bytes> {
    /// The container of the octets.
    pub closed spec fn container(&self) -> Bytes {
        self.bytes
    }

    /// Once nothing is written any more through the IEs, nothing is written any more
    /// to their container. If the container is borrowed, then what it was borrowed
    /// from holds what was written last.
    pub proof fn lemma_released(self)
        requires
            has_resolved(self),
        ensures
            has_resolved(self.container()),
    {
    }

    /// Creates a reader or writer for the IEs of an MPDU.
    pub fn new(bytes: Bytes) -> (r: Self)
        ensures
            r.container() == bytes,
    {
        Self { bytes }
    }
}

impl<Bytes: Octets> View for IesFields<Bytes> {
    type V = Seq<u8>;

    open spec fn view(&self) -> Seq<u8> {
        self.container().bytes()
    }
}

impl<Bytes: Octets> IesFields<Bytes> {
    /// Where the content of the time correction IE lies, if there is one with
    /// enough content.
    pub open spec fn time_correction_range(&self) -> Option<(int, int)> {
        match header_ie_with_id(self@, header_ie_id::TIME_CORRECTION as int) {
            Some(span) => {
                if span.end - span.start >= 2 {
                    Some((span.start, span.end))
                } else {
                    None
                }
            },
            None => None,
        }
    }

    /// The time correction IE, if there is one.
    pub fn time_correction(&self) -> (r: Option<TimeCorrectionIe<&[u8]>>)
        ensures
            r is Some <==> self.time_correction_range() is Some,
            r matches Some(ie) ==> ({
                let (start, end) = self.time_correction_range()->0;
                ie@ == self@.subrange(start, end) && ie@.len() >= 2
            }),
    {
        match find_header_ie_content(self.bytes.octets(), header_ie_id::TIME_CORRECTION) {
            Some(content) => TimeCorrectionIe::new(content),
            None => None,
        }
    }
}

impl<Bytes: OctetsMut> IesFields<Bytes> {
    /// The time correction IE for writing, if there is one.
    pub fn time_correction_mut(&mut self) -> (r: Option<TimeCorrectionIe<&mut [u8]>>)
        ensures
            r is Some <==> old(self).time_correction_range() is Some,
            r matches Some(ie) ==> ({
                let (start, end) = old(self).time_correction_range()->0;
                &&& ie@ == old(self)@.subrange(start, end)
                &&& ie@.len() >= 2
                &&& final(self)@ == splice(old(self)@, start, end, (*final(ie.container()))@)
            }),
            r is None ==> final(self)@ == old(self)@,
            exists|x: &mut Bytes, w: &mut [u8]|
                {
                    &&& #[trigger] call_ensures(Bytes::octets_mut, (x,), w)
                    &&& *x == old(self).container()
                    &&& *final(x) == final(self).container()
                },
    {
        let ghost before = self@;
        match find_header_ie_content_mut(self.bytes.octets_mut(), header_ie_id::TIME_CORRECTION) {
            Some(content) => {
                if content.len() < 2 {
                    proof {
                        let span = header_ie_with_id(
                            before,
                            header_ie_id::TIME_CORRECTION as int,
                        )->0;
                        assert(splice(before, span.start, span.end, content@) =~= before);
                    }
                    return None;
                }
                Some(TimeCorrectionIe::new_unchecked(content))
            },
            None => None,
        }
    }
}

} // verus!
