//! Structural representation of information elements.

use vstd::prelude::*;

use crate::Error;

verus! {

/// Structural representation of an IE.
#[derive(Clone, Copy, Debug, PartialEq, Eq)]
pub enum IeRepr<'ie> {
    TimeCorrectionHeaderIe,
    ReducedChannelHoppingNestedIe,
    /// Number of channels, and whether the PHY is a SUN PHY.
    FullChannelHoppingNestedIe(u8, bool),
    TschSynchronizationNestedIe,
    /// The number of links for each slotframe descriptor.
    TschSlotframeAndLinkNestedIe(&'ie [u8]),
    ReducedTschTimeslotNestedIe,
    FullTschTimeslotNestedIe,
}

/// The number of links of all slotframes.
pub open spec fn total_links(slotframes: Seq<u8>) -> int
    decreases slotframes.len(),
{
    if slotframes.len() == 0 {
        0
    } else {
        total_links(slotframes.drop_last()) + slotframes.last()
    }
}

/// There are no more than 255 links in each slotframe.
pub proof fn lemma_total_links_bounded(slotframes: Seq<u8>)
    ensures
        0 <= total_links(slotframes) <= 255 * slotframes.len(),
    decreases slotframes.len(),
{
    if slotframes.len() > 0 {
        lemma_total_links_bounded(slotframes.drop_last());
    }
}

/// A prefix of a list of slotframes has no more links than the list.
proof fn lemma_total_links_prefix(slotframes: Seq<u8>, i: int)
    requires
        0 <= i <= slotframes.len(),
    ensures
        0 <= total_links(slotframes.subrange(0, i)) <= total_links(slotframes),
    decreases slotframes.len() - i,
{
    lemma_total_links_bounded(slotframes.subrange(0, i));
    if i < slotframes.len() {
        lemma_total_links_prefix(slotframes, i + 1);
        assert(slotframes.subrange(0, i + 1).drop_last() =~= slotframes.subrange(0, i));
    } else {
        assert(slotframes.subrange(0, i) =~= slotframes);
    }
}

impl IeRepr<'_> {
    /// Whether this is a header IE.
    pub open spec fn is_header(&self) -> bool {
        self is TimeCorrectionHeaderIe
    }

    /// The length of the content of the IE.
    pub open spec fn content_length(&self) -> int {
        match self {
            IeRepr::TimeCorrectionHeaderIe => 2,
            IeRepr::ReducedChannelHoppingNestedIe => 1,
            IeRepr::FullChannelHoppingNestedIe(num_channels, is_sun_phy) => {
                // One bit for each channel in the extended bitmap of a SUN PHY.
                12 + *num_channels + (if *is_sun_phy {
                    (*num_channels as int + 7) / 8
                } else {
                    0
                })
            },
            IeRepr::TschSynchronizationNestedIe => 6,
            IeRepr::TschSlotframeAndLinkNestedIe(slotframes) => 1 + 4 * slotframes@.len() + 5
                * total_links(slotframes@),
            IeRepr::ReducedTschTimeslotNestedIe => 1,
            IeRepr::FullTschTimeslotNestedIe => 25,
        }
    }

    /// The length of the IE with its descriptor.
    pub open spec fn ie_length(&self) -> int {
        2 + self.content_length()
    }

    /// The lengths of the IE with its descriptor as a header IE and as a nested
    /// IE, one of which is zero. The descriptor of the payload IE that holds the
    /// nested IEs is not counted.
    pub fn length(&self) -> (r: (u16, u16))
        requires
            self.ie_length() <= u16::MAX,
        ensures
            r.0 == (if self.is_header() {
                self.ie_length()
            } else {
                0
            }),
            r.1 == (if self.is_header() {
                0
            } else {
                self.ie_length()
            }),
    {
        match self {
            IeRepr::TimeCorrectionHeaderIe => (2 + 2, 0),
            IeRepr::ReducedChannelHoppingNestedIe => (0, 2 + 1),
            IeRepr::FullChannelHoppingNestedIe(num_channels, is_sun_phy) => {
                let extended_bm_len: u16 = if *is_sun_phy {
                    (*num_channels as u16 + 7) / 8
                } else {
                    0
                };
                (0, 2 + 12 + (*num_channels as u16) + extended_bm_len)
            },
            IeRepr::TschSynchronizationNestedIe => (0, 2 + 6),
            IeRepr::TschSlotframeAndLinkNestedIe(slotframes) => {
                let mut content_len: u16 = 1;
                let mut sf_idx: usize = 0;
                assert(slotframes@.subrange(0, 0) =~= Seq::empty());
                while sf_idx < slotframes.len()
                    invariant
                        sf_idx <= slotframes@.len(),
                        content_len == 1 + 4 * sf_idx + 5 * total_links(
                            slotframes@.subrange(0, sf_idx as int),
                        ),
                        3 + 4 * slotframes@.len() + 5 * total_links(slotframes@) <= u16::MAX,
                    decreases slotframes@.len() - sf_idx,
                {
                    proof {
                        let next = slotframes@.subrange(0, sf_idx + 1);
                        assert(next.drop_last() =~= slotframes@.subrange(0, sf_idx as int));
                        lemma_total_links_prefix(slotframes@, sf_idx + 1);
                    }
                    content_len = content_len + 4 + (slotframes[sf_idx] as u16) * 5;
                    sf_idx = sf_idx + 1;
                }
                assert(slotframes@.subrange(0, sf_idx as int) =~= slotframes@);
                (0, 2 + content_len)
            },
            IeRepr::ReducedTschTimeslotNestedIe => (0, 2 + 1),
            IeRepr::FullTschTimeslotNestedIe => (0, 2 + 25),
        }
    }
}

/// Structural representation of an IE or a termination IE.
#[derive(Clone, Copy, Debug, PartialEq, Eq)]
pub enum IeReprWithTermination<'ie> {
    NonTerminationIe(IeRepr<'ie>),
    HeaderTerminationIe1,
    HeaderTerminationIe2,
    PayloadTerminationIe,
}

impl IeReprWithTermination<'_> {
    /// The length of the IE with its descriptor.
    pub open spec fn ie_length(&self) -> int {
        match self {
            IeReprWithTermination::NonTerminationIe(ie) => ie.ie_length(),
            _ => 2,
        }
    }

    /// Whether this is a header IE other than a termination IE.
    pub open spec fn is_header(&self) -> bool {
        self matches IeReprWithTermination::NonTerminationIe(ie) && ie.is_header()
    }

    /// Whether this is a nested IE.
    pub open spec fn is_nested(&self) -> bool {
        self matches IeReprWithTermination::NonTerminationIe(ie) && !ie.is_header()
    }
}

/// A list of IE representations with or without termination IEs.
#[derive(Clone, Copy, Debug, PartialEq, Eq)]
pub struct IeReprList<'ies, Ie>(&'ies [Ie]);

impl<'ies, Ie> IeReprList<'ies, Ie> {
    /// The listed IEs.
    pub closed spec fn ies(&self) -> Seq<Ie> {
        self.0@
    }

    /// Creates a list.
    pub fn new(ies: &'ies [Ie]) -> (r: Self)
        ensures
            r.ies() == ies@,
    {
        Self(ies)
    }

    /// The listed IEs.
    pub fn as_slice(&self) -> (r: &'ies [Ie])
        ensures
            r@ == self.ies(),
    {
        self.0
    }
}

/// The length of the listed IEs without any termination IE and without the
/// descriptor of the payload IE that holds the nested IEs.
pub open spec fn sum_lengths(ies: Seq<IeRepr<'_>>) -> int
    decreases ies.len(),
{
    if ies.len() == 0 {
        0
    } else {
        sum_lengths(ies.drop_last()) + ies.last().ie_length()
    }
}

/// Whether a header IE is listed.
pub open spec fn has_header_ie(ies: Seq<IeRepr<'_>>) -> bool {
    exists|i: int| 0 <= i < ies.len() && (#[trigger] ies[i]).is_header()
}

/// Whether a nested IE is listed.
pub open spec fn has_nested_ie(ies: Seq<IeRepr<'_>>) -> bool {
    exists|i: int| 0 <= i < ies.len() && !(#[trigger] ies[i]).is_header()
}

/// The length of the termination IEs that have to be added: a header
/// termination IE before payload IEs, and also between header IEs and a frame
/// payload, and a payload termination IE between payload IEs and a frame
/// payload.
pub open spec fn termination_length(header: bool, nested: bool, frame_payload: bool) -> int {
    (if nested || (header && frame_payload) {
        2int
    } else {
        0int
    }) + (if nested && frame_payload {
        2int
    } else {
        0int
    })
}

/// The length of the listed IEs with the termination IEs that have to be added.
pub open spec fn list_length(ies: Seq<IeRepr<'_>>, frame_payload: bool) -> int {
    sum_lengths(ies) + (if has_nested_ie(ies) {
        2int
    } else {
        0int
    }) + termination_length(has_header_ie(ies), has_nested_ie(ies), frame_payload)
}

/// No listed IE has a negative length.
pub proof fn lemma_sum_lengths_prefix(ies: Seq<IeRepr<'_>>, i: int)
    requires
        0 <= i <= ies.len(),
    ensures
        0 <= sum_lengths(ies.subrange(0, i)) <= sum_lengths(ies),
    decreases ies.len() - i,
{
    if i < ies.len() {
        lemma_sum_lengths_prefix(ies, i + 1);
        assert(ies.subrange(0, i + 1).drop_last() =~= ies.subrange(0, i));
        lemma_ie_length_positive(ies[i]);
        lemma_sum_lengths_nonnegative(ies.subrange(0, i));
    } else {
        assert(ies.subrange(0, i) =~= ies);
        lemma_sum_lengths_nonnegative(ies);
    }
}

pub(crate) proof fn lemma_sum_lengths_nonnegative(ies: Seq<IeRepr<'_>>)
    ensures
        sum_lengths(ies) >= 0,
    decreases ies.len(),
{
    if ies.len() > 0 {
        lemma_sum_lengths_nonnegative(ies.drop_last());
        lemma_ie_length_positive(ies.last());
    }
}

/// Every IE has content behind its descriptor.
pub proof fn lemma_ie_length_positive(ie: IeRepr<'_>)
    ensures
        ie.ie_length() > 2,
{
    if let IeRepr::TschSlotframeAndLinkNestedIe(slotframes) = ie {
        lemma_total_links_bounded(slotframes@);
    }
}

impl IeReprList<'_, IeRepr<'_>> {
    /// The length of the IEs with the termination IEs that have to be added,
    /// which also depend on whether a frame payload follows.
    pub fn ies_length(&self, has_frame_payload: bool) -> (r: u16)
        requires
            list_length(self.ies(), has_frame_payload) <= u16::MAX,
        ensures
            r == list_length(self.ies(), has_frame_payload),
    {
        let ghost ies = self.ies();
        let mut len: u16 = 0;
        let mut header: bool = false;
        let mut nested: bool = false;
        let mut ie_idx: usize = 0;
        assert(ies.subrange(0, 0) =~= Seq::empty());
        while ie_idx < self.0.len()
            invariant
                ies == self.ies(),
                ie_idx <= ies.len(),
                len == sum_lengths(ies.subrange(0, ie_idx as int)),
                header <==> has_header_ie(ies.subrange(0, ie_idx as int)),
                nested <==> has_nested_ie(ies.subrange(0, ie_idx as int)),
                list_length(ies, has_frame_payload) <= u16::MAX,
            decreases ies.len() - ie_idx,
        {
            let ghost prefix = ies.subrange(0, ie_idx as int);
            let ghost next = ies.subrange(0, ie_idx + 1);
            proof {
                assert(next.drop_last() =~= prefix);
                assert(next.last() == ies[ie_idx as int]);
                lemma_sum_lengths_prefix(ies, ie_idx + 1);
                lemma_sum_lengths_prefix(ies, ie_idx as int);
                lemma_ie_length_positive(ies[ie_idx as int]);
                lemma_has_push(prefix, next);
            }
            let (header_ie_len, nested_ie_len) = self.0[ie_idx].length();
            if header_ie_len > 0 {
                header = true;
                len = len + header_ie_len;
            } else {
                nested = true;
                len = len + nested_ie_len;
            }
            ie_idx = ie_idx + 1;
        }
        assert(ies.subrange(0, ie_idx as int) =~= ies);
        if nested {
            // The descriptor of the payload IE that holds the nested IEs.
            len = len + 2;
        }
        if nested || (header && has_frame_payload) {
            len = len + 2;
        }
        if nested && has_frame_payload {
            len = len + 2;
        }
        len
    }
}

/// How one more IE changes which kinds of IEs are listed.
pub(crate) proof fn lemma_has_push(prefix: Seq<IeRepr<'_>>, next: Seq<IeRepr<'_>>)
    requires
        next.len() > 0,
        next.drop_last() == prefix,
    ensures
        has_header_ie(next) <==> has_header_ie(prefix) || next.last().is_header(),
        has_nested_ie(next) <==> has_nested_ie(prefix) || !next.last().is_header(),
{
    assert forall|i: int| 0 <= i < prefix.len() implies prefix[i] == next[i] by {}
    if has_header_ie(prefix) {
        let i = choose|i: int| 0 <= i < prefix.len() && (#[trigger] prefix[i]).is_header();
        assert(next[i].is_header());
    }
    if has_nested_ie(prefix) {
        let i = choose|i: int| 0 <= i < prefix.len() && !(#[trigger] prefix[i]).is_header();
        assert(!next[i].is_header());
    }
    assert(next[next.len() - 1] == next.last());
}

/// The length of the listed IEs without the descriptor of the payload IE that
/// holds the nested IEs.
pub open spec fn sum_terminated(ies: Seq<IeReprWithTermination<'_>>) -> int
    decreases ies.len(),
{
    if ies.len() == 0 {
        0
    } else {
        sum_terminated(ies.drop_last()) + ies.last().ie_length()
    }
}

/// Which kinds of IEs a list has.
pub struct IeKinds {
    pub header: bool,
    pub nested: bool,
    pub header_termination_1: bool,
    pub header_termination_2: bool,
    pub payload_termination: bool,
}

/// Which kinds of IEs are listed.
pub open spec fn kinds_of(ies: Seq<IeReprWithTermination<'_>>) -> IeKinds {
    IeKinds {
        header: exists|i: int| 0 <= i < ies.len() && (#[trigger] ies[i]).is_header(),
        nested: exists|i: int| 0 <= i < ies.len() && (#[trigger] ies[i]).is_nested(),
        header_termination_1: exists|i: int|
            0 <= i < ies.len() && (#[trigger] ies[i]) is HeaderTerminationIe1,
        header_termination_2: exists|i: int|
            0 <= i < ies.len() && (#[trigger] ies[i]) is HeaderTerminationIe2,
        payload_termination: exists|i: int|
            0 <= i < ies.len() && (#[trigger] ies[i]) is PayloadTerminationIe,
    }
}

/// The length of the listed IEs.
pub open spec fn terminated_length(ies: Seq<IeReprWithTermination<'_>>) -> int {
    sum_terminated(ies) + (if kinds_of(ies).nested {
        2int
    } else {
        0int
    })
}

/// Whether a frame payload is expected behind a list of IEs of the given kinds,
/// if the list is valid.
///
/// - Nested IEs have to come with a termination IE that announces payload IEs. A
///   frame payload is expected then if they come with a payload termination IE,
///   too.
/// - Header IEs without nested IEs must not come with a payload termination IE.
///   If they come with the termination IE that announces a frame payload, then a
///   frame payload is expected. If they come without any termination IE, none is.
pub open spec fn payload_expected(kinds: IeKinds) -> Option<bool> {
    if kinds.nested {
        if kinds.header_termination_1 {
            Some(kinds.payload_termination)
        } else {
            None
        }
    } else if kinds.header && !kinds.payload_termination && kinds.header_termination_2 {
        Some(true)
    } else if kinds.header && !kinds.payload_termination && !kinds.header_termination_1 {
        Some(false)
    } else {
        None
    }
}

pub(crate) proof fn lemma_sum_terminated_prefix(ies: Seq<IeReprWithTermination<'_>>, i: int)
    requires
        0 <= i <= ies.len(),
    ensures
        0 <= sum_terminated(ies.subrange(0, i)) <= sum_terminated(ies),
    decreases ies.len() - i,
{
    if i < ies.len() {
        lemma_sum_terminated_prefix(ies, i + 1);
        assert(ies.subrange(0, i + 1).drop_last() =~= ies.subrange(0, i));
        lemma_terminated_ie_length_positive(ies[i]);
        lemma_sum_terminated_nonnegative(ies.subrange(0, i));
    } else {
        assert(ies.subrange(0, i) =~= ies);
        lemma_sum_terminated_nonnegative(ies);
    }
}

pub(crate) proof fn lemma_sum_terminated_nonnegative(ies: Seq<IeReprWithTermination<'_>>)
    ensures
        sum_terminated(ies) >= 0,
    decreases ies.len(),
{
    if ies.len() > 0 {
        lemma_sum_terminated_nonnegative(ies.drop_last());
        lemma_terminated_ie_length_positive(ies.last());
    }
}

pub(crate) proof fn lemma_terminated_ie_length_positive(ie: IeReprWithTermination<'_>)
    ensures
        ie.ie_length() >= 2,
{
    if let IeReprWithTermination::NonTerminationIe(inner) = ie {
        lemma_ie_length_positive(inner);
    }
}

/// How one more IE changes which kinds of IEs are listed.
pub(crate) proof fn lemma_kinds_push(
    prefix: Seq<IeReprWithTermination<'_>>,
    next: Seq<IeReprWithTermination<'_>>,
)
    requires
        next.len() > 0,
        next.drop_last() == prefix,
    ensures
        kinds_of(next) == (IeKinds {
            header: kinds_of(prefix).header || next.last().is_header(),
            nested: kinds_of(prefix).nested || next.last().is_nested(),
            header_termination_1: kinds_of(prefix).header_termination_1 || next.last()
                is HeaderTerminationIe1,
            header_termination_2: kinds_of(prefix).header_termination_2 || next.last()
                is HeaderTerminationIe2,
            payload_termination: kinds_of(prefix).payload_termination || next.last()
                is PayloadTerminationIe,
        }),
{
    assert(forall|i: int| 0 <= i < prefix.len() ==> #[trigger] prefix[i] == next[i]);
    assert(forall|i: int| 0 <= i < prefix.len() ==> #[trigger] next[i] == prefix[i]);
    assert(next[next.len() - 1] == next.last());
    let k = kinds_of(prefix);
    if k.header {
        let i = choose|i: int| 0 <= i < prefix.len() && (#[trigger] prefix[i]).is_header();
        assert(next[i].is_header());
    }
    if k.nested {
        let i = choose|i: int| 0 <= i < prefix.len() && (#[trigger] prefix[i]).is_nested();
        assert(next[i].is_nested());
    }
    if k.header_termination_1 {
        let i = choose|i: int|
            0 <= i < prefix.len() && (#[trigger] prefix[i]) is HeaderTerminationIe1;
        assert(next[i] is HeaderTerminationIe1);
    }
    if k.header_termination_2 {
        let i = choose|i: int|
            0 <= i < prefix.len() && (#[trigger] prefix[i]) is HeaderTerminationIe2;
        assert(next[i] is HeaderTerminationIe2);
    }
    if k.payload_termination {
        let i = choose|i: int|
            0 <= i < prefix.len() && (#[trigger] prefix[i]) is PayloadTerminationIe;
        assert(next[i] is PayloadTerminationIe);
    }
}

impl IeReprList<'_, IeReprWithTermination<'_>> {
    /// The length of the IEs and whether a frame payload is expected behind
    /// them.
    ///
    /// # Errors
    ///
    /// Fails if the termination IEs do not match the other IEs.
    pub fn ies_length_and_payload_presence(&self) -> (r: Result<(u16, bool), Error>)
        requires
            self.ies().len() > 0,
            terminated_length(self.ies()) <= u16::MAX,
        ensures
            r is Ok <==> payload_expected(kinds_of(self.ies())) is Some,
            r matches Ok((length, payload)) ==> length == terminated_length(self.ies())
                && payload_expected(kinds_of(self.ies())) == Some(payload),
    {
        let ghost ies = self.ies();
        let mut len: u16 = 0;
        let mut header: bool = false;
        let mut nested: bool = false;
        let mut header_termination_1: bool = false;
        let mut header_termination_2: bool = false;
        let mut payload_termination: bool = false;
        let mut ie_idx: usize = 0;
        assert(ies.subrange(0, 0) =~= Seq::empty());
        while ie_idx < self.0.len()
            invariant
                ies == self.ies(),
                ie_idx <= ies.len(),
                len == sum_terminated(ies.subrange(0, ie_idx as int)),
                kinds_of(ies.subrange(0, ie_idx as int)) == (IeKinds {
                    header,
                    nested,
                    header_termination_1,
                    header_termination_2,
                    payload_termination,
                }),
                terminated_length(ies) <= u16::MAX,
            decreases ies.len() - ie_idx,
        {
            let ghost prefix = ies.subrange(0, ie_idx as int);
            let ghost next = ies.subrange(0, ie_idx + 1);
            proof {
                assert(next.drop_last() =~= prefix);
                assert(next.last() == ies[ie_idx as int]);
                lemma_sum_terminated_prefix(ies, ie_idx + 1);
                lemma_sum_terminated_prefix(ies, ie_idx as int);
                lemma_kinds_push(prefix, next);
            }
            match self.0[ie_idx] {
                IeReprWithTermination::NonTerminationIe(ie) => {
                    proof {
                        lemma_ie_length_positive(ie);
                    }
                    let (header_ie_len, nested_ie_len) = ie.length();
                    if header_ie_len > 0 {
                        header = true;
                        len = len + header_ie_len;
                    } else {
                        nested = true;
                        len = len + nested_ie_len;
                    }
                },
                IeReprWithTermination::HeaderTerminationIe1 => {
                    len = len + 2;
                    header_termination_1 = true;
                },
                IeReprWithTermination::HeaderTerminationIe2 => {
                    len = len + 2;
                    header_termination_2 = true;
                },
                IeReprWithTermination::PayloadTerminationIe => {
                    len = len + 2;
                    payload_termination = true;
                },
            }
            ie_idx = ie_idx + 1;
        }
        assert(ies.subrange(0, ie_idx as int) =~= ies);
        if nested {
            // The descriptor of the payload IE that holds the nested IEs.
            len = len + 2;
        }
        let has_frame_payload: bool = match (
            header,
            nested,
            header_termination_1 || header_termination_2,
            payload_termination,
        ) {
            (true, false, false, false) => false,
            (_, true, _, _) => {
                if !header_termination_1 {
                    return Err(Error);
                }
                payload_termination
            },
            (true, false, true, false) => {
                if !header_termination_2 {
                    return Err(Error);
                }
                true
            },
            _ => return Err(Error),
        };
        Ok((len, has_frame_payload))
    }
}

/// Structural representation of the IEs of a frame.
#[derive(Clone, Copy, Debug, PartialEq, Eq)]
pub enum IeListRepr<'ies> {
    Empty,
    WithTerminationIes(IeReprList<'ies, IeReprWithTermination<'ies>>),
    WithoutTerminationIes(IeReprList<'ies, IeRepr<'ies>>),
}

impl IeListRepr<'_> {
    /// Whether the length of the IEs can be told with 16 bits, and a list with
    /// termination IEs is not empty.
    pub open spec fn wf(&self, frame_payload: bool) -> bool {
        match self {
            IeListRepr::Empty => true,
            IeListRepr::WithTerminationIes(list) => list.ies().len() > 0 && terminated_length(
                list.ies(),
            ) <= u16::MAX,
            IeListRepr::WithoutTerminationIes(list) => list_length(list.ies(), frame_payload)
                <= u16::MAX,
        }
    }

    /// The length of the IEs of a frame with or without payload, if the IEs are
    /// consistent with that.
    pub open spec fn total_length(&self, frame_payload: bool) -> Option<int> {
        match self {
            IeListRepr::Empty => Some(0),
            IeListRepr::WithTerminationIes(list) => {
                if payload_expected(kinds_of(list.ies())) == Some(frame_payload) {
                    Some(terminated_length(list.ies()))
                } else {
                    None
                }
            },
            IeListRepr::WithoutTerminationIes(list) => Some(list_length(list.ies(), frame_payload)),
        }
    }

    /// Whether there are no IEs.
    pub fn is_empty(&self) -> (r: bool)
        ensures
            r <==> self is Empty,
    {
        matches!(self, IeListRepr::Empty)
    }

    /// The length of the IEs.
    ///
    /// # Errors
    ///
    /// Fails if the termination IEs do not match the other IEs or the presence
    /// of a frame payload.
    pub fn ies_length(&self, has_frame_payload: bool) -> (r: Result<u16, Error>)
        requires
            self.wf(has_frame_payload),
        ensures
            r is Ok <==> self.total_length(has_frame_payload) is Some,
            r matches Ok(length) ==> self.total_length(has_frame_payload) == Some(length as int),
    {
        match self {
            IeListRepr::Empty => Ok(0),
            IeListRepr::WithTerminationIes(ie_list) => {
                match ie_list.ies_length_and_payload_presence() {
                    Ok((ies_length, should_have_frame_payload)) => {
                        if has_frame_payload != should_have_frame_payload {
                            return Err(Error);
                        }
                        Ok(ies_length)
                    },
                    Err(_) => Err(Error),
                }
            },
            IeListRepr::WithoutTerminationIes(ie_list) => Ok(ie_list.ies_length(has_frame_payload)),
        }
    }

    /// The lengths of the IEs and of the frame payload, if their sum is known.
    pub open spec fn split(&self, ies_and_payload_length: int) -> Option<(int, int)> {
        match self {
            IeListRepr::Empty => Some((0, ies_and_payload_length)),
            IeListRepr::WithTerminationIes(list) => {
                let length = terminated_length(list.ies());
                let payload = ies_and_payload_length - length;
                if payload >= 0 && payload_expected(kinds_of(list.ies())) == Some(payload > 0) {
                    Some((length, payload))
                } else {
                    None
                }
            },
            IeListRepr::WithoutTerminationIes(_) => None,
        }
    }

    /// The lengths of the IEs and of the frame payload, given their sum.
    ///
    /// # Errors
    ///
    /// Fails if the termination IEs do not match the other IEs or the presence
    /// of a frame payload, if the IEs are longer than the sum, or if the list
    /// does not tell about termination IEs.
    pub fn try_ies_and_frame_payload_length(&self, mpdu_ies_and_payload_length: u16) -> (r: Result<
        (u16, u16),
        Error,
    >)
        requires
            self is WithTerminationIes ==> self.wf(false),
        ensures
            r is Ok <==> self.split(mpdu_ies_and_payload_length as int) is Some,
            r matches Ok((ies, payload)) ==> self.split(mpdu_ies_and_payload_length as int) == Some(
                (ies as int, payload as int),
            ),
    {
        match self {
            IeListRepr::Empty => Ok((0, mpdu_ies_and_payload_length)),
            IeListRepr::WithTerminationIes(ie_list) => {
                let (ies_length, has_frame_payload) =
                    match ie_list.ies_length_and_payload_presence() {
                    Ok(length_and_presence) => length_and_presence,
                    Err(_) => return Err(Error),
                };
                if ies_length > mpdu_ies_and_payload_length {
                    return Err(Error);
                }
                let frame_payload_len: u16 = mpdu_ies_and_payload_length - ies_length;
                if (frame_payload_len > 0) != has_frame_payload {
                    return Err(Error);
                }
                Ok((ies_length, frame_payload_len))
            },
            // A payload termination IE is optional, so the length of the frame
            // payload cannot be told.
            IeListRepr::WithoutTerminationIes(_) => Err(Error),
        }
    }
}

/// The termination IEs that have to be added to IEs of the given kinds.
pub open spec fn terminations<'ie>(header: bool, nested: bool, frame_payload: bool) -> Seq<
    IeReprWithTermination<'ie>,
> {
    if nested && frame_payload {
        seq![
            IeReprWithTermination::HeaderTerminationIe1,
            IeReprWithTermination::PayloadTerminationIe,
        ]
    } else if nested {
        seq![IeReprWithTermination::HeaderTerminationIe1]
    } else if header && frame_payload {
        seq![IeReprWithTermination::HeaderTerminationIe2]
    } else {
        Seq::empty()
    }
}

/// IEs together with the termination IEs that have to be added to them.
pub open spec fn with_terminations<'ie>(ies: Seq<IeRepr<'ie>>, frame_payload: bool) -> Seq<
    IeReprWithTermination<'ie>,
> {
    Seq::new(ies.len(), |i: int| IeReprWithTermination::NonTerminationIe(ies[i])) + terminations(
        has_header_ie(ies),
        has_nested_ie(ies),
        frame_payload,
    )
}

pub(crate) proof fn lemma_sum_terminated_wrapped(ies: Seq<IeRepr<'_>>)
    ensures
        sum_terminated(
            Seq::new(ies.len(), |i: int| IeReprWithTermination::NonTerminationIe(ies[i])),
        ) == sum_lengths(ies),
    decreases ies.len(),
{
    let wrapped = Seq::new(ies.len(), |i: int| IeReprWithTermination::NonTerminationIe(ies[i]));
    if ies.len() > 0 {
        let rest = ies.drop_last();
        lemma_sum_terminated_wrapped(rest);
        assert(wrapped.drop_last() =~= Seq::new(
            rest.len(),
            |i: int| IeReprWithTermination::NonTerminationIe(rest[i]),
        ));
    }
}

pub(crate) proof fn lemma_sum_terminated_concat(
    a: Seq<IeReprWithTermination<'_>>,
    b: Seq<IeReprWithTermination<'_>>,
)
    ensures
        sum_terminated(a + b) == sum_terminated(a) + sum_terminated(b),
    decreases b.len(),
{
    if b.len() == 0 {
        assert(a + b =~= a);
    } else {
        assert((a + b).drop_last() =~= a + b.drop_last());
        lemma_sum_terminated_concat(a, b.drop_last());
    }
}

/// The length of IEs to which termination IEs have to be added is the length of
/// the IEs with those termination IEs. The termination IEs tell whether a frame
/// payload follows.
pub proof fn lemma_terminations_round_trip(ies: Seq<IeRepr<'_>>, frame_payload: bool)
    requires
        ies.len() > 0,
    ensures
        terminated_length(with_terminations(ies, frame_payload)) == list_length(ies, frame_payload),
        payload_expected(kinds_of(with_terminations(ies, frame_payload))) == Some(frame_payload),
{
    let wrapped = Seq::new(ies.len(), |i: int| IeReprWithTermination::NonTerminationIe(ies[i]));
    let (h, n) = (has_header_ie(ies), has_nested_ie(ies));
    let extra = terminations(h, n, frame_payload);
    let all = with_terminations(ies, frame_payload);
    lemma_sum_terminated_wrapped(ies);
    lemma_sum_terminated_concat(wrapped, extra);
    reveal_with_fuel(sum_terminated, 3);
    assert(forall|i: int| 0 <= i < ies.len() ==> #[trigger] all[i] == wrapped[i]);
    assert(forall|i: int| 0 <= i < extra.len() ==> all[ies.len() + i] == #[trigger] extra[i]);
    assert(forall|i: int|
        ies.len() <= i < all.len() ==> #[trigger] all[i] == extra[i - ies.len()]);
    assert(ies[0].is_header() ==> h);
    assert(!ies[0].is_header() ==> n);
    let k = kinds_of(all);
    assert(k.header == h) by {
        if h {
            let i = choose|i: int| 0 <= i < ies.len() && (#[trigger] ies[i]).is_header();
            assert(all[i].is_header());
        }
        if k.header {
            let i = choose|i: int| 0 <= i < all.len() && (#[trigger] all[i]).is_header();
            assert(i < ies.len());
            assert(ies[i].is_header());
        }
    }
    assert(k.nested == n) by {
        if n {
            let i = choose|i: int| 0 <= i < ies.len() && !(#[trigger] ies[i]).is_header();
            assert(all[i].is_nested());
        }
        if k.nested {
            let i = choose|i: int| 0 <= i < all.len() && (#[trigger] all[i]).is_nested();
            assert(i < ies.len());
            assert(!ies[i].is_header());
        }
    }
    if n {
        assert(extra[0] is HeaderTerminationIe1);
        assert(all[ies.len() as int] is HeaderTerminationIe1);
        if frame_payload {
            assert(extra[1] is PayloadTerminationIe);
            assert(all[ies.len() as int + 1] is PayloadTerminationIe);
        }
    } else if h && frame_payload {
        assert(extra[0] is HeaderTerminationIe2);
        assert(all[ies.len() as int] is HeaderTerminationIe2);
    }
}

} // verus!
