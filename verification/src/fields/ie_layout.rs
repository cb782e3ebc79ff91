//! Initializing the information elements of an outgoing frame.

use vstd::prelude::*;

use crate::ies::descriptor::long_ie_word;
use crate::ies::header::header_ie_word;
use crate::ies::header_ie_id;
use crate::ies::nested::short_ie_word;
use crate::ies::nested_ie_id;
use crate::ies::payload_ie_id;
use crate::octets::{set_u16_le, u16_at};
use crate::repr::ies::{
    has_header_ie, has_nested_ie, kinds_of, lemma_has_push, lemma_kinds_push,
    lemma_sum_terminated_prefix, lemma_terminated_ie_length_positive, lemma_total_links_bounded,
    sum_terminated, terminated_length, total_links, IeRepr, IeReprWithTermination,
};

verus! {

/// The IEs of a list that are header IEs, or those that are nested IEs.
pub open spec fn select<'ie>(ies: Seq<IeRepr<'ie>>, header: bool) -> Seq<IeRepr<'ie>>
    decreases ies.len(),
{
    if ies.len() == 0 {
        Seq::empty()
    } else if ies.last().is_header() == header {
        select(ies.drop_last(), header).push(ies.last())
    } else {
        select(ies.drop_last(), header)
    }
}

/// IEs as members of a list with termination IEs.
pub open spec fn wrap<'ie>(ies: Seq<IeRepr<'ie>>) -> Seq<IeReprWithTermination<'ie>> {
    Seq::new(ies.len(), |i: int| IeReprWithTermination::NonTerminationIe(ies[i]))
}

/// The termination IE that follows the header IEs.
pub open spec fn header_termination<'ie>(header: bool, nested: bool, frame_payload: bool) -> Seq<
    IeReprWithTermination<'ie>,
> {
    if nested {
        seq![IeReprWithTermination::HeaderTerminationIe1]
    } else if header && frame_payload {
        seq![IeReprWithTermination::HeaderTerminationIe2]
    } else {
        Seq::empty()
    }
}

/// The termination IE that follows the payload IEs.
pub open spec fn payload_termination<'ie>(nested: bool, frame_payload: bool) -> Seq<
    IeReprWithTermination<'ie>,
> {
    if nested && frame_payload {
        seq![IeReprWithTermination::PayloadTerminationIe]
    } else {
        Seq::empty()
    }
}

/// The order in which IEs are transmitted: header IEs, header termination IE,
/// nested IEs, payload termination IE.
pub open spec fn transmission_order<'ie>(ies: Seq<IeRepr<'ie>>, frame_payload: bool) -> Seq<
    IeReprWithTermination<'ie>,
> {
    wrap(select(ies, true)) + header_termination(
        has_header_ie(ies),
        has_nested_ie(ies),
        frame_payload,
    ) + wrap(select(ies, false)) + payload_termination(has_nested_ie(ies), frame_payload)
}

/// IEs in the order in which they are transmitted, with the termination IEs that
/// have to be added.
pub fn ies_in_transmission_order<'ie>(ies: &[IeRepr<'ie>], has_frame_payload: bool) -> (r: Vec<
    IeReprWithTermination<'ie>,
>)
    ensures
        r@ == transmission_order(ies@, has_frame_payload),
{
    let mut list: Vec<IeReprWithTermination<'ie>> = Vec::new();
    let header: bool = push_selected(&mut list, ies, true);
    let mut nested: Vec<IeReprWithTermination<'ie>> = Vec::new();
    let has_nested: bool = push_selected(&mut nested, ies, false);
    assert(list@ =~= wrap(select(ies@, true)));
    if has_nested {
        list.push(IeReprWithTermination::HeaderTerminationIe1);
    } else if header && has_frame_payload {
        list.push(IeReprWithTermination::HeaderTerminationIe2);
    }
    list.append(&mut nested);
    if has_nested && has_frame_payload {
        list.push(IeReprWithTermination::PayloadTerminationIe);
    }
    assert(list@ =~= transmission_order(ies@, has_frame_payload));
    list
}

/// Appends the header IEs or the nested IEs of a list, and tells whether there
/// are any.
fn push_selected<'ie>(
    list: &mut Vec<IeReprWithTermination<'ie>>,
    ies: &[IeRepr<'ie>],
    header: bool,
) -> (r: bool)
    ensures
        final(list)@ == old(list)@ + wrap(select(ies@, header)),
        r <==> (if header {
            has_header_ie(ies@)
        } else {
            has_nested_ie(ies@)
        }),
{
    let mut any: bool = false;
    let mut i: usize = 0;
    assert(ies@.subrange(0, 0) =~= Seq::empty());
    assert(list@ =~= old(list)@ + wrap(select(ies@.subrange(0, 0), header)));
    while i < ies.len()
        invariant
            i <= ies@.len(),
            list@ == old(list)@ + wrap(select(ies@.subrange(0, i as int), header)),
            any <==> (if header {
                has_header_ie(ies@.subrange(0, i as int))
            } else {
                has_nested_ie(ies@.subrange(0, i as int))
            }),
        decreases ies@.len() - i,
    {
        let ghost prefix = ies@.subrange(0, i as int);
        let ghost next = ies@.subrange(0, i + 1);
        proof {
            assert(next.drop_last() =~= prefix);
            assert(next.last() == ies@[i as int]);
            lemma_has_push(prefix, next);
        }
        let is_header: bool = matches!(ies[i], IeRepr::TimeCorrectionHeaderIe);
        if is_header == header {
            list.push(IeReprWithTermination::NonTerminationIe(ies[i]));
            any = true;
        }
        assert(list@ =~= old(list)@ + wrap(select(next, header)));
        i = i + 1;
    }
    assert(ies@.subrange(0, i as int) =~= ies@);
    any
}

/// The descriptor of an IE.
pub open spec fn descriptor_of(ie: IeReprWithTermination<'_>) -> int {
    match ie {
        IeReprWithTermination::NonTerminationIe(inner) => {
            let length = inner.content_length();
            match inner {
                IeRepr::TimeCorrectionHeaderIe => header_ie_word(
                    0,
                    header_ie_id::TIME_CORRECTION as int,
                    length,
                ),
                IeRepr::ReducedChannelHoppingNestedIe => long_ie_word(
                    1,
                    nested_ie_id::CHANNEL_HOPPING as int,
                    length,
                ),
                IeRepr::FullChannelHoppingNestedIe(..) => long_ie_word(
                    1,
                    nested_ie_id::CHANNEL_HOPPING as int,
                    length,
                ),
                IeRepr::TschSynchronizationNestedIe => short_ie_word(
                    0,
                    nested_ie_id::TSCH_SYNC as int,
                    length,
                ),
                IeRepr::TschSlotframeAndLinkNestedIe(..) => short_ie_word(
                    0,
                    nested_ie_id::TSCH_SLOTFRAME_LINK as int,
                    length,
                ),
                IeRepr::ReducedTschTimeslotNestedIe => short_ie_word(
                    0,
                    nested_ie_id::TSCH_TIMESLOT as int,
                    length,
                ),
                IeRepr::FullTschTimeslotNestedIe => short_ie_word(
                    0,
                    nested_ie_id::TSCH_TIMESLOT as int,
                    length,
                ),
            }
        },
        IeReprWithTermination::HeaderTerminationIe1 => header_ie_word(
            0,
            header_ie_id::HT1 as int,
            0,
        ),
        IeReprWithTermination::HeaderTerminationIe2 => header_ie_word(
            0,
            header_ie_id::HT2 as int,
            0,
        ),
        IeReprWithTermination::PayloadTerminationIe => long_ie_word(
            1,
            payload_ie_id::TERMINATION as int,
            0,
        ),
    }
}

/// Whether the length of an IE can be told by its descriptor.
pub open spec fn encodable(ie: IeReprWithTermination<'_>) -> bool {
    match ie {
        IeReprWithTermination::NonTerminationIe(
            IeRepr::TschSlotframeAndLinkNestedIe(slotframes),
        ) => IeRepr::TschSlotframeAndLinkNestedIe(slotframes).content_length() <= 255,
        _ => true,
    }
}

/// The length of the nested IEs of a list.
pub open spec fn nested_length(ies: Seq<IeReprWithTermination<'_>>) -> int
    decreases ies.len(),
{
    if ies.len() == 0 {
        0
    } else {
        nested_length(ies.drop_last()) + (if ies.last().is_nested() {
            ies.last().ie_length()
        } else {
            0
        })
    }
}

/// Whether the lengths of all IEs of a list can be told by their descriptors.
pub open spec fn all_encodable(ies: Seq<IeReprWithTermination<'_>>) -> bool {
    &&& forall|i: int| 0 <= i < ies.len() ==> encodable(#[trigger] ies[i])
    &&& nested_length(ies) <= 2047
}

/// The offset of the descriptor of an IE within a list. The descriptor of the
/// payload IE that holds the nested IEs precedes the first nested IE.
pub open spec fn ie_offset(ies: Seq<IeReprWithTermination<'_>>, i: int) -> int {
    sum_terminated(ies.subrange(0, i)) + (if kinds_of(ies.subrange(0, i + 1)).nested {
        2int
    } else {
        0int
    })
}

/// The offset of the descriptor of the payload IE that holds the nested IEs.
pub open spec fn mlme_offset(ies: Seq<IeReprWithTermination<'_>>) -> int
    decreases ies.len(),
{
    if ies.len() == 0 {
        0
    } else if kinds_of(ies.drop_last()).nested {
        mlme_offset(ies.drop_last())
    } else {
        sum_terminated(ies.drop_last())
    }
}

/// The offset of a slotframe descriptor within the content of a TSCH slotframe
/// and link IE.
pub open spec fn slotframe_offset(slotframes: Seq<u8>, j: int) -> int {
    1 + 4 * j + 5 * total_links(slotframes.subrange(0, j))
}

/// Whether the fields that tell about the structure of an IE's content are
/// initialized: the number of channels, or the number of slotframes and the
/// number of links of each.
pub open spec fn content_structured(b: Seq<u8>, at: int, ie: IeReprWithTermination<'_>) -> bool {
    match ie {
        IeReprWithTermination::NonTerminationIe(
            IeRepr::FullChannelHoppingNestedIe(num_channels, _),
        ) => u16_at(b, at + 2) == num_channels,
        IeReprWithTermination::NonTerminationIe(
            IeRepr::TschSlotframeAndLinkNestedIe(slotframes),
        ) => {
            &&& b[at] == slotframes@.len()
            &&& forall|j: int|
                0 <= j < slotframes@.len() ==> b[at + #[trigger] slotframe_offset(slotframes@, j)
                    + 3] == slotframes@[j]
        },
        _ => true,
    }
}

/// Whether an octet of an IE's content tells about its structure.
pub open spec fn is_structural(ie: IeReprWithTermination<'_>, k: int) -> bool {
    match ie {
        IeReprWithTermination::NonTerminationIe(IeRepr::FullChannelHoppingNestedIe(..)) => k == 2
            || k == 3,
        IeReprWithTermination::NonTerminationIe(
            IeRepr::TschSlotframeAndLinkNestedIe(slotframes),
        ) => k == 0 || exists|j: int|
            0 <= j < slotframes@.len() && k == #[trigger] slotframe_offset(slotframes@, j) + 3,
        _ => false,
    }
}

/// Whether the octets of an IE's content that do not tell about its structure
/// are left alone.
pub open spec fn content_kept(
    a: Seq<u8>,
    b: Seq<u8>,
    at: int,
    ie: IeReprWithTermination<'_>,
) -> bool {
    forall|k: int|
        0 <= k < ie.ie_length() - 2 && !is_structural(ie, k) ==> #[trigger] b[at + k] == a[at + k]
}

/// Whether an IE is initialized at `at`.
pub open spec fn ie_initialized(
    a: Seq<u8>,
    b: Seq<u8>,
    at: int,
    ie: IeReprWithTermination<'_>,
) -> bool {
    &&& u16_at(b, at) == descriptor_of(ie)
    &&& content_structured(b, at + 2, ie)
    &&& content_kept(a, b, at + 2, ie)
}

/// Whether two buffers are the same outside of a range.
pub open spec fn same_outside(a: Seq<u8>, b: Seq<u8>, start: int, end: int) -> bool {
    &&& a.len() == b.len()
    &&& forall|k: int| 0 <= k < start || end <= k < a.len() ==> #[trigger] b[k] == a[k]
}

/// Whether a list of IEs has been initialized from `at` on.
pub open spec fn list_initialized(
    a: Seq<u8>,
    b: Seq<u8>,
    at: int,
    ies: Seq<IeReprWithTermination<'_>>,
) -> bool {
    &&& same_outside(a, b, at, at + terminated_length(ies))
    &&& forall|i: int|
        0 <= i < ies.len() ==> ie_initialized(a, b, at + #[trigger] ie_offset(ies, i), ies[i])
    &&& kinds_of(ies).nested ==> u16_at(b, at + mlme_offset(ies)) == long_ie_word(
        1,
        payload_ie_id::MLME as int,
        nested_length(ies),
    )
}

proof fn lemma_content_bounds(ie: IeRepr<'_>)
    requires
        encodable(IeReprWithTermination::NonTerminationIe(ie)),
    ensures
        0 < ie.content_length() <= 299,
{
    if let IeRepr::TschSlotframeAndLinkNestedIe(slotframes) = ie {
        lemma_total_links_bounded(slotframes@);
    }
}

proof fn lemma_slotframe_offset_bounds(slotframes: Seq<u8>, j: int)
    requires
        0 <= j < slotframes.len(),
    ensures
        1 <= slotframe_offset(slotframes, j),
        slotframe_offset(slotframes, j) + 4 + 5 * slotframes[j] == slotframe_offset(
            slotframes,
            j + 1,
        ),
        slotframe_offset(slotframes, j + 1) <= 1 + 4 * slotframes.len() + 5 * total_links(
            slotframes,
        ),
    decreases slotframes.len() - j,
{
    lemma_total_links_bounded(slotframes.subrange(0, j));
    assert(slotframes.subrange(0, j + 1).drop_last() =~= slotframes.subrange(0, j));
    if j + 1 < slotframes.len() {
        lemma_slotframe_offset_bounds(slotframes, j + 1);
    } else {
        assert(slotframes.subrange(0, j + 1) =~= slotframes);
    }
}

/// Initializes the fields of a TSCH slotframe and link IE that tell about its
/// structure.
fn init_slotframes(buf: &mut [u8], at: usize, slotframes: &[u8])
    requires
        at + 1 + 4 * slotframes@.len() + 5 * total_links(slotframes@) <= old(buf)@.len(),
        slotframes@.len() <= 255,
    ensures
        final(buf)@.len() == old(buf)@.len(),
        final(buf)@[at as int] == slotframes@.len(),
        forall|j: int|
            0 <= j < slotframes@.len() ==> final(buf)@[at + #[trigger] slotframe_offset(
                slotframes@,
                j,
            ) + 3] == slotframes@[j],
        forall|k: int|
            0 <= k < old(buf)@.len() && k != at && (forall|j: int|
                0 <= j < slotframes@.len() ==> k != at + #[trigger] slotframe_offset(slotframes@, j)
                    + 3) ==> #[trigger] final(buf)@[k] == old(buf)@[k],
{
    let ghost before = buf@;
    proof {
        lemma_total_links_bounded(slotframes@);
    }
    buf[at] = slotframes.len() as u8;
    let mut offset: usize = at + 1;
    let mut j: usize = 0;
    assert(slotframes@.subrange(0, 0) =~= Seq::empty());
    while j < slotframes.len()
        invariant
            j <= slotframes@.len(),
            slotframes@.len() <= 255,
            buf@.len() == before.len(),
            at + 1 + 4 * slotframes@.len() + 5 * total_links(slotframes@) <= before.len(),
            offset == at + slotframe_offset(slotframes@, j as int),
            buf@[at as int] == slotframes@.len(),
            forall|i: int|
                0 <= i < j ==> buf@[at + #[trigger] slotframe_offset(slotframes@, i) + 3]
                    == slotframes@[i] && 1 <= slotframe_offset(slotframes@, i) <= offset - at - 4,
            forall|k: int|
                0 <= k < before.len() && k != at && (forall|i: int|
                    0 <= i < slotframes@.len() ==> k != at + #[trigger] slotframe_offset(
                        slotframes@,
                        i,
                    ) + 3) ==> #[trigger] buf@[k] == before[k],
        decreases slotframes@.len() - j,
    {
        proof {
            lemma_slotframe_offset_bounds(slotframes@, j as int);
        }
        let links: u8 = slotframes[j];
        assert(buf.len() == buf@.len());
        let ghost earlier = buf@;
        buf[offset + 3] = links;
        assert(buf@ == earlier.update(offset + 3, links));
        offset = offset + 4 + 5 * (links as usize);
        j = j + 1;
    }
}

/// Initializes an IE: its descriptor and the fields that tell about the structure
/// of its content.
fn init_ie(buf: &mut [u8], at: usize, ie: &IeReprWithTermination<'_>) -> (r: usize)
    requires
        encodable(*ie),
        at + ie.ie_length() <= old(buf)@.len(),
    ensures
        r == at + ie.ie_length(),
        same_outside(old(buf)@, final(buf)@, at as int, at + ie.ie_length()),
        ie_initialized(old(buf)@, final(buf)@, at as int, *ie),
{
    let word: u16 = match ie {
        IeReprWithTermination::NonTerminationIe(inner) => {
            proof {
                lemma_content_bounds(*inner);
            }
            let (header_length, nested_length) = inner.length();
            let length: u16 = if header_length > 0 {
                header_length - 2
            } else {
                nested_length - 2
            };
            match inner {
                IeRepr::TimeCorrectionHeaderIe => length + 0x80 * (
                header_ie_id::TIME_CORRECTION as u16),
                IeRepr::ReducedChannelHoppingNestedIe => length + 0x800 * (
                nested_ie_id::CHANNEL_HOPPING as u16) + 0x8000,
                IeRepr::FullChannelHoppingNestedIe(..) => length + 0x800 * (
                nested_ie_id::CHANNEL_HOPPING as u16) + 0x8000,
                IeRepr::TschSynchronizationNestedIe => length + 0x100 * (
                nested_ie_id::TSCH_SYNC as u16),
                IeRepr::TschSlotframeAndLinkNestedIe(..) => length + 0x100 * (
                nested_ie_id::TSCH_SLOTFRAME_LINK as u16),
                IeRepr::ReducedTschTimeslotNestedIe => length + 0x100 * (
                nested_ie_id::TSCH_TIMESLOT as u16),
                IeRepr::FullTschTimeslotNestedIe => length + 0x100 * (
                nested_ie_id::TSCH_TIMESLOT as u16),
            }
        },
        IeReprWithTermination::HeaderTerminationIe1 => 0x80 * (header_ie_id::HT1 as u16),
        IeReprWithTermination::HeaderTerminationIe2 => 0x80 * (header_ie_id::HT2 as u16),
        IeReprWithTermination::PayloadTerminationIe => 0x800 * (payload_ie_id::TERMINATION as u16)
            + 0x8000,
    };
    assert(word == descriptor_of(*ie));
    assert(buf.len() == buf@.len());
    set_u16_le(buf, at, word);
    let ghost with_descriptor = buf@;
    match ie {
        IeReprWithTermination::NonTerminationIe(inner) => {
            let (header_length, nested_length) = inner.length();
            match inner {
                IeRepr::FullChannelHoppingNestedIe(num_channels, _) => {
                    set_u16_le(buf, at + 4, *num_channels as u16);
                },
                IeRepr::TschSlotframeAndLinkNestedIe(slotframes) => {
                    proof {
                        lemma_total_links_bounded(slotframes@);
                    }
                    init_slotframes(buf, at + 2, slotframes);
                    proof {
                        assert forall|k: int|
                            0 <= k < buf@.len() && (k < at + 2 || at + ie.ie_length()
                                <= k) implies #[trigger] buf@[k] == with_descriptor[k] by {
                            assert forall|j: int| 0 <= j < slotframes@.len() implies k != at + 2
                                + #[trigger] slotframe_offset(slotframes@, j) + 3 by {
                                lemma_slotframe_offset_bounds(slotframes@, j);
                            }
                        }
                    }
                },
                _ => {},
            }
            at + (header_length + nested_length) as usize
        },
        _ => at + 2,
    }
}

proof fn lemma_nested_length_prefix(ies: Seq<IeReprWithTermination<'_>>, i: int)
    requires
        0 <= i <= ies.len(),
    ensures
        0 <= nested_length(ies.subrange(0, i)) <= nested_length(ies),
    decreases ies.len() - i,
{
    if i < ies.len() {
        lemma_nested_length_prefix(ies, i + 1);
        assert(ies.subrange(0, i + 1).drop_last() =~= ies.subrange(0, i));
        lemma_terminated_ie_length_positive(ies[i]);
        lemma_nested_length_nonnegative(ies.subrange(0, i));
    } else {
        assert(ies.subrange(0, i) =~= ies);
        lemma_nested_length_nonnegative(ies);
    }
}

proof fn lemma_nested_length_nonnegative(ies: Seq<IeReprWithTermination<'_>>)
    ensures
        0 <= nested_length(ies) <= sum_terminated(ies),
    decreases ies.len(),
{
    if ies.len() > 0 {
        lemma_nested_length_nonnegative(ies.drop_last());
        lemma_terminated_ie_length_positive(ies.last());
    }
}

/// The length of the nested IEs of a list, if the lengths of all its IEs can be
/// told by their descriptors.
pub fn encodable_nested_length(ies: &[IeReprWithTermination<'_>]) -> (r: Option<u16>)
    requires
        terminated_length(ies@) <= u16::MAX,
    ensures
        r is Some <==> all_encodable(ies@),
        r matches Some(length) ==> length == nested_length(ies@),
{
    let mut length: u16 = 0;
    let mut i: usize = 0;
    assert(ies@.subrange(0, 0) =~= Seq::empty());
    while i < ies.len()
        invariant
            i <= ies@.len(),
            terminated_length(ies@) <= u16::MAX,
            length == nested_length(ies@.subrange(0, i as int)),
            forall|j: int| 0 <= j < i ==> encodable(#[trigger] ies@[j]),
        decreases ies@.len() - i,
    {
        proof {
            let next = ies@.subrange(0, i + 1);
            assert(next.drop_last() =~= ies@.subrange(0, i as int));
            lemma_nested_length_nonnegative(next);
            lemma_nested_length_prefix(ies@, i as int);
            lemma_sum_terminated_prefix(ies@, i as int);
            lemma_sum_terminated_prefix(ies@, i + 1);
            lemma_terminated_ie_length_positive(ies@[i as int]);
        }
        match &ies[i] {
            IeReprWithTermination::NonTerminationIe(ie) => {
                let (_, nested_ie_length) = ie.length();
                if let IeRepr::TschSlotframeAndLinkNestedIe(_) = ie {
                    if nested_ie_length > 2 + 255 {
                        assert(!encodable(ies@[i as int]));
                        return None;
                    }
                }
                length = length + nested_ie_length;
            },
            _ => {},
        }
        i = i + 1;
    }
    assert(ies@.subrange(0, i as int) =~= ies@);
    if length > 2047 {
        return None;
    }
    Some(length)
}

/// An IE stays initialized when octets behind it are changed.
proof fn lemma_initialized_kept(
    a: Seq<u8>,
    b: Seq<u8>,
    c: Seq<u8>,
    at: int,
    ie: IeReprWithTermination<'_>,
)
    requires
        ie_initialized(a, b, at, ie),
        0 <= at,
        at + ie.ie_length() <= b.len(),
        b.len() == c.len(),
        forall|k: int| 0 <= k < at + ie.ie_length() ==> #[trigger] c[k] == b[k],
    ensures
        ie_initialized(a, c, at, ie),
{
    lemma_terminated_ie_length_positive(ie);
    match ie {
        IeReprWithTermination::NonTerminationIe(
            IeRepr::TschSlotframeAndLinkNestedIe(slotframes),
        ) => {
            lemma_total_links_bounded(slotframes@);
            assert forall|j: int| 0 <= j < slotframes@.len() implies c[at + 2
                + #[trigger] slotframe_offset(slotframes@, j) + 3] == slotframes@[j] by {
                lemma_slotframe_offset_bounds(slotframes@, j);
            }
        },
        _ => {},
    }
}

/// Initializes a list of IEs: their descriptors, the descriptor of the payload IE
/// that holds the nested IEs, and the fields that tell about the structure of
/// the IEs' content. All other octets are left alone.
///
/// Returns `false` and changes nothing if the length of an IE cannot be told by
/// its descriptor.
pub fn init_ies(buf: &mut [u8], at: usize, ies: &[IeReprWithTermination<'_>]) -> (r: bool)
    requires
        at + terminated_length(ies@) <= old(buf)@.len(),
        terminated_length(ies@) <= u16::MAX,
    ensures
        r <==> all_encodable(ies@),
        r ==> list_initialized(old(buf)@, final(buf)@, at as int, ies@),
        !r ==> final(buf)@ == old(buf)@,
{
    let nested_total: u16 = match encodable_nested_length(ies) {
        Some(length) => length,
        None => return false,
    };
    let ghost before = buf@;
    let mlme_word: u16 = nested_total + 0x800 * (payload_ie_id::MLME as u16) + 0x8000;
    let mut mlme_done: bool = false;
    let mut pos: usize = at;
    let mut i: usize = 0;
    assert(ies@.subrange(0, 0) =~= Seq::empty());
    while i < ies.len()
        invariant
            i <= ies@.len(),
            all_encodable(ies@),
            at + terminated_length(ies@) <= before.len(),
            mlme_word == long_ie_word(1, payload_ie_id::MLME as int, nested_length(ies@)),
            mlme_done <==> kinds_of(ies@.subrange(0, i as int)).nested,
            pos == at + terminated_length(ies@.subrange(0, i as int)),
            same_outside(before, buf@, at as int, pos as int),
            forall|j: int|
                0 <= j < i ==> {
                    &&& ie_initialized(before, buf@, at + #[trigger] ie_offset(ies@, j), ies@[j])
                    &&& 0 <= ie_offset(ies@, j)
                    &&& at + ie_offset(ies@, j) + ies@[j].ie_length() <= pos
                },
            mlme_done ==> {
                let offset = mlme_offset(ies@.subrange(0, i as int));
                &&& u16_at(buf@, at + offset) == mlme_word
                &&& 0 <= offset
                &&& at + offset + 2 <= pos
            },
        decreases ies@.len() - i,
    {
        let ghost prefix = ies@.subrange(0, i as int);
        let ghost next = ies@.subrange(0, i + 1);
        proof {
            assert(next.drop_last() =~= prefix);
            assert(next.last() == ies@[i as int]);
            lemma_kinds_push(prefix, next);
            lemma_sum_terminated_prefix(ies@, i as int);
            lemma_sum_terminated_prefix(ies@, i + 1);
            lemma_kinds_prefix(ies@, i + 1);
            lemma_terminated_ie_length_positive(ies@[i as int]);
            assert(buf.len() == buf@.len());
        }
        let is_nested: bool = match &ies[i] {
            IeReprWithTermination::NonTerminationIe(ie) => !matches!(
                ie,
                IeRepr::TimeCorrectionHeaderIe
            ),
            _ => false,
        };
        let ghost earlier = buf@;
        let ghost earlier_pos = pos;
        if is_nested && !mlme_done {
            set_u16_le(buf, pos, mlme_word);
            pos = pos + 2;
            mlme_done = true;
        }
        let ghost middle = buf@;
        assert(same_outside(before, middle, at as int, pos as int));
        assert(forall|k: int| 0 <= k < earlier_pos ==> #[trigger] middle[k] == earlier[k]);
        assert(pos == at + ie_offset(ies@, i as int));
        pos = init_ie(buf, pos, &ies[i]);
        proof {
            assert(forall|k: int| 0 <= k < earlier_pos ==> #[trigger] buf@[k] == earlier[k]);
            assert forall|j: int| 0 <= j < i + 1 implies {
                &&& ie_initialized(before, buf@, at + #[trigger] ie_offset(ies@, j), ies@[j])
                &&& 0 <= ie_offset(ies@, j)
                &&& at + ie_offset(ies@, j) + ies@[j].ie_length() <= pos
            } by {
                if j < i {
                    lemma_initialized_kept(
                        before,
                        earlier,
                        buf@,
                        at + ie_offset(ies@, j),
                        ies@[j],
                    );
                } else {
                    lemma_content_from(middle, before, buf@, pos - ies@[j].ie_length(), ies@[j]);
                }
            }
        }
        i = i + 1;
    }
    assert(ies@.subrange(0, i as int) =~= ies@);
    true
}

/// An IE that is initialized over octets that are the same is initialized.
proof fn lemma_content_from(
    a: Seq<u8>,
    other: Seq<u8>,
    b: Seq<u8>,
    at: int,
    ie: IeReprWithTermination<'_>,
)
    requires
        ie_initialized(a, b, at, ie),
        0 <= at,
        at + ie.ie_length() <= b.len(),
        a.len() == b.len(),
        other.len() == b.len(),
        forall|k: int| at <= k < b.len() ==> #[trigger] a[k] == other[k],
    ensures
        ie_initialized(other, b, at, ie),
{
    assert forall|k: int| 0 <= k < ie.ie_length() - 2 && !is_structural(ie, k) implies #[trigger] b[
    at + 2 + k] == other[at + 2 + k] by {
        assert(a[at + 2 + k] == other[at + 2 + k]);
    }
}

/// What a prefix of a list has, the list has too.
proof fn lemma_kinds_prefix(ies: Seq<IeReprWithTermination<'_>>, i: int)
    requires
        0 <= i <= ies.len(),
    ensures
        kinds_of(ies.subrange(0, i)).nested ==> kinds_of(ies).nested,
{
    let prefix = ies.subrange(0, i);
    if kinds_of(prefix).nested {
        let j = choose|j: int| 0 <= j < prefix.len() && (#[trigger] prefix[j]).is_nested();
        assert(ies[j].is_nested());
    }
}

} // verus!
