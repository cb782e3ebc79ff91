//! What is found in the information elements of a frame is what they have been
//! initialized with.

use vstd::prelude::*;

use crate::fields::ie_layout::{
    all_encodable, descriptor_of, encodable, header_termination, ie_initialized, ie_offset,
    list_initialized, mlme_offset, nested_length, payload_termination, select, transmission_order,
    wrap,
};
use crate::fields::ie_scan::{ies_end, payload_ies_end};
use crate::ies::descriptor::{lemma_long_ie_word, long_ie_word};
use crate::ies::header::{
    header_ie_complete, header_ie_span, header_ie_with_id, header_ies_from, lemma_header_ie_word,
};
use crate::ies::header_ie_id;
use crate::ies::nested::{lemma_short_ie_word, nested_ie_complete, nested_ie_span, nested_ies_from};
use crate::ies::nested_ie_id;
use crate::ies::payload::{
    mlme_ie, payload_ie_complete, payload_ie_span, payload_ies_from, payload_ies_start,
};
use crate::ies::payload_ie_id;
use crate::ies::span::{lemma_scan_step, scan, IeSpan};
use crate::octets::u16_at;
use crate::repr::ies::{
    has_header_ie, has_nested_ie, kinds_of, lemma_has_push, lemma_ie_length_positive,
    lemma_sum_lengths_nonnegative, lemma_sum_lengths_prefix, lemma_sum_terminated_concat,
    lemma_sum_terminated_prefix, lemma_sum_terminated_wrapped, lemma_terminated_ie_length_positive,
    list_length, sum_lengths, sum_terminated, terminated_length, IeRepr, IeReprWithTermination,
};

verus! {

/// Selecting header IEs and nested IEs partitions a list.
proof fn lemma_select(ies: Seq<IeRepr<'_>>)
    ensures
        forall|i: int| 0 <= i < select(ies, true).len() ==> #[trigger] select(ies, true)[i]
            == IeRepr::TimeCorrectionHeaderIe,
        forall|i: int|
            0 <= i < select(ies, false).len() ==> !(#[trigger] select(ies, false)[i]).is_header(),
        select(ies, true).len() > 0 <==> has_header_ie(ies),
        select(ies, false).len() > 0 <==> has_nested_ie(ies),
        sum_lengths(select(ies, true)) + sum_lengths(select(ies, false)) == sum_lengths(ies),
        select(ies, true).len() + select(ies, false).len() == ies.len(),
    decreases ies.len(),
{
    if ies.len() > 0 {
        let rest = ies.drop_last();
        lemma_select(rest);
        lemma_has_push(rest, ies);
        let header = ies.last().is_header();
        let selected = select(ies, header);
        assert(selected.drop_last() =~= select(rest, header));
        assert(forall|i: int|
            0 <= i < selected.len() - 1 ==> #[trigger] selected[i] == select(rest, header)[i]);
    }
}

/// The sum of the lengths of header IEs.
proof fn lemma_header_sum(headers: Seq<IeRepr<'_>>)
    requires
        forall|i: int|
            0 <= i < headers.len() ==> #[trigger] headers[i] == IeRepr::TimeCorrectionHeaderIe,
    ensures
        sum_lengths(headers) == 4 * headers.len(),
    decreases headers.len(),
{
    if headers.len() > 0 {
        lemma_header_sum(headers.drop_last());
    }
}

/// The parts of a list in transmission order.
pub struct IeParts<'ie> {
    pub headers: Seq<IeRepr<'ie>>,
    pub nested: Seq<IeRepr<'ie>>,
    pub header_end: Seq<IeReprWithTermination<'ie>>,
    pub payload_end: Seq<IeReprWithTermination<'ie>>,
}

/// The parts of a list in transmission order.
pub open spec fn parts<'ie>(ies: Seq<IeRepr<'ie>>, frame_payload: bool) -> IeParts<'ie> {
    IeParts {
        headers: select(ies, true),
        nested: select(ies, false),
        header_end: header_termination(has_header_ie(ies), has_nested_ie(ies), frame_payload),
        payload_end: payload_termination(has_nested_ie(ies), frame_payload),
    }
}

/// The offset of the nested IEs within the IEs of a frame.
pub open spec fn nested_start(ies: Seq<IeRepr<'_>>) -> int {
    4 * select(ies, true).len() as int + 4
}

proof fn lemma_no_nested(list: Seq<IeReprWithTermination<'_>>)
    requires
        forall|i: int| 0 <= i < list.len() ==> !(#[trigger] list[i]).is_nested(),
    ensures
        !kinds_of(list).nested,
        nested_length(list) == 0,
    decreases list.len(),
{
    if list.len() > 0 {
        lemma_no_nested(list.drop_last());
    }
}

proof fn lemma_wrapped_sum(ies: Seq<IeRepr<'_>>)
    ensures
        sum_terminated(wrap(ies)) == sum_lengths(ies),
{
    lemma_sum_terminated_wrapped(ies);
    assert(wrap(ies) =~= Seq::new(
        ies.len(),
        |i: int| IeReprWithTermination::NonTerminationIe(ies[i]),
    ));
}

/// The offsets of the header IEs in transmission order.
proof fn lemma_header_offset(ies: Seq<IeRepr<'_>>, frame_payload: bool, i: int)
    requires
        0 <= i < select(ies, true).len(),
    ensures
        ({
            let list = transmission_order(ies, frame_payload);
            &&& i < list.len()
            &&& ie_offset(list, i) == 4 * i
            &&& list[i] == IeReprWithTermination::NonTerminationIe(IeRepr::TimeCorrectionHeaderIe)
        }),
{
    lemma_select(ies);
    let list = transmission_order(ies, frame_payload);
    let headers = select(ies, true);
    let before = headers.subrange(0, i);
    assert(list.subrange(0, i) =~= wrap(before));
    lemma_wrapped_sum(before);
    lemma_header_sum(before);
    assert forall|k: int| 0 <= k < i + 1 implies !(#[trigger] list.subrange(
        0,
        i + 1,
    )[k]).is_nested() by {
        assert(list.subrange(0, i + 1)[k] == wrap(headers)[k]);
    }
    lemma_no_nested(list.subrange(0, i + 1));
}

/// The offset of the termination IE behind the header IEs.
proof fn lemma_header_end_offset(ies: Seq<IeRepr<'_>>, frame_payload: bool)
    requires
        parts(ies, frame_payload).header_end.len() > 0,
    ensures
        ({
            let list = transmission_order(ies, frame_payload);
            let i = select(ies, true).len() as int;
            &&& i < list.len()
            &&& ie_offset(list, i) == 4 * i
            &&& list[i] == parts(ies, frame_payload).header_end[0]
        }),
{
    lemma_select(ies);
    let list = transmission_order(ies, frame_payload);
    let headers = select(ies, true);
    let i = headers.len() as int;
    assert(list.subrange(0, i) =~= wrap(headers));
    lemma_wrapped_sum(headers);
    lemma_header_sum(headers);
    assert forall|k: int| 0 <= k < i + 1 implies !(#[trigger] list.subrange(
        0,
        i + 1,
    )[k]).is_nested() by {
        if k < i {
            assert(list.subrange(0, i + 1)[k] == wrap(headers)[k]);
        }
    }
    lemma_no_nested(list.subrange(0, i + 1));
}

proof fn lemma_one_sum(list: Seq<IeReprWithTermination<'_>>)
    requires
        list.len() == 1,
        !(list[0] is NonTerminationIe),
    ensures
        sum_terminated(list) == 2,
{
    assert(list.drop_last() =~= Seq::empty());
    reveal_with_fuel(sum_terminated, 2);
}

/// The sum of the lengths of the IEs before a nested IE in transmission order,
/// or before the termination IE behind all nested IEs.
proof fn lemma_sum_before_nested(ies: Seq<IeRepr<'_>>, frame_payload: bool, j: int)
    requires
        0 <= j <= select(ies, false).len(),
        has_nested_ie(ies),
    ensures
        ({
            let list = transmission_order(ies, frame_payload);
            let i = select(ies, true).len() + 1 + j;
            &&& i <= list.len()
            &&& sum_terminated(list.subrange(0, i)) == 4 * select(ies, true).len() + 2
                + sum_lengths(select(ies, false).subrange(0, j))
        }),
{
    lemma_select(ies);
    let list = transmission_order(ies, frame_payload);
    let headers = wrap(select(ies, true));
    let end = parts(ies, frame_payload).header_end;
    let nested = select(ies, false).subrange(0, j);
    let i = headers.len() + 1 + j;
    assert(list.subrange(0, i) =~= headers + end + wrap(nested));
    lemma_sum_terminated_concat(headers + end, wrap(nested));
    lemma_sum_terminated_concat(headers, end);
    lemma_one_sum(end);
    lemma_wrapped_sum(select(ies, true));
    lemma_wrapped_sum(nested);
    lemma_header_sum(select(ies, true));
}

/// The offsets of the nested IEs in transmission order.
proof fn lemma_nested_offset(ies: Seq<IeRepr<'_>>, frame_payload: bool, j: int)
    requires
        0 <= j < select(ies, false).len(),
    ensures
        ({
            let list = transmission_order(ies, frame_payload);
            let i = select(ies, true).len() + 1 + j;
            &&& i < list.len()
            &&& ie_offset(list, i) == nested_start(ies) + sum_lengths(
                select(ies, false).subrange(0, j),
            )
            &&& list[i] == IeReprWithTermination::NonTerminationIe(select(ies, false)[j])
        }),
{
    lemma_select(ies);
    lemma_sum_before_nested(ies, frame_payload, j);
    lemma_sum_before_nested(ies, frame_payload, j + 1);
    let list = transmission_order(ies, frame_payload);
    let i = select(ies, true).len() + 1 + j;
    assert(list[i] == IeReprWithTermination::NonTerminationIe(select(ies, false)[j]));
    assert(list.subrange(0, i + 1)[i].is_nested());
}

/// The offset of the termination IE behind the nested IEs.
proof fn lemma_payload_end_offset(ies: Seq<IeRepr<'_>>)
    requires
        has_nested_ie(ies),
    ensures
        ({
            let list = transmission_order(ies, true);
            let i = ies.len() as int + 1;
            &&& i < list.len()
            &&& ie_offset(list, i) == nested_start(ies) + sum_lengths(select(ies, false))
            &&& list[i] is PayloadTerminationIe
        }),
{
    lemma_select(ies);
    let nested = select(ies, false);
    lemma_sum_before_nested(ies, true, nested.len() as int);
    assert(nested.subrange(0, nested.len() as int) =~= nested);
    let list = transmission_order(ies, true);
    let i = ies.len() as int + 1;
    let k = select(ies, true).len() as int + 1;
    assert(list[k] == IeReprWithTermination::NonTerminationIe(nested[0]));
    assert(list.subrange(0, i + 1)[k].is_nested());
}

/// The offset of the descriptor of the payload IE that holds the nested IEs, and
/// the length of that IE.
proof fn lemma_mlme(ies: Seq<IeRepr<'_>>, frame_payload: bool)
    requires
        has_nested_ie(ies),
    ensures
        ({
            let list = transmission_order(ies, frame_payload);
            &&& kinds_of(list).nested
            &&& mlme_offset(list) == nested_start(ies) - 2
            &&& nested_length(list) == sum_lengths(select(ies, false))
        }),
{
    lemma_select(ies);
    let list = transmission_order(ies, frame_payload);
    let nested = select(ies, false);
    let first = select(ies, true).len() as int + 1;
    assert(list[first] == IeReprWithTermination::NonTerminationIe(nested[0]));
    assert(list[first].is_nested());
    lemma_sum_before_nested(ies, frame_payload, 0);
    assert(nested.subrange(0, 0) =~= Seq::empty());
    let front = list.subrange(0, first);
    assert forall|k: int| 0 <= k < front.len() implies !(#[trigger] front[k]).is_nested() by {
        if k < first - 1 {
            assert(front[k] == wrap(select(ies, true))[k]);
        }
    }
    lemma_no_nested(front);
    lemma_mlme_offset_from(list, first, list.len() as int);
    assert(list.subrange(0, list.len() as int) =~= list);
    let m = first + nested.len();
    lemma_nested_length_front(list, first, nested.len() as int, nested);
    if m < list.len() {
        assert(m + 1 == list.len());
        assert(list.drop_last() =~= list.subrange(0, m));
        assert(list.last() is PayloadTerminationIe);
    } else {
        assert(list.subrange(0, m) =~= list);
    }
    assert(nested.subrange(0, nested.len() as int) =~= nested);
}

proof fn lemma_mlme_offset_from(list: Seq<IeReprWithTermination<'_>>, first: int, end: int)
    requires
        0 <= first < end <= list.len(),
        list[first].is_nested(),
        !kinds_of(list.subrange(0, first)).nested,
    ensures
        mlme_offset(list.subrange(0, end)) == sum_terminated(list.subrange(0, first)),
    decreases end,
{
    assert(list.subrange(0, end).drop_last() =~= list.subrange(0, end - 1));
    if end > first + 1 {
        lemma_mlme_offset_from(list, first, end - 1);
        assert(list.subrange(0, end - 1)[first].is_nested());
    }
}

proof fn lemma_nested_length_front(
    list: Seq<IeReprWithTermination<'_>>,
    first: int,
    count: int,
    nested: Seq<IeRepr<'_>>,
)
    requires
        0 <= first,
        0 <= count <= nested.len(),
        first + nested.len() <= list.len(),
        nested_length(list.subrange(0, first)) == 0,
        forall|k: int|
            0 <= k < nested.len() ==> list[first + k] == IeReprWithTermination::NonTerminationIe(
                #[trigger] nested[k],
            ) && !nested[k].is_header(),
    ensures
        nested_length(list.subrange(0, first + count)) == sum_lengths(nested.subrange(0, count)),
    decreases count,
{
    if count > 0 {
        lemma_nested_length_front(list, first, count - 1, nested);
        assert(list.subrange(0, first + count).drop_last() =~= list.subrange(0, first + count - 1));
        assert(nested.subrange(0, count).drop_last() =~= nested.subrange(0, count - 1));
        assert(list[first + (count - 1)] == IeReprWithTermination::NonTerminationIe(
            nested[count - 1],
        ));
    } else {
        assert(nested.subrange(0, 0) =~= Seq::empty());
    }
}

/// A list in transmission order, with the termination IEs that have to be added,
/// has the length that was announced for it.
pub proof fn lemma_transmission_order_length(ies: Seq<IeRepr<'_>>, frame_payload: bool)
    ensures
        terminated_length(transmission_order(ies, frame_payload)) == list_length(
            ies,
            frame_payload,
        ),
{
    lemma_select(ies);
    let list = transmission_order(ies, frame_payload);
    let p = parts(ies, frame_payload);
    let headers = wrap(p.headers);
    let nested = wrap(p.nested);
    lemma_sum_terminated_concat(headers + p.header_end + nested, p.payload_end);
    lemma_sum_terminated_concat(headers + p.header_end, nested);
    lemma_sum_terminated_concat(headers, p.header_end);
    lemma_wrapped_sum(p.headers);
    lemma_wrapped_sum(p.nested);
    if p.header_end.len() > 0 {
        lemma_one_sum(p.header_end);
    }
    if p.payload_end.len() > 0 {
        lemma_one_sum(p.payload_end);
    }
    if has_nested_ie(ies) {
        lemma_mlme(ies, frame_payload);
    } else {
        assert forall|k: int| 0 <= k < list.len() implies !(#[trigger] list[k]).is_nested() by {
            if k < headers.len() {
                assert(list[k] == headers[k]);
            }
        }
        lemma_no_nested(list);
    }
}

/// Whether the descriptors of the listed IEs are held by `area`.
spec fn described(area: Seq<u8>, list: Seq<IeReprWithTermination<'_>>) -> bool {
    &&& terminated_length(list) <= area.len()
    &&& all_encodable(list)
    &&& forall|i: int|
        0 <= i < list.len() ==> u16_at(area, #[trigger] ie_offset(list, i)) == descriptor_of(
            list[i],
        )
    &&& kinds_of(list).nested ==> u16_at(area, mlme_offset(list)) == long_ie_word(
        1,
        payload_ie_id::MLME as int,
        nested_length(list),
    )
}

/// Every IE of a list lies within the length of the list.
proof fn lemma_offset_within(list: Seq<IeReprWithTermination<'_>>, i: int)
    requires
        0 <= i < list.len(),
    ensures
        0 <= ie_offset(list, i),
        ie_offset(list, i) + list[i].ie_length() <= terminated_length(list),
{
    let next = list.subrange(0, i + 1);
    assert(next.drop_last() =~= list.subrange(0, i));
    lemma_sum_terminated_prefix(list, i);
    lemma_sum_terminated_prefix(list, i + 1);
    if kinds_of(next).nested {
        let j = choose|j: int| 0 <= j < next.len() && (#[trigger] next[j]).is_nested();
        assert(list[j].is_nested());
    }
}

proof fn lemma_described(
    a: Seq<u8>,
    b: Seq<u8>,
    at: int,
    end: int,
    ies: Seq<IeRepr<'_>>,
    frame_payload: bool,
)
    requires
        ({
            let list = transmission_order(ies, frame_payload);
            &&& all_encodable(list)
            &&& list_initialized(a, b, at, list)
            &&& 0 <= at
            &&& at + terminated_length(list) <= end <= b.len()
        }),
    ensures
        described(b.subrange(at, end), transmission_order(ies, frame_payload)),
{
    let list = transmission_order(ies, frame_payload);
    let area = b.subrange(at, end);
    assert forall|i: int| 0 <= i < list.len() implies u16_at(area, #[trigger] ie_offset(list, i))
        == descriptor_of(list[i]) by {
        lemma_offset_within(list, i);
        lemma_terminated_ie_length_positive(list[i]);
        assert(ie_initialized(a, b, at + ie_offset(list, i), list[i]));
    }
    if kinds_of(list).nested {
        if !has_nested_ie(ies) {
            lemma_no_nested_listed(ies, frame_payload);
        }
        lemma_mlme(ies, frame_payload);
        lemma_select(ies);
        lemma_nested_offset(ies, frame_payload, 0);
        assert(select(ies, false).subrange(0, 0) =~= Seq::empty());
        lemma_offset_within(list, select(ies, true).len() as int + 1);
        lemma_terminated_ie_length_positive(list[select(ies, true).len() as int + 1]);
    }
}

proof fn lemma_no_nested_listed(ies: Seq<IeRepr<'_>>, frame_payload: bool)
    requires
        !has_nested_ie(ies),
    ensures
        !kinds_of(transmission_order(ies, frame_payload)).nested,
{
    lemma_select(ies);
    let list = transmission_order(ies, frame_payload);
    let headers = wrap(select(ies, true));
    assert forall|k: int| 0 <= k < list.len() implies !(#[trigger] list[k]).is_nested() by {
        if k < headers.len() {
            assert(list[k] == headers[k]);
        }
    }
    lemma_no_nested(list);
}

/// The header IE at an offset is found with its length.
proof fn lemma_header_found(area: Seq<u8>, ies: Seq<IeRepr<'_>>, frame_payload: bool, i: int)
    requires
        described(area, transmission_order(ies, frame_payload)),
        0 <= i < select(ies, true).len(),
    ensures
        header_ie_complete(area, 4 * i),
        header_ie_span(area, 4 * i) == (IeSpan {
            id: header_ie_id::TIME_CORRECTION as int,
            start: 4 * i + 2,
            end: 4 * (i + 1),
        }),
{
    let list = transmission_order(ies, frame_payload);
    lemma_header_offset(ies, frame_payload, i);
    lemma_offset_within(list, i);
    lemma_header_ie_word(0, header_ie_id::TIME_CORRECTION as int, 2, 0);
}

/// A scan for something else passes over header IEs.
proof fn lemma_headers_passed(
    area: Seq<u8>,
    ies: Seq<IeRepr<'_>>,
    frame_payload: bool,
    i: int,
    want: int,
    stop: Set<int>,
)
    requires
        described(area, transmission_order(ies, frame_payload)),
        0 <= i <= select(ies, true).len(),
        want != header_ie_id::TIME_CORRECTION,
        !stop.contains(header_ie_id::TIME_CORRECTION as int),
    ensures
        ies_end(area, 0) == ies_end(area, 4 * i),
        scan(header_ies_from(area, 0), want, stop) == scan(
            header_ies_from(area, 4 * i),
            want,
            stop,
        ),
    decreases i,
{
    if i > 0 {
        lemma_headers_passed(area, ies, frame_payload, i - 1, want, stop);
        lemma_header_found(area, ies, frame_payload, i - 1);
        let at = 4 * (i - 1);
        lemma_scan_step(header_ie_span(area, at), header_ies_from(area, 4 * i), want, stop);
    }
}

/// The termination IE behind the header IEs is found.
proof fn lemma_header_end_found(area: Seq<u8>, ies: Seq<IeRepr<'_>>, frame_payload: bool)
    requires
        described(area, transmission_order(ies, frame_payload)),
        parts(ies, frame_payload).header_end.len() > 0,
    ensures
        ({
            let at = 4 * select(ies, true).len() as int;
            &&& header_ie_complete(area, at)
            &&& header_ie_span(area, at) == (IeSpan {
                id: if has_nested_ie(ies) {
                    header_ie_id::HT1 as int
                } else {
                    header_ie_id::HT2 as int
                },
                start: at + 2,
                end: at + 2,
            })
        }),
{
    lemma_header_end_offset(ies, frame_payload);
    let list = transmission_order(ies, frame_payload);
    let i = select(ies, true).len() as int;
    lemma_offset_within(list, i);
    lemma_header_ie_word(0, header_ie_id::HT1 as int, 0, 0);
    lemma_header_ie_word(0, header_ie_id::HT2 as int, 0, 0);
}

/// The payload IE that holds the nested IEs is found with its length.
proof fn lemma_mlme_found(area: Seq<u8>, ies: Seq<IeRepr<'_>>, frame_payload: bool)
    requires
        described(area, transmission_order(ies, frame_payload)),
        has_nested_ie(ies),
    ensures
        ({
            let at = nested_start(ies) - 2;
            &&& payload_ie_complete(area, at)
            &&& payload_ie_span(area, at) == (IeSpan {
                id: payload_ie_id::MLME as int,
                start: nested_start(ies),
                end: nested_start(ies) + sum_lengths(select(ies, false)),
            })
        }),
{
    lemma_mlme(ies, frame_payload);
    lemma_select(ies);
    lemma_transmission_order_length(ies, frame_payload);
    lemma_header_sum(select(ies, true));
    let length = sum_lengths(select(ies, false));
    lemma_sum_lengths_nonnegative(select(ies, false));
    lemma_long_ie_word(1, payload_ie_id::MLME as int, length, 0);
}

/// The termination IE behind the nested IEs is found.
proof fn lemma_payload_end_found(area: Seq<u8>, ies: Seq<IeRepr<'_>>)
    requires
        described(area, transmission_order(ies, true)),
        has_nested_ie(ies),
    ensures
        ({
            let at = nested_start(ies) + sum_lengths(select(ies, false));
            &&& payload_ie_complete(area, at)
            &&& payload_ie_span(area, at) == (IeSpan {
                id: payload_ie_id::TERMINATION as int,
                start: at + 2,
                end: at + 2,
            })
        }),
{
    lemma_payload_end_offset(ies);
    let list = transmission_order(ies, true);
    lemma_offset_within(list, ies.len() as int + 1);
    lemma_long_ie_word(1, payload_ie_id::TERMINATION as int, 0, 0);
}

/// The end of the IEs of a frame is found where they were announced to end,
/// whatever the content of the IEs and the frame payload behind them.
pub proof fn lemma_ies_end_found(
    a: Seq<u8>,
    b: Seq<u8>,
    at: int,
    end: int,
    ies: Seq<IeRepr<'_>>,
    frame_payload: bool,
)
    requires
        ies.len() > 0,
        0 <= at <= end <= b.len(),
        all_encodable(transmission_order(ies, frame_payload)),
        list_initialized(a, b, at, transmission_order(ies, frame_payload)),
        frame_payload ==> at + list_length(ies, frame_payload) <= end,
        !frame_payload ==> at + list_length(ies, frame_payload) == end,
    ensures
        ies_end(b.subrange(at, end), 0) == Some(list_length(ies, frame_payload)),
{
    let area = b.subrange(at, end);
    lemma_select(ies);
    lemma_transmission_order_length(ies, frame_payload);
    lemma_described(a, b, at, end, ies, frame_payload);
    let headers = select(ies, true);
    lemma_header_sum(headers);
    lemma_headers_passed(area, ies, frame_payload, headers.len() as int, 0, Set::empty());
    if parts(ies, frame_payload).header_end.len() > 0 {
        lemma_header_end_found(area, ies, frame_payload);
    }
    if has_nested_ie(ies) {
        lemma_mlme_found(area, ies, frame_payload);
        lemma_sum_lengths_nonnegative(select(ies, false));
        let nested_end = nested_start(ies) + sum_lengths(select(ies, false));
        assert(ies_end(area, 0) == payload_ies_end(area, nested_start(ies) - 2));
        assert(ies_end(area, 0) == payload_ies_end(area, nested_end));
        if frame_payload {
            lemma_payload_end_found(area, ies);
        }
    }
}

/// A time correction IE is found in the IEs of a frame exactly if one has been
/// listed.
pub proof fn lemma_time_correction_found(
    a: Seq<u8>,
    b: Seq<u8>,
    at: int,
    end: int,
    ies: Seq<IeRepr<'_>>,
    frame_payload: bool,
)
    requires
        ies.len() > 0,
        0 <= at <= end <= b.len(),
        all_encodable(transmission_order(ies, frame_payload)),
        list_initialized(a, b, at, transmission_order(ies, frame_payload)),
        frame_payload ==> at + list_length(ies, frame_payload) <= end,
        !frame_payload ==> at + list_length(ies, frame_payload) == end,
    ensures
        header_ie_with_id(b.subrange(at, end), header_ie_id::TIME_CORRECTION as int) == (
        if has_header_ie(ies) {
            Some(IeSpan { id: header_ie_id::TIME_CORRECTION as int, start: 2int, end: 4int })
        } else {
            None
        }),
{
    let area = b.subrange(at, end);
    lemma_select(ies);
    lemma_transmission_order_length(ies, frame_payload);
    lemma_described(a, b, at, end, ies, frame_payload);
    let want = header_ie_id::TIME_CORRECTION as int;
    let stop = header_ie_id::termination_ids();
    if has_header_ie(ies) {
        lemma_header_found(area, ies, frame_payload, 0);
        lemma_scan_step(header_ie_span(area, 0), header_ies_from(area, 4), want, stop);
    } else {
        lemma_header_end_found(area, ies, frame_payload);
        lemma_scan_step(header_ie_span(area, 0), header_ies_from(area, 2), want, stop);
    }
}

/// The payload IE that holds the nested IEs is found exactly if nested IEs have
/// been listed.
pub proof fn lemma_nested_ies_located(
    a: Seq<u8>,
    b: Seq<u8>,
    at: int,
    end: int,
    ies: Seq<IeRepr<'_>>,
    frame_payload: bool,
)
    requires
        ies.len() > 0,
        0 <= at <= end <= b.len(),
        all_encodable(transmission_order(ies, frame_payload)),
        list_initialized(a, b, at, transmission_order(ies, frame_payload)),
        frame_payload ==> at + list_length(ies, frame_payload) <= end,
        !frame_payload ==> at + list_length(ies, frame_payload) == end,
    ensures
        mlme_ie(b.subrange(at, end)) == (if has_nested_ie(ies) {
            Some(
                IeSpan {
                    id: payload_ie_id::MLME as int,
                    start: nested_start(ies),
                    end: nested_start(ies) + sum_lengths(select(ies, false)),
                },
            )
        } else {
            None
        }),
{
    let area = b.subrange(at, end);
    lemma_select(ies);
    lemma_transmission_order_length(ies, frame_payload);
    lemma_described(a, b, at, end, ies, frame_payload);
    let headers = select(ies, true);
    lemma_header_sum(headers);
    let want = header_ie_id::HT1 as int;
    let stop = set![header_ie_id::HT2 as int];
    lemma_headers_passed(area, ies, frame_payload, headers.len() as int, want, stop);
    let behind = 4 * headers.len() as int;
    if parts(ies, frame_payload).header_end.len() > 0 {
        lemma_header_end_found(area, ies, frame_payload);
        lemma_scan_step(
            header_ie_span(area, behind),
            header_ies_from(area, behind + 2),
            want,
            stop,
        );
    } else {
        assert(header_ies_from(area, behind).len() == 0);
    }
    if has_nested_ie(ies) {
        assert(payload_ies_start(area) == Some(behind + 2));
        lemma_mlme_found(area, ies, frame_payload);
        let span = payload_ie_span(area, behind + 2);
        lemma_scan_step(
            span,
            payload_ies_from(area, span.end),
            payload_ie_id::MLME as int,
            set![payload_ie_id::TERMINATION as int],
        );
    }
}

/// What identifies a nested IE: whether its descriptor has the long format, and
/// its sub-ID.
pub open spec fn nested_id(ie: IeRepr<'_>) -> (bool, int) {
    match ie {
        IeRepr::ReducedChannelHoppingNestedIe => (true, nested_ie_id::CHANNEL_HOPPING as int),
        IeRepr::FullChannelHoppingNestedIe(..) => (true, nested_ie_id::CHANNEL_HOPPING as int),
        IeRepr::TschSynchronizationNestedIe => (false, nested_ie_id::TSCH_SYNC as int),
        IeRepr::TschSlotframeAndLinkNestedIe(..) => (
            false,
            nested_ie_id::TSCH_SLOTFRAME_LINK as int,
        ),
        _ => (false, nested_ie_id::TSCH_TIMESLOT as int),
    }
}

/// Where the nested IEs from the one at `j` on lie, if all of them start at
/// `start`.
pub open spec fn nested_spans(nested: Seq<IeRepr<'_>>, start: int, j: int) -> Seq<
    IeSpan<(bool, int)>,
> {
    Seq::new(
        (nested.len() - j) as nat,
        |k: int|
            {
                let content = start + sum_lengths(nested.subrange(0, j + k)) + 2;
                IeSpan {
                    id: nested_id(nested[j + k]),
                    start: content,
                    end: content + nested[j + k].content_length(),
                }
            },
    )
}

proof fn lemma_nested_found(area: Seq<u8>, ies: Seq<IeRepr<'_>>, frame_payload: bool, j: int)
    requires
        described(area, transmission_order(ies, frame_payload)),
        has_nested_ie(ies),
        0 <= j <= select(ies, false).len(),
    ensures
        ({
            let nested = select(ies, false);
            let start = nested_start(ies);
            nested_ies_from(
                area,
                start + sum_lengths(nested.subrange(0, j)),
                start + sum_lengths(nested),
            ) == nested_spans(nested, start, j)
        }),
    decreases select(ies, false).len() - j,
{
    lemma_select(ies);
    let nested = select(ies, false);
    let start = nested_start(ies);
    let end = start + sum_lengths(nested);
    let at = start + sum_lengths(nested.subrange(0, j));
    if j == nested.len() {
        assert(nested.subrange(0, j) =~= nested);
        assert(nested_ies_from(area, at, end) =~= nested_spans(nested, start, j));
    } else {
        lemma_nested_found(area, ies, frame_payload, j + 1);
        let list = transmission_order(ies, frame_payload);
        lemma_nested_offset(ies, frame_payload, j);
        let i = select(ies, true).len() + 1 + j;
        lemma_offset_within(list, i);
        lemma_mlme_found(area, ies, frame_payload);
        lemma_sum_lengths_prefix(nested, j);
        lemma_sum_lengths_prefix(nested, j + 1);
        assert(nested.subrange(0, j + 1).drop_last() =~= nested.subrange(0, j));
        assert(encodable(list[i]));
        let ie = nested[j];
        let length = ie.content_length();
        lemma_ie_length_positive(ie);
        let (is_long, id) = nested_id(ie);
        if is_long {
            lemma_long_ie_word(1, id, length, 0);
        } else {
            lemma_short_ie_word(0, id, length, 0);
        }
        assert(nested_ie_complete(area, at, end));
        assert(nested_ie_span(area, at) == nested_spans(nested, start, j)[0]);
        assert(nested_ies_from(area, at, end) =~= nested_spans(nested, start, j));
    }
}

/// The nested IEs that are found in the IEs of a frame are those that have been
/// listed, in the same order.
pub proof fn lemma_nested_ies_found(
    a: Seq<u8>,
    b: Seq<u8>,
    at: int,
    end: int,
    ies: Seq<IeRepr<'_>>,
    frame_payload: bool,
)
    requires
        has_nested_ie(ies),
        0 <= at <= end <= b.len(),
        all_encodable(transmission_order(ies, frame_payload)),
        list_initialized(a, b, at, transmission_order(ies, frame_payload)),
        frame_payload ==> at + list_length(ies, frame_payload) <= end,
        !frame_payload ==> at + list_length(ies, frame_payload) == end,
    ensures
        ({
            let area = b.subrange(at, end);
            &&& mlme_ie(area) matches Some(mlme)
            &&& nested_ies_from(area, mlme.start, mlme.end) == nested_spans(
                select(ies, false),
                nested_start(ies),
                0,
            )
        }),
{
    lemma_nested_ies_located(a, b, at, end, ies, frame_payload);
    lemma_transmission_order_length(ies, frame_payload);
    lemma_described(a, b, at, end, ies, frame_payload);
    lemma_nested_found(b.subrange(at, end), ies, frame_payload, 0);
    assert(select(ies, false).subrange(0, 0) =~= Seq::empty());
}

} // verus!
