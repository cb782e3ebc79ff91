//! What building an MPDU is for.
//!
//! The laws speak of calls: each relates the arguments and the results of one or
//! more functions.

use vstd::prelude::*;

use crate::fields::ie_layout::{
    encodable_nested_length, ie_offset, ies_in_transmission_order, init_ies, nested_length, select,
    slotframe_offset, wrap,
};
use crate::fields::mpdu::MpduParser;
use crate::fields::mpdu_writer::{lemma_ordered_ies_length, with_control_of};
use crate::frame::addressing::AddressingMode;
use crate::frame::addressing_repr::AddressingRepr;
use crate::frame::driver_config::{config_valid, DriverConfig};
use crate::frame::frame_control::{FrameType, FrameVersion};
use crate::ies::ie_laws::{lemma_word_fields, payload_id_at, payload_length_at};
use crate::ies::span::lemma_splice_keeps;
use crate::mpdu::ack::{
    enh_ack_frame, enh_ack_frame_repr, enh_ack_octets, imm_ack_frame, imm_ack_frame_repr, with_nack,
    with_time_sync,
};
use crate::mpdu::beacon::{
    beacon_buffer_size, beacon_frame, beacon_frame_repr, beacon_frame_repr_with_ies,
};
use crate::mpdu::frame::MpduFrame;
use crate::octets::{splice, u16_at, OctetsMut};
use crate::repr::ies::{
    has_header_ie, has_nested_ie, kinds_of, lemma_kinds_push, sum_terminated, IeListRepr, IeRepr,
    IeReprList, IeReprWithTermination,
};
use crate::repr::mpdu::{MpduRepr, SeqNrRepr};
use crate::states::{MpduWithAllFields, MpduWithIes, MpduWithSecurity};
use crate::Error;

verus! {

/// Selected IEs are those of a kind, in their order.
proof fn lemma_selected(ies: Seq<IeRepr<'_>>, header: bool)
    ensures
        select(ies, header) == ies.filter(
            |ie: IeRepr<'_>| (ie is TimeCorrectionHeaderIe) == header,
        ),
        select(ies, header).len() > 0 <==> (if header {
            has_header_ie(ies)
        } else {
            has_nested_ie(ies)
        }),
    decreases ies.len(),
{
    reveal(Seq::filter);
    if ies.len() > 0 {
        lemma_selected(ies.drop_last(), header);
        crate::repr::ies::lemma_has_push(ies.drop_last(), ies);
    }
}

/// In the order of transmission, all header IEs come first and all nested IEs after
/// them, each kind in the order in which it was given. Nested IEs are preceded by the
/// first header termination. Before a frame payload, header IEs alone are followed by
/// the second header termination, and nested IEs by a payload termination.
pub proof fn lemma_transmission_order<'ie>(
    ies: &[IeRepr<'ie>],
    payload: bool,
    order: Vec<IeReprWithTermination<'ie>>,
)
    requires
        call_ensures(ies_in_transmission_order, (ies, payload), order),
    ensures
        ({
            let headers = ies@.filter(|ie: IeRepr<'ie>| (ie is TimeCorrectionHeaderIe) == true);
            let nested = ies@.filter(|ie: IeRepr<'ie>| (ie is TimeCorrectionHeaderIe) == false);
            let wrapped = |ie: IeRepr<'ie>| IeReprWithTermination::NonTerminationIe(ie);
            let none = Seq::<IeReprWithTermination<'ie>>::empty();
            order@ == headers.map_values(wrapped) + (if nested.len() > 0 {
                seq![IeReprWithTermination::HeaderTerminationIe1]
            } else if headers.len() > 0 && payload {
                seq![IeReprWithTermination::HeaderTerminationIe2]
            } else {
                none
            }) + nested.map_values(wrapped) + (if nested.len() > 0 && payload {
                seq![IeReprWithTermination::PayloadTerminationIe]
            } else {
                none
            })
        }),
{
    lemma_selected(ies@, true);
    lemma_selected(ies@, false);
    let wrapped = |ie: IeRepr<'ie>| IeReprWithTermination::NonTerminationIe(ie);
    assert(wrap(select(ies@, true)) =~= select(ies@, true).map_values(wrapped));
    assert(wrap(select(ies@, false)) =~= select(ies@, false).map_values(wrapped));
}

/// Whether an element of a list is a nested IE.
pub open spec fn nested_element(ie: IeReprWithTermination<'_>) -> bool {
    ie is NonTerminationIe && ie != IeReprWithTermination::NonTerminationIe(
        IeRepr::TimeCorrectionHeaderIe,
    )
}

/// The length of an element with its descriptor.
pub open spec fn element_length(ie: IeReprWithTermination<'_>, own: (u16, u16)) -> int {
    if ie is NonTerminationIe {
        own.0 + own.1
    } else {
        2
    }
}

/// IEs are laid out one behind the other. Before the first nested one there is the
/// descriptor of the payload IE that holds them.
pub proof fn lemma_ie_offsets(
    ies: Seq<IeReprWithTermination<'_>>,
    i: int,
    own: (u16, u16),
)
    requires
        0 <= i < ies.len(),
        ies[i] matches IeReprWithTermination::NonTerminationIe(ie) ==> call_ensures(
            IeRepr::<'_>::length,
            (&ie,),
            own,
        ),
    ensures
        ie_offset(ies, 0) == (if nested_element(ies[0]) {
            2int
        } else {
            0
        }),
        i + 1 < ies.len() ==> ie_offset(ies, i + 1) == ie_offset(ies, i) + element_length(
            ies[i],
            own,
        ) + (if nested_element(ies[i + 1]) && forall|j: int|
            0 <= j <= i ==> !nested_element(#[trigger] ies[j]) {
            2int
        } else {
            0
        }),
{
    let first = ies.subrange(0, 1);
    assert(kinds_of(first).nested == nested_element(ies[0])) by {
        if nested_element(ies[0]) {
            assert(first[0].is_nested());
        }
    }
    assert(ies.subrange(0, 0) =~= Seq::empty());
    if i + 1 < ies.len() {
        let before = ies.subrange(0, i);
        let here = ies.subrange(0, i + 1);
        let next = ies.subrange(0, i + 2);
        assert(here.drop_last() =~= before);
        assert(here.last() == ies[i]);
        assert(next.drop_last() =~= here);
        lemma_kinds_push(here, next);
        let none_before = forall|j: int| 0 <= j <= i ==> !nested_element(#[trigger] ies[j]);
        assert(kinds_of(here).nested == !none_before) by {
            if kinds_of(here).nested {
                let j = choose|j: int| 0 <= j < here.len() && (#[trigger] here[j]).is_nested();
                assert(nested_element(ies[j]));
            }
            if !none_before {
                let j = choose|j: int| 0 <= j <= i && nested_element(#[trigger] ies[j]);
                assert(here[j].is_nested());
            }
        }
        assert(next.last() == ies[i + 1]);
    }
}

/// Each IE that is initialized has a descriptor with its type, its ID and the length of
/// its content. Nothing is written if an IE cannot be described.
pub proof fn lemma_ie_described(
    buf: &mut [u8],
    at: usize,
    ies: &[IeReprWithTermination<'_>],
    i: int,
    done: bool,
    own: (u16, u16),
    encodable: Option<u16>,
)
    requires
        call_ensures(init_ies, (buf, at, ies), done),
        call_ensures(encodable_nested_length, (ies,), encodable),
        0 <= i < ies@.len(),
        ies@[i] matches IeReprWithTermination::NonTerminationIe(ie) ==> call_ensures(
            IeRepr::<'_>::length,
            (&ie,),
            own,
        ),
    ensures
        done <==> encodable is Some,
        !done ==> final(buf)@ == old(buf)@,
        done ==> ({
            let p = at + ie_offset(ies@, i);
            let (low, high) = (final(buf)@[p] as int, final(buf)@[p + 1] as int);
            match ies@[i] {
                IeReprWithTermination::HeaderTerminationIe1 => low == 0 && high == 0x3f,
                IeReprWithTermination::HeaderTerminationIe2 => low == 0x80 && high == 0x3f,
                IeReprWithTermination::PayloadTerminationIe => low == 0 && high == 0xf8,
                IeReprWithTermination::NonTerminationIe(ie) => match ie {
                    IeRepr::TimeCorrectionHeaderIe => low == 2 && high == 0x0f,
                    IeRepr::TschSynchronizationNestedIe => low == 6 && high == 0x1a,
                    IeRepr::TschSlotframeAndLinkNestedIe(_) => low == own.1 - 2 && high == 0x1b,
                    IeRepr::ReducedTschTimeslotNestedIe => low == 1 && high == 0x1c,
                    IeRepr::FullTschTimeslotNestedIe => low == 25 && high == 0x1c,
                    IeRepr::ReducedChannelHoppingNestedIe => low == 1 && high == 0xc8,
                    IeRepr::FullChannelHoppingNestedIe(..) => low + 0x100 * (high - 0xc8) == own.1
                        - 2,
                },
            }
        }),
{
    if done {
        let p = at + ie_offset(ies@, i);
        lemma_word_fields(final(buf)@, p);
        if ies@[i] is NonTerminationIe {
            crate::repr::ies::lemma_ie_length_positive(ies@[i]->0);
        }
    }
}

/// Besides its descriptor, an IE that is initialized tells the number of channels that
/// are listed in it, or the number of its slotframes and that of the links of each of
/// them. The slotframes begin behind their number, one behind the other with their links.
/// All other octets of its content stay as they are.
pub proof fn lemma_ie_contents(
    buf: &mut [u8],
    at: usize,
    ies: &[IeReprWithTermination<'_>],
    i: int,
    done: bool,
    own: (u16, u16),
    k: int,
)
    requires
        call_ensures(init_ies, (buf, at, ies), done),
        done,
        0 <= i < ies@.len(),
        ies@[i] matches IeReprWithTermination::NonTerminationIe(ie) ==> call_ensures(
            IeRepr::<'_>::length,
            (&ie,),
            own,
        ),
        0 <= k < element_length(ies@[i], own) - 2,
    ensures
        ({
            let p = at + ie_offset(ies@, i) + 2;
            let (before, after) = (old(buf)@, final(buf)@);
            match ies@[i] {
                IeReprWithTermination::NonTerminationIe(ie) => match ie {
                    IeRepr::FullChannelHoppingNestedIe(channels, _) => {
                        &&& after[p + 2] + 0x100 * after[p + 3] == channels
                        &&& k != 2 && k != 3 ==> after[p + k] == before[p + k]
                    },
                    IeRepr::TschSlotframeAndLinkNestedIe(slotframes) => {
                        &&& after[p] == slotframes@.len()
                        &&& forall|j: int|
                            0 <= j < slotframes@.len() ==> after[p + #[trigger] slotframe_offset(
                                slotframes@,
                                j,
                            ) + 3] == slotframes@[j]
                        &&& k != 0 && (forall|j: int|
                            0 <= j < slotframes@.len() ==> k != #[trigger] slotframe_offset(
                                slotframes@,
                                j,
                            ) + 3) ==> after[p + k] == before[p + k]
                    },
                    _ => after[p + k] == before[p + k],
                },
                _ => after[p + k] == before[p + k],
            }
        }),
{
    let p = at + ie_offset(ies@, i);
    assert(crate::fields::ie_layout::ie_initialized(old(buf)@, final(buf)@, p, ies@[i]));
}

/// Slotframes begin behind the octet that tells their number. Each takes four octets and
/// five for each of its links.
pub proof fn lemma_slotframe_offsets(slotframes: Seq<u8>, j: int)
    requires
        0 <= j < slotframes.len(),
    ensures
        slotframe_offset(slotframes, 0) == 1,
        slotframe_offset(slotframes, j + 1) == slotframe_offset(slotframes, j) + 4 + 5
            * slotframes[j],
{
    assert(slotframes.subrange(0, 0) =~= Seq::empty());
    assert(slotframes.subrange(0, j + 1).drop_last() =~= slotframes.subrange(0, j));
}

/// IEs are initialized within the octets that they take: the sum of their lengths, and
/// two for the descriptor of the payload IE that holds nested ones.
pub proof fn lemma_ies_within(
    buf: &mut [u8],
    at: usize,
    ies: &[IeReprWithTermination<'_>],
    done: bool,
)
    requires
        call_ensures(init_ies, (buf, at, ies), done),
    ensures
        ({
            let length = sum_terminated(ies@) + (if exists|i: int|
                0 <= i < ies@.len() && nested_element(#[trigger] ies@[i]) {
                2int
            } else {
                0
            });
            done ==> final(buf)@.len() == old(buf)@.len() && forall|k: int|
                0 <= k < at || at + length <= k < old(buf)@.len() ==> #[trigger] final(buf)@[k]
                    == old(buf)@[k]
        }),
{
    let nested = exists|i: int| 0 <= i < ies@.len() && nested_element(#[trigger] ies@[i]);
    assert(nested == kinds_of(ies@).nested) by {
        if nested {
            let i = choose|i: int| 0 <= i < ies@.len() && nested_element(#[trigger] ies@[i]);
            assert(ies@[i].is_nested());
        }
        if kinds_of(ies@).nested {
            let i = choose|i: int| 0 <= i < ies@.len() && (#[trigger] ies@[i]).is_nested();
            assert(nested_element(ies@[i]));
        }
    }
}

/// The nested IEs are held by a payload IE of group one whose descriptor comes right
/// before the first of them and tells the length of all of them.
pub proof fn lemma_nested_ies_held(
    buf: &mut [u8],
    at: usize,
    ies: &[IeReprWithTermination<'_>],
    i: int,
    done: bool,
    length: Option<u16>,
)
    requires
        call_ensures(init_ies, (buf, at, ies), done),
        call_ensures(encodable_nested_length, (ies,), length),
        done,
        0 <= i < ies@.len(),
        nested_element(ies@[i]),
        forall|j: int| 0 <= j < i ==> !nested_element(#[trigger] ies@[j]),
    ensures
        ({
            let p = at + ie_offset(ies@, i) - 2;
            &&& final(buf)@[p + 1] >= 0x80
            &&& payload_id_at(final(buf)@, p) == 1
            &&& length matches Some(length) && payload_length_at(final(buf)@, p) == length
        }),
{
    lemma_first_nested(ies@, i);
    lemma_word_fields(final(buf)@, at + ie_offset(ies@, i) - 2);
    assert(ies@[i].is_nested());
    crate::ies::descriptor::lemma_long_ie_word(1, 1, nested_length(ies@), 0);
    lemma_nested_length_bounds(ies@);
}

proof fn lemma_nested_length_bounds(ies: Seq<IeReprWithTermination<'_>>)
    ensures
        nested_length(ies) >= 0,
    decreases ies.len(),
{
    if ies.len() > 0 {
        lemma_nested_length_bounds(ies.drop_last());
        if ies.last() is NonTerminationIe {
            crate::repr::ies::lemma_ie_length_positive(ies.last()->0);
        }
    }
}

proof fn lemma_first_nested(ies: Seq<IeReprWithTermination<'_>>, i: int)
    requires
        0 <= i < ies.len(),
        nested_element(ies[i]),
        forall|j: int| 0 <= j < i ==> !nested_element(#[trigger] ies[j]),
    ensures
        crate::fields::ie_layout::mlme_offset(ies) == ie_offset(ies, i) - 2,
    decreases ies.len(),
{
    let here = ies.subrange(0, i + 1);
    assert(here[i].is_nested());
    assert(kinds_of(here).nested);
    let rest = ies.drop_last();
    if i < ies.len() - 1 {
        assert(rest[i].is_nested());
        assert(kinds_of(rest).nested);
        assert forall|j: int| 0 <= j < i implies !nested_element(#[trigger] rest[j]) by {
            assert(rest[j] == ies[j]);
        }
        lemma_first_nested(rest, i);
        assert(rest.subrange(0, i) =~= ies.subrange(0, i));
        assert(rest.subrange(0, i + 1) =~= here);
    } else {
        assert(!kinds_of(rest).nested) by {
            if kinds_of(rest).nested {
                let j = choose|j: int| 0 <= j < rest.len() && (#[trigger] rest[j]).is_nested();
                assert(nested_element(ies[j]));
            }
        }
        assert(rest =~= ies.subrange(0, i));
    }
}

/// The length of all nested IEs is the sum of their lengths. It can be told unless it
/// exceeds eleven bits, or the length of a slotframe and link IE exceeds eight.
pub proof fn lemma_nested_length_told(
    ies: Seq<IeReprWithTermination<'_>>,
    ie: IeReprWithTermination<'_>,
    own: (u16, u16),
    list: &[IeReprWithTermination<'_>],
    r: Option<u16>,
)
    requires
        ie matches IeReprWithTermination::NonTerminationIe(ie) ==> call_ensures(
            IeRepr::<'_>::length,
            (&ie,),
            own,
        ),
        call_ensures(encodable_nested_length, (list,), r),
    ensures
        nested_length(Seq::empty()) == 0,
        nested_length(ies.push(ie)) == nested_length(ies) + (if ie is NonTerminationIe {
            own.1 as int
        } else {
            0
        }),
        r matches Some(length) ==> length == nested_length(list@) && length <= 2047,
        nested_length(list@) > 2047 ==> r is None,
        ie matches IeReprWithTermination::NonTerminationIe(
            IeRepr::TschSlotframeAndLinkNestedIe(_),
        ) ==> own.1 > 257 ==> list@.contains(ie) ==> r is None,
        nested_length(list@) <= 2047 && (forall|i: int|
            0 <= i < list@.len() ==> (#[trigger] list@[i] matches
                IeReprWithTermination::NonTerminationIe(own) ==> own
                is TschSlotframeAndLinkNestedIe ==> own.ie_length() <= 257)) ==> r is Some,
{
    assert(ies.push(ie).drop_last() =~= ies);
    if list@.contains(ie) {
        let i = choose|i: int| 0 <= i < list@.len() && list@[i] == ie;
        assert(list@[i] == ie);
    }
}

/// An MPDU that is built has the frame control field that its representation asks for,
/// and its fields are one behind the other, as long as the representation tells.
pub proof fn lemma_mpdu_built<'repr, Config: DriverConfig, Buffer: OctetsMut>(
    repr: MpduRepr<'repr, MpduWithIes>,
    version: FrameVersion,
    frame_type: FrameType,
    payload: u16,
    buffer: Buffer,
    length: Result<u16, Error>,
    ies_length: Result<u16, Error>,
    compression: bool,
    r: Result<MpduParser<MpduFrame<Buffer>, MpduWithAllFields>, Buffer>,
)
    requires
        call_ensures(
            MpduRepr::<'repr, MpduWithIes>::into_parsed_mpdu::<Config, Buffer>,
            (&repr, version, frame_type, payload, buffer),
            r,
        ),
        call_ensures(MpduRepr::<'repr, MpduWithIes>::mpdu_length_wo_fcs, (&repr, payload), length),
        call_ensures(
            IeListRepr::<'repr>::ies_length,
            (&repr.ie_list(), payload > 0),
            ies_length,
        ),
        repr.addr() matches Some(addressing) ==> call_ensures(
            AddressingRepr::pan_id_compression,
            (&addressing,),
            compression,
        ),
        repr.addr() is None ==> !compression,
        length is Ok,
        Config::HEADROOM + 2 <= buffer.bytes().len(),
    ensures
        r matches Err(back) ==> back == buffer,
        r matches Ok(parser) ==> {
            let f = parser.inner().control_fields();
            let o = parser.ranges().offsets();
            &&& f.frame_type == frame_type && f.frame_version == version
            &&& f.security_enabled == repr.sec() is Some
            &&& !f.frame_pending && !f.ack_request && !f.reserved
            &&& f.pan_id_compression == compression
            &&& f.sequence_number_suppression == (repr.seq() == SeqNrRepr::No)
            &&& f.information_elements_present == !(repr.ie_list() is Empty)
            &&& repr.addr() matches Some(addressing) ==> f.dst_addressing_mode
                == addressing.dst_mode() && f.src_addressing_mode == addressing.src_mode()
            &&& repr.addr() is None ==> f.dst_addressing_mode == AddressingMode::Absent
                && f.src_addressing_mode == AddressingMode::Absent
            &&& o.frame_control == Config::HEADROOM && parser.inner().start() == Config::HEADROOM
            &&& o.addressing == Config::HEADROOM + 2 + (if repr.seq() == SeqNrRepr::Yes {
                1int
            } else {
                0
            })
            &&& ies_length matches Ok(ies_length) && o.frame_payload == o.ies + ies_length
            &&& o.mic == o.frame_payload + payload
            &&& o.fcs == Config::HEADROOM + length->Ok_0
            &&& parser.inner().octets_wo_fcs() == length->Ok_0
            &&& o.remainder == o.fcs + Config::FCS_LENGTH
            &&& parser.inner()@.len() == buffer.bytes().len()
            &&& forall|k: int|
                0 <= k < buffer.bytes().len() && k != o.frame_control && k != o.frame_control + 1
                    && !(o.ies <= k < o.frame_payload) ==> #[trigger] parser.inner()@[k]
                    == buffer.bytes()[k]
        },
{
    if r is Ok {
        lemma_ordered_ies_length(repr.ie_list(), payload > 0);
        let (b, c, at) = (buffer.bytes(), r->Ok_0.inner()@, Config::HEADROOM as int);
        assert forall|k: int| 0 <= k < b.len() && k != at && k != at + 1 implies #[trigger]
            with_control_of(b, c, at)[k] == b[k] by {}
    }
}

/// An MPDU is built unless its length cannot be told or its IEs cannot be described.
pub proof fn lemma_mpdu_refused<'repr, Config: DriverConfig, Buffer: OctetsMut>(
    repr: MpduRepr<'repr, MpduWithIes>,
    version: FrameVersion,
    frame_type: FrameType,
    payload: u16,
    buffer: Buffer,
    length: Result<u16, Error>,
    list: &[IeRepr<'repr>],
    order: Vec<IeReprWithTermination<'repr>>,
    ordered: &[IeReprWithTermination<'repr>],
    described: Option<u16>,
    r: Result<MpduParser<MpduFrame<Buffer>, MpduWithAllFields>, Buffer>,
)
    requires
        call_ensures(
            MpduRepr::<'repr, MpduWithIes>::into_parsed_mpdu::<Config, Buffer>,
            (&repr, version, frame_type, payload, buffer),
            r,
        ),
        call_ensures(MpduRepr::<'repr, MpduWithIes>::mpdu_length_wo_fcs, (&repr, payload), length),
        repr.lengths(payload as int) matches Some(lengths) ==> lengths.total() <= u16::MAX,
        repr.ie_list() matches IeListRepr::WithoutTerminationIes(own) ==> own.ies() == list@,
        call_ensures(ies_in_transmission_order, (list, payload > 0), order),
        ordered@ == (match repr.ie_list() {
            IeListRepr::WithTerminationIes(own) => own.ies(),
            _ => order@,
        }),
        call_ensures(encodable_nested_length, (ordered,), described),
    ensures
        repr.ie_list() is Empty ==> (r is Ok <==> length is Ok),
        !(repr.ie_list() is Empty) ==> (r is Ok <==> length is Ok && described is Some),
{
}

/// Both ways of building an MPDU do the same.
pub proof fn lemma_writer_built<'repr, Config: DriverConfig, Buffer: OctetsMut>(
    repr: MpduRepr<'repr, MpduWithIes>,
    version: FrameVersion,
    frame_type: FrameType,
    payload: u16,
    buffer: Buffer,
    parsed: Result<MpduParser<MpduFrame<Buffer>, MpduWithAllFields>, Buffer>,
    written: Result<MpduParser<MpduFrame<Buffer>, MpduWithAllFields>, Buffer>,
)
    requires
        call_ensures(
            MpduRepr::<'repr, MpduWithIes>::into_parsed_mpdu::<Config, Buffer>,
            (&repr, version, frame_type, payload, buffer),
            parsed,
        ),
        call_ensures(
            MpduRepr::<'repr, MpduWithIes>::into_writer::<Config, Buffer>,
            (&repr, version, frame_type, payload, buffer),
            written,
        ),
    ensures
        parsed is Ok <==> written is Ok,
        written matches Err(back) ==> back == buffer,
        parsed matches Ok(parsed) ==> (written matches Ok(written) && written.ranges().offsets()
            == parsed.ranges().offsets() && written.inner().control_fields()
            == parsed.inner().control_fields() && written.inner().octets_wo_fcs()
            == parsed.inner().octets_wo_fcs()),
{
}

/// An immediate acknowledgment has three octets: a frame control field with the type two
/// and the version one, and the sequence number of the frame that is acknowledged.
pub proof fn lemma_immediate_acknowledgment<Config: DriverConfig, Buffer: OctetsMut>(
    seq_nr: u8,
    buffer: Buffer,
    ack: MpduParser<MpduFrame<Buffer>, MpduWithAllFields>,
    repr: MpduRepr<'static, MpduWithIes>,
    length: Result<u16, Error>,
)
    requires
        config_valid::<Config>(),
        Config::HEADROOM + 3 <= buffer.bytes().len(),
        call_ensures(imm_ack_frame::<Config, Buffer>, (seq_nr, buffer), ack),
        call_ensures(imm_ack_frame_repr, (), repr),
        call_ensures(MpduRepr::<'static, MpduWithIes>::mpdu_length_wo_fcs, (&repr, 0u16), length),
    ensures
        ({
            let (at, octets) = (Config::HEADROOM as int, ack.inner()@);
            &&& octets[at] == 2 && octets[at + 1] == 0x10 && octets[at + 2] == seq_nr
            &&& octets.len() == buffer.bytes().len()
            &&& forall|i: int|
                0 <= i < octets.len() && !(at <= i < at + 3) ==> #[trigger] octets[i]
                    == buffer.bytes()[i]
            &&& ack.inner().start() == at && ack.inner().octets_wo_fcs() == 3
            &&& length == Ok::<u16, Error>(3u16)
            &&& ack.ranges().offsets().addressing == at + 3
            &&& ack.ranges().offsets().ies == at + 3
            &&& ack.ranges().offsets().frame_payload == at + 3
            &&& ack.ranges().offsets().fcs == at + 3
            &&& ack.ranges().offsets().remainder == at + 3 + Config::FCS_LENGTH
        }),
{
}

/// An enhanced acknowledgment has seven octets: a frame control field with the type two,
/// the version two and IEs, the sequence number, and a time correction IE that corrects
/// nothing and is no negative acknowledgment.
pub proof fn lemma_enhanced_acknowledgment<Config: DriverConfig, Buffer: OctetsMut>(
    seq_nr: u8,
    buffer: Buffer,
    ack: MpduParser<MpduFrame<Buffer>, MpduWithAllFields>,
)
    requires
        config_valid::<Config>(),
        Config::HEADROOM + 7 <= buffer.bytes().len(),
        call_ensures(enh_ack_frame::<Config, Buffer>, (seq_nr, buffer), ack),
    ensures
        ({
            let (at, octets) = (Config::HEADROOM as int, ack.inner()@);
            &&& octets[at] == 2 && octets[at + 1] == 0x22 && octets[at + 2] == seq_nr
            &&& octets[at + 3] == 2 && octets[at + 4] == 0x0f
            &&& octets[at + 5] == 0 && octets[at + 6] as int % 0x10 == 0 && octets[at + 6] < 0x80
            &&& octets[at + 6] as int / 0x10 % 8 == buffer.bytes()[at + 6] as int / 0x10 % 8
            &&& octets.len() == buffer.bytes().len()
            &&& forall|i: int|
                0 <= i < octets.len() && !(at <= i < at + 7) ==> #[trigger] octets[i]
                    == buffer.bytes()[i]
            &&& ack.inner().start() == at && ack.inner().octets_wo_fcs() == 7
            &&& ack.ranges().offsets().addressing == at + 3
            &&& ack.ranges().offsets().ies == at + 3
            &&& ack.ranges().offsets().frame_payload == at + 7
            &&& ack.ranges().offsets().fcs == at + 7
            &&& ack.ranges().offsets().remainder == at + 7 + Config::FCS_LENGTH
        }),
{
    let at = Config::HEADROOM as int;
    let old = u16_at(buffer.bytes(), at + 5);
    lemma_correction_cleared(buffer.bytes()[at + 5], buffer.bytes()[at + 6]);
    let written = enh_ack_octets(seq_nr, with_nack(with_time_sync(old, 0), false));
    assert(written.len() == 7);
    assert(ack.inner()@ == splice(buffer.bytes(), at, at + 7, written));
    assert(written[5] == 0 && written[6] == 0x10 * (buffer.bytes()[at + 6] as int / 0x10 % 8));
    lemma_splice_keeps(buffer.bytes(), at, at + 7, written);
    assert forall|i: int| 0 <= i < 7 implies ack.inner()@[at + i] == #[trigger] written[i] by {
        assert(splice(buffer.bytes(), at, at + 7, written)[at + i] == written[i]);
    }
    assert(written[0] == 2 && written[1] == 0x22 && written[2] == seq_nr && written[3] == 2
        && written[4] == 0x0f);
}

/// A time correction without a correction and without a negative acknowledgment keeps its
/// reserved bits.
proof fn lemma_correction_cleared(low: u8, high: u8)
    ensures
        ({
            let word = with_nack(with_time_sync(low + 0x100 * high, 0), false);
            &&& word % 0x100 == 0
            &&& word / 0x100 == 0x10 * (high as int / 0x10 % 8)
        }),
{
    let word = (low + 0x100 * high) as u16;
    assert((word - word % 0x1000) % 0x8000 == 0x1000 * ((high as u16) / 0x10 % 8)) by (bit_vector)
        requires
            word == low + 0x100 * high,
    ;
}


/// The representation of an enhanced acknowledgment has a sequence number and the given
/// IEs, and neither addresses nor security.
pub proof fn lemma_enhanced_acknowledgment_repr<'ies>(
    ies: &'ies [IeRepr<'ies>],
    repr: MpduRepr<'ies, MpduWithIes>,
)
    requires
        call_ensures(enh_ack_frame_repr, (ies,), repr),
    ensures
        repr.seq() == SeqNrRepr::Yes && repr.addr() is None && repr.sec() is None,
        repr.ie_list() matches IeListRepr::WithoutTerminationIes(list) && list.ies() == ies@,
{
}

/// A beacon has no sequence number, and is addressed to a PAN ID and a short address.
/// Its MPDU takes six octets, its IEs and its payload.
pub proof fn lemma_beacon_represented<'ies>(
    ies: Option<IeReprList<'ies, IeRepr<'ies>>>,
    plain: MpduRepr<'ies, MpduWithSecurity>,
    repr: MpduRepr<'ies, MpduWithIes>,
    addressing_length: Result<u16, Error>,
)
    requires
        call_ensures(beacon_frame_repr::<'ies>, (), plain),
        call_ensures(beacon_frame_repr_with_ies, (ies,), repr),
        repr.addr() is Some ==> call_ensures(
            AddressingRepr::addressing_fields_length,
            (&repr.addr()->0,),
            addressing_length,
        ),
    ensures
        repr.seq() == SeqNrRepr::No && plain.seq() == SeqNrRepr::No,
        repr.sec() is None && plain.sec() is None,
        repr.addr() matches Some(addressing) && addressing.dst_mode() == AddressingMode::Short
            && addressing.src_mode() == AddressingMode::Absent,
        plain.addr() matches Some(addressing) && addressing.dst_mode() == AddressingMode::Short
            && addressing.src_mode() == AddressingMode::Absent,
        addressing_length == Ok::<u16, Error>(4u16),
        plain.ie_list() is Empty,
        ies is None ==> repr.ie_list() is Empty,
        ies matches Some(list) ==> repr.ie_list() == IeListRepr::WithoutTerminationIes(list),
{
}

/// The buffer of a beacon is as long as its representation requires.
pub proof fn lemma_beacon_buffer<'ies, Config: DriverConfig>(
    ies: Option<IeReprList<'ies, IeRepr<'ies>>>,
    payload: u16,
    repr: MpduRepr<'ies, MpduWithIes>,
    required: Result<u16, Error>,
    size: Result<u16, Error>,
)
    requires
        call_ensures(beacon_frame_repr_with_ies, (ies,), repr),
        call_ensures(
            MpduRepr::<'ies, MpduWithIes>::min_buffer_size::<Config>,
            (&repr, payload),
            required,
        ),
        call_ensures(beacon_buffer_size::<Config>, (ies, payload), size),
    ensures
        size is Ok <==> required is Ok,
        size matches Ok(size) ==> required matches Ok(required) && size == required,
{
}

/// A beacon frame has the type zero and the version one, and is addressed as its
/// representation tells. Its payload follows its IEs.
pub proof fn lemma_beacon_built<'ies, Config: DriverConfig, Buffer: OctetsMut>(
    ies: Option<IeReprList<'ies, IeRepr<'ies>>>,
    payload: u16,
    buffer: Buffer,
    list: &[IeRepr<'ies>],
    order: Vec<IeReprWithTermination<'ies>>,
    ordered: &[IeReprWithTermination<'ies>],
    described: Option<u16>,
    r: Result<MpduParser<MpduFrame<Buffer>, MpduWithAllFields>, Buffer>,
)
    requires
        call_ensures(beacon_frame::<Config, Buffer>, (ies, payload, buffer), r),
        ies matches Some(own) ==> own.ies() == list@,
        call_ensures(ies_in_transmission_order, (list, payload > 0), order),
        ordered@ == order@,
        call_ensures(encodable_nested_length, (ordered,), described),
    ensures
        ies is Some ==> (r is Ok <==> described is Some),
        ies is None ==> r is Ok,
        r matches Err(back) ==> back == buffer,
        r matches Ok(parser) ==> {
            let f = parser.inner().control_fields();
            let o = parser.ranges().offsets();
            &&& f.frame_type == FrameType::Beacon
            &&& f.frame_version == FrameVersion::Ieee802154_2006
            &&& f.sequence_number_suppression && !f.security_enabled && !f.pan_id_compression
            &&& !f.ack_request && !f.frame_pending
            &&& f.dst_addressing_mode == AddressingMode::Short
            &&& f.src_addressing_mode == AddressingMode::Absent
            &&& f.information_elements_present == ies is Some
            &&& o.frame_control == Config::HEADROOM && o.addressing == Config::HEADROOM + 2
            &&& o.ies == Config::HEADROOM + 6
            &&& o.mic == o.frame_payload + payload && o.fcs == o.mic
            &&& o.remainder == o.fcs + Config::FCS_LENGTH
        },
{
}

} // verus!
