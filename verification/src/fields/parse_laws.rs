//! What parsing and editing an MPDU is for.
//!
//! The laws speak of calls: each relates the arguments and the results of one or
//! more functions.

use vstd::prelude::*;

use crate::fields::ie_scan::{find_ies_end, ies_end, payload_ies_end};
use crate::fields::ies::IesFields;
use crate::fields::mpdu::MpduParser;
use crate::frame::addressing_fields::AddressingFields;
use crate::frame::addressing_repr::{lemma_announced, AddressingRepr};
use crate::frame::control_laws::{flag_number, lemma_word_bits};
use crate::frame::driver_config::{DriverConfig, RadioFrameSized};
use crate::frame::frame_control::FrameControl;
use crate::frame::radio_frame::RadioFrame;
use crate::ies::header::{find_header_ie_content_range, TimeCorrectionIe};
use crate::ies::ie_laws::{
    header_at, header_id_at, header_length_at, header_path, lemma_word_fields, payload_at,
    payload_id_at, payload_length_at,
};
use crate::ies::tsch_laws::same_outside;
use crate::mpdu::frame::MpduFrame;
use crate::mpdu::kinds::{BeaconFrame, DataFrame, EnhancedBeaconFrame, Frame};
use crate::octets::{Octets, OctetsMut};
use crate::states::{MpduWithAddressing, MpduWithAllFields, MpduWithFrameControl, MpduWithSecurity};
use crate::Error;

verus! {

/// Whether positions lead from one payload IE to the next, past IEs that do not end the
/// list.
pub open spec fn payload_list_path(b: Seq<u8>, positions: Seq<int>) -> bool {
    &&& positions.len() > 0
    &&& forall|i: int|
        0 <= i < positions.len() - 1 ==> {
            let at = #[trigger] positions[i];
            &&& payload_at(b, at)
            &&& payload_id_at(b, at) != 0xf
            &&& positions[i + 1] == at + 2 + payload_length_at(b, at)
        }
}

/// Where a list of payload IEs ends.
pub open spec fn payload_list_end(b: Seq<u8>, at: int) -> Option<int> {
    if at == b.len() {
        Some(at)
    } else if payload_at(b, at) && payload_id_at(b, at) == 0xf {
        Some(at + 2 + payload_length_at(b, at))
    } else {
        None
    }
}

proof fn lemma_payload_list_path(b: Seq<u8>, positions: Seq<int>)
    requires
        payload_list_path(b, positions),
    ensures
        ({
            let at = positions.last();
            at == b.len() || !payload_at(b, at) || payload_id_at(b, at) == 0xf ==> payload_ies_end(
                b,
                positions[0],
            ) == payload_list_end(b, at)
        }),
    decreases positions.len(),
{
    lemma_word_fields(b, positions[0]);
    if positions.len() > 1 {
        let rest = positions.drop_first();
        assert(payload_list_path(b, rest)) by {
            assert forall|i: int| 0 <= i < rest.len() - 1 implies ({
                let at = #[trigger] rest[i];
                &&& payload_at(b, at)
                &&& payload_id_at(b, at) != 0xf
                &&& rest[i + 1] == at + 2 + payload_length_at(b, at)
            }) by {
                assert(positions[i + 1] == rest[i]);
                assert(positions[i + 2] == rest[i + 1]);
            }
        }
        lemma_payload_list_path(b, rest);
        assert(rest.last() == positions.last());
        assert(positions[1] == rest[0]);
    }
}

proof fn lemma_header_list_path(b: Seq<u8>, positions: Seq<int>)
    requires
        header_path(b, positions, -1),
    ensures
        ({
            let at = positions.last();
            &&& at == b.len() ==> ies_end(b, positions[0]) == Some(at)
            &&& at != b.len() && !header_at(b, at) ==> ies_end(b, positions[0]) is None
            &&& at != b.len() && header_at(b, at) && header_id_at(b, at) == 0x7f ==> ies_end(
                b,
                positions[0],
            ) == Some(at + 2 + header_length_at(b, at))
            &&& at != b.len() && header_at(b, at) && header_id_at(b, at) == 0x7e ==> ies_end(
                b,
                positions[0],
            ) == payload_ies_end(b, at + 2 + header_length_at(b, at))
        }),
    decreases positions.len(),
{
    lemma_word_fields(b, positions[0]);
    if positions.len() > 1 {
        let rest = positions.drop_first();
        assert(header_path(b, rest, -1)) by {
            assert forall|i: int| 0 <= i < rest.len() - 1 implies ({
                let at = #[trigger] rest[i];
                &&& header_at(b, at)
                &&& header_id_at(b, at) != -1
                &&& header_id_at(b, at) != 0x7e
                &&& header_id_at(b, at) != 0x7f
                &&& rest[i + 1] == at + 2 + header_length_at(b, at)
            }) by {
                assert(positions[i + 1] == rest[i]);
                assert(positions[i + 2] == rest[i + 1]);
            }
        }
        lemma_header_list_path(b, rest);
        assert(rest.last() == positions.last());
        assert(positions[1] == rest[0]);
    }
}

/// The IEs of a frame end with its octets, behind the header IE 0x7f, or behind the
/// header IE 0x7e and the payload IEs. These end with the octets or behind the group
/// 0xf. Where an IE is incomplete, no end is found.
pub proof fn lemma_ies_end_told(
    b: &[u8],
    headers: Seq<int>,
    payloads: Seq<int>,
    end: Option<usize>,
)
    requires
        call_ensures(find_ies_end, (b,), end),
        header_path(b@, headers, -1),
        headers[0] == 0,
        payload_list_path(b@, payloads),
        payloads[0] == headers.last() + 2 + header_length_at(b@, headers.last()),
    ensures
        ({
            let at = headers.last();
            let last = payloads.last();
            &&& at == b@.len() ==> (end matches Some(end) && end == at)
            &&& at != b@.len() && !header_at(b@, at) ==> end is None
            &&& header_at(b@, at) && header_id_at(b@, at) == 0x7f ==> (end matches Some(end) && end
                == at + 2 + header_length_at(b@, at))
            &&& header_at(b@, at) && header_id_at(b@, at) == 0x7e ==> {
                &&& last == b@.len() ==> (end matches Some(end) && end == last)
                &&& last != b@.len() && !payload_at(b@, last) ==> end is None
                &&& payload_at(b@, last) && payload_id_at(b@, last) == 0xf ==> (end matches Some(
                    end,
                ) && end == last + 2 + payload_length_at(b@, last))
            }
        }),
{
    lemma_header_list_path(b@, headers);
    lemma_payload_list_path(b@, payloads);
}

/// The time correction of a frame is its first header IE 0x1e, if that has two octets.
pub proof fn lemma_time_correction_told<Bytes: Octets>(
    ies: IesFields<Bytes>,
    octets: &[u8],
    range: Option<(usize, usize)>,
    ie: Option<TimeCorrectionIe<&[u8]>>,
)
    requires
        octets@ == ies@,
        call_ensures(find_header_ie_content_range, (octets, 0x1eu8), range),
        call_ensures(IesFields::<Bytes>::time_correction, (&ies,), ie),
    ensures
        ie is Some <==> (range matches Some((start, end)) && end - start >= 2),
        ie matches Some(ie) ==> (range matches Some((start, end)) && ie@ == ies@.subrange(
            start as int,
            end as int,
        )),
{
}

/// The time correction is written where it is read.
pub proof fn lemma_time_correction_written_in_place<Bytes: OctetsMut>(
    ies: &mut IesFields<Bytes>,
    octets: &[u8],
    range: Option<(usize, usize)>,
    ie: Option<TimeCorrectionIe<&mut [u8]>>,
    read: Option<TimeCorrectionIe<&[u8]>>,
)
    requires
        octets@ == ies@,
        call_ensures(find_header_ie_content_range, (octets, 0x1eu8), range),
        call_ensures(IesFields::<Bytes>::time_correction, (&*old(ies),), read),
        call_ensures(IesFields::<Bytes>::time_correction_mut, (ies,), ie),
        ie matches Some(ie) ==> (*final(ie.container()))@.len() == ie@.len(),
    ensures
        ie is Some <==> read is Some,
        ie matches Some(ie) ==> ie@ == read->0@ && ({
            let (start, end) = ((range->0).0 as int, (range->0).1 as int);
            &&& final(ies)@.subrange(start, end) == (*final(ie.container()))@
            &&& same_outside(final(ies)@, old(ies)@, start, end)
        }),
        ie is None ==> final(ies)@ == old(ies)@,
{
}

/// The frame control field is the first two octets of an MPDU. The sequence number
/// follows it unless it is suppressed.
pub proof fn lemma_mpdu_read<Buffer: Octets>(
    mpdu: MpduFrame<Buffer>,
    fc: FrameControl<&[u8]>,
    seq_nr: Option<u8>,
    offset: u8,
    length: u16,
    octets: &[u8],
)
    requires
        mpdu.has_sequence_number(),
        mpdu.start() >= 0,
        call_ensures(MpduFrame::<Buffer>::frame_control, (&mpdu,), fc),
        call_ensures(MpduFrame::<Buffer>::sequence_number, (&mpdu,), seq_nr),
        call_ensures(MpduFrame::<Buffer>::offset_mpdu, (&mpdu,), offset),
        call_ensures(MpduFrame::<Buffer>::pdu_length_wo_fcs, (&mpdu,), length),
        call_ensures(MpduFrame::<Buffer>::buffer_ref, (&mpdu,), octets),
    ensures
        octets@ == mpdu@,
        offset == mpdu.start() && length == mpdu.octets_wo_fcs(),
        fc@ == seq![octets@[offset as int], octets@[offset + 1]],
        octets@[offset + 1] as int % 2 == 1 ==> seq_nr is None,
        octets@[offset + 1] as int % 2 == 0 ==> seq_nr == Some(octets@[offset + 2]),
{
    lemma_word_bits(mpdu@[mpdu.start()], mpdu@[mpdu.start() + 1]);
    assert(fc@ =~= seq![octets@[offset as int], octets@[offset + 1]]);
}

/// A sequence number is read as it was set. If it is suppressed, then it is neither
/// read nor set.
pub proof fn lemma_sequence_number_written<Buffer: OctetsMut>(
    mpdu: &mut MpduFrame<Buffer>,
    seq_nr: u8,
    r: Result<(), Error>,
    read: Option<u8>,
)
    requires
        mpdu.has_sequence_number(),
        mpdu.start() >= 0,
        call_ensures(MpduFrame::<Buffer>::set_sequence_number, (mpdu, seq_nr), r),
        call_ensures(MpduFrame::<Buffer>::sequence_number, (&*final(mpdu),), read),
    ensures
        r is Ok <==> old(mpdu)@[old(mpdu).start() + 1] as int % 2 == 0,
        r is Ok ==> read == Some(seq_nr) && same_outside(
            final(mpdu)@,
            old(mpdu)@,
            old(mpdu).start() + 2,
            old(mpdu).start() + 3,
        ),
        r is Err ==> read is None && final(mpdu)@ == old(mpdu)@,
{
    lemma_word_bits(mpdu@[mpdu.start()], mpdu@[mpdu.start() + 1]);
}

/// Setting the request of an acknowledgment changes its bit of the frame control field,
/// the sixth one, and nothing else.
pub proof fn lemma_ack_request_written<Buffer: OctetsMut>(
    mpdu: &mut MpduFrame<Buffer>,
    value: bool,
)
    requires
        mpdu.has_frame_control(),
        mpdu.start() >= 0,
        call_ensures(MpduFrame::<Buffer>::set_ack_request, (mpdu, value), ()),
    ensures
        ({
            let at = old(mpdu).start();
            &&& final(mpdu)@[at] as int / 32 % 2 == flag_number(value)
            &&& final(mpdu)@[at] as int % 32 == old(mpdu)@[at] as int % 32
            &&& final(mpdu)@[at] as int / 64 == old(mpdu)@[at] as int / 64
            &&& same_outside(final(mpdu)@, old(mpdu)@, at, at + 1)
        }),
{
    lemma_control_flag(mpdu@, final(mpdu)@, mpdu.start());
}

/// Setting that a frame is pending changes its bit of the frame control field, the
/// fifth one, and nothing else.
pub proof fn lemma_frame_pending_written<Buffer: OctetsMut>(
    mpdu: &mut MpduFrame<Buffer>,
    value: bool,
)
    requires
        mpdu.has_frame_control(),
        mpdu.start() >= 0,
        call_ensures(MpduFrame::<Buffer>::set_frame_pending, (mpdu, value), ()),
    ensures
        ({
            let at = old(mpdu).start();
            &&& final(mpdu)@[at] as int / 16 % 2 == flag_number(value)
            &&& final(mpdu)@[at] as int % 16 == old(mpdu)@[at] as int % 16
            &&& final(mpdu)@[at] as int / 32 == old(mpdu)@[at] as int / 32
            &&& same_outside(final(mpdu)@, old(mpdu)@, at, at + 1)
        }),
{
    lemma_control_flag(mpdu@, final(mpdu)@, mpdu.start());
}

/// The bits of two frame control fields, and what makes up their octets.
pub(crate) proof fn lemma_control_flag(a: Seq<u8>, b: Seq<u8>, at: int)
    ensures
        ({
            let f = crate::mpdu::frame::control_fields_at(a, at);
            let g = crate::mpdu::frame::control_fields_at(b, at);
            &&& f.frame_type == g.frame_type ==> a[at] as int % 8 == b[at] as int % 8
            &&& flag_number(f.security_enabled) == a[at] as int / 8 % 2
            &&& flag_number(g.security_enabled) == b[at] as int / 8 % 2
            &&& flag_number(f.frame_pending) == a[at] as int / 16 % 2
            &&& flag_number(g.frame_pending) == b[at] as int / 16 % 2
            &&& flag_number(f.ack_request) == a[at] as int / 32 % 2
            &&& flag_number(g.ack_request) == b[at] as int / 32 % 2
            &&& flag_number(f.pan_id_compression) == a[at] as int / 64 % 2
            &&& flag_number(g.pan_id_compression) == b[at] as int / 64 % 2
            &&& flag_number(f.reserved) == a[at] as int / 128
            &&& flag_number(g.reserved) == b[at] as int / 128
            &&& flag_number(f.sequence_number_suppression) == a[at + 1] as int % 2
            &&& flag_number(g.sequence_number_suppression) == b[at + 1] as int % 2
            &&& flag_number(f.information_elements_present) == a[at + 1] as int / 2 % 2
            &&& flag_number(g.information_elements_present) == b[at + 1] as int / 2 % 2
            &&& f.dst_addressing_mode == g.dst_addressing_mode ==> a[at + 1] as int / 4 % 4
                == b[at + 1] as int / 4 % 4
            &&& f.frame_version == g.frame_version ==> a[at + 1] as int / 16 % 4 == b[at + 1] as int
                / 16 % 4
            &&& f.src_addressing_mode == g.src_addressing_mode ==> a[at + 1] as int / 64 == b[at
                + 1] as int / 64
        }),
        a[at] == a[at] as int % 8 + 8 * (a[at] as int / 8 % 2) + 16 * (a[at] as int / 16 % 2) + 32
            * (a[at] as int / 32 % 2) + 64 * (a[at] as int / 64 % 2) + 128 * (a[at] as int / 128),
        b[at] == b[at] as int % 8 + 8 * (b[at] as int / 8 % 2) + 16 * (b[at] as int / 16 % 2) + 32
            * (b[at] as int / 32 % 2) + 64 * (b[at] as int / 64 % 2) + 128 * (b[at] as int / 128),
        a[at + 1] == a[at + 1] as int % 2 + 2 * (a[at + 1] as int / 2 % 2) + 4 * (a[at + 1] as int
            / 4 % 4) + 16 * (a[at + 1] as int / 16 % 4) + 64 * (a[at + 1] as int / 64),
        b[at + 1] == b[at + 1] as int % 2 + 2 * (b[at + 1] as int / 2 % 2) + 4 * (b[at + 1] as int
            / 4 % 4) + 16 * (b[at + 1] as int / 16 % 4) + 64 * (b[at + 1] as int / 64),
{
    lemma_word_bits(a[at], a[at + 1]);
    lemma_word_bits(b[at], b[at + 1]);
    crate::frame::control_laws::lemma_octet_groups(a[at]);
    crate::frame::control_laws::lemma_octet_groups(b[at]);
    crate::frame::control_laws::lemma_octet_groups(a[at + 1]);
    crate::frame::control_laws::lemma_octet_groups(b[at + 1]);
}

/// The kind of a frame is told by its frame control field: a data frame has the type
/// one, a beacon has the type zero, and an enhanced beacon has the version two. Other
/// types, and frames with an invalid field, are refused.
pub proof fn lemma_frame_kinds<T: Octets>(buffer: T, frame: Result<Frame<T>, Error>)
    requires
        call_ensures(Frame::<T>::new, (buffer,), frame),
    ensures
        buffer.bytes().len() < 2 ==> frame is Err,
        buffer.bytes().len() >= 2 ==> ({
            let (l, h) = (buffer.bytes()[0] as int, buffer.bytes()[1] as int);
            let valid = h / 16 % 4 != 3 && h / 4 % 4 != 1 && h / 64 != 1;
            &&& frame is Ok <==> valid && (l % 8 == 0 || l % 8 == 1)
            &&& frame matches Ok(frame) ==> {
                &&& frame is Data <==> l % 8 == 1
                &&& frame is EnhancedBeacon <==> l % 8 == 0 && h / 16 % 4 == 2
                &&& frame is Beacon <==> l % 8 == 0 && h / 16 % 4 != 2
                &&& frame.container() == buffer
            }
        }),
{
    if buffer.bytes().len() >= 2 {
        lemma_word_bits(buffer.bytes()[0], buffer.bytes()[1]);
    }
}

/// Parsing an MPDU without security finds its fields one behind the other: those that
/// come before the addressing fields, the addressing fields as long as the frame control
/// field tells, and then the IEs up to where they are found to end. The rest is the
/// payload.
pub proof fn lemma_mpdu_parsed<Buffer: Octets, Config: DriverConfig>(
    mpdu: MpduFrame<Buffer>,
    fc: FrameControl<&[u8]>,
    repr: Result<AddressingRepr, Error>,
    addressing_length: Result<u16, Error>,
    start: MpduParser<MpduFrame<Buffer>, MpduWithFrameControl>,
    addressed: Result<MpduParser<MpduFrame<Buffer>, MpduWithAddressing>, Error>,
    secured: MpduParser<MpduFrame<Buffer>, MpduWithSecurity>,
    area: &[u8],
    ies_end: Option<usize>,
    complete: Result<MpduParser<MpduFrame<Buffer>, MpduWithAllFields>, Error>,
)
    requires
        mpdu.parsable(),
        mpdu.start() >= 0,
        mpdu@[mpdu.start() + 1] as int / 4 % 4 != 1,
        mpdu@[mpdu.start() + 1] as int / 64 != 1,
        call_ensures(MpduFrame::<Buffer>::frame_control, (&mpdu,), fc),
        call_ensures(AddressingRepr::from_frame_control::<&[u8]>, (fc,), repr),
        repr matches Ok(repr) ==> call_ensures(
            AddressingRepr::addressing_fields_length,
            (&repr,),
            addressing_length,
        ),
        repr is Err ==> addressing_length is Err,
        call_ensures(MpduFrame::<Buffer>::into_parser, (mpdu,), start),
        call_ensures(
            MpduParser::<MpduFrame<Buffer>, MpduWithFrameControl>::parse_addressing,
            (start,),
            addressed,
        ),
        addressed is Ok ==> call_ensures(
            MpduParser::<MpduFrame<Buffer>, MpduWithAddressing>::parse_security,
            (addressed->Ok_0,),
            secured,
        ),
        secured.ranges().offsets().ies <= mpdu.start() + mpdu.octets_wo_fcs() <= mpdu@.len(),
        area@ == mpdu@.subrange(
            secured.ranges().offsets().ies,
            mpdu.start() + mpdu.octets_wo_fcs(),
        ),
        call_ensures(find_ies_end, (area,), ies_end),
        addressed is Ok ==> call_ensures(
            MpduParser::<MpduFrame<Buffer>, MpduWithSecurity>::parse_ies::<Config>,
            (secured,),
            complete,
        ),
    ensures
        addressed is Ok <==> addressing_length is Ok,
        addressed is Ok ==> ({
            let fields_start = mpdu.start() + 2 + (if mpdu@[mpdu.start() + 1] as int % 2 == 1 {
                0int
            } else {
                1
            });
            let ies_present = mpdu@[mpdu.start() + 1] as int / 2 % 2 == 1;
            let ies_start = fields_start + addressing_length->Ok_0;
            &&& secured.ranges().offsets().addressing == fields_start
            &&& secured.ranges().offsets().ies == ies_start
            &&& complete is Ok <==> (!ies_present || ies_end is Some)
            &&& complete matches Ok(parser) ==> {
                let o = parser.ranges().offsets();
                &&& parser.inner() == mpdu
                &&& o.frame_control == mpdu.start()
                &&& o.addressing == fields_start
                &&& o.aux_sec_header == ies_start && o.ies == ies_start
                &&& !ies_present ==> o.frame_payload == ies_start
                &&& ies_present ==> o.frame_payload == ies_start + ies_end->0
                &&& o.mic == mpdu.start() + mpdu.octets_wo_fcs() && o.fcs == o.mic
                &&& o.remainder == o.fcs + Config::FCS_LENGTH
            }
        }),
{
    lemma_word_bits(mpdu@[mpdu.start()], mpdu@[mpdu.start() + 1]);
    if repr is Ok {
        lemma_announced(repr->Ok_0, mpdu.control_fields());
    }
    if addressed is Ok {
        crate::fields::field_ranges::lemma_offsets_ordered(secured.ranges());
        assert(secured.octets().subrange(
            secured.ranges().offsets().ies,
            mpdu.start() + mpdu.octets_wo_fcs(),
        ) =~= area@);
        crate::fields::ie_scan::lemma_ies_end_within(area@, 0);
    }
}

/// A parsed MPDU gives out its parts: the payload and the FCS only if they are not
/// empty, and the SDU in any case.
pub proof fn lemma_parsed_parts<Buffer: Octets>(
    parser: MpduParser<MpduFrame<Buffer>, MpduWithAllFields>,
    ies: IesFields<&[u8]>,
    payload: Option<&[u8]>,
    fcs: Option<&[u8]>,
    sdu: &[u8],
)
    requires
        parser.fields_wf(),
        call_ensures(
            MpduParser::<MpduFrame<Buffer>, MpduWithAllFields>::ies_fields,
            (&parser,),
            ies,
        ),
        call_ensures(
            MpduParser::<MpduFrame<Buffer>, MpduWithAllFields>::frame_payload,
            (&parser,),
            payload,
        ),
        call_ensures(MpduParser::<MpduFrame<Buffer>, MpduWithAllFields>::fcs, (&parser,), fcs),
        call_ensures(MpduParser::<MpduFrame<Buffer>, MpduWithAllFields>::sdu_ref, (&parser,), sdu),
    ensures
        ({
            let o = parser.ranges().offsets();
            let b = parser.inner()@;
            &&& ies@ == b.subrange(o.ies, o.frame_payload)
            &&& sdu@ == b.subrange(o.frame_payload, o.mic)
            &&& payload is Some <==> o.frame_payload < o.mic
            &&& payload matches Some(payload) ==> payload@ == sdu@
            &&& fcs is Some <==> o.fcs < o.remainder
            &&& fcs matches Some(fcs) ==> fcs@ == b.subrange(o.fcs, o.remainder)
        }),
{
    crate::fields::field_ranges::lemma_offsets_ordered(parser.ranges());
}

/// The payload of a parsed MPDU is written where it is read, and nothing else changes.
pub proof fn lemma_payload_written<Buffer: OctetsMut>(
    parser: &mut MpduParser<MpduFrame<Buffer>, MpduWithAllFields>,
    payload: Option<&mut [u8]>,
)
    requires
        parser.fields_wf(),
        call_ensures(
            MpduParser::<MpduFrame<Buffer>, MpduWithAllFields>::frame_payload_mut,
            (parser,),
            payload,
        ),
        payload matches Some(payload) ==> (*final(payload))@.len() == payload@.len(),
    ensures
        ({
            let o = old(parser).ranges().offsets();
            &&& final(parser).ranges() == old(parser).ranges()
            &&& payload is Some <==> o.frame_payload < o.mic
            &&& payload is None ==> *final(parser) == *old(parser)
            &&& payload matches Some(payload) ==> {
                &&& payload@ == old(parser).inner()@.subrange(o.frame_payload, o.mic)
                &&& final(parser).inner()@.subrange(o.frame_payload, o.mic) == (*final(payload))@
                &&& same_outside(
                    final(parser).inner()@,
                    old(parser).inner()@,
                    o.frame_payload,
                    o.mic,
                )
            }
        }),
{
    crate::fields::field_ranges::lemma_offsets_ordered(parser.ranges());
}

/// A parser reads what the MPDU that it parses reads.
pub proof fn lemma_parser_reads<Buffer: Octets, State>(
    parser: MpduParser<MpduFrame<Buffer>, State>,
    fc: FrameControl<&[u8]>,
    own_fc: FrameControl<&[u8]>,
    seq_nr: Option<u8>,
    own_seq_nr: Option<u8>,
    valid: bool,
    fc_valid: bool,
)
    requires
        call_ensures(MpduParser::<MpduFrame<Buffer>, State>::frame_control, (&parser,), fc),
        call_ensures(MpduFrame::<Buffer>::frame_control, (&parser.inner(),), own_fc),
        call_ensures(MpduParser::<MpduFrame<Buffer>, State>::sequence_number, (&parser,), seq_nr),
        call_ensures(MpduFrame::<Buffer>::sequence_number, (&parser.inner(),), own_seq_nr),
        call_ensures(MpduParser::<MpduFrame<Buffer>, State>::is_valid, (&parser,), valid),
        call_ensures(FrameControl::<&[u8]>::is_valid, (&fc,), fc_valid),
    ensures
        fc@ == own_fc@,
        seq_nr == own_seq_nr,
        valid == fc_valid,
{
}

/// A parser sets the request of an acknowledgment in its bit, the sixth one, and changes
/// nothing else.
pub proof fn lemma_parser_sets_ack_request<Buffer: OctetsMut, State>(
    parser: &mut MpduParser<MpduFrame<Buffer>, State>,
    value: bool,
)
    requires
        parser.inner().has_frame_control(),
        parser.inner().start() >= 0,
        call_ensures(
            MpduParser::<MpduFrame<Buffer>, State>::set_ack_request,
            (parser, value),
            (),
        ),
    ensures
        ({
            let at = old(parser).inner().start();
            let (before, after) = (old(parser).inner()@, final(parser).inner()@);
            &&& after[at] as int / 32 % 2 == flag_number(value)
            &&& after[at] as int % 32 == before[at] as int % 32
            &&& after[at] as int / 64 == before[at] as int / 64
            &&& same_outside(after, before, at, at + 1)
            &&& final(parser).ranges() == old(parser).ranges()
            &&& final(parser).inner().start() == at
        }),
{
    lemma_control_flag(parser.inner()@, final(parser).inner()@, parser.inner().start());
}

/// A parser sets that a frame is pending in its bit, the fifth one, and changes nothing
/// else.
pub proof fn lemma_parser_sets_frame_pending<Buffer: OctetsMut, State>(
    parser: &mut MpduParser<MpduFrame<Buffer>, State>,
    value: bool,
)
    requires
        parser.inner().has_frame_control(),
        parser.inner().start() >= 0,
        call_ensures(
            MpduParser::<MpduFrame<Buffer>, State>::set_frame_pending,
            (parser, value),
            (),
        ),
    ensures
        ({
            let at = old(parser).inner().start();
            let (before, after) = (old(parser).inner()@, final(parser).inner()@);
            &&& after[at] as int / 16 % 2 == flag_number(value)
            &&& after[at] as int % 16 == before[at] as int % 16
            &&& after[at] as int / 32 == before[at] as int / 32
            &&& same_outside(after, before, at, at + 1)
            &&& final(parser).ranges() == old(parser).ranges()
            &&& final(parser).inner().start() == at
        }),
{
    lemma_control_flag(parser.inner()@, final(parser).inner()@, parser.inner().start());
}

/// A sequence number that is set through a parser is read as it was set, unless it is
/// suppressed.
pub proof fn lemma_parser_sets_sequence_number<Buffer: OctetsMut, State>(
    parser: &mut MpduParser<MpduFrame<Buffer>, State>,
    other: &mut MpduParser<MpduFrame<Buffer>, State>,
    seq_nr: u8,
    r: Result<(), Error>,
    tried: Result<(), Error>,
    read: Option<u8>,
)
    requires
        parser.inner().has_sequence_number(),
        parser.inner().start() >= 0,
        *other == *parser,
        call_ensures(
            MpduParser::<MpduFrame<Buffer>, State>::set_sequence_number,
            (parser, seq_nr),
            r,
        ),
        call_ensures(
            MpduParser::<MpduFrame<Buffer>, State>::try_set_sequence_number,
            (other, seq_nr),
            tried,
        ),
        call_ensures(
            MpduParser::<MpduFrame<Buffer>, State>::sequence_number,
            (&*final(parser),),
            read,
        ),
    ensures
        ({
            let at = old(parser).inner().start();
            let (before, after) = (old(parser).inner()@, final(parser).inner()@);
            &&& r is Ok <==> before[at + 1] as int % 2 == 0
            &&& r is Ok ==> read == Some(seq_nr) && same_outside(after, before, at + 2, at + 3)
            &&& r is Err ==> read is None && after == before
            &&& tried is Ok <==> r is Ok
            &&& final(other).inner()@ == after
        }),
{
    let (at, b) = (parser.inner().start(), parser.inner()@);
    lemma_word_bits(b[at], b[at + 1]);
}

/// The addressing fields are the octets between the fields before them and those behind
/// them, and their parts are as long as the frame control field announces. All ways of
/// reading them agree.
pub proof fn lemma_parsed_addressing<'mpdu, Buffer: Octets>(
    parser: MpduParser<&'mpdu MpduFrame<Buffer>, MpduWithAddressing>,
    fc: FrameControl<&[u8]>,
    repr: Result<AddressingRepr, Error>,
    lengths: Result<[u8; 4], Error>,
    fields: Result<Option<AddressingFields<&[u8]>>, Error>,
    consumed: Result<Option<AddressingFields<&'mpdu [u8]>>, Error>,
)
    requires
        parser.addressing_wf(),
        call_ensures(
            MpduParser::<&'mpdu MpduFrame<Buffer>, MpduWithAddressing>::frame_control,
            (&parser,),
            fc,
        ),
        call_ensures(AddressingRepr::from_frame_control::<&[u8]>, (fc,), repr),
        repr matches Ok(repr) ==> call_ensures(
            AddressingRepr::addressing_fields_lengths,
            (&repr,),
            lengths,
        ),
        repr is Err ==> lengths is Err,
        call_ensures(
            MpduParser::<&'mpdu MpduFrame<Buffer>, MpduWithAddressing>::addressing_fields,
            (&parser,),
            fields,
        ),
        call_ensures(
            MpduParser::<&'mpdu MpduFrame<Buffer>, MpduWithAddressing>::into_addressing_fields,
            (parser,),
            consumed,
        ),
    ensures
        ({
            let o = parser.ranges().offsets();
            &&& fields is Ok <==> lengths is Ok && o.addressing < o.aux_sec_header
            &&& consumed is Ok <==> fields is Ok
            &&& fields matches Ok(fields) ==> {
                let l = lengths->Ok_0@;
                &&& fields matches Some(fields)
                &&& fields@ == parser.octets().subrange(o.addressing, o.aux_sec_header)
                &&& fields.offsets().dst_addr == l[0]
                &&& fields.offsets().src_pan_id == l[0] + l[1]
                &&& fields.offsets().src_addr == l[0] + l[1] + l[2]
                &&& fields.offsets().end == l[0] + l[1] + l[2] + l[3]
                &&& consumed matches Ok(Some(own)) && own@ == fields@ && own.offsets()
                    == fields.offsets()
            }
        }),
{
    if repr is Ok {
        lemma_announced(repr->Ok_0, parser.frame().control_fields());
    }
}

/// Both ways of going on to the addressing fields agree.
pub proof fn lemma_parsed_mutably<Buffer: OctetsMut>(
    parser: MpduParser<MpduFrame<Buffer>, MpduWithFrameControl>,
    shared: Result<MpduParser<MpduFrame<Buffer>, MpduWithAddressing>, Error>,
    mutable: Result<MpduParser<MpduFrame<Buffer>, MpduWithAddressing>, Error>,
)
    requires
        call_ensures(
            MpduParser::<MpduFrame<Buffer>, MpduWithFrameControl>::parse_addressing,
            (parser,),
            shared,
        ),
        call_ensures(
            MpduParser::<MpduFrame<Buffer>, MpduWithFrameControl>::parse_addressing_mut,
            (parser,),
            mutable,
        ),
    ensures
        shared is Ok <==> mutable is Ok,
        shared matches Ok(shared) ==> (mutable matches Ok(mutable) && mutable.inner()
            == shared.inner() && mutable.ranges().offsets().frame_control
            == shared.ranges().offsets().frame_control && mutable.ranges().offsets().addressing
            == shared.ranges().offsets().addressing && mutable.ranges().offsets().aux_sec_header
            == shared.ranges().offsets().aux_sec_header),
{
}

/// The IEs, the FCS and the SDU of a parsed MPDU are written where they are read, and
/// nothing else changes.
pub proof fn lemma_parts_written<Buffer: OctetsMut>(
    first: &mut MpduParser<MpduFrame<Buffer>, MpduWithAllFields>,
    second: &mut MpduParser<MpduFrame<Buffer>, MpduWithAllFields>,
    third: &mut MpduParser<MpduFrame<Buffer>, MpduWithAllFields>,
    ies: IesFields<&mut [u8]>,
    fcs: Option<&mut [u8]>,
    sdu: &mut [u8],
)
    requires
        first.fields_wf(),
        second.fields_wf(),
        third.fields_wf(),
        call_ensures(
            MpduParser::<MpduFrame<Buffer>, MpduWithAllFields>::ies_fields_mut,
            (first,),
            ies,
        ),
        call_ensures(
            MpduParser::<MpduFrame<Buffer>, MpduWithAllFields>::fcs_mut,
            (second,),
            fcs,
        ),
        call_ensures(
            MpduParser::<MpduFrame<Buffer>, MpduWithAllFields>::sdu_mut,
            (third,),
            sdu,
        ),
        (*final(ies.container()))@.len() == ies@.len(),
        fcs matches Some(fcs) ==> (*final(fcs))@.len() == fcs@.len(),
        (*final(sdu))@.len() == sdu@.len(),
    ensures
        ({
            let o = old(first).ranges().offsets();
            let (before, after) = (old(first).inner()@, final(first).inner()@);
            &&& ies@ == before.subrange(o.ies, o.frame_payload)
            &&& after.subrange(o.ies, o.frame_payload) == (*final(ies.container()))@
            &&& same_outside(after, before, o.ies, o.frame_payload)
        }),
        ({
            let o = old(second).ranges().offsets();
            let (before, after) = (old(second).inner()@, final(second).inner()@);
            &&& fcs is Some <==> o.fcs < o.remainder
            &&& fcs matches Some(fcs) ==> {
                &&& fcs@ == before.subrange(o.fcs, o.remainder)
                &&& after.subrange(o.fcs, o.remainder) == (*final(fcs))@
                &&& same_outside(after, before, o.fcs, o.remainder)
            }
            &&& fcs is None ==> after == before
        }),
        ({
            let o = old(third).ranges().offsets();
            let (before, after) = (old(third).inner()@, final(third).inner()@);
            &&& old(sdu)@ == before.subrange(o.frame_payload, o.mic)
            &&& after.subrange(o.frame_payload, o.mic) == (*final(sdu))@
            &&& same_outside(after, before, o.frame_payload, o.mic)
        }),
{
    crate::fields::field_ranges::lemma_offsets_ordered(first.ranges());
    crate::fields::field_ranges::lemma_offsets_ordered(second.ranges());
    crate::fields::field_ranges::lemma_offsets_ordered(third.ranges());
}

/// A parser begins behind the sequence number, however it is made, and gives its MPDU and
/// its buffer back.
pub proof fn lemma_parser_begins<Buffer: OctetsMut>(
    mpdu: &mut MpduFrame<Buffer>,
    read: MpduParser<&MpduFrame<Buffer>, MpduWithFrameControl>,
    written: MpduParser<&mut MpduFrame<Buffer>, MpduWithFrameControl>,
    owned: MpduParser<MpduFrame<Buffer>, MpduWithFrameControl>,
    back: MpduFrame<Buffer>,
    buffer: Buffer,
)
    requires
        mpdu.parsable(),
        mpdu.start() >= 0,
        call_ensures(MpduFrame::<Buffer>::reader, (&*old(mpdu),), read),
        call_ensures(MpduFrame::<Buffer>::writer, (mpdu,), written),
        call_ensures(MpduFrame::<Buffer>::into_parser, (*mpdu,), owned),
        call_ensures(
            MpduParser::<MpduFrame<Buffer>, MpduWithFrameControl>::into_mpdu_frame,
            (owned,),
            back,
        ),
        call_ensures(
            MpduParser::<MpduFrame<Buffer>, MpduWithFrameControl>::into_buffer,
            (owned,),
            buffer,
        ),
    ensures
        ({
            let at = old(mpdu).start();
            let end = at + 2 + (if old(mpdu)@[at + 1] as int % 2 == 1 {
                0int
            } else {
                1
            });
            &&& read.ranges().offsets().frame_control == at
            &&& written.ranges().offsets().frame_control == at
            &&& owned.ranges().offsets().frame_control == at
            &&& read.ranges().offsets().addressing == end
            &&& written.ranges().offsets().addressing == end
            &&& owned.ranges().offsets().addressing == end
            &&& read.frame() == *old(mpdu) && written.frame() == *old(mpdu)
            &&& *final(mpdu) == *final(written.inner())
            &&& back == *old(mpdu) && buffer == old(mpdu).container()
        }),
{
    let (at, b) = (mpdu.start(), mpdu@);
    lemma_word_bits(b[at], b[at + 1]);
}

/// A radio frame becomes an MPDU and the other way round without a change of its octets.
/// The MPDU begins at the SDU and has its length without the FCS.
pub proof fn lemma_radio_frame_round_trip<Buffer: Octets, Config: DriverConfig>(
    frame: RadioFrame<Buffer, RadioFrameSized>,
    mpdu: MpduFrame<Buffer>,
    back: RadioFrame<Buffer, RadioFrameSized>,
    made: MpduFrame<Buffer>,
    start: u8,
    length: u16,
    made_start: u8,
    made_length: u16,
    buffer: Buffer,
)
    requires
        frame.wf(),
        frame.sdu_start() == Config::HEADROOM,
        frame.sdu_end() - frame.sdu_end_wo_fcs() == Config::FCS_LENGTH,
        call_ensures(MpduFrame::<Buffer>::from_radio_frame, (frame,), mpdu),
        call_ensures(MpduFrame::<Buffer>::into_radio_frame::<Config>, (mpdu,), back),
        call_ensures(MpduFrame::<Buffer>::new, (frame.container(), start, length), made),
        call_ensures(MpduFrame::<Buffer>::offset_mpdu, (&made,), made_start),
        call_ensures(MpduFrame::<Buffer>::pdu_length_wo_fcs, (&made,), made_length),
        call_ensures(MpduFrame::<Buffer>::into_buffer, (made,), buffer),
    ensures
        mpdu.start() == frame.sdu_start(),
        mpdu.octets_wo_fcs() == frame.sdu_end_wo_fcs() - frame.sdu_start(),
        mpdu.container() == frame.container(),
        back.container() == frame.container(),
        back.sdu_start() == frame.sdu_start() && back.sdu_end_wo_fcs() == frame.sdu_end_wo_fcs()
            && back.sdu_end() == frame.sdu_end(),
        made_start == start && made_length == length && buffer == frame.container(),
{
}

/// A parser becomes the same radio frame as its MPDU.
pub proof fn lemma_parser_to_radio_frame<Buffer: Octets, Config: DriverConfig, State>(
    parser: MpduParser<MpduFrame<Buffer>, State>,
    frame: RadioFrame<Buffer, RadioFrameSized>,
    own: RadioFrame<Buffer, RadioFrameSized>,
)
    requires
        call_ensures(
            MpduParser::<MpduFrame<Buffer>, State>::into_radio_frame::<Config>,
            (parser,),
            frame,
        ),
        call_ensures(MpduFrame::<Buffer>::into_radio_frame::<Config>, (parser.inner(),), own),
    ensures
        frame.container() == own.container() && frame.sdu_start() == own.sdu_start()
            && frame.sdu_end_wo_fcs() == own.sdu_end_wo_fcs() && frame.sdu_end() == own.sdu_end(),
{
}

/// The frame control field and the buffer of an MPDU are written where they are read.
pub proof fn lemma_mpdu_written<Buffer: OctetsMut>(
    first: &mut MpduFrame<Buffer>,
    second: &mut MpduFrame<Buffer>,
    fc: FrameControl<&mut [u8]>,
    octets: &mut [u8],
)
    requires
        first.has_frame_control(),
        first.start() >= 0,
        call_ensures(MpduFrame::<Buffer>::frame_control_mut, (first,), fc),
        call_ensures(MpduFrame::<Buffer>::buffer_mut, (second,), octets),
        (*final(fc.container()))@.len() == 2,
    ensures
        ({
            let at = old(first).start();
            &&& fc@ == old(first)@.subrange(at, at + 2)
            &&& final(first)@.subrange(at, at + 2) == (*final(fc.container()))@
            &&& same_outside(final(first)@, old(first)@, at, at + 2)
            &&& final(first).start() == at
        }),
        old(octets)@ == old(second)@ && final(second)@ == final(octets)@,
        final(second).start() == old(second).start(),
{
}

/// A frame of a known kind is taken as what it is.
pub proof fn lemma_frame_taken<T>(
    beacon: BeaconFrame<T>,
    enhanced: EnhancedBeaconFrame<T>,
    data: DataFrame<T>,
    beacon_taken: BeaconFrame<T>,
    enhanced_taken: EnhancedBeaconFrame<T>,
    data_taken: DataFrame<T>,
)
    requires
        call_ensures(Frame::<T>::into_beacon, (Frame::Beacon(beacon),), beacon_taken),
        call_ensures(
            Frame::<T>::into_enhanced_beacon,
            (Frame::EnhancedBeacon(enhanced),),
            enhanced_taken,
        ),
        call_ensures(Frame::<T>::into_data, (Frame::Data(data),), data_taken),
    ensures
        beacon_taken == beacon && enhanced_taken == enhanced && data_taken == data,
{
}

/// The addressing fields of a parsed MPDU are written where they are read, and nothing
/// else changes.
pub proof fn lemma_parsed_addressing_written<Buffer: OctetsMut>(
    parser: &mut MpduParser<MpduFrame<Buffer>, MpduWithAddressing>,
    read: Result<Option<AddressingFields<&[u8]>>, Error>,
    fields: Result<Option<AddressingFields<&mut [u8]>>, Error>,
)
    requires
        parser.addressing_wf(),
        call_ensures(
            MpduParser::<MpduFrame<Buffer>, MpduWithAddressing>::addressing_fields,
            (&*old(parser),),
            read,
        ),
        call_ensures(
            MpduParser::<MpduFrame<Buffer>, MpduWithAddressing>::addressing_fields_mut,
            (parser,),
            fields,
        ),
        fields matches Ok(Some(fields)) ==> (*final(fields.container()))@.len() == fields@.len(),
    ensures
        ({
            let o = old(parser).ranges().offsets();
            let (before, after) = (old(parser).inner()@, final(parser).inner()@);
            &&& fields is Ok <==> read is Ok
            &&& fields is Err ==> *final(parser) == *old(parser)
            &&& fields matches Ok(fields) ==> {
                &&& fields matches Some(fields)
                &&& read matches Ok(Some(read)) && fields@ == read@ && fields.offsets()
                    == read.offsets()
                &&& after.subrange(o.addressing, o.aux_sec_header) == (*final(fields.container()))@
                &&& same_outside(after, before, o.addressing, o.aux_sec_header)
            }
        }),
{
}

} // verus!
