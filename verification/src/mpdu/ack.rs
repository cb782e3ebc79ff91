//! Acknowledgment frames.

use vstd::prelude::*;

use crate::fields::ie_layout::{
    all_encodable, ie_initialized, ie_offset, nested_length, select, transmission_order,
};
use crate::fields::ie_scan::ies_end;
use crate::fields::mpdu::{ies_octets, MpduParser};
use crate::fields::mpdu_writer::{buffer_suffices, laid_out, with_control_of};
use crate::frame::addressing_repr::announced_length;
use crate::frame::driver_config::{config_valid, DriverConfig};
use crate::frame::frame_control::{
    lemma_ack_words, lemma_fields_determine_word, lemma_zero_word, FrameType, FrameVersion,
};
use crate::ies::header::{
    header_ie_complete, header_ie_span, header_ie_with_id, header_ies_from,
    lemma_time_correction_word, time_correction_nack, time_correction_sync,
};
use crate::ies::header_ie_id;
use crate::ies::span::{lemma_scan_step, IeSpan};
use crate::mpdu::frame::{control_fields_at, MpduFrame};
use crate::octets::{lemma_u16_round_trip, put_u16, splice, u16_at, OctetsMut};
use crate::repr::ies::{
    has_header_ie, has_nested_ie, kinds_of, list_length, sum_lengths, IeListRepr, IeRepr,
    IeReprList, IeReprWithTermination,
};
use crate::repr::mpdu::{MpduLengths, MpduRepr, SeqNrRepr};
use crate::states::{MpduWithAllFields, MpduWithIes};

verus! {

/// Length of an immediate acknowledgment without its FCS.
pub const ACK_MPDU_SIZE_WO_FCS: u16 = 3;

/// Length of an enhanced acknowledgment without its FCS: frame control field (2),
/// sequence number (1), descriptor (2) and content (2) of the time correction IE.
pub const ENH_ACK_MPDU_SIZE_WO_FCS: u16 = 7;

/// Structural representation of an immediate acknowledgment.
pub fn imm_ack_frame_repr() -> (r: MpduRepr<'static, MpduWithIes>)
    ensures
        r.seq() == SeqNrRepr::Yes,
        r.addr() is None,
        r.sec() is None,
        r.ie_list() is Empty,
        r.lengths(0) matches Some(lengths) && lengths.total() == ACK_MPDU_SIZE_WO_FCS,
{
    MpduRepr::new().with_frame_control(
        SeqNrRepr::Yes,
    ).without_addressing().without_security().without_ies()
}

/// The lengths of the fields of an acknowledgment with IEs of the given length.
pub open spec fn ack_lengths(ies: int) -> MpduLengths {
    MpduLengths { seq_nr: 1, addressing: 0, aux_sec_header: 0, ies, frame_payload: 0, mic: 0 }
}

/// The octets of an immediate acknowledgment: frame control field and sequence
/// number.
pub open spec fn imm_ack_octets(seq_num: u8) -> Seq<u8> {
    seq![0x02, 0x10, seq_num]
}

/// The octets of an enhanced acknowledgment: frame control field, sequence number
/// and a time correction IE with the given content.
pub open spec fn enh_ack_octets(seq_num: u8, content: int) -> Seq<u8> {
    seq![
        0x02,
        0x22,
        seq_num,
        0x02,
        0x0f,
        (content % 0x100) as u8,
        (content / 0x100) as u8,
    ]
}

/// The content of a time correction IE once its time synchronization information
/// is set.
pub open spec fn with_time_sync(content: int, time_sync: int) -> int {
    content - content % 0x1000 + time_sync % 0x1000
}

/// The content of a time correction IE once its negative acknowledgment bit is set
/// or cleared.
pub open spec fn with_nack(content: int, nack: bool) -> int {
    content % 0x8000 + (if nack { 0x8000int } else { 0int })
}

/// Initializes an immediate acknowledgment in a buffer.
pub fn imm_ack_frame<Config: DriverConfig, Buffer: OctetsMut>(seq_num: u8, buffer: Buffer) -> (r:
    MpduParser<MpduFrame<Buffer>, MpduWithAllFields>)
    requires
        config_valid::<Config>(),
        buffer_suffices::<Config>(ack_lengths(0), buffer.bytes().len() as int),
    ensures
        r.fields_wf(),
        r.control_wf(),
        r.inner().start() == Config::HEADROOM,
        r.inner().octets_wo_fcs() == ACK_MPDU_SIZE_WO_FCS,
        laid_out(r.ranges(), Config::HEADROOM as int, ack_lengths(0), Config::FCS_LENGTH as int),
        r.inner()@ == splice(
            buffer.bytes(),
            Config::HEADROOM as int,
            Config::HEADROOM + 3,
            imm_ack_octets(seq_num),
        ),
        exists|x: &mut Buffer, w: &mut [u8], y: &mut Buffer, v: &mut [u8]|
            {
                &&& #[trigger] call_ensures(Buffer::octets_mut, (x,), w)
                &&& #[trigger] call_ensures(Buffer::octets_mut, (y,), v)
                &&& *x == buffer
                &&& *final(x) == *y
                &&& *final(y) == r.inner().container()
            },
{
    let ghost before = buffer.bytes();
    let ghost at = Config::HEADROOM as int;
    let repr = imm_ack_frame_repr();
    proof {
        lemma_empty_encodable();
    }
    let mut ack_frame = match repr.into_writer::<Config, Buffer>(
        FrameVersion::Ieee802154_2006,
        FrameType::Ack,
        0,
        buffer,
    ) {
        Ok(ack_frame) => ack_frame,
        Err(_) => {
            assert(false);
            vstd::pervasive::unreached()
        },
    };
    let ghost built = ack_frame.inner()@;
    proof {
        lemma_ack_words();
        lemma_zero_word();
        lemma_fields_determine_word(u16_at(built, at) as u16, 0x1002);
    }
    let _ = ack_frame.try_set_sequence_number(seq_num);
    assert(ack_frame.inner()@ =~= splice(before, at, at + 3, imm_ack_octets(seq_num)));
    ack_frame
}

proof fn lemma_empty_encodable()
    ensures
        all_encodable(Seq::<IeReprWithTermination<'static>>::empty()),
{
}

/// Structural representation of an enhanced acknowledgment with the given IEs.
pub fn enh_ack_frame_repr<'ies>(ies: &'ies [IeRepr<'ies>]) -> (r: MpduRepr<'ies, MpduWithIes>)
    ensures
        r.seq() == SeqNrRepr::Yes,
        r.addr() is None,
        r.sec() is None,
        r.ie_list() matches IeListRepr::WithoutTerminationIes(list) && list.ies() == ies@,
{
    MpduRepr::new().with_frame_control(
        SeqNrRepr::Yes,
    ).without_addressing().without_security().with_ies(
        IeListRepr::WithoutTerminationIes(IeReprList::new(ies)),
    )
}

/// A single time correction IE is transmitted without any termination IE if no
/// frame payload follows.
proof fn lemma_single_time_correction(ies: Seq<IeRepr<'_>>)
    requires
        ies == seq![IeRepr::TimeCorrectionHeaderIe],
    ensures
        has_header_ie(ies),
        list_length(ies, false) == 4,
        transmission_order(ies, false) == seq![
            IeReprWithTermination::NonTerminationIe(ies[0]),
        ],
        all_encodable(transmission_order(ies, false)),
        ie_offset(transmission_order(ies, false), 0) == 0,
{
    assert(ies.drop_last() =~= Seq::empty());
    reveal_with_fuel(select, 2);
    reveal_with_fuel(sum_lengths, 2);
    assert(ies[0].is_header());
    assert(!has_nested_ie(ies));
    let list = transmission_order(ies, false);
    assert(list =~= seq![IeReprWithTermination::NonTerminationIe(ies[0])]);
    assert(list.drop_last() =~= Seq::empty());
    reveal_with_fuel(nested_length, 2);
    assert(list.subrange(0, 0) =~= Seq::empty());
    assert(list.subrange(0, 1) =~= list);
    assert(!kinds_of(list).nested);
}

/// Initializes an enhanced acknowledgment in a buffer. Its time correction IE tells
/// neither a time correction nor a negative acknowledgment. Its reserved bits are
/// those of the buffer. The actual time correction has to be set before
/// transmission.
pub fn enh_ack_frame<Config: DriverConfig, Buffer: OctetsMut>(seq_num: u8, buffer: Buffer) -> (r:
    MpduParser<MpduFrame<Buffer>, MpduWithAllFields>)
    requires
        config_valid::<Config>(),
        buffer_suffices::<Config>(ack_lengths(4), buffer.bytes().len() as int),
    ensures
        r.fields_wf(),
        r.control_wf(),
        r.inner().start() == Config::HEADROOM,
        r.inner().octets_wo_fcs() == ENH_ACK_MPDU_SIZE_WO_FCS,
        laid_out(r.ranges(), Config::HEADROOM as int, ack_lengths(4), Config::FCS_LENGTH as int),
        r.inner()@ == splice(
            buffer.bytes(),
            Config::HEADROOM as int,
            Config::HEADROOM + 7,
            enh_ack_octets(
                seq_num,
                with_nack(with_time_sync(u16_at(buffer.bytes(), Config::HEADROOM + 5), 0), false),
            ),
        ),
        exists|
            x: &mut Buffer,
            w: &mut [u8],
            y: &mut Buffer,
            v: &mut [u8],
            z: &mut Buffer,
            u: &mut [u8],
        |
            {
                &&& #[trigger] call_ensures(Buffer::octets_mut, (x,), w)
                &&& #[trigger] call_ensures(Buffer::octets_mut, (y,), v)
                &&& #[trigger] call_ensures(Buffer::octets_mut, (z,), u)
                &&& *x == buffer
                &&& *final(x) == *y
                &&& *final(y) == *z
                &&& *final(z) == r.inner().container()
            },
{
    let ghost before = buffer.bytes();
    let ghost at = Config::HEADROOM as int;
    let ies: [IeRepr<'_>; 1] = [IeRepr::TimeCorrectionHeaderIe];
    let repr = enh_ack_frame_repr(ies.as_slice());
    proof {
        assert(ies@ =~= seq![IeRepr::TimeCorrectionHeaderIe]);
        lemma_single_time_correction(ies@);
    }
    let mut ack_frame = match repr.into_writer::<Config, Buffer>(
        FrameVersion::Ieee802154,
        FrameType::Ack,
        0,
        buffer,
    ) {
        Ok(ack_frame) => ack_frame,
        Err(_) => {
            assert(false);
            vstd::pervasive::unreached()
        },
    };
    let ghost built = ack_frame.inner()@;
    let ghost content = u16_at(before, at + 5);
    proof {
        lemma_ack_words();
        lemma_zero_word();
        lemma_fields_determine_word(u16_at(built, at) as u16, 0x2202);
        let initial = with_control_of(before, built, at);
        let list = transmission_order(ies@, false);
        assert(ie_initialized(initial, built, at + 3 + ie_offset(list, 0), list[0]));
        assert(built[at + 5 + 0] == initial[at + 5 + 0]);
        assert(built[at + 5 + 1] == initial[at + 5 + 1]);
    }
    let _ = ack_frame.try_set_sequence_number(seq_num);
    let ghost numbered = ack_frame.inner()@;
    assert(numbered =~= splice(before, at, at + 7, enh_ack_octets(seq_num, content)));
    proof {
        assert(numbered.subrange(at, at + 7) =~= enh_ack_octets(seq_num, content));
        lemma_enh_ack_found(numbered, at, seq_num, content);
    }
    let mut ies_fields = ack_frame.ies_fields_mut();
    if let Some(mut time_correction) = ies_fields.time_correction_mut() {
        proof {
            lemma_time_correction_word(content, 0, false);
            lemma_u16_round_trip(time_correction@, 0, with_time_sync(content, 0));
        }
        time_correction.set_time_sync(0);
        time_correction.set_nack(false);
        proof {
            time_correction.lemma_released();
        }
    }
    proof {
        ies_fields.lemma_released();
    }
    assert(ack_frame.inner()@ =~= splice(
        before,
        at,
        at + 7,
        enh_ack_octets(seq_num, with_nack(with_time_sync(content, 0), false)),
    ));
    ack_frame
}

/// The fields of an enhanced acknowledgment are found where they are: neither
/// addressing nor security related fields, and a single time correction IE.
pub proof fn lemma_enh_ack_found(octets: Seq<u8>, at: int, seq_num: u8, content: int)
    requires
        0 <= at,
        at + 7 <= octets.len(),
        0 <= content < 0x1_0000,
        octets.subrange(at, at + 7) == enh_ack_octets(seq_num, content),
    ensures
        ({
            let fields = control_fields_at(octets, at);
            &&& fields.frame_type == FrameType::Ack
            &&& fields.frame_version == FrameVersion::Ieee802154
            &&& !fields.sequence_number_suppression
            &&& announced_length(fields) == Some(0int)
            &&& !fields.security_enabled
            &&& fields.information_elements_present
        }),
        octets[at + 2] == seq_num,
        ies_octets(octets, true, at + 3, at + 7) == Some(4int),
        header_ie_with_id(
            octets.subrange(at + 3, at + 7),
            header_ie_id::TIME_CORRECTION as int,
        ) == Some(IeSpan { id: header_ie_id::TIME_CORRECTION as int, start: 2int, end: 4int }),
        u16_at(octets.subrange(at + 3, at + 7), 2) == content,
{
    let octets7 = octets.subrange(at, at + 7);
    assert(forall|k: int| 0 <= k < 7 ==> octets7[k] == #[trigger] octets[at + k]);
    assert(octets[at + 0] == 0x02 && octets[at + 1] == 0x22);
    lemma_ack_words();
    lemma_zero_word();
    assert(u16_at(octets, at) == 0x2202);
    let area = octets.subrange(at + 3, at + 7);
    assert(area[0] == octets[at + 3] && area[1] == octets[at + 4]);
    assert(area[2] == octets[at + 5] && area[3] == octets[at + 6]);
    assert(u16_at(area, 0) == 0x0f02);
    assert(header_ie_complete(area, 0));
    assert(!header_ie_complete(area, 4));
    lemma_scan_step(
        header_ie_span(area, 0),
        header_ies_from(area, 4),
        header_ie_id::TIME_CORRECTION as int,
        header_ie_id::termination_ids(),
    );
    reveal_with_fuel(ies_end, 2);
}

/// A time correction and a negative acknowledgment that are set in an enhanced
/// acknowledgment are found again when it is parsed. Nothing else changes.
pub proof fn lemma_enh_ack_read_back(
    octets: Seq<u8>,
    at: int,
    seq_num: u8,
    content: int,
    time_sync: int,
    nack: bool,
)
    requires
        0 <= at,
        at + 7 <= octets.len(),
        0 <= content < 0x1_0000,
        octets.subrange(at, at + 7) == enh_ack_octets(seq_num, content),
        -0x800 <= time_sync < 0x800,
    ensures
        ({
            let area = octets.subrange(at + 3, at + 7);
            let synced = put_u16(area.subrange(2, 4), 0, with_time_sync(content, time_sync));
            let set = put_u16(synced, 0, with_nack(u16_at(synced, 0), nack));
            let sent = splice(octets, at + 3, at + 7, splice(area, 2, 4, set));
            let found = sent.subrange(at + 3, at + 7);
            &&& control_fields_at(sent, at) == control_fields_at(octets, at)
            &&& sent[at + 2] == octets[at + 2]
            &&& ies_octets(sent, true, at + 3, at + 7) == Some(4int)
            &&& header_ie_with_id(found, header_ie_id::TIME_CORRECTION as int) == Some(
                IeSpan { id: header_ie_id::TIME_CORRECTION as int, start: 2int, end: 4int },
            )
            &&& time_correction_sync(u16_at(found.subrange(2, 4), 0)) == time_sync
            &&& time_correction_nack(u16_at(found.subrange(2, 4), 0)) == nack
        }),
{
    let area = octets.subrange(at + 3, at + 7);
    let synced = put_u16(area.subrange(2, 4), 0, with_time_sync(content, time_sync));
    let set = put_u16(synced, 0, with_nack(u16_at(synced, 0), nack));
    let sent = splice(octets, at + 3, at + 7, splice(area, 2, 4, set));
    let found = sent.subrange(at + 3, at + 7);
    lemma_enh_ack_found(octets, at, seq_num, content);
    lemma_time_correction_word(content, time_sync, nack);
    lemma_time_correction_word(with_time_sync(content, time_sync), time_sync, nack);
    lemma_u16_round_trip(area.subrange(2, 4), 0, with_time_sync(content, time_sync));
    lemma_u16_round_trip(synced, 0, with_nack(u16_at(synced, 0), nack));
    let word = with_nack(with_time_sync(content, time_sync), nack);
    assert(octets.subrange(at, at + 7)[2] == octets[at + 2]);
    assert(octets.subrange(at, at + 7)[3] == octets[at + 3]);
    assert(octets.subrange(at, at + 7)[4] == octets[at + 4]);
    assert(octets.subrange(at, at + 7)[0] == octets[at]);
    assert(octets.subrange(at, at + 7)[1] == octets[at + 1]);
    assert(sent.subrange(at, at + 7) =~= enh_ack_octets(seq_num, word));
    lemma_enh_ack_found(sent, at, seq_num, word);
    assert(found.subrange(2, 4) =~= set);
}

} // verus!
