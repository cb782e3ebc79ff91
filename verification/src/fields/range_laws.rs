//! What the ranges of the fields of an MPDU are for.
//!
//! The laws speak of calls: each relates the arguments and the results of one or
//! more functions.

use vstd::prelude::*;

use core::ops::Range;

use crate::fields::field_ranges::{lemma_offsets_ordered, MpduFieldRanges};
use crate::frame::addressing_repr::AddressingRepr;
use crate::frame::driver_config::DriverConfig;
use crate::repr::ies::IeListRepr;
use crate::repr::mpdu::{SecurityRepr, SeqNrRepr};
use crate::states::{MpduWithAddressing, MpduWithAllFields, MpduWithFrameControl, MpduWithSecurity};
use crate::Error;

verus! {

/// Whether an optional range goes from one offset to another, and is there unless it is
/// empty.
pub open spec fn spans(range: Option<Range<usize>>, start: int, end: int) -> bool {
    match range {
        Some(range) => range.start == start && range.end == end && start < end,
        None => start == end,
    }
}

/// The frame control field is followed by the sequence number, if there is one, by the
/// addressing fields and by the auxiliary security header. Each begins where the one
/// before it ends.
pub proof fn lemma_leading_fields_adjacent(
    offset: u8,
    seq_nr: SeqNrRepr,
    addressing: AddressingRepr,
    security: SecurityRepr,
    control: MpduFieldRanges<MpduWithFrameControl>,
    addressed: Result<MpduFieldRanges<MpduWithAddressing>, Error>,
    secured: MpduFieldRanges<MpduWithSecurity>,
    addressing_length: Result<u16, Error>,
    aux_length: u8,
    control_range: Range<usize>,
    seq_nr_offset: u16,
    addressing_range: Option<Range<usize>>,
    aux_range: Option<Range<usize>>,
)
    requires
        call_ensures(MpduFieldRanges::<MpduWithFrameControl>::new, (offset, seq_nr), control),
        call_ensures(AddressingRepr::addressing_fields_length, (&addressing,), addressing_length),
        call_ensures(SecurityRepr::aux_sec_header_length, (&security,), aux_length),
        call_ensures(
            MpduFieldRanges::<MpduWithFrameControl>::with_addressing,
            (&control, addressing),
            addressed,
        ),
        addressed is Ok,
        call_ensures(
            MpduFieldRanges::<MpduWithAddressing>::with_security,
            (&addressed->Ok_0, security),
            secured,
        ),
        call_ensures(
            MpduFieldRanges::<MpduWithSecurity>::range_frame_control,
            (&secured,),
            control_range,
        ),
        call_ensures(
            MpduFieldRanges::<MpduWithSecurity>::offset_seq_nr,
            (&secured,),
            seq_nr_offset,
        ),
        call_ensures(
            MpduFieldRanges::<MpduWithSecurity>::range_addressing,
            (&secured,),
            addressing_range,
        ),
        call_ensures(
            MpduFieldRanges::<MpduWithSecurity>::range_aux_sec_header,
            (&secured,),
            aux_range,
        ),
    ensures
        ({
            let seq_nr_end = offset + 2 + (if seq_nr == SeqNrRepr::Yes {
                1int
            } else {
                0
            });
            let addressing_end = seq_nr_end + addressing_length->Ok_0;
            &&& addressing_length is Ok
            &&& control_range.start == offset && control_range.end == offset + 2
            &&& seq_nr_offset == control_range.end
            &&& spans(addressing_range, seq_nr_end, addressing_end)
            &&& spans(aux_range, addressing_end, addressing_end + aux_length)
        }),
{
    lemma_offsets_ordered(secured);
}

/// Addressing whose length cannot be told has no range.
pub proof fn lemma_invalid_addressing_refused(
    control: MpduFieldRanges<MpduWithFrameControl>,
    addressing: AddressingRepr,
    length: Result<u16, Error>,
    addressed: Result<MpduFieldRanges<MpduWithAddressing>, Error>,
)
    requires
        call_ensures(AddressingRepr::addressing_fields_length, (&addressing,), length),
        call_ensures(
            MpduFieldRanges::<MpduWithFrameControl>::with_addressing,
            (&control, addressing),
            addressed,
        ),
    ensures
        addressed is Err <==> length is Err,
{
}

/// Without addressing or security there are no octets for them.
pub proof fn lemma_absent_fields(
    offset: u8,
    seq_nr: SeqNrRepr,
    control: MpduFieldRanges<MpduWithFrameControl>,
    addressed: MpduFieldRanges<MpduWithAddressing>,
    secured: MpduFieldRanges<MpduWithSecurity>,
    addressing_range: Option<Range<usize>>,
    aux_range: Option<Range<usize>>,
)
    requires
        call_ensures(MpduFieldRanges::<MpduWithFrameControl>::new, (offset, seq_nr), control),
        call_ensures(
            MpduFieldRanges::<MpduWithFrameControl>::without_addressing,
            (&control,),
            addressed,
        ),
        call_ensures(
            MpduFieldRanges::<MpduWithAddressing>::without_security,
            (&addressed,),
            secured,
        ),
        call_ensures(
            MpduFieldRanges::<MpduWithSecurity>::range_addressing,
            (&secured,),
            addressing_range,
        ),
        call_ensures(
            MpduFieldRanges::<MpduWithSecurity>::range_aux_sec_header,
            (&secured,),
            aux_range,
        ),
    ensures
        addressing_range is None && aux_range is None,
        secured.offsets().ies == offset + 2 + (if seq_nr == SeqNrRepr::Yes {
            1int
        } else {
            0
        }),
        secured.mic_octets() == 0,
{
}

/// The leading fields are followed by the IEs, the frame payload, the MIC and the FCS.
/// Each begins where the one before it ends, and the tailroom begins behind them.
pub proof fn lemma_trailing_fields_adjacent<Config: DriverConfig>(
    secured: MpduFieldRanges<MpduWithSecurity>,
    ies: IeListRepr<'_>,
    payload: u16,
    ies_length: Result<u16, Error>,
    complete: Result<MpduFieldRanges<MpduWithAllFields>, Error>,
    ranges: MpduFieldRanges<MpduWithAllFields>,
    ies_range: Option<Range<usize>>,
    payload_range: Option<Range<usize>>,
    payload_start: u16,
    payload_end: u16,
    mic_range: Option<Range<usize>>,
    fcs_range: Option<Range<usize>>,
    tailroom: u16,
)
    requires
        call_ensures(IeListRepr::<'_>::ies_length, (&ies, payload > 0), ies_length),
        call_ensures(
            MpduFieldRanges::<MpduWithSecurity>::with_ies_and_payload_length::<Config>,
            (&secured, ies, payload),
            complete,
        ),
        complete == Ok::<MpduFieldRanges<MpduWithAllFields>, Error>(ranges),
        call_ensures(MpduFieldRanges::<MpduWithAllFields>::range_ies, (&ranges,), ies_range),
        call_ensures(
            MpduFieldRanges::<MpduWithAllFields>::range_frame_payload,
            (&ranges,),
            payload_range,
        ),
        call_ensures(
            MpduFieldRanges::<MpduWithAllFields>::offset_frame_payload,
            (&ranges,),
            payload_start,
        ),
        call_ensures(
            MpduFieldRanges::<MpduWithAllFields>::offset_frame_payload_end,
            (&ranges,),
            payload_end,
        ),
        call_ensures(MpduFieldRanges::<MpduWithAllFields>::range_mic, (&ranges,), mic_range),
        call_ensures(MpduFieldRanges::<MpduWithAllFields>::range_fcs, (&ranges,), fcs_range),
        call_ensures(MpduFieldRanges::<MpduWithAllFields>::offset_tailroom, (&ranges,), tailroom),
    ensures
        ({
            let start = secured.offsets().ies;
            let ies_end = start + ies_length->Ok_0;
            let end = ies_end + payload;
            let mic_end = end + secured.mic_octets();
            &&& ies_length is Ok
            &&& spans(ies_range, start, ies_end)
            &&& payload_start == ies_end && payload_end == end
            &&& spans(payload_range, ies_end, end)
            &&& spans(mic_range, end, mic_end)
            &&& spans(fcs_range, mic_end, mic_end + Config::FCS_LENGTH)
            &&& tailroom == mic_end + Config::FCS_LENGTH
        }),
{
    lemma_offsets_ordered(ranges);
}

/// Fields that are completed by the length of the payload can be completed by the
/// length of the whole MPDU as well, with the same result.
pub proof fn lemma_completed_by_mpdu_length<Config: DriverConfig>(
    secured: MpduFieldRanges<MpduWithSecurity>,
    payload: u16,
    mpdu_length: u16,
    by_payload: MpduFieldRanges<MpduWithAllFields>,
    by_mpdu: Result<MpduFieldRanges<MpduWithAllFields>, Error>,
)
    requires
        call_ensures(
            MpduFieldRanges::<MpduWithSecurity>::without_ies_with_payload_length::<Config>,
            (&secured, payload),
            by_payload,
        ),
        mpdu_length == by_payload.offsets().fcs - by_payload.offsets().frame_control,
        call_ensures(
            MpduFieldRanges::<MpduWithSecurity>::without_ies_with_mpdu_length::<Config>,
            (&secured, mpdu_length),
            by_mpdu,
        ),
    ensures
        by_mpdu matches Ok(ranges) && ranges.offsets() == by_payload.offsets(),
        by_payload.offsets().frame_payload == secured.offsets().ies,
        by_payload.offsets().mic == secured.offsets().ies + payload,
        by_payload.offsets().fcs == by_payload.offsets().mic + secured.mic_octets(),
        by_payload.offsets().remainder == by_payload.offsets().fcs + Config::FCS_LENGTH,
{
}

/// The payload is what remains of an MPDU behind its IEs. An MPDU that is too short for
/// the fields before the payload is refused.
pub proof fn lemma_payload_remains<Config: DriverConfig>(
    secured: MpduFieldRanges<MpduWithSecurity>,
    ies_length: u16,
    mpdu_length: u16,
    r: Result<MpduFieldRanges<MpduWithAllFields>, Error>,
)
    requires
        call_ensures(
            MpduFieldRanges::<MpduWithSecurity>::with_ies_length_and_mpdu_length::<Config>,
            (&secured, ies_length, mpdu_length),
            r,
        ),
    ensures
        r is Ok <==> secured.offsets().ies + ies_length + secured.mic_octets()
            <= secured.offsets().frame_control + mpdu_length,
        r matches Ok(ranges) ==> {
            let o = ranges.offsets();
            &&& o.frame_control == secured.offsets().frame_control
            &&& o.addressing == secured.offsets().addressing
            &&& o.aux_sec_header == secured.offsets().aux_sec_header
            &&& o.ies == secured.offsets().ies
            &&& o.frame_payload == o.ies + ies_length
            &&& o.fcs == o.frame_control + mpdu_length
            &&& o.mic == o.fcs - secured.mic_octets()
            &&& o.remainder == o.fcs + Config::FCS_LENGTH
        },
{
}

/// IEs with terminations tell how much of an MPDU they take, and then it is as if their
/// length had been given.
pub proof fn lemma_terminated_ies_completed<Config: DriverConfig>(
    secured: MpduFieldRanges<MpduWithSecurity>,
    ies: IeListRepr<'_>,
    mpdu_length: u16,
    rest: u16,
    split: Result<(u16, u16), Error>,
    by_ies: Result<MpduFieldRanges<MpduWithAllFields>, Error>,
    by_length: Result<MpduFieldRanges<MpduWithAllFields>, Error>,
)
    requires
        secured.offsets().ies - secured.offsets().frame_control + secured.mic_octets() + rest
            == mpdu_length,
        call_ensures(
            IeListRepr::<'_>::try_ies_and_frame_payload_length,
            (&ies, rest),
            split,
        ),
        call_ensures(
            MpduFieldRanges::<MpduWithSecurity>::with_ies_and_mpdu_length::<Config>,
            (&secured, ies, mpdu_length),
            by_ies,
        ),
        split matches Ok((length, _)) ==> call_ensures(
            MpduFieldRanges::<MpduWithSecurity>::with_ies_length_and_mpdu_length::<Config>,
            (&secured, length, mpdu_length),
            by_length,
        ),
    ensures
        by_ies is Ok <==> split is Ok,
        by_ies matches Ok(ranges) ==> (by_length matches Ok(other) && ranges.offsets()
            == other.offsets()),
{
}

/// An MPDU that is too short for its leading fields is refused.
pub proof fn lemma_short_mpdu_refused<Config: DriverConfig>(
    secured: MpduFieldRanges<MpduWithSecurity>,
    ies: IeListRepr<'_>,
    mpdu_length: u16,
    with_ies: Result<MpduFieldRanges<MpduWithAllFields>, Error>,
    without_ies: Result<MpduFieldRanges<MpduWithAllFields>, Error>,
)
    requires
        call_ensures(
            MpduFieldRanges::<MpduWithSecurity>::with_ies_and_mpdu_length::<Config>,
            (&secured, ies, mpdu_length),
            with_ies,
        ),
        call_ensures(
            MpduFieldRanges::<MpduWithSecurity>::without_ies_with_mpdu_length::<Config>,
            (&secured, mpdu_length),
            without_ies,
        ),
        mpdu_length < secured.offsets().ies - secured.offsets().frame_control
            + secured.mic_octets(),
    ensures
        with_ies is Err && without_ies is Err,
{
}

/// IEs whose length cannot be told have no range.
pub proof fn lemma_invalid_ies_refused<Config: DriverConfig>(
    secured: MpduFieldRanges<MpduWithSecurity>,
    ies: IeListRepr<'_>,
    payload: u16,
    ies_length: Result<u16, Error>,
    complete: Result<MpduFieldRanges<MpduWithAllFields>, Error>,
)
    requires
        call_ensures(IeListRepr::<'_>::ies_length, (&ies, payload > 0), ies_length),
        call_ensures(
            MpduFieldRanges::<MpduWithSecurity>::with_ies_and_payload_length::<Config>,
            (&secured, ies, payload),
            complete,
        ),
    ensures
        complete is Err <==> ies_length is Err,
{
}

} // verus!
