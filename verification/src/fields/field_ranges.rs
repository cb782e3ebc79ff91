//! The offsets of the fields of an MPDU within its buffer.

use vstd::prelude::*;

use core::marker::PhantomData;
use core::ops::Range;

use crate::frame::addressing_repr::{lemma_total_length_bounded, AddressingRepr};
use crate::frame::driver_config::DriverConfig;
use crate::repr::ies::IeListRepr;
use crate::repr::mpdu::{SecurityRepr, SeqNrRepr};
use crate::states::{
    MpduParsedUpToAddressing, MpduParsedUpToSecurity, MpduWithAddressing, MpduWithAllFields,
    MpduWithFrameControl, MpduWithSecurity,
};
use crate::Error;

verus! {

/// Offsets that are successively collected while parsing an MPDU.
///
/// All offsets are relative to the start of the buffer. The state tells which
/// offsets are known, the others are zero. If a field does not exist in the frame,
/// then its offset is that of the next field.
#[derive(Debug)]
pub struct MpduFieldRanges<State> {
    state: PhantomData<State>,
    offset_frame_control: u8,
    offset_addressing: u8,
    offset_aux_sec_hdr: u8,
    length_mic: u8,
    offset_ies: u8,
    offset_frame_payload: u16,
    offset_fcs: u16,
    offset_remainder: u16,
}

/// The offsets of the fields of an MPDU.
pub struct MpduOffsets {
    pub frame_control: int,
    pub addressing: int,
    pub aux_sec_header: int,
    pub ies: int,
    pub frame_payload: int,
    pub mic: int,
    pub fcs: int,
    pub remainder: int,
}

impl<State> MpduFieldRanges<State> {
    /// The offsets of the fields, as far as they are known.
    pub closed spec fn offsets(&self) -> MpduOffsets {
        MpduOffsets {
            frame_control: self.offset_frame_control as int,
            addressing: self.offset_addressing as int,
            aux_sec_header: self.offset_aux_sec_hdr as int,
            ies: self.offset_ies as int,
            frame_payload: self.offset_frame_payload as int,
            mic: self.offset_fcs - self.length_mic,
            fcs: self.offset_fcs as int,
            remainder: self.offset_remainder as int,
        }
    }

    /// The length of the MIC.
    pub closed spec fn mic_octets(&self) -> int {
        self.length_mic as int
    }

    /// Whether the frame control field is followed by the addressing fields,
    /// with or without a sequence number between them.
    pub open spec fn control_known(&self) -> bool {
        let o = self.offsets();
        0 <= o.frame_control && o.frame_control + 2 <= o.addressing <= o.frame_control + 3
    }

    /// Whether the end of the addressing fields is known.
    pub closed spec fn addressing_known(&self) -> bool {
        &&& self.control_known()
        &&& self.offset_addressing <= self.offset_aux_sec_hdr
    }

    /// Whether the end of the auxiliary security header is known.
    pub closed spec fn security_known(&self) -> bool {
        &&& self.addressing_known()
        &&& self.offset_aux_sec_hdr <= self.offset_ies
    }

    /// Whether all fields are known.
    pub closed spec fn all_known(&self) -> bool {
        &&& self.security_known()
        &&& self.offset_ies <= self.offset_frame_payload
        &&& self.offset_frame_payload + self.length_mic <= self.offset_fcs
        &&& self.offset_fcs <= self.offset_remainder
    }
}

impl<State> Clone for MpduFieldRanges<State> {
    fn clone(&self) -> (r: Self)
        ensures
            r == *self,
    {
        Self {
            state: PhantomData,
            offset_frame_control: self.offset_frame_control,
            offset_addressing: self.offset_addressing,
            offset_aux_sec_hdr: self.offset_aux_sec_hdr,
            length_mic: self.length_mic,
            offset_ies: self.offset_ies,
            offset_frame_payload: self.offset_frame_payload,
            offset_fcs: self.offset_fcs,
            offset_remainder: self.offset_remainder,
        }
    }
}

impl<State> Copy for MpduFieldRanges<State> {

}

/// Known fields follow each other without a gap: the end of each is the start of
/// the next.
pub proof fn lemma_offsets_ordered<State>(ranges: MpduFieldRanges<State>)
    ensures
        ranges.addressing_known() ==> ranges.control_known() && ranges.offsets().addressing
            <= ranges.offsets().aux_sec_header,
        ranges.security_known() ==> ranges.addressing_known() && ranges.offsets().aux_sec_header
            <= ranges.offsets().ies,
        ranges.all_known() ==> ranges.security_known() && ranges.offsets().ies
            <= ranges.offsets().frame_payload <= ranges.offsets().mic <= ranges.offsets().fcs
            <= ranges.offsets().remainder,
        ranges.all_known() ==> ranges.offsets().remainder <= u16::MAX,
{
}

impl MpduFieldRanges<MpduWithFrameControl> {
    /// Starts with the frame control field at the given offset.
    pub fn new(offset_mpdu: u8, seq_nr: SeqNrRepr) -> (r: Self)
        requires
            offset_mpdu + 2 + seq_nr.octets() <= u8::MAX,
        ensures
            r.control_known(),
            r.offsets().frame_control == offset_mpdu,
            r.offsets().addressing == offset_mpdu + 2 + seq_nr.octets(),
            r.mic_octets() == 0,
    {
        let offset_seq_nr: u8 = offset_mpdu + 2;
        let offset_addressing: u8 = match seq_nr {
            SeqNrRepr::Yes => offset_seq_nr + 1,
            SeqNrRepr::No => offset_seq_nr,
        };
        Self {
            state: PhantomData,
            offset_frame_control: offset_mpdu,
            offset_addressing,
            offset_aux_sec_hdr: 0,
            length_mic: 0,
            offset_ies: 0,
            offset_frame_payload: 0,
            offset_fcs: 0,
            offset_remainder: 0,
        }
    }

    /// Adds addressing fields.
    ///
    /// # Errors
    ///
    /// Fails if the addressing is invalid.
    pub fn with_addressing(&self, addressing: AddressingRepr) -> (r: Result<
        MpduFieldRanges<MpduWithAddressing>,
        Error,
    >)
        requires
            self.control_known(),
            addressing.total_length() matches Some(length) ==> self.offsets().addressing + length
                <= u8::MAX,
        ensures
            r is Ok <==> addressing.total_length() is Some,
            r matches Ok(next) ==> {
                &&& next.addressing_known()
                &&& next.offsets().frame_control == self.offsets().frame_control
                &&& next.offsets().addressing == self.offsets().addressing
                &&& next.offsets().aux_sec_header == self.offsets().addressing
                    + addressing.total_length()->0
                &&& next.mic_octets() == 0
            },
    {
        proof {
            lemma_total_length_bounded(addressing);
        }
        match addressing.addressing_fields_length() {
            Ok(length) => Ok(self.next_state(self.offset_addressing + length as u8)),
            Err(_) => Err(Error),
        }
    }

    /// Adds no addressing fields.
    pub fn without_addressing(&self) -> (r: MpduFieldRanges<MpduWithAddressing>)
        requires
            self.control_known(),
        ensures
            r.addressing_known(),
            r.offsets().frame_control == self.offsets().frame_control,
            r.offsets().addressing == self.offsets().addressing,
            r.offsets().aux_sec_header == self.offsets().addressing,
            r.mic_octets() == 0,
    {
        self.next_state(self.offset_addressing)
    }

    fn next_state(&self, next_offset: u8) -> (r: MpduFieldRanges<MpduWithAddressing>)
        requires
            self.control_known(),
            self.offsets().addressing <= next_offset,
        ensures
            r.addressing_known(),
            r.offsets().frame_control == self.offsets().frame_control,
            r.offsets().addressing == self.offsets().addressing,
            r.offsets().aux_sec_header == next_offset,
            r.mic_octets() == 0,
    {
        MpduFieldRanges {
            state: PhantomData,
            offset_frame_control: self.offset_frame_control,
            offset_addressing: self.offset_addressing,
            offset_aux_sec_hdr: next_offset,
            length_mic: 0,
            offset_ies: 0,
            offset_frame_payload: 0,
            offset_fcs: 0,
            offset_remainder: 0,
        }
    }
}

impl MpduFieldRanges<MpduWithAddressing> {
    /// Adds security related fields.
    pub fn with_security(&self, security: SecurityRepr) -> (r: MpduFieldRanges<MpduWithSecurity>)
        requires
            self.addressing_known(),
            self.offsets().aux_sec_header + security.aux_octets() <= u8::MAX,
        ensures
            r.security_known(),
            r.offsets().frame_control == self.offsets().frame_control,
            r.offsets().addressing == self.offsets().addressing,
            r.offsets().aux_sec_header == self.offsets().aux_sec_header,
            r.offsets().ies == self.offsets().aux_sec_header + security.aux_octets(),
            r.mic_octets() == security.mic_octets(),
    {
        let offset_aux_sec_hdr: u8 = self.offset_aux();
        self.next_state(
            offset_aux_sec_hdr + security.aux_sec_header_length(),
            security.mic_length(),
        )
    }

    /// Adds no security related fields.
    pub fn without_security(&self) -> (r: MpduFieldRanges<MpduWithSecurity>)
        requires
            self.addressing_known(),
        ensures
            r.security_known(),
            r.offsets().frame_control == self.offsets().frame_control,
            r.offsets().addressing == self.offsets().addressing,
            r.offsets().aux_sec_header == self.offsets().aux_sec_header,
            r.offsets().ies == self.offsets().aux_sec_header,
            r.mic_octets() == 0,
    {
        self.next_state(self.offset_aux(), 0)
    }

    fn offset_aux(&self) -> (r: u8)
        requires
            self.addressing_known(),
        ensures
            r == self.offsets().aux_sec_header,
    {
        self.offset_aux_sec_hdr
    }

    fn next_state(&self, next_offset: u8, length_mic: u8) -> (r: MpduFieldRanges<MpduWithSecurity>)
        requires
            self.addressing_known(),
            self.offsets().aux_sec_header <= next_offset,
        ensures
            r.security_known(),
            r.offsets().frame_control == self.offsets().frame_control,
            r.offsets().addressing == self.offsets().addressing,
            r.offsets().aux_sec_header == self.offsets().aux_sec_header,
            r.offsets().ies == next_offset,
            r.mic_octets() == length_mic,
    {
        MpduFieldRanges {
            state: PhantomData,
            offset_frame_control: self.offset_frame_control,
            offset_addressing: self.offset_addressing,
            offset_aux_sec_hdr: self.offset_aux_sec_hdr,
            length_mic,
            offset_ies: next_offset,
            offset_frame_payload: 0,
            offset_fcs: 0,
            offset_remainder: 0,
        }
    }
}

/// Whether `next` has the same fields up to the auxiliary security header as
/// `prev`, followed by IEs, frame payload, MIC and FCS of the given lengths.
pub open spec fn completes(
    prev: MpduFieldRanges<MpduWithSecurity>,
    next: MpduFieldRanges<MpduWithAllFields>,
    ies_length: int,
    frame_payload_length: int,
    fcs_length: int,
) -> bool {
    let p = prev.offsets();
    let n = next.offsets();
    &&& next.all_known()
    &&& n.frame_control == p.frame_control
    &&& n.addressing == p.addressing
    &&& n.aux_sec_header == p.aux_sec_header
    &&& n.ies == p.ies
    &&& n.frame_payload == p.ies + ies_length
    &&& n.mic == n.frame_payload + frame_payload_length
    &&& n.fcs == n.mic + prev.mic_octets()
    &&& n.remainder == n.fcs + fcs_length
    &&& next.mic_octets() == prev.mic_octets()
}

impl MpduFieldRanges<MpduWithSecurity> {
    /// The length of the MPDU up to the auxiliary security header together with
    /// the MIC.
    pub open spec fn fixed_length(&self) -> int {
        self.offsets().ies - self.offsets().frame_control + self.mic_octets()
    }

    /// Adds IEs if the length of the frame payload is known, as it is when a
    /// frame is built from scratch.
    ///
    /// # Errors
    ///
    /// Fails if the IEs are not consistent with the presence of a frame payload.
    pub fn with_ies_and_payload_length<Config: DriverConfig>(
        &self,
        ies: IeListRepr,
        frame_payload_length: u16,
    ) -> (r: Result<MpduFieldRanges<MpduWithAllFields>, Error>)
        requires
            self.security_known(),
            ies.wf(frame_payload_length > 0),
            ies.total_length(frame_payload_length > 0) matches Some(ies_length)
                ==> self.offsets().ies + ies_length + frame_payload_length + self.mic_octets()
                + Config::FCS_LENGTH <= u16::MAX,
        ensures
            r is Ok <==> ies.total_length(frame_payload_length > 0) is Some,
            r matches Ok(next) ==> completes(
                *self,
                next,
                ies.total_length(frame_payload_length > 0)->0,
                frame_payload_length as int,
                Config::FCS_LENGTH as int,
            ),
    {
        match ies.ies_length(frame_payload_length > 0) {
            Ok(ies_length) => Ok(self.next_state::<Config>(ies_length, frame_payload_length)),
            Err(_) => Err(Error),
        }
    }

    /// Adds IEs if the length of the frame payload has to be derived from the
    /// length of the MPDU, as it has to when an incoming frame is parsed.
    ///
    /// The length of the MPDU does not count the driver's headroom and tailroom
    /// nor the FCS.
    ///
    /// # Errors
    ///
    /// Fails if the IEs do not tell about termination IEs, if they are not
    /// consistent with the presence of a frame payload, or if the fields are
    /// longer than the MPDU.
    pub fn with_ies_and_mpdu_length<Config: DriverConfig>(
        &self,
        ies: IeListRepr,
        mpdu_length_wo_fcs: u16,
    ) -> (r: Result<MpduFieldRanges<MpduWithAllFields>, Error>)
        requires
            self.security_known(),
            ies is WithTerminationIes ==> ies.wf(false),
            self.offsets().frame_control + mpdu_length_wo_fcs + Config::FCS_LENGTH <= u16::MAX,
        ensures
            r is Ok <==> self.fixed_length() <= mpdu_length_wo_fcs && ies.split(
                mpdu_length_wo_fcs - self.fixed_length(),
            ) is Some,
            r matches Ok(next) ==> ({
                let (ies_length, payload_length) = ies.split(
                    mpdu_length_wo_fcs - self.fixed_length(),
                )->0;
                completes(*self, next, ies_length, payload_length, Config::FCS_LENGTH as int)
            }),
    {
        let fixed_length: u16 = self.length_wo_ies_and_payload();
        if fixed_length > mpdu_length_wo_fcs {
            return Err(Error);
        }
        match ies.try_ies_and_frame_payload_length(mpdu_length_wo_fcs - fixed_length) {
            Ok((ies_length, frame_payload_length)) => Ok(
                self.next_state::<Config>(ies_length, frame_payload_length),
            ),
            Err(_) => Err(Error),
        }
    }

    /// Adds IEs of the given length if the length of the frame payload has to be
    /// derived from the length of the MPDU.
    ///
    /// # Errors
    ///
    /// Fails if the fields are longer than the MPDU.
    pub fn with_ies_length_and_mpdu_length<Config: DriverConfig>(
        &self,
        ies_length: u16,
        mpdu_length_wo_fcs: u16,
    ) -> (r: Result<MpduFieldRanges<MpduWithAllFields>, Error>)
        requires
            self.security_known(),
            self.offsets().frame_control + mpdu_length_wo_fcs + Config::FCS_LENGTH <= u16::MAX,
        ensures
            r is Ok <==> self.fixed_length() + ies_length <= mpdu_length_wo_fcs,
            r matches Ok(next) ==> completes(
                *self,
                next,
                ies_length as int,
                mpdu_length_wo_fcs - self.fixed_length() - ies_length,
                Config::FCS_LENGTH as int,
            ),
    {
        let fixed_length: u16 = self.length_wo_ies_and_payload();
        if fixed_length > mpdu_length_wo_fcs || ies_length > mpdu_length_wo_fcs - fixed_length {
            return Err(Error);
        }
        Ok(self.next_state::<Config>(ies_length, mpdu_length_wo_fcs - fixed_length - ies_length))
    }

    /// Adds no IEs if the length of the frame payload is known, as it is when a
    /// frame is built from scratch.
    pub fn without_ies_with_payload_length<Config: DriverConfig>(
        &self,
        frame_payload_length: u16,
    ) -> (r: MpduFieldRanges<MpduWithAllFields>)
        requires
            self.security_known(),
            self.offsets().ies + frame_payload_length + self.mic_octets() + Config::FCS_LENGTH
                <= u16::MAX,
        ensures
            completes(*self, r, 0, frame_payload_length as int, Config::FCS_LENGTH as int),
    {
        self.next_state::<Config>(0, frame_payload_length)
    }

    /// Adds no IEs if the length of the frame payload has to be derived from the
    /// length of the MPDU, as it has to when an incoming frame is parsed.
    ///
    /// # Errors
    ///
    /// Fails if the fields are longer than the MPDU.
    pub fn without_ies_with_mpdu_length<Config: DriverConfig>(
        &self,
        mpdu_length_wo_fcs: u16,
    ) -> (r: Result<MpduFieldRanges<MpduWithAllFields>, Error>)
        requires
            self.security_known(),
            self.offsets().frame_control + mpdu_length_wo_fcs + Config::FCS_LENGTH <= u16::MAX,
        ensures
            r is Ok <==> self.fixed_length() <= mpdu_length_wo_fcs,
            r matches Ok(next) ==> completes(
                *self,
                next,
                0,
                mpdu_length_wo_fcs - self.fixed_length(),
                Config::FCS_LENGTH as int,
            ),
    {
        self.with_ies_length_and_mpdu_length::<Config>(0, mpdu_length_wo_fcs)
    }

    /// The offset of the IEs and the length of the MIC.
    pub(crate) fn offset_ies_and_mic_length(&self) -> (r: (usize, usize))
        requires
            self.security_known(),
        ensures
            r.0 == self.offsets().ies,
            r.1 == self.mic_octets(),
            r.0 <= u8::MAX,
            r.1 <= u8::MAX,
    {
        (self.last_offset() as usize, self.length_mic as usize)
    }

    fn length_wo_ies_and_payload(&self) -> (r: u16)
        requires
            self.security_known(),
        ensures
            r == self.fixed_length(),
    {
        self.last_offset() - self.offset_frame_control as u16 + self.length_mic as u16
    }

    fn last_offset(&self) -> (r: u16)
        requires
            self.security_known(),
        ensures
            r == self.offsets().ies,
    {
        self.offset_ies as u16
    }

    fn next_state<Config: DriverConfig>(&self, ies_length: u16, frame_payload_length: u16) -> (r:
        MpduFieldRanges<MpduWithAllFields>)
        requires
            self.security_known(),
            self.offsets().ies + ies_length + frame_payload_length + self.mic_octets()
                + Config::FCS_LENGTH <= u16::MAX,
        ensures
            completes(
                *self,
                r,
                ies_length as int,
                frame_payload_length as int,
                Config::FCS_LENGTH as int,
            ),
    {
        let offset_frame_payload: u16 = self.last_offset() + ies_length;
        let offset_fcs: u16 = offset_frame_payload + frame_payload_length + self.length_mic as u16;
        let offset_remainder: u16 = offset_fcs + Config::FCS_LENGTH as u16;
        MpduFieldRanges {
            state: PhantomData,
            offset_frame_control: self.offset_frame_control,
            offset_addressing: self.offset_addressing,
            offset_aux_sec_hdr: self.offset_aux_sec_hdr,
            length_mic: self.length_mic,
            offset_ies: self.offset_ies,
            offset_frame_payload,
            offset_fcs,
            offset_remainder,
        }
    }
}

impl<State> MpduFieldRanges<State> {
    /// The offset range of the frame control field.
    pub fn range_frame_control(&self) -> (r: Range<usize>)
        ensures
            r.start == self.offsets().frame_control,
            r.end == self.offsets().frame_control + 2,
    {
        let offset_frame_control: usize = self.offset_frame_control as usize;
        offset_frame_control..self.offset_seq_nr() as usize
    }

    /// The offset of the sequence number.
    pub fn offset_seq_nr(&self) -> (r: u16)
        ensures
            r == self.offsets().frame_control + 2,
    {
        self.offset_frame_control as u16 + 2
    }
}

/// The range between two offsets, if it is not empty.
fn non_empty_range(start: usize, end: usize) -> (r: Option<Range<usize>>)
    requires
        start <= end,
    ensures
        is_range(r, start as int, end as int),
{
    if start == end {
        None
    } else {
        Some(start..end)
    }
}

/// Whether `r` is the range between two offsets, or nothing if that is empty.
pub open spec fn is_range(r: Option<Range<usize>>, start: int, end: int) -> bool {
    &&& r is Some <==> start < end
    &&& r matches Some(range) ==> range.start == start && range.end == end
}

impl<State: MpduParsedUpToAddressing> MpduFieldRanges<State> {
    /// The offset range of the addressing fields, if there are any.
    pub fn range_addressing(&self) -> (r: Option<Range<usize>>)
        requires
            self.addressing_known(),
        ensures
            is_range(r, self.offsets().addressing, self.offsets().aux_sec_header),
    {
        non_empty_range(self.offset_addressing as usize, self.offset_aux_sec_hdr as usize)
    }
}

impl<State: MpduParsedUpToSecurity> MpduFieldRanges<State> {
    /// The offset range of the auxiliary security header, if there is one.
    pub fn range_aux_sec_header(&self) -> (r: Option<Range<usize>>)
        requires
            self.security_known(),
        ensures
            is_range(r, self.offsets().aux_sec_header, self.offsets().ies),
    {
        non_empty_range(self.offset_aux_sec_hdr as usize, self.offset_ies as usize)
    }
}

impl MpduFieldRanges<MpduWithAllFields> {
    /// The offset range of the IEs, if there are any.
    pub fn range_ies(&self) -> (r: Option<Range<usize>>)
        requires
            self.all_known(),
        ensures
            is_range(r, self.offsets().ies, self.offsets().frame_payload),
    {
        non_empty_range(self.offset_ies as usize, self.offset_frame_payload() as usize)
    }

    /// The offsets of the IEs and of what follows them.
    pub(crate) fn bounds_ies(&self) -> (r: (usize, usize))
        requires
            self.all_known(),
        ensures
            r.0 == self.offsets().ies,
            r.1 == self.offsets().frame_payload,
    {
        (self.offset_ies as usize, self.offset_frame_payload() as usize)
    }

    /// The offset of the frame payload.
    pub fn offset_frame_payload(&self) -> (r: u16)
        requires
            self.all_known(),
        ensures
            r == self.offsets().frame_payload,
    {
        self.offset_frame_payload
    }

    /// The offset behind the frame payload.
    pub fn offset_frame_payload_end(&self) -> (r: u16)
        requires
            self.all_known(),
        ensures
            r == self.offsets().mic,
    {
        self.offset_fcs() - self.length_mic as u16
    }

    fn offset_fcs(&self) -> (r: u16)
        requires
            self.all_known(),
        ensures
            r == self.offsets().fcs,
    {
        self.offset_fcs
    }

    /// The offset range of the frame payload, if there is any.
    pub fn range_frame_payload(&self) -> (r: Option<Range<usize>>)
        requires
            self.all_known(),
        ensures
            is_range(r, self.offsets().frame_payload, self.offsets().mic),
    {
        non_empty_range(
            self.offset_frame_payload() as usize,
            self.offset_frame_payload_end() as usize,
        )
    }

    /// The offset range of the MIC, if there is one.
    pub fn range_mic(&self) -> (r: Option<Range<usize>>)
        requires
            self.all_known(),
        ensures
            is_range(r, self.offsets().mic, self.offsets().fcs),
    {
        non_empty_range(self.offset_frame_payload_end() as usize, self.offset_fcs() as usize)
    }

    /// The offset range of the FCS, if it is not handled by the driver.
    pub fn range_fcs(&self) -> (r: Option<Range<usize>>)
        requires
            self.all_known(),
        ensures
            is_range(r, self.offsets().fcs, self.offsets().remainder),
    {
        non_empty_range(self.offset_fcs() as usize, self.offset_tailroom() as usize)
    }

    /// The offset of the tailroom.
    pub fn offset_tailroom(&self) -> (r: u16)
        requires
            self.all_known(),
        ensures
            r == self.offsets().remainder,
    {
        self.offset_remainder
    }
}

/// The offsets found for an incoming frame are those that the frame was built
/// with: if the length of the MPDU is that of a frame built with the given
/// lengths, then the frame payload is found to have the given length.
pub proof fn lemma_payload_length_recovered(
    prev: MpduFieldRanges<MpduWithSecurity>,
    built: MpduFieldRanges<MpduWithAllFields>,
    ies_length: int,
    frame_payload_length: int,
    fcs_length: int,
)
    requires
        completes(prev, built, ies_length, frame_payload_length, fcs_length),
    ensures
        ({
            let mpdu_length_wo_fcs = built.offsets().fcs - built.offsets().frame_control;
            mpdu_length_wo_fcs - prev.fixed_length() - ies_length == frame_payload_length
        }),
{
}

} // verus!
