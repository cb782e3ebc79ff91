//! Parsing MPDUs and building them from scratch.

use vstd::prelude::*;

use crate::fields::field_ranges::{completes, lemma_offsets_ordered, MpduFieldRanges};
use crate::fields::ie_scan::{find_ies_end, ies_end};
use crate::fields::ies::IesFields;
use crate::frame::addressing::AddressingMode;
use crate::frame::addressing_fields::{offsets_from, AddressingFields};
use crate::frame::addressing_repr::{
    announced_length, announced_lengths, lemma_announced, lemma_total_length_bounded,
    AddressingRepr,
};
use crate::frame::driver_config::{config_valid, DriverConfig, RadioFrameSized};
use crate::frame::frame_control::{frame_control_valid, FrameControl, FrameControlFields};
use crate::frame::radio_frame::RadioFrame;
use crate::mpdu::frame::{same_but_control, AsMpdu, AsMpduMut, MpduFrame};
use crate::octets::{splice, subslice_mut, Octets, OctetsMut};
use crate::repr::mpdu::SeqNrRepr;
use crate::states::{
    MpduParsedUpToAddressing, MpduWithAddressing, MpduWithAllFields, MpduWithFrameControl,
    MpduWithSecurity,
};
use crate::Error;

verus! {

/// A parser that gives staged access to the fields of an MPDU, depending on how
/// far it has been parsed.
///
/// Whether the MPDU is owned, can be read only or can be written depends on
/// `AnyMpdu`.
#[derive(Debug)]
pub struct MpduParser<AnyMpdu, State> {
    mpdu_field_ranges: MpduFieldRanges<State>,
    mpdu: AnyMpdu,
}

impl<AnyMpdu, State> MpduParser<AnyMpdu, State> {
    /// The offsets of the fields as far as they are known.
    pub closed spec fn ranges(&self) -> MpduFieldRanges<State> {
        self.mpdu_field_ranges
    }

    /// The owned or borrowed MPDU.
    pub closed spec fn inner(&self) -> AnyMpdu {
        self.mpdu
    }

    /// Once nothing is written any more through the parser, nothing is written any
    /// more to its MPDU. If the MPDU is borrowed, then what it was borrowed from
    /// holds what was written last.
    pub proof fn lemma_released(self)
        requires
            has_resolved(self),
        ensures
            has_resolved(self.inner()),
    {
    }

    /// Creates a parser for fields that are known.
    pub(crate) fn from_parts(mpdu_field_ranges: MpduFieldRanges<State>, mpdu: AnyMpdu) -> (r: Self)
        ensures
            r.ranges() == mpdu_field_ranges,
            r.inner() == mpdu,
    {
        Self { mpdu_field_ranges, mpdu }
    }
}

impl<AnyMpdu: AsMpdu, State> MpduParser<AnyMpdu, State> {
    /// The MPDU.
    pub open spec fn frame(&self) -> MpduFrame<AnyMpdu::Buffer> {
        self.inner().frame()
    }

    /// The octets of the buffer.
    pub open spec fn octets(&self) -> Seq<u8> {
        self.frame()@
    }

    /// Whether the known offsets of the frame control field and the sequence
    /// number are those that the frame control field tells.
    pub open spec fn control_wf(&self) -> bool {
        let frame = self.frame();
        let o = self.ranges().offsets();
        &&& self.ranges().control_known()
        &&& frame.has_sequence_number()
        &&& o.frame_control == frame.start()
        &&& o.addressing == frame.start() + 2 + (
        if frame.control_fields().sequence_number_suppression {
            0int
        } else {
            1int
        })
    }

    /// Whether the addressing fields that the frame control field announces are
    /// no longer than the known range of the addressing fields, and the buffer
    /// holds that range.
    pub open spec fn addressing_wf(&self) -> bool {
        let f = self.frame().control_fields();
        let o = self.ranges().offsets();
        &&& self.control_wf()
        &&& self.ranges().addressing_known()
        &&& f.dst_addressing_mode != AddressingMode::Unknown
        &&& f.src_addressing_mode != AddressingMode::Unknown
        &&& announced_length(f) matches Some(length) ==> length <= o.aux_sec_header - o.addressing
        &&& o.aux_sec_header <= self.octets().len()
    }

    /// The frame control field.
    ///
    /// Only read access is given as the structure of the frame may not be changed
    /// any more.
    pub fn frame_control(&self) -> (r: FrameControl<&[u8]>)
        requires
            self.frame().has_frame_control(),
        ensures
            r@ == self.octets().subrange(self.frame().start(), self.frame().start() + 2),
            r@.len() == 2,
            r.fields() == self.frame().control_fields(),
    {
        self.mpdu.as_mpdu().frame_control()
    }

    /// The sequence number, if there is one.
    pub fn sequence_number(&self) -> (r: Option<u8>)
        requires
            self.frame().has_sequence_number(),
        ensures
            r == self.frame().seq_nr(),
    {
        self.mpdu.as_mpdu().sequence_number()
    }

    /// Whether nothing that the frame control field holds is reserved by the
    /// protocol.
    pub fn is_valid(&self) -> (r: bool)
        requires
            self.frame().has_frame_control(),
        ensures
            r <==> frame_control_valid(self.frame().control_fields()),
    {
        self.frame_control().is_valid()
    }
}

impl<AnyMpdu: AsMpduMut, State> MpduParser<AnyMpdu, State> where AnyMpdu::Buffer: OctetsMut {
    /// Sets whether an acknowledgment is requested.
    pub fn set_ack_request(&mut self, ack_request: bool)
        requires
            old(self).frame().has_frame_control(),
        ensures
            final(self).frame().control_fields() == (FrameControlFields {
                ack_request,
                ..old(self).frame().control_fields()
            }),
            same_but_control(old(self).octets(), final(self).octets(), old(self).frame().start()),
            final(self).frame().start() == old(self).frame().start(),
            final(self).frame().octets_wo_fcs() == old(self).frame().octets_wo_fcs(),
            final(self).ranges() == old(self).ranges(),
            exists|x: &mut AnyMpdu, w: &mut MpduFrame<AnyMpdu::Buffer>|
                {
                    &&& #[trigger] call_ensures(AnyMpdu::as_mpdu_mut, (x,), w)
                    &&& *x == old(self).inner()
                    &&& *final(x) == final(self).inner()
                },
            exists|x: &mut AnyMpdu::Buffer, w: &mut [u8]|
                {
                    &&& #[trigger] call_ensures(
                        <AnyMpdu::Buffer as OctetsMut>::octets_mut,
                        (x,),
                        w,
                    )
                    &&& *x == old(self).frame().container()
                    &&& *final(x) == final(self).frame().container()
                },
    {
        self.mpdu.as_mpdu_mut().set_ack_request(ack_request);
    }

    /// Sets whether the sender has more frames for the recipient.
    pub fn set_frame_pending(&mut self, frame_pending: bool)
        requires
            old(self).frame().has_frame_control(),
        ensures
            final(self).frame().control_fields() == (FrameControlFields {
                frame_pending,
                ..old(self).frame().control_fields()
            }),
            same_but_control(old(self).octets(), final(self).octets(), old(self).frame().start()),
            final(self).frame().start() == old(self).frame().start(),
            final(self).frame().octets_wo_fcs() == old(self).frame().octets_wo_fcs(),
            final(self).ranges() == old(self).ranges(),
            exists|x: &mut AnyMpdu, w: &mut MpduFrame<AnyMpdu::Buffer>|
                {
                    &&& #[trigger] call_ensures(AnyMpdu::as_mpdu_mut, (x,), w)
                    &&& *x == old(self).inner()
                    &&& *final(x) == final(self).inner()
                },
            exists|x: &mut AnyMpdu::Buffer, w: &mut [u8]|
                {
                    &&& #[trigger] call_ensures(
                        <AnyMpdu::Buffer as OctetsMut>::octets_mut,
                        (x,),
                        w,
                    )
                    &&& *x == old(self).frame().container()
                    &&& *final(x) == final(self).frame().container()
                },
    {
        self.mpdu.as_mpdu_mut().set_frame_pending(frame_pending);
    }

    /// Sets the sequence number.
    ///
    /// # Errors
    ///
    /// Fails if the frame control field announces that there is none.
    pub fn set_sequence_number(&mut self, seq_nr: u8) -> (r: Result<(), Error>)
        requires
            old(self).frame().has_sequence_number(),
        ensures
            r is Ok <==> !old(self).frame().control_fields().sequence_number_suppression,
            r is Ok ==> final(self).octets() == old(self).octets().update(
                old(self).frame().start() + 2,
                seq_nr,
            ),
            r is Err ==> final(self).frame() == old(self).frame(),
            final(self).frame().start() == old(self).frame().start(),
            final(self).frame().octets_wo_fcs() == old(self).frame().octets_wo_fcs(),
            final(self).ranges() == old(self).ranges(),
            exists|x: &mut AnyMpdu, w: &mut MpduFrame<AnyMpdu::Buffer>|
                {
                    &&& #[trigger] call_ensures(AnyMpdu::as_mpdu_mut, (x,), w)
                    &&& *x == old(self).inner()
                    &&& *final(x) == final(self).inner()
                },
            r is Ok ==> exists|x: &mut AnyMpdu::Buffer, w: &mut [u8]|
                {
                    &&& #[trigger] call_ensures(
                        <AnyMpdu::Buffer as OctetsMut>::octets_mut,
                        (x,),
                        w,
                    )
                    &&& *x == old(self).frame().container()
                    &&& *final(x) == final(self).frame().container()
                },
    {
        self.mpdu.as_mpdu_mut().set_sequence_number(seq_nr)
    }

    /// Sets the sequence number.
    ///
    /// # Errors
    ///
    /// Fails if the frame control field announces that there is none.
    pub fn try_set_sequence_number(&mut self, seq_nr: u8) -> (r: Result<(), Error>)
        requires
            old(self).frame().has_sequence_number(),
        ensures
            r is Ok <==> !old(self).frame().control_fields().sequence_number_suppression,
            r is Ok ==> final(self).octets() == old(self).octets().update(
                old(self).frame().start() + 2,
                seq_nr,
            ),
            r is Err ==> final(self).frame() == old(self).frame(),
            final(self).frame().start() == old(self).frame().start(),
            final(self).frame().octets_wo_fcs() == old(self).frame().octets_wo_fcs(),
            final(self).ranges() == old(self).ranges(),
            exists|x: &mut AnyMpdu, w: &mut MpduFrame<AnyMpdu::Buffer>|
                {
                    &&& #[trigger] call_ensures(AnyMpdu::as_mpdu_mut, (x,), w)
                    &&& *x == old(self).inner()
                    &&& *final(x) == final(self).inner()
                },
            r is Ok ==> exists|x: &mut AnyMpdu::Buffer, w: &mut [u8]|
                {
                    &&& #[trigger] call_ensures(
                        <AnyMpdu::Buffer as OctetsMut>::octets_mut,
                        (x,),
                        w,
                    )
                    &&& *x == old(self).frame().container()
                    &&& *final(x) == final(self).frame().container()
                },
    {
        self.set_sequence_number(seq_nr)
    }
}

impl<Buffer: Octets> MpduFrame<Buffer> {
    /// Whether the offsets of the frame control field and of the sequence number
    /// can be told with eight bits.
    pub open spec fn parsable(&self) -> bool {
        self.has_sequence_number() && self.start() + 3 <= u8::MAX
    }

    /// Starts parsing with read access.
    pub fn reader(&self) -> (r: MpduParser<&MpduFrame<Buffer>, MpduWithFrameControl>)
        requires
            self.parsable(),
        ensures
            r.control_wf(),
            r.ranges().mic_octets() == 0,
            r.frame() == *self,
    {
        MpduParser { mpdu_field_ranges: self.initial_ranges(), mpdu: self }
    }

    /// Starts parsing with write access.
    pub fn writer(&mut self) -> (r: MpduParser<&mut MpduFrame<Buffer>, MpduWithFrameControl>)
        requires
            old(self).parsable(),
        ensures
            r.control_wf(),
            r.ranges().mic_octets() == 0,
            r.frame() == *old(self),
            *final(self) == *final(r.inner()),
    {
        let mpdu_field_ranges = self.initial_ranges();
        MpduParser { mpdu_field_ranges, mpdu: self }
    }

    /// Starts parsing and keeps the MPDU.
    pub fn into_parser(self) -> (r: MpduParser<MpduFrame<Buffer>, MpduWithFrameControl>)
        requires
            self.parsable(),
        ensures
            r.control_wf(),
            r.ranges().mic_octets() == 0,
            r.inner() == self,
    {
        MpduParser { mpdu_field_ranges: self.initial_ranges(), mpdu: self }
    }

    fn initial_ranges(&self) -> (r: MpduFieldRanges<MpduWithFrameControl>)
        requires
            self.parsable(),
        ensures
            r.control_known(),
            r.offsets().frame_control == self.start(),
            r.offsets().addressing == self.start() + 2 + (
            if self.control_fields().sequence_number_suppression {
                0int
            } else {
                1int
            }),
            r.mic_octets() == 0,
    {
        let seq_nr: SeqNrRepr = if self.frame_control().sequence_number_suppression() {
            SeqNrRepr::No
        } else {
            SeqNrRepr::Yes
        };
        MpduFieldRanges::new(self.offset_mpdu(), seq_nr)
    }
}

impl<Buffer, State> MpduParser<MpduFrame<Buffer>, State> {
    /// Gives up what is known about the fields.
    pub fn into_mpdu_frame(self) -> (r: MpduFrame<Buffer>)
        ensures
            r == self.inner(),
    {
        self.mpdu
    }

    /// Releases the buffer.
    pub fn into_buffer(self) -> (r: Buffer)
        ensures
            r == self.inner().container(),
    {
        self.mpdu.into_buffer()
    }
}

impl<Buffer: Octets, State> MpduParser<MpduFrame<Buffer>, State> {
    /// The frame that has the MPDU as its SDU, once nothing is to be written any
    /// more.
    pub fn into_radio_frame<Config: DriverConfig>(self) -> (r: RadioFrame<Buffer, RadioFrameSized>)
        requires
            config_valid::<Config>(),
            self.octets().len() <= Config::MAX_SDU_LENGTH + Config::HEADROOM + Config::TAILROOM,
            0 < self.inner().octets_wo_fcs() <= Config::MAX_SDU_LENGTH - Config::FCS_LENGTH,
        ensures
            r.wf(),
            r.container() == self.inner().container(),
            r.sdu_start() == Config::HEADROOM,
            r.sdu_end_wo_fcs() == Config::HEADROOM + self.inner().octets_wo_fcs(),
            r.sdu_end() == r.sdu_end_wo_fcs() + Config::FCS_LENGTH,
    {
        self.mpdu.into_radio_frame::<Config>()
    }
}

impl<AnyMpdu: AsMpdu> MpduParser<AnyMpdu, MpduWithFrameControl> {
    /// Finds the addressing fields that the frame control field announces.
    ///
    /// # Errors
    ///
    /// Fails if the frame version is unknown or the addressing is invalid.
    pub fn parse_addressing(self) -> (r: Result<MpduParser<AnyMpdu, MpduWithAddressing>, Error>)
        requires
            self.control_wf(),
            self.frame().control_fields().dst_addressing_mode != AddressingMode::Unknown,
            self.frame().control_fields().src_addressing_mode != AddressingMode::Unknown,
            announced_length(self.frame().control_fields()) matches Some(length)
                ==> self.ranges().offsets().addressing + length <= u8::MAX,
        ensures
            r is Ok <==> announced_length(self.frame().control_fields()) is Some,
            r matches Ok(next) ==> {
                &&& next.inner() == self.inner()
                &&& next.ranges().addressing_known()
                &&& next.ranges().offsets().frame_control == self.ranges().offsets().frame_control
                &&& next.ranges().offsets().addressing == self.ranges().offsets().addressing
                &&& next.ranges().offsets().aux_sec_header == self.ranges().offsets().addressing
                    + announced_length(self.frame().control_fields())->0
                &&& next.ranges().mic_octets() == 0
            },
    {
        let addressing = match AddressingRepr::from_frame_control(self.frame_control()) {
            Ok(addressing) => addressing,
            Err(_) => return Err(Error),
        };
        proof {
            lemma_announced(addressing, self.frame().control_fields());
            lemma_total_length_bounded(addressing);
        }
        let length: u16 = match addressing.addressing_fields_length() {
            Ok(length) => length,
            Err(_) => return Err(Error),
        };
        let mpdu_field_ranges = if length > 0 {
            match self.mpdu_field_ranges.with_addressing(addressing) {
                Ok(mpdu_field_ranges) => mpdu_field_ranges,
                Err(_) => return Err(Error),
            }
        } else {
            self.mpdu_field_ranges.without_addressing()
        };
        Ok(MpduParser { mpdu_field_ranges, mpdu: self.mpdu })
    }
}

impl<AnyMpdu: AsMpduMut> MpduParser<AnyMpdu, MpduWithFrameControl> {
    /// Finds the addressing fields that the frame control field announces.
    ///
    /// # Errors
    ///
    /// Fails if the frame version is unknown or the addressing is invalid.
    pub fn parse_addressing_mut(self) -> (r: Result<
        MpduParser<AnyMpdu, MpduWithAddressing>,
        Error,
    >)
        requires
            self.control_wf(),
            self.frame().control_fields().dst_addressing_mode != AddressingMode::Unknown,
            self.frame().control_fields().src_addressing_mode != AddressingMode::Unknown,
            announced_length(self.frame().control_fields()) matches Some(length)
                ==> self.ranges().offsets().addressing + length <= u8::MAX,
        ensures
            r is Ok <==> announced_length(self.frame().control_fields()) is Some,
            r matches Ok(next) ==> {
                &&& next.inner() == self.inner()
                &&& next.ranges().addressing_known()
                &&& next.ranges().offsets().frame_control == self.ranges().offsets().frame_control
                &&& next.ranges().offsets().addressing == self.ranges().offsets().addressing
                &&& next.ranges().offsets().aux_sec_header == self.ranges().offsets().addressing
                    + announced_length(self.frame().control_fields())->0
                &&& next.ranges().mic_octets() == 0
            },
    {
        self.parse_addressing()
    }
}

impl<AnyMpdu: AsMpdu> MpduParser<AnyMpdu, MpduWithAddressing> {
    /// Finds the security related fields of a frame that is not secured.
    pub fn parse_security(self) -> (r: MpduParser<AnyMpdu, MpduWithSecurity>)
        requires
            self.ranges().addressing_known(),
            self.frame().has_frame_control(),
            !self.frame().control_fields().security_enabled,
        ensures
            r.inner() == self.inner(),
            r.ranges().security_known(),
            r.ranges().offsets().frame_control == self.ranges().offsets().frame_control,
            r.ranges().offsets().addressing == self.ranges().offsets().addressing,
            r.ranges().offsets().aux_sec_header == self.ranges().offsets().aux_sec_header,
            r.ranges().offsets().ies == self.ranges().offsets().aux_sec_header,
            r.ranges().mic_octets() == 0,
    {
        MpduParser {
            mpdu_field_ranges: self.mpdu_field_ranges.without_security(),
            mpdu: self.mpdu,
        }
    }
}

/// The length of the IEs of an MPDU, if they are well-formed: nothing, unless the
/// frame control field announces IEs.
pub open spec fn ies_octets(
    b: Seq<u8>,
    ies_present: bool,
    offset_ies: int,
    offset_mic: int,
) -> Option<int> {
    if ies_present {
        ies_end(b.subrange(offset_ies, offset_mic), 0)
    } else {
        Some(0)
    }
}

impl<AnyMpdu: AsMpdu> MpduParser<AnyMpdu, MpduWithSecurity> {
    /// The length of the IEs, if they are well-formed.
    pub open spec fn ies_length(&self) -> Option<int> {
        ies_octets(
            self.octets(),
            self.frame().control_fields().information_elements_present,
            self.ranges().offsets().ies,
            self.frame().start() + self.frame().octets_wo_fcs() - self.ranges().mic_octets(),
        )
    }

    /// Finds the IEs that the frame control field announces, and the frame
    /// payload behind them.
    ///
    /// # Errors
    ///
    /// Fails if the MPDU is too short for its fields or the IEs are malformed.
    pub fn parse_ies<Config: DriverConfig>(self) -> (r: Result<
        MpduParser<AnyMpdu, MpduWithAllFields>,
        Error,
    >)
        requires
            self.ranges().security_known(),
            self.ranges().offsets().frame_control == self.frame().start(),
            self.frame().has_frame_control(),
            self.frame().start() + self.frame().octets_wo_fcs() <= self.octets().len(),
            self.frame().start() + self.frame().octets_wo_fcs() + Config::FCS_LENGTH <= u16::MAX,
        ensures
            r is Ok <==> self.ranges().fixed_length() <= self.frame().octets_wo_fcs()
                && self.ies_length() is Some,
            r matches Ok(next) ==> {
                &&& next.inner() == self.inner()
                &&& completes(
                    self.ranges(),
                    next.ranges(),
                    self.ies_length()->0,
                    self.frame().octets_wo_fcs() - self.ranges().fixed_length()
                        - self.ies_length()->0,
                    Config::FCS_LENGTH as int,
                )
            },
    {
        proof {
            lemma_offsets_ordered(self.mpdu_field_ranges);
        }
        let mpdu = self.mpdu.as_mpdu();
        let mpdu_length_wo_fcs: u16 = mpdu.pdu_length_wo_fcs();
        let (offset_ies, mic_length) = self.mpdu_field_ranges.offset_ies_and_mic_length();
        let mpdu_end: usize = mpdu.offset_mpdu() as usize + mpdu_length_wo_fcs as usize;
        if offset_ies + mic_length > mpdu_end {
            return Err(Error);
        }
        let ies_length: u16 = if mpdu.frame_control().information_elements_present() {
            let ies_and_payload: &[u8] = &mpdu.buffer_ref()[offset_ies..mpdu_end - mic_length];
            match find_ies_end(ies_and_payload) {
                Some(end) => end as u16,
                None => return Err(Error),
            }
        } else {
            0
        };
        match self.mpdu_field_ranges.with_ies_length_and_mpdu_length::<Config>(
            ies_length,
            mpdu_length_wo_fcs,
        ) {
            Ok(mpdu_field_ranges) => Ok(MpduParser { mpdu_field_ranges, mpdu: self.mpdu }),
            Err(_) => Err(Error),
        }
    }
}

impl<AnyMpdu: AsMpdu, State: MpduParsedUpToAddressing> MpduParser<AnyMpdu, State> {
    /// Whether there are addressing fields and the frame control field announces
    /// a valid addressing.
    pub open spec fn has_addressing_fields(&self) -> bool {
        let o = self.ranges().offsets();
        o.addressing < o.aux_sec_header && announced_length(self.frame().control_fields()) is Some
    }

    /// The addressing fields.
    ///
    /// # Errors
    ///
    /// Fails if there are none or the addressing is invalid.
    pub fn addressing_fields(&self) -> (r: Result<Option<AddressingFields<&[u8]>>, Error>)
        requires
            self.addressing_wf(),
        ensures
            r is Ok <==> self.has_addressing_fields(),
            r matches Ok(fields) ==> {
                &&& fields is Some
                &&& fields->0.wf()
                &&& fields->0@ == self.octets().subrange(
                    self.ranges().offsets().addressing,
                    self.ranges().offsets().aux_sec_header,
                )
                &&& fields->0.offsets() == offsets_from(
                    announced_lengths(self.frame().control_fields())->0,
                )
            },
    {
        let range = match self.mpdu_field_ranges.range_addressing() {
            Some(range) => range,
            None => return Err(Error),
        };
        let addressing_repr = match AddressingRepr::from_frame_control(self.frame_control()) {
            Ok(addressing_repr) => addressing_repr,
            Err(_) => return Err(Error),
        };
        proof {
            lemma_announced(addressing_repr, self.frame().control_fields());
            lemma_offsets_ordered(self.mpdu_field_ranges);
        }
        let le_bytes: &[u8] = &self.mpdu.as_mpdu().buffer_ref()[range.start..range.end];
        match AddressingFields::new_unchecked(le_bytes, addressing_repr) {
            Ok(fields) => Ok(Some(fields)),
            Err(_) => Err(Error),
        }
    }
}

impl<AnyMpdu: AsMpduMut, State: MpduParsedUpToAddressing> MpduParser<AnyMpdu, State> where
    AnyMpdu::Buffer: OctetsMut,
 {
    /// The addressing fields for writing.
    ///
    /// # Errors
    ///
    /// Fails if there are none or the addressing is invalid.
    pub fn addressing_fields_mut(&mut self) -> (r: Result<
        Option<AddressingFields<&mut [u8]>>,
        Error,
    >)
        requires
            old(self).addressing_wf(),
        ensures
            r is Ok <==> old(self).has_addressing_fields(),
            r is Err ==> *final(self) == *old(self),
            r matches Ok(fields) ==> {
                &&& fields is Some
                &&& fields->0.wf()
                &&& fields->0@ == old(self).octets().subrange(
                    old(self).ranges().offsets().addressing,
                    old(self).ranges().offsets().aux_sec_header,
                )
                &&& fields->0.offsets() == offsets_from(
                    announced_lengths(old(self).frame().control_fields())->0,
                )
                &&& final(self).octets() == splice(
                    old(self).octets(),
                    old(self).ranges().offsets().addressing,
                    old(self).ranges().offsets().aux_sec_header,
                    (*final(fields->0.container()))@,
                )
            },
            final(self).frame().start() == old(self).frame().start(),
            final(self).frame().octets_wo_fcs() == old(self).frame().octets_wo_fcs(),
            final(self).ranges() == old(self).ranges(),
            r is Ok ==> exists|x: &mut AnyMpdu, w: &mut MpduFrame<AnyMpdu::Buffer>|
                {
                    &&& #[trigger] call_ensures(AnyMpdu::as_mpdu_mut, (x,), w)
                    &&& *x == old(self).inner()
                    &&& *final(x) == final(self).inner()
                },
            r is Ok ==> exists|x: &mut AnyMpdu::Buffer, w: &mut [u8]|
                {
                    &&& #[trigger] call_ensures(
                        <AnyMpdu::Buffer as OctetsMut>::octets_mut,
                        (x,),
                        w,
                    )
                    &&& *x == old(self).frame().container()
                    &&& *final(x) == final(self).frame().container()
                },
    {
        let range = match self.mpdu_field_ranges.range_addressing() {
            Some(range) => range,
            None => return Err(Error),
        };
        let addressing_repr = match AddressingRepr::from_frame_control(self.frame_control()) {
            Ok(addressing_repr) => addressing_repr,
            Err(_) => return Err(Error),
        };
        proof {
            lemma_announced(addressing_repr, self.frame().control_fields());
            lemma_offsets_ordered(self.mpdu_field_ranges);
        }
        if addressing_repr.addressing_fields_length().is_err() {
            return Err(Error);
        }
        let buffer = self.mpdu.as_mpdu_mut().buffer_mut();
        let le_bytes = subslice_mut(buffer, range.start, range.end);
        match AddressingFields::new_unchecked(le_bytes, addressing_repr) {
            Ok(fields) => Ok(Some(fields)),
            Err(_) => Err(Error),
        }
    }
}

impl<'mpdu, Buffer: Octets, State: MpduParsedUpToAddressing> MpduParser<
    &'mpdu MpduFrame<Buffer>,
    State,
> {
    /// The addressing fields of the borrowed MPDU.
    ///
    /// # Errors
    ///
    /// Fails if there are none or the addressing is invalid.
    pub fn into_addressing_fields(self) -> (r: Result<
        Option<AddressingFields<&'mpdu [u8]>>,
        Error,
    >)
        requires
            self.addressing_wf(),
        ensures
            r is Ok <==> self.has_addressing_fields(),
            r matches Ok(fields) ==> {
                &&& fields is Some
                &&& fields->0.wf()
                &&& fields->0@ == self.octets().subrange(
                    self.ranges().offsets().addressing,
                    self.ranges().offsets().aux_sec_header,
                )
                &&& fields->0.offsets() == offsets_from(
                    announced_lengths(self.frame().control_fields())->0,
                )
            },
    {
        let range = match self.mpdu_field_ranges.range_addressing() {
            Some(range) => range,
            None => return Err(Error),
        };
        let addressing_repr = match AddressingRepr::from_frame_control(self.frame_control()) {
            Ok(addressing_repr) => addressing_repr,
            Err(_) => return Err(Error),
        };
        proof {
            lemma_announced(addressing_repr, self.frame().control_fields());
            lemma_offsets_ordered(self.mpdu_field_ranges);
        }
        let le_bytes: &'mpdu [u8] = &self.mpdu.buffer_ref()[range.start..range.end];
        match AddressingFields::new_unchecked(le_bytes, addressing_repr) {
            Ok(fields) => Ok(Some(fields)),
            Err(_) => Err(Error),
        }
    }
}

impl<AnyMpdu: AsMpdu> MpduParser<AnyMpdu, MpduWithAllFields> {
    /// Whether all fields are known and the buffer holds them.
    pub open spec fn fields_wf(&self) -> bool {
        &&& self.ranges().all_known()
        &&& self.ranges().offsets().remainder <= self.octets().len()
    }

    /// The octets of the IEs.
    pub open spec fn ie_octets(&self) -> Seq<u8> {
        self.octets().subrange(self.ranges().offsets().ies, self.ranges().offsets().frame_payload)
    }

    /// The octets of the frame payload.
    pub open spec fn payload_octets(&self) -> Seq<u8> {
        self.octets().subrange(self.ranges().offsets().frame_payload, self.ranges().offsets().mic)
    }

    /// The octets of the FCS.
    pub open spec fn fcs_octets(&self) -> Seq<u8> {
        self.octets().subrange(self.ranges().offsets().fcs, self.ranges().offsets().remainder)
    }

    /// The IEs.
    pub fn ies_fields(&self) -> (r: IesFields<&[u8]>)
        requires
            self.fields_wf(),
        ensures
            r@ == self.ie_octets(),
    {
        proof {
            lemma_offsets_ordered(self.mpdu_field_ranges);
        }
        let (offset_ies, end) = self.mpdu_field_ranges.bounds_ies();
        IesFields::new(&self.mpdu.as_mpdu().buffer_ref()[offset_ies..end])
    }

    /// The frame payload, if there is any.
    pub fn frame_payload(&self) -> (r: Option<&[u8]>)
        requires
            self.fields_wf(),
        ensures
            r is Some <==> self.payload_octets().len() > 0,
            r matches Some(payload) ==> payload@ == self.payload_octets(),
    {
        proof {
            lemma_offsets_ordered(self.mpdu_field_ranges);
        }
        match self.mpdu_field_ranges.range_frame_payload() {
            Some(range) => Some(&self.mpdu.as_mpdu().buffer_ref()[range.start..range.end]),
            None => None,
        }
    }

    /// The FCS, if it is not handled by the driver.
    pub fn fcs(&self) -> (r: Option<&[u8]>)
        requires
            self.fields_wf(),
        ensures
            r is Some <==> self.fcs_octets().len() > 0,
            r matches Some(fcs) ==> fcs@ == self.fcs_octets(),
    {
        proof {
            lemma_offsets_ordered(self.mpdu_field_ranges);
        }
        match self.mpdu_field_ranges.range_fcs() {
            Some(range) => Some(&self.mpdu.as_mpdu().buffer_ref()[range.start..range.end]),
            None => None,
        }
    }

    /// The frame payload, which may be empty.
    pub fn sdu_ref(&self) -> (r: &[u8])
        requires
            self.fields_wf(),
        ensures
            r@ == self.payload_octets(),
    {
        match self.frame_payload() {
            Some(payload) => payload,
            None => &[],
        }
    }
}

impl<AnyMpdu: AsMpduMut> MpduParser<AnyMpdu, MpduWithAllFields> where
    AnyMpdu::Buffer: OctetsMut,
 {
    /// The IEs for writing.
    pub fn ies_fields_mut(&mut self) -> (r: IesFields<&mut [u8]>)
        requires
            old(self).fields_wf(),
        ensures
            r@ == old(self).ie_octets(),
            final(self).octets() == splice(
                old(self).octets(),
                old(self).ranges().offsets().ies,
                old(self).ranges().offsets().frame_payload,
                (*final(r.container()))@,
            ),
            final(self).frame().start() == old(self).frame().start(),
            final(self).frame().octets_wo_fcs() == old(self).frame().octets_wo_fcs(),
            final(self).ranges() == old(self).ranges(),
            exists|x: &mut AnyMpdu, w: &mut MpduFrame<AnyMpdu::Buffer>|
                {
                    &&& #[trigger] call_ensures(AnyMpdu::as_mpdu_mut, (x,), w)
                    &&& *x == old(self).inner()
                    &&& *final(x) == final(self).inner()
                },
            exists|x: &mut AnyMpdu::Buffer, w: &mut [u8]|
                {
                    &&& #[trigger] call_ensures(
                        <AnyMpdu::Buffer as OctetsMut>::octets_mut,
                        (x,),
                        w,
                    )
                    &&& *x == old(self).frame().container()
                    &&& *final(x) == final(self).frame().container()
                },
    {
        proof {
            lemma_offsets_ordered(self.mpdu_field_ranges);
        }
        let (offset_ies, end) = self.mpdu_field_ranges.bounds_ies();
        let buffer = self.mpdu.as_mpdu_mut().buffer_mut();
        IesFields::new(subslice_mut(buffer, offset_ies, end))
    }

    /// The frame payload for writing, if there is any.
    pub fn frame_payload_mut(&mut self) -> (r: Option<&mut [u8]>)
        requires
            old(self).fields_wf(),
        ensures
            r is Some <==> old(self).payload_octets().len() > 0,
            r matches Some(payload) ==> {
                &&& payload@ == old(self).payload_octets()
                &&& final(self).octets() == splice(
                    old(self).octets(),
                    old(self).ranges().offsets().frame_payload,
                    old(self).ranges().offsets().mic,
                    final(payload)@,
                )
            },
            r is None ==> *final(self) == *old(self),
            final(self).frame().start() == old(self).frame().start(),
            final(self).frame().octets_wo_fcs() == old(self).frame().octets_wo_fcs(),
            final(self).ranges() == old(self).ranges(),
            r is Some ==> exists|x: &mut AnyMpdu, w: &mut MpduFrame<AnyMpdu::Buffer>|
                {
                    &&& #[trigger] call_ensures(AnyMpdu::as_mpdu_mut, (x,), w)
                    &&& *x == old(self).inner()
                    &&& *final(x) == final(self).inner()
                },
            r is Some ==> exists|x: &mut AnyMpdu::Buffer, w: &mut [u8]|
                {
                    &&& #[trigger] call_ensures(
                        <AnyMpdu::Buffer as OctetsMut>::octets_mut,
                        (x,),
                        w,
                    )
                    &&& *x == old(self).frame().container()
                    &&& *final(x) == final(self).frame().container()
                },
    {
        proof {
            lemma_offsets_ordered(self.mpdu_field_ranges);
        }
        match self.mpdu_field_ranges.range_frame_payload() {
            Some(range) => {
                let buffer = self.mpdu.as_mpdu_mut().buffer_mut();
                Some(subslice_mut(buffer, range.start, range.end))
            },
            None => None,
        }
    }

    /// The FCS for writing, if it is not handled by the driver.
    pub fn fcs_mut(&mut self) -> (r: Option<&mut [u8]>)
        requires
            old(self).fields_wf(),
        ensures
            r is Some <==> old(self).fcs_octets().len() > 0,
            r matches Some(fcs) ==> {
                &&& fcs@ == old(self).fcs_octets()
                &&& final(self).octets() == splice(
                    old(self).octets(),
                    old(self).ranges().offsets().fcs,
                    old(self).ranges().offsets().remainder,
                    final(fcs)@,
                )
            },
            r is None ==> *final(self) == *old(self),
            final(self).frame().start() == old(self).frame().start(),
            final(self).frame().octets_wo_fcs() == old(self).frame().octets_wo_fcs(),
            final(self).ranges() == old(self).ranges(),
            r is Some ==> exists|x: &mut AnyMpdu, w: &mut MpduFrame<AnyMpdu::Buffer>|
                {
                    &&& #[trigger] call_ensures(AnyMpdu::as_mpdu_mut, (x,), w)
                    &&& *x == old(self).inner()
                    &&& *final(x) == final(self).inner()
                },
            r is Some ==> exists|x: &mut AnyMpdu::Buffer, w: &mut [u8]|
                {
                    &&& #[trigger] call_ensures(
                        <AnyMpdu::Buffer as OctetsMut>::octets_mut,
                        (x,),
                        w,
                    )
                    &&& *x == old(self).frame().container()
                    &&& *final(x) == final(self).frame().container()
                },
    {
        proof {
            lemma_offsets_ordered(self.mpdu_field_ranges);
        }
        match self.mpdu_field_ranges.range_fcs() {
            Some(range) => {
                let buffer = self.mpdu.as_mpdu_mut().buffer_mut();
                Some(subslice_mut(buffer, range.start, range.end))
            },
            None => None,
        }
    }

    /// The frame payload for writing, which may be empty.
    pub fn sdu_mut(&mut self) -> (r: &mut [u8])
        requires
            old(self).fields_wf(),
        ensures
            r@ == old(self).payload_octets(),
            final(r)@.len() == r@.len() ==> final(self).octets() == splice(
                old(self).octets(),
                old(self).ranges().offsets().frame_payload,
                old(self).ranges().offsets().mic,
                final(r)@,
            ),
            final(self).frame().start() == old(self).frame().start(),
            final(self).frame().octets_wo_fcs() == old(self).frame().octets_wo_fcs(),
            final(self).ranges() == old(self).ranges(),
            exists|x: &mut AnyMpdu, w: &mut MpduFrame<AnyMpdu::Buffer>|
                {
                    &&& #[trigger] call_ensures(AnyMpdu::as_mpdu_mut, (x,), w)
                    &&& *x == old(self).inner()
                    &&& *final(x) == final(self).inner()
                },
            exists|x: &mut AnyMpdu::Buffer, w: &mut [u8]|
                {
                    &&& #[trigger] call_ensures(
                        <AnyMpdu::Buffer as OctetsMut>::octets_mut,
                        (x,),
                        w,
                    )
                    &&& *x == old(self).frame().container()
                    &&& *final(x) == final(self).frame().container()
                },
    {
        proof {
            lemma_offsets_ordered(self.mpdu_field_ranges);
        }
        let start: usize = self.mpdu_field_ranges.offset_frame_payload() as usize;
        let end: usize = self.mpdu_field_ranges.offset_frame_payload_end() as usize;
        let buffer = self.mpdu.as_mpdu_mut().buffer_mut();
        subslice_mut(buffer, start, end)
    }
}

} // verus!
