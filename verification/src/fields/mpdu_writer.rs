//! Building MPDUs from scratch.

use vstd::prelude::*;

use crate::fields::field_ranges::{lemma_offsets_ordered, MpduFieldRanges};
use crate::fields::ie_laws::{lemma_ies_end_found, lemma_transmission_order_length};
use crate::fields::ie_layout::{
    all_encodable, encodable_nested_length, ies_in_transmission_order, init_ies, list_initialized,
    transmission_order,
};
use crate::fields::mpdu::{ies_octets, MpduParser};
use crate::frame::addressing::AddressingMode;
use crate::frame::addressing_repr::{
    announced_length, encodes, lemma_addressing_in_sync, lemma_total_length_bounded,
};
use crate::frame::driver_config::{config_valid, DriverConfig};
use crate::frame::frame_control::{
    lemma_zero_word, FrameControl, FrameControlFields, FrameType, FrameVersion,
};
use crate::mpdu::frame::{store_control, MpduFrame};
use crate::octets::{Octets, OctetsMut};
use crate::repr::ies::{
    kinds_of, lemma_sum_terminated_nonnegative, sum_terminated, terminated_length, IeListRepr,
    IeReprWithTermination,
};
use crate::repr::mpdu::{lemma_security_lengths, MpduLengths, MpduRepr, SeqNrRepr};
use crate::states::{MpduWithAllFields, MpduWithIes};

verus! {

/// The IEs of a frame in the order in which they are transmitted, with all
/// termination IEs.
pub open spec fn ordered_ies<'ie>(ies: IeListRepr<'ie>, frame_payload: bool) -> Seq<
    IeReprWithTermination<'ie>,
> {
    match ies {
        IeListRepr::Empty => Seq::empty(),
        IeListRepr::WithTerminationIes(list) => list.ies(),
        IeListRepr::WithoutTerminationIes(list) => transmission_order(list.ies(), frame_payload),
    }
}

/// The announced length of IEs is the length of the IEs that are transmitted.
pub proof fn lemma_ordered_ies_length(ies: IeListRepr<'_>, frame_payload: bool)
    requires
        ies.total_length(frame_payload) is Some,
    ensures
        terminated_length(ordered_ies(ies, frame_payload)) == ies.total_length(frame_payload)->0,
{
    match ies {
        IeListRepr::Empty => {
            assert(sum_terminated(Seq::<IeReprWithTermination<'_>>::empty()) == 0);
            assert(!kinds_of(Seq::<IeReprWithTermination<'_>>::empty()).nested);
        },
        IeListRepr::WithTerminationIes(_) => {},
        IeListRepr::WithoutTerminationIes(list) => {
            lemma_transmission_order_length(list.ies(), frame_payload);
        },
    }
}

/// The frame control field that an MPDU is initialized with.
pub open spec fn initial_control<State>(
    repr: MpduRepr<'_, State>,
    frame_version: FrameVersion,
    frame_type: FrameType,
) -> FrameControlFields {
    FrameControlFields {
        frame_type,
        security_enabled: repr.sec() is Some,
        frame_pending: false,
        ack_request: false,
        pan_id_compression: repr.addr() matches Some(addressing) && addressing.compression_bit(),
        reserved: false,
        sequence_number_suppression: repr.seq() == SeqNrRepr::No,
        information_elements_present: !(repr.ie_list() is Empty),
        dst_addressing_mode: match repr.addr() {
            Some(addressing) => addressing.dst_mode(),
            None => AddressingMode::Absent,
        },
        frame_version,
        src_addressing_mode: match repr.addr() {
            Some(addressing) => addressing.src_mode(),
            None => AddressingMode::Absent,
        },
    }
}

/// Whether the fields of a parsed MPDU have the given lengths and start at `at`.
pub open spec fn laid_out(
    ranges: MpduFieldRanges<MpduWithAllFields>,
    at: int,
    lengths: MpduLengths,
    fcs_length: int,
) -> bool {
    let o = ranges.offsets();
    &&& ranges.all_known()
    &&& o.frame_control == at
    &&& o.addressing == at + 2 + lengths.seq_nr
    &&& o.aux_sec_header == o.addressing + lengths.addressing
    &&& o.ies == o.aux_sec_header + lengths.aux_sec_header
    &&& o.frame_payload == o.ies + lengths.ies
    &&& o.mic == o.frame_payload + lengths.frame_payload
    &&& o.fcs == o.mic + lengths.mic
    &&& o.remainder == o.fcs + fcs_length
    &&& ranges.mic_octets() == lengths.mic
}

/// `b` with its frame control field at `at` replaced by that of `c`.
pub open spec fn with_control_of(b: Seq<u8>, c: Seq<u8>, at: int) -> Seq<u8> {
    b.update(at, c[at]).update(at + 1, c[at + 1])
}

/// Whether an MPDU is initialized in a buffer that has held `before`: its fields
/// have the represented lengths, the frame control field and the IEs are
/// initialized, and all other octets are left alone.
pub open spec fn initialized<Config: DriverConfig, Buffer: Octets, State>(
    parser: MpduParser<MpduFrame<Buffer>, MpduWithAllFields>,
    before: Seq<u8>,
    repr: MpduRepr<'_, State>,
    frame_version: FrameVersion,
    frame_type: FrameType,
    frame_payload_length: int,
) -> bool {
    let lengths = repr.lengths(frame_payload_length)->0;
    let at = Config::HEADROOM as int;
    let octets = parser.inner()@;
    &&& parser.inner().start() == at
    &&& parser.inner().octets_wo_fcs() == lengths.total()
    &&& laid_out(parser.ranges(), at, lengths, Config::FCS_LENGTH as int)
    &&& parser.fields_wf()
    &&& parser.control_wf()
    &&& parser.inner().control_fields() == initial_control(repr, frame_version, frame_type)
    &&& list_initialized(
        with_control_of(before, octets, at),
        octets,
        parser.ranges().offsets().ies,
        ordered_ies(repr.ie_list(), frame_payload_length > 0),
    )
}

/// No field has a negative length.
pub proof fn lemma_lengths_nonnegative<State>(repr: MpduRepr<'_, State>, frame_payload_length: int)
    requires
        0 <= frame_payload_length,
    ensures
        repr.lengths(frame_payload_length) matches Some(lengths) ==> {
            &&& 0 <= lengths.seq_nr <= 1
            &&& 0 <= lengths.addressing <= 20
            &&& 0 <= lengths.aux_sec_header
            &&& 0 <= lengths.ies
            &&& 0 <= lengths.frame_payload
            &&& 0 <= lengths.mic
        },
{
    if let Some(addressing) = repr.addr() {
        lemma_total_length_bounded(addressing);
    }
    if let Some(security) = repr.sec() {
        lemma_security_lengths(security);
    }
    let payload = frame_payload_length > 0;
    if repr.ie_list().total_length(payload) is Some {
        lemma_ordered_ies_length(repr.ie_list(), payload);
        lemma_sum_terminated_nonnegative(ordered_ies(repr.ie_list(), payload));
    }
}

/// Whether a buffer and the limits of the driver suffice for an MPDU.
pub open spec fn buffer_suffices<Config: DriverConfig>(
    lengths: MpduLengths,
    buffer_length: int,
) -> bool {
    &&& lengths.total() + Config::FCS_LENGTH <= Config::MAX_SDU_LENGTH
    &&& Config::HEADROOM + lengths.total() + Config::FCS_LENGTH + Config::TAILROOM <= buffer_length
    &&& Config::HEADROOM + 2 + lengths.seq_nr + lengths.addressing + lengths.aux_sec_header
        <= u8::MAX
}

impl<'repr> MpduRepr<'repr, MpduWithIes> {
    /// Initializes an MPDU in a buffer, which need not be zeroed.
    ///
    /// - The frame control field is initialized with what is known. "Frame
    ///   Pending" and "AR" are zero.
    /// - IEs are initialized with their ID, type and length and with those fields
    ///   of their content that determine its structure: the number of channels,
    ///   and the number of slotframes and of the links of each. Termination IEs
    ///   are added where they are required.
    ///
    /// # Errors
    ///
    /// Fails and returns the unchanged buffer if the addressing is invalid, if
    /// the IEs are not consistent with the presence of a frame payload, or if the
    /// length of an IE cannot be told by its descriptor.
    pub fn into_parsed_mpdu<Config: DriverConfig, Buffer: OctetsMut>(
        &self,
        frame_version: FrameVersion,
        frame_type: FrameType,
        frame_payload_length: u16,
        buffer: Buffer,
    ) -> (r: Result<MpduParser<MpduFrame<Buffer>, MpduWithAllFields>, Buffer>)
        requires
            config_valid::<Config>(),
            self.ie_list().wf(frame_payload_length > 0),
            self.lengths(frame_payload_length as int) matches Some(lengths)
                ==> buffer_suffices::<Config>(lengths, buffer.bytes().len() as int),
        ensures
            r is Ok <==> self.lengths(frame_payload_length as int) is Some && all_encodable(
                ordered_ies(self.ie_list(), frame_payload_length > 0),
            ),
            r matches Ok(parser) ==> initialized::<Config, Buffer, MpduWithIes>(
                parser,
                buffer.bytes(),
                *self,
                frame_version,
                frame_type,
                frame_payload_length as int,
            ),
            r matches Ok(parser) ==> exists|x: &mut Buffer, w: &mut [u8]|
                {
                    &&& #[trigger] call_ensures(Buffer::octets_mut, (x,), w)
                    &&& *x == buffer
                    &&& *final(x) == parser.inner().container()
                },
            r matches Err(returned) ==> returned == buffer,
    {
        let ghost before = buffer.bytes();
        let ghost lengths = self.lengths(frame_payload_length as int)->0;
        let ghost at = Config::HEADROOM as int;
        let mpdu_length_wo_fcs: u16 = match self.mpdu_length_wo_fcs(frame_payload_length) {
            Ok(length) => length,
            Err(_) => return Err(buffer),
        };
        proof {
            lemma_ordered_ies_length(self.ie_list(), frame_payload_length > 0);
            lemma_lengths_nonnegative(*self, frame_payload_length as int);
        }
        let ies: Vec<IeReprWithTermination<'repr>> = match &self.ies() {
            IeListRepr::Empty => Vec::new(),
            IeListRepr::WithTerminationIes(list) => vstd::slice::slice_to_vec(list.as_slice()),
            IeListRepr::WithoutTerminationIes(list) => ies_in_transmission_order(
                list.as_slice(),
                frame_payload_length > 0,
            ),
        };
        assert(ies@ == ordered_ies(self.ie_list(), frame_payload_length > 0));
        if encodable_nested_length(ies.as_slice()).is_none() {
            return Err(buffer);
        }
        let offset_mpdu: u8 = Config::HEADROOM;
        let mpdu_field_ranges = match self.field_ranges::<Config>(frame_payload_length) {
            Some(ranges) => ranges,
            None => return Err(buffer),
        };
        proof {
            lemma_offsets_ordered(mpdu_field_ranges);
        }
        let (offset_ies, _) = mpdu_field_ranges.bounds_ies();
        let fc = self.initial_frame_control(frame_version, frame_type);
        let mut mpdu = MpduFrame::new(buffer, offset_mpdu, mpdu_length_wo_fcs);
        let octets = mpdu.buffer_mut();
        assert(octets.len() == octets@.len());
        store_control(octets, offset_mpdu as usize, &fc);
        let ghost with_control = octets@;
        let _ = init_ies(octets, offset_ies, ies.as_slice());
        let ghost after = octets@;
        assert(with_control =~= with_control_of(before, after, at));
        Ok(MpduParser::from_parts(mpdu_field_ranges, mpdu))
    }

    /// The offsets of the fields.
    fn field_ranges<Config: DriverConfig>(&self, frame_payload_length: u16) -> (r: Option<
        MpduFieldRanges<MpduWithAllFields>,
    >)
        requires
            config_valid::<Config>(),
            self.ie_list().wf(frame_payload_length > 0),
            self.lengths(frame_payload_length as int) matches Some(lengths) && lengths.total()
                + Config::FCS_LENGTH <= Config::MAX_SDU_LENGTH && Config::HEADROOM + 2
                + lengths.seq_nr + lengths.addressing + lengths.aux_sec_header <= u8::MAX,
        ensures
            r matches Some(ranges) && laid_out(
                ranges,
                Config::HEADROOM as int,
                self.lengths(frame_payload_length as int)->0,
                Config::FCS_LENGTH as int,
            ),
    {
        proof {
            lemma_lengths_nonnegative(*self, frame_payload_length as int);
        }
        let control_ranges = MpduFieldRanges::new(Config::HEADROOM, self.seq_nr());
        let addressing_ranges = match self.addressing() {
            Some(addressing) => match control_ranges.with_addressing(addressing) {
                Ok(ranges) => ranges,
                Err(_) => return None,
            },
            None => control_ranges.without_addressing(),
        };
        let security_ranges = match self.security() {
            Some(security) => addressing_ranges.with_security(security),
            None => addressing_ranges.without_security(),
        };
        match self.ies() {
            IeListRepr::Empty => Some(
                security_ranges.without_ies_with_payload_length::<Config>(frame_payload_length),
            ),
            ies => match security_ranges.with_ies_and_payload_length::<Config>(
                ies,
                frame_payload_length,
            ) {
                Ok(ranges) => Some(ranges),
                Err(_) => None,
            },
        }
    }

    /// Initializes an MPDU for writing.
    ///
    /// # Errors
    ///
    /// See [`MpduRepr::into_parsed_mpdu`].
    pub fn into_writer<Config: DriverConfig, Buffer: OctetsMut>(
        &self,
        frame_version: FrameVersion,
        frame_type: FrameType,
        frame_payload_length: u16,
        buffer: Buffer,
    ) -> (r: Result<MpduParser<MpduFrame<Buffer>, MpduWithAllFields>, Buffer>)
        requires
            config_valid::<Config>(),
            self.ie_list().wf(frame_payload_length > 0),
            self.lengths(frame_payload_length as int) matches Some(lengths)
                ==> buffer_suffices::<Config>(lengths, buffer.bytes().len() as int),
        ensures
            r is Ok <==> self.lengths(frame_payload_length as int) is Some && all_encodable(
                ordered_ies(self.ie_list(), frame_payload_length > 0),
            ),
            r matches Ok(parser) ==> initialized::<Config, Buffer, MpduWithIes>(
                parser,
                buffer.bytes(),
                *self,
                frame_version,
                frame_type,
                frame_payload_length as int,
            ),
            r matches Ok(parser) ==> exists|x: &mut Buffer, w: &mut [u8]|
                {
                    &&& #[trigger] call_ensures(Buffer::octets_mut, (x,), w)
                    &&& *x == buffer
                    &&& *final(x) == parser.inner().container()
                },
            r matches Err(returned) ==> returned == buffer,
    {
        self.into_parsed_mpdu::<Config, Buffer>(
            frame_version,
            frame_type,
            frame_payload_length,
            buffer,
        )
    }

    /// The frame control field that an MPDU is initialized with.
    fn initial_frame_control(&self, frame_version: FrameVersion, frame_type: FrameType) -> (r:
        FrameControl<[u8; 2]>)
        ensures
            r.fields() == initial_control(*self, frame_version, frame_type),
            r@.len() == 2,
    {
        let (dst_addr_mode, src_addr_mode, pan_id_compression) = match &self.addressing() {
            Some(addressing) => (
                addressing.dst_addr_mode(),
                addressing.src_addr_mode(),
                addressing.pan_id_compression(),
            ),
            None => (AddressingMode::Absent, AddressingMode::Absent, false),
        };
        let mut fc = FrameControl::new_unchecked([0u8, 0u8]);
        proof {
            lemma_zero_word();
        }
        fc.set_frame_version(frame_version);
        fc.set_frame_type(frame_type);
        fc.set_sequence_number_suppression(self.seq_nr() == SeqNrRepr::No);
        fc.set_pan_id_compression(pan_id_compression);
        fc.set_dst_addressing_mode(dst_addr_mode);
        fc.set_src_addressing_mode(src_addr_mode);
        fc.set_security_enabled(self.security().is_some());
        fc.set_information_elements_present(!self.ies().is_empty());
        fc
    }
}

/// An MPDU that has been built from scratch is parsed back: the addressing fields
/// and the IEs that are found have the lengths that the MPDU has been built with,
/// and so has what remains for the frame payload.
///
/// The frame version has to be one that encodes the addressing the way that it is
/// represented.
pub proof fn lemma_built_mpdu_parses<Config: DriverConfig, Buffer: Octets, State>(
    parser: MpduParser<MpduFrame<Buffer>, MpduWithAllFields>,
    before: Seq<u8>,
    repr: MpduRepr<'_, State>,
    frame_version: FrameVersion,
    frame_type: FrameType,
    frame_payload_length: int,
)
    requires
        0 <= frame_payload_length,
        repr.lengths(frame_payload_length) is Some,
        initialized::<Config, Buffer, State>(
            parser,
            before,
            repr,
            frame_version,
            frame_type,
            frame_payload_length,
        ),
        all_encodable(ordered_ies(repr.ie_list(), frame_payload_length > 0)),
        repr.sec() is None,
        match repr.addr() {
            Some(addressing) => encodes(frame_version, addressing),
            None => frame_version == FrameVersion::Ieee802154,
        },
        match repr.ie_list() {
            IeListRepr::Empty => true,
            IeListRepr::WithTerminationIes(_) => false,
            IeListRepr::WithoutTerminationIes(list) => list.ies().len() > 0,
        },
    ensures
        ({
            let lengths = repr.lengths(frame_payload_length)->0;
            let fields = parser.inner().control_fields();
            let o = parser.ranges().offsets();
            let mpdu_end = parser.inner().start() + parser.inner().octets_wo_fcs();
            &&& announced_length(fields) == Some(lengths.addressing)
            &&& !fields.security_enabled
            &&& ies_octets(
                parser.inner()@,
                fields.information_elements_present,
                o.ies,
                mpdu_end,
            ) == Some(lengths.ies)
            &&& mpdu_end - o.ies - lengths.ies == frame_payload_length
        }),
{
    let control = initial_control(repr, frame_version, frame_type);
    let lengths = repr.lengths(frame_payload_length)->0;
    let o = parser.ranges().offsets();
    lemma_lengths_nonnegative(repr, frame_payload_length);
    lemma_offsets_ordered(parser.ranges());
    if let Some(addressing) = repr.addr() {
        lemma_addressing_in_sync(addressing, control);
    }
    if let IeListRepr::WithoutTerminationIes(list) = repr.ie_list() {
        lemma_ies_end_found(
            with_control_of(before, parser.inner()@, Config::HEADROOM as int),
            parser.inner()@,
            o.ies,
            o.ies + lengths.ies + frame_payload_length,
            list.ies(),
            frame_payload_length > 0,
        );
    }
}

} // verus!
