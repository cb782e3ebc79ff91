//! Frames with a buffer.

use vstd::prelude::*;

use core::marker::PhantomData;
use core::ops::Range;

use crate::frame::addressing::AddressingMode;
use crate::frame::addressing_repr::AddressingRepr;
use crate::frame::driver_config::{
    config_valid, DriverConfig, RadioFrameSized, RadioFrameUnsized,
};
use crate::frame::frame_control::{fields_of, FrameControl, FrameControlFields, FrameVersion};
use crate::frame::repr::RadioFrameRepr;
use crate::octets::{splice, subslice_mut, u16_at, Octets, OctetsMut};
use crate::Error;

verus! {

/// A frame with a buffer.
#[derive(Debug)]
#[must_use]
pub struct RadioFrame<Buffer, State> {
    /// Offset of the first octet of the frame's SDU.
    headroom: u8,
    /// Offset of the FCS, or of the tailroom if the FCS is handled by the driver.
    /// As long as the length of the frame is unknown, this is the offset for the
    /// longest possible frame.
    offset_fcs: u16,
    /// Length of the FCS, or zero if it is handled by the driver.
    length_fcs: u8,
    /// The buffer allocated for the frame.
    buffer: Buffer,
    state: PhantomData<State>,
}

impl<Buffer, State> RadioFrame<Buffer, State> {
    /// The buffer allocated for the frame.
    pub closed spec fn container(&self) -> Buffer {
        self.buffer
    }

    /// Once nothing is written any more through the frame, nothing is written any more
    /// to its container. If the container is borrowed, then what it was borrowed
    /// from holds what was written last.
    pub proof fn lemma_released(self)
        requires
            has_resolved(self),
        ensures
            has_resolved(self.container()),
    {
    }

    /// Offset of the SDU.
    pub closed spec fn sdu_start(&self) -> int {
        self.headroom as int
    }

    /// Offset behind the SDU without its FCS.
    pub closed spec fn sdu_end_wo_fcs(&self) -> int {
        self.offset_fcs as int
    }

    /// Offset behind the SDU with its FCS.
    pub closed spec fn sdu_end(&self) -> int {
        self.offset_fcs + self.length_fcs
    }

    /// Releases the buffer.
    pub fn into_buffer(self) -> (r: Buffer)
        ensures
            r == self.container(),
    {
        self.buffer
    }

    /// Length of the headroom.
    pub fn headroom_length(&self) -> (r: u8)
        ensures
            r == self.sdu_start(),
    {
        self.headroom
    }
}

impl<Buffer: Octets, State> View for RadioFrame<Buffer, State> {
    type V = Seq<u8>;

    open spec fn view(&self) -> Seq<u8> {
        self.container().bytes()
    }
}

impl<Buffer: Octets, State> RadioFrame<Buffer, State> {
    /// Whether the SDU is not empty and its end can be told with 16 bits.
    pub open spec fn wf(&self) -> bool {
        &&& 0 <= self.sdu_start() < self.sdu_end_wo_fcs() <= self.sdu_end()
        &&& self.sdu_end() <= u16::MAX
    }

    /// Whether the buffer holds the frame control field.
    pub open spec fn has_frame_control(&self) -> bool {
        self.sdu_start() + 2 <= self@.len()
    }

    /// The content of the frame control field.
    pub open spec fn control_fields(&self) -> FrameControlFields {
        fields_of(u16_at(self@, self.sdu_start()) as u16)
    }

    /// The frame control field of an outgoing frame, or of an incoming frame
    /// that has been received at least up to this field.
    pub fn fc(&self) -> (r: FrameControl<[u8; 2]>)
        requires
            self.has_frame_control(),
        ensures
            r@ == self@.subrange(self.sdu_start(), self.sdu_start() + 2),
            r.fields() == self.control_fields(),
    {
        let b = self.buffer.octets();
        let start: usize = self.headroom as usize;
        let fc: [u8; 2] = [b[start], b[start + 1]];
        assert(fc@ =~= self@.subrange(self.sdu_start(), self.sdu_start() + 2));
        FrameControl::new_unchecked(fc)
    }

    /// The frame control field and the addressing that it announces.
    ///
    /// # Errors
    ///
    /// Fails if the frame version is unknown.
    pub fn fc_and_addressing_repr(&self) -> (r: Result<
        (FrameControl<[u8; 2]>, AddressingRepr),
        Error,
    >)
        requires
            self.has_frame_control(),
            self.control_fields().dst_addressing_mode != AddressingMode::Unknown,
            self.control_fields().src_addressing_mode != AddressingMode::Unknown,
        ensures
            r is Ok <==> self.control_fields().frame_version != FrameVersion::Unknown,
            r matches Ok((fc, repr)) ==> {
                &&& fc@ == self@.subrange(self.sdu_start(), self.sdu_start() + 2)
                &&& fc.fields() == self.control_fields()
                &&& repr.known()
                &&& repr.describes(self.control_fields())
            },
    {
        let fc = self.fc();
        match AddressingRepr::from_frame_control(fc) {
            Ok(addressing_repr) => Ok((fc, addressing_repr)),
            Err(_) => Err(Error),
        }
    }

    /// Length of the frame, or of the longest possible frame, without the FCS.
    pub fn max_frame_length_wo_fcs(&self) -> (r: u16)
        requires
            self.wf(),
        ensures
            r == self.sdu_end_wo_fcs() - self.sdu_start(),
    {
        self.offset_fcs - self.headroom_length() as u16
    }

    /// The whole buffer.
    pub fn pdu_ref(&self) -> (r: &[u8])
        ensures
            r@ == self@,
    {
        self.buffer.octets()
    }
}

impl<Buffer: OctetsMut, State> RadioFrame<Buffer, State> {
    /// The whole buffer for writing.
    pub fn pdu_mut(&mut self) -> (r: &mut [u8])
        ensures
            r@ == old(self)@,
            final(self)@ == final(r)@,
            final(self).sdu_start() == old(self).sdu_start(),
            final(self).sdu_end_wo_fcs() == old(self).sdu_end_wo_fcs(),
            final(self).sdu_end() == old(self).sdu_end(),
            exists|x: &mut Buffer, w: &mut [u8]|
                {
                    &&& #[trigger] call_ensures(Buffer::octets_mut, (x,), w)
                    &&& *x == old(self).container()
                    &&& *final(x) == final(self).container()
                },
    {
        self.buffer.octets_mut()
    }
}

impl<Buffer: Octets> RadioFrame<Buffer, RadioFrameUnsized> {
    /// Creates a frame of unknown length.
    pub fn new<Config: DriverConfig>(buffer: Buffer) -> (r: Self)
        requires
            config_valid::<Config>(),
            buffer.bytes().len() <= Config::MAX_SDU_LENGTH + Config::HEADROOM + Config::TAILROOM,
        ensures
            r.wf(),
            r.container() == buffer,
            r.sdu_start() == Config::HEADROOM,
            r.sdu_end_wo_fcs() == Config::HEADROOM + Config::MAX_SDU_LENGTH - Config::FCS_LENGTH,
            r.sdu_end() == Config::HEADROOM + Config::MAX_SDU_LENGTH,
    {
        let repr = RadioFrameRepr::<Config, RadioFrameUnsized>::new();
        Self {
            headroom: repr.headroom_length(),
            offset_fcs: repr.headroom_length() as u16 + repr.max_sdu_length_wo_fcs(),
            length_fcs: repr.fcs_length(),
            buffer,
            state: PhantomData,
        }
    }

    /// Sets the non-zero length of the frame without its FCS.
    pub fn with_size(self, sdu_length_wo_fcs: u16) -> (r: RadioFrame<Buffer, RadioFrameSized>)
        requires
            self.wf(),
            0 < sdu_length_wo_fcs <= self.sdu_end_wo_fcs() - self.sdu_start(),
        ensures
            r.wf(),
            r.container() == self.container(),
            r.sdu_start() == self.sdu_start(),
            r.sdu_end_wo_fcs() == self.sdu_start() + sdu_length_wo_fcs,
            r.sdu_end() - r.sdu_end_wo_fcs() == self.sdu_end() - self.sdu_end_wo_fcs(),
    {
        RadioFrame {
            headroom: self.headroom,
            offset_fcs: sdu_length_wo_fcs + self.headroom as u16,
            length_fcs: self.length_fcs,
            buffer: self.buffer,
            state: PhantomData,
        }
    }
}

impl<Buffer: Octets> RadioFrame<Buffer, RadioFrameSized> {
    fn offset_tailroom(&self) -> (r: u16)
        requires
            self.wf(),
        ensures
            r == self.sdu_end(),
    {
        self.offset_fcs + self.length_fcs as u16
    }

    /// Length of the frame with its FCS, if that is not handled by the driver.
    pub fn sdu_length(&self) -> (r: u16)
        requires
            self.wf(),
        ensures
            r == self.sdu_end() - self.sdu_start(),
            r > 0,
    {
        self.offset_fcs + self.length_fcs as u16 - self.headroom as u16
    }

    /// Length of the frame without its FCS.
    pub fn sdu_wo_fcs_length(&self) -> (r: u16)
        requires
            self.wf(),
        ensures
            r == self.sdu_end_wo_fcs() - self.sdu_start(),
            r > 0,
    {
        self.offset_fcs - self.headroom as u16
    }

    /// Makes the length of the frame unknown again.
    pub fn forget_size<Config: DriverConfig>(self) -> (r: RadioFrame<Buffer, RadioFrameUnsized>)
        requires
            config_valid::<Config>(),
            self@.len() <= Config::MAX_SDU_LENGTH + Config::HEADROOM + Config::TAILROOM,
        ensures
            r.wf(),
            r.container() == self.container(),
            r.sdu_start() == Config::HEADROOM,
            r.sdu_end_wo_fcs() == Config::HEADROOM + Config::MAX_SDU_LENGTH - Config::FCS_LENGTH,
            r.sdu_end() == Config::HEADROOM + Config::MAX_SDU_LENGTH,
    {
        RadioFrame::new::<Config>(self.into_buffer())
    }

    /// The frame control field.
    pub fn frame_control(&self) -> (r: FrameControl<[u8; 2]>)
        requires
            self.has_frame_control(),
        ensures
            r@ == self@.subrange(self.sdu_start(), self.sdu_start() + 2),
            r.fields() == self.control_fields(),
    {
        self.fc()
    }

    /// The sequence number of the frame, if an acknowledgment is requested.
    pub fn ack_seq_num(&self) -> (r: Option<u8>)
        requires
            self.has_frame_control(),
            self.control_fields().ack_request && !self.control_fields().sequence_number_suppression
                ==> self.sdu_start() + 2 < self@.len(),
        ensures
            r == (if self.control_fields().ack_request
                && !self.control_fields().sequence_number_suppression {
                Some(self@[self.sdu_start() + 2])
            } else {
                None
            }),
    {
        let fc = self.frame_control();
        if !fc.ack_request() || fc.sequence_number_suppression() {
            return None;
        }
        let seq_nr_index: usize = self.headroom as usize + 2;
        Some(self.buffer.octets()[seq_nr_index])
    }

    /// Offset range of the headroom, if there is any.
    pub fn headroom_range(&self) -> (r: Option<Range<usize>>)
        ensures
            r is Some <==> self.sdu_start() > 0,
            r matches Some(range) ==> range.start == 0 && range.end == self.sdu_start(),
    {
        if self.headroom == 0 {
            return None;
        }
        Some(0..self.headroom as usize)
    }

    /// Offset range of the frame with its FCS.
    pub fn sdu_range(&self) -> (r: Range<usize>)
        requires
            self.wf(),
        ensures
            r.start == self.sdu_start(),
            r.end == self.sdu_end(),
    {
        self.headroom as usize..self.offset_tailroom() as usize
    }

    /// Offset range of the frame without its FCS.
    pub fn sdu_range_wo_fcs(&self) -> (r: Range<usize>)
        ensures
            r.start == self.sdu_start(),
            r.end == self.sdu_end_wo_fcs(),
    {
        self.headroom as usize..self.offset_fcs as usize
    }

    /// Offset range of the FCS, if it is not handled by the driver.
    pub fn fcs_range(&self) -> (r: Option<Range<usize>>)
        requires
            self.wf(),
        ensures
            r is Some <==> self.sdu_end_wo_fcs() < self.sdu_end(),
            r matches Some(range) ==> range.start == self.sdu_end_wo_fcs() && range.end
                == self.sdu_end(),
    {
        if self.length_fcs == 0 {
            return None;
        }
        let offset_fcs: usize = self.offset_fcs as usize;
        let offset_tailroom: usize = self.offset_tailroom() as usize;
        Some(offset_fcs..offset_tailroom)
    }

    /// Offset range of the tailroom, if there is any.
    pub fn tailroom_range(&self) -> (r: Option<Range<usize>>)
        requires
            self.wf(),
        ensures
            r is Some <==> self.sdu_end() < self@.len(),
            r matches Some(range) ==> range.start == self.sdu_end() && range.end == self@.len(),
    {
        let offset_tailroom: usize = self.offset_tailroom() as usize;
        let buffer_len: usize = self.buffer.octets().len();
        if offset_tailroom >= buffer_len {
            return None;
        }
        Some(offset_tailroom..buffer_len)
    }

    /// The frame without its FCS.
    pub fn sdu_ref(&self) -> (r: &[u8])
        requires
            self.wf(),
            self.sdu_end_wo_fcs() <= self@.len(),
        ensures
            r@ == self@.subrange(self.sdu_start(), self.sdu_end_wo_fcs()),
    {
        let range = self.sdu_range_wo_fcs();
        &self.buffer.octets()[range.start..range.end]
    }
}

impl<Buffer: OctetsMut> RadioFrame<Buffer, RadioFrameSized> {
    /// The frame without its FCS for writing.
    pub fn sdu_mut(&mut self) -> (r: &mut [u8])
        requires
            old(self).wf(),
            old(self).sdu_end_wo_fcs() <= old(self)@.len(),
        ensures
            r@ == old(self)@.subrange(old(self).sdu_start(), old(self).sdu_end_wo_fcs()),
            final(self)@ == splice(
                old(self)@,
                old(self).sdu_start(),
                old(self).sdu_end_wo_fcs(),
                final(r)@,
            ),
            final(self).sdu_start() == old(self).sdu_start(),
            final(self).sdu_end_wo_fcs() == old(self).sdu_end_wo_fcs(),
            final(self).sdu_end() == old(self).sdu_end(),
            exists|x: &mut Buffer, w: &mut [u8]|
                {
                    &&& #[trigger] call_ensures(Buffer::octets_mut, (x,), w)
                    &&& *x == old(self).container()
                    &&& *final(x) == final(self).container()
                },
    {
        let range = self.sdu_range_wo_fcs();
        subslice_mut(self.buffer.octets_mut(), range.start, range.end)
    }
}

} // verus!
