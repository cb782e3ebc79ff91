//! An MPDU with its buffer.

use vstd::prelude::*;

use crate::frame::driver_config::{config_valid, DriverConfig, RadioFrameSized, RadioFrameUnsized};
use crate::frame::frame_control::{fields_of, FrameControl, FrameControlFields};
use crate::frame::radio_frame::RadioFrame;
use crate::octets::{splice, subslice_mut, u16_at, Octets, OctetsMut};
use crate::Error;

verus! {

/// An MPDU that has not been parsed.
#[derive(Debug)]
#[must_use]
pub struct MpduFrame<Buffer> {
    buffer: Buffer,
    /// Offset of the MPDU within the buffer.
    offset: u8,
    /// Length of the MPDU without its FCS.
    length_wo_fcs: u16,
}

impl<Buffer> MpduFrame<Buffer> {
    /// The buffer that holds the MPDU.
    pub closed spec fn container(&self) -> Buffer {
        self.buffer
    }

    /// Once nothing is written any more through the MPDU, nothing is written any more
    /// to its container. If the container is borrowed, then what it was borrowed
    /// from holds what was written last.
    pub proof fn lemma_released(self)
        requires
            has_resolved(self),
        ensures
            has_resolved(self.container()),
    {
    }

    /// Offset of the MPDU within the buffer.
    pub closed spec fn start(&self) -> int {
        self.offset as int
    }

    /// Length of the MPDU without its FCS.
    pub closed spec fn octets_wo_fcs(&self) -> int {
        self.length_wo_fcs as int
    }

    /// Creates an MPDU of a known length without its FCS that starts at the given
    /// offset of a buffer.
    pub fn new(buffer: Buffer, offset_mpdu: u8, mpdu_length_wo_fcs: u16) -> (r: Self)
        ensures
            r.container() == buffer,
            r.start() == offset_mpdu,
            r.octets_wo_fcs() == mpdu_length_wo_fcs,
    {
        Self { buffer, offset: offset_mpdu, length_wo_fcs: mpdu_length_wo_fcs }
    }

    /// Length of the MPDU without its FCS.
    pub fn pdu_length_wo_fcs(&self) -> (r: u16)
        ensures
            r == self.octets_wo_fcs(),
    {
        self.length_wo_fcs
    }

    /// Offset of the MPDU within its buffer.
    pub fn offset_mpdu(&self) -> (r: u8)
        ensures
            r == self.start(),
    {
        self.offset
    }

    /// Releases the buffer.
    pub fn into_buffer(self) -> (r: Buffer)
        ensures
            r == self.container(),
    {
        self.buffer
    }
}

impl<Buffer: Octets> View for MpduFrame<Buffer> {
    type V = Seq<u8>;

    open spec fn view(&self) -> Seq<u8> {
        self.container().bytes()
    }
}

/// The content of the frame control field at `at`.
pub open spec fn control_fields_at(b: Seq<u8>, at: int) -> FrameControlFields {
    fields_of(u16_at(b, at) as u16)
}

impl<Buffer: Octets> MpduFrame<Buffer> {
    /// Whether the buffer holds the frame control field.
    pub open spec fn has_frame_control(&self) -> bool {
        self.start() + 2 <= self@.len()
    }

    /// The content of the frame control field.
    pub open spec fn control_fields(&self) -> FrameControlFields {
        control_fields_at(self@, self.start())
    }

    /// Whether the buffer holds the sequence number, if there is one.
    pub open spec fn has_sequence_number(&self) -> bool {
        &&& self.has_frame_control()
        &&& !self.control_fields().sequence_number_suppression ==> self.start() + 2 < self@.len()
    }

    /// The sequence number, if there is one.
    pub open spec fn seq_nr(&self) -> Option<u8> {
        if self.control_fields().sequence_number_suppression {
            None
        } else {
            Some(self@[self.start() + 2])
        }
    }

    /// The MPDU of a frame of known length.
    pub fn from_radio_frame(frame: RadioFrame<Buffer, RadioFrameSized>) -> (r: Self)
        requires
            frame.wf(),
        ensures
            r.container() == frame.container(),
            r.start() == frame.sdu_start(),
            r.octets_wo_fcs() == frame.sdu_end_wo_fcs() - frame.sdu_start(),
    {
        let offset: u8 = frame.headroom_length();
        let length_wo_fcs: u16 = frame.sdu_wo_fcs_length();
        Self { buffer: frame.into_buffer(), offset, length_wo_fcs }
    }

    /// The frame that has this MPDU as its SDU.
    pub fn into_radio_frame<Config: DriverConfig>(self) -> (r: RadioFrame<Buffer, RadioFrameSized>)
        requires
            config_valid::<Config>(),
            self@.len() <= Config::MAX_SDU_LENGTH + Config::HEADROOM + Config::TAILROOM,
            0 < self.octets_wo_fcs() <= Config::MAX_SDU_LENGTH - Config::FCS_LENGTH,
        ensures
            r.wf(),
            r.container() == self.container(),
            r.sdu_start() == Config::HEADROOM,
            r.sdu_end_wo_fcs() == Config::HEADROOM + self.octets_wo_fcs(),
            r.sdu_end() == r.sdu_end_wo_fcs() + Config::FCS_LENGTH,
    {
        let length_wo_fcs: u16 = self.length_wo_fcs;
        RadioFrame::<Buffer, RadioFrameUnsized>::new::<Config>(self.buffer).with_size(length_wo_fcs)
    }

    /// The whole buffer.
    pub fn buffer_ref(&self) -> (r: &[u8])
        ensures
            r@ == self@,
    {
        self.buffer.octets()
    }

    /// The frame control field.
    pub fn frame_control(&self) -> (r: FrameControl<&[u8]>)
        requires
            self.has_frame_control(),
        ensures
            r@ == self@.subrange(self.start(), self.start() + 2),
            r@.len() == 2,
            r.fields() == self.control_fields(),
    {
        let start: usize = self.offset as usize;
        let fc: &[u8] = &self.buffer.octets()[start..start + 2];
        FrameControl::new_unchecked(fc)
    }

    /// The sequence number, if there is one.
    pub fn sequence_number(&self) -> (r: Option<u8>)
        requires
            self.has_sequence_number(),
        ensures
            r == self.seq_nr(),
    {
        if self.frame_control().sequence_number_suppression() {
            return None;
        }
        let offset_seq_nr: usize = self.offset as usize + 2;
        Some(self.buffer.octets()[offset_seq_nr])
    }
}

impl<Buffer: OctetsMut> MpduFrame<Buffer> {
    /// The whole buffer for writing.
    pub fn buffer_mut(&mut self) -> (r: &mut [u8])
        ensures
            r@ == old(self)@,
            final(self)@ == final(r)@,
            final(self).start() == old(self).start(),
            final(self).octets_wo_fcs() == old(self).octets_wo_fcs(),
            exists|x: &mut Buffer, w: &mut [u8]|
                {
                    &&& #[trigger] call_ensures(Buffer::octets_mut, (x,), w)
                    &&& *x == old(self).container()
                    &&& *final(x) == final(self).container()
                },
    {
        self.buffer.octets_mut()
    }

    /// The frame control field for writing.
    pub fn frame_control_mut(&mut self) -> (r: FrameControl<&mut [u8]>)
        requires
            old(self).has_frame_control(),
        ensures
            r@ == old(self)@.subrange(old(self).start(), old(self).start() + 2),
            r@.len() == 2,
            r.fields() == old(self).control_fields(),
            final(self)@ == splice(
                old(self)@,
                old(self).start(),
                old(self).start() + 2,
                (*final(r.container()))@,
            ),
            final(self).start() == old(self).start(),
            final(self).octets_wo_fcs() == old(self).octets_wo_fcs(),
            exists|x: &mut Buffer, w: &mut [u8]|
                {
                    &&& #[trigger] call_ensures(Buffer::octets_mut, (x,), w)
                    &&& *x == old(self).container()
                    &&& *final(x) == final(self).container()
                },
    {
        let start: usize = self.offset as usize;
        FrameControl::new_unchecked(subslice_mut(self.buffer.octets_mut(), start, start + 2))
    }

    /// Sets the sequence number.
    ///
    /// # Errors
    ///
    /// Fails if the frame control field announces that there is none.
    pub fn set_sequence_number(&mut self, seq_nr: u8) -> (r: Result<(), Error>)
        requires
            old(self).has_sequence_number(),
        ensures
            r is Ok <==> !old(self).control_fields().sequence_number_suppression,
            r is Ok ==> final(self)@ == old(self)@.update(old(self).start() + 2, seq_nr),
            r is Err ==> *final(self) == *old(self),
            r is Ok ==> exists|x: &mut Buffer, w: &mut [u8]|
                {
                    &&& #[trigger] call_ensures(Buffer::octets_mut, (x,), w)
                    &&& *x == old(self).container()
                    &&& *final(x) == final(self).container()
                },
            final(self).start() == old(self).start(),
            final(self).octets_wo_fcs() == old(self).octets_wo_fcs(),
    {
        if self.frame_control().sequence_number_suppression() {
            return Err(Error);
        }
        let offset_seq_nr: usize = self.offset as usize + 2;
        let buffer = self.buffer.octets_mut();
        buffer[offset_seq_nr] = seq_nr;
        Ok(())
    }

    /// Sets whether an acknowledgment is requested.
    pub fn set_ack_request(&mut self, ack_request: bool)
        requires
            old(self).has_frame_control(),
        ensures
            final(self).control_fields() == (FrameControlFields {
                ack_request,
                ..old(self).control_fields()
            }),
            same_but_control(old(self)@, final(self)@, old(self).start()),
            final(self).start() == old(self).start(),
            final(self).octets_wo_fcs() == old(self).octets_wo_fcs(),
            exists|x: &mut Buffer, w: &mut [u8]|
                {
                    &&& #[trigger] call_ensures(Buffer::octets_mut, (x,), w)
                    &&& *x == old(self).container()
                    &&& *final(x) == final(self).container()
                },
    {
        let mut fc = self.frame_control_mut();
        fc.set_ack_request(ack_request);
        let ghost control = fc@;
        let ghost fields = fc.fields();
        proof {
            fc.lemma_released();
        }
        assert(self@ == splice(old(self)@, old(self).start(), old(self).start() + 2, control));
        assert(self.control_fields() == fields && same_but_control(
            old(self)@,
            self@,
            old(self).start(),
        )) by {
            lemma_control_replaced(old(self)@, old(self).start(), control);
        }
    }

    /// Sets whether the sender has more frames for the recipient.
    pub fn set_frame_pending(&mut self, frame_pending: bool)
        requires
            old(self).has_frame_control(),
        ensures
            final(self).control_fields() == (FrameControlFields {
                frame_pending,
                ..old(self).control_fields()
            }),
            same_but_control(old(self)@, final(self)@, old(self).start()),
            final(self).start() == old(self).start(),
            final(self).octets_wo_fcs() == old(self).octets_wo_fcs(),
            exists|x: &mut Buffer, w: &mut [u8]|
                {
                    &&& #[trigger] call_ensures(Buffer::octets_mut, (x,), w)
                    &&& *x == old(self).container()
                    &&& *final(x) == final(self).container()
                },
    {
        let mut fc = self.frame_control_mut();
        fc.set_frame_pending(frame_pending);
        let ghost control = fc@;
        let ghost fields = fc.fields();
        proof {
            fc.lemma_released();
        }
        assert(self@ == splice(old(self)@, old(self).start(), old(self).start() + 2, control));
        assert(self.control_fields() == fields && same_but_control(
            old(self)@,
            self@,
            old(self).start(),
        )) by {
            lemma_control_replaced(old(self)@, old(self).start(), control);
        }
    }
}

/// Whether two buffers differ at most in the frame control field at `at`.
pub open spec fn same_but_control(a: Seq<u8>, b: Seq<u8>, at: int) -> bool {
    &&& a.len() == b.len()
    &&& forall|k: int| 0 <= k < a.len() && k != at && k != at + 1 ==> #[trigger] b[k] == a[k]
}

pub(crate) proof fn lemma_control_replaced(b: Seq<u8>, at: int, control: Seq<u8>)
    requires
        0 <= at,
        at + 2 <= b.len(),
        control.len() == 2,
    ensures
        ({
            let after = splice(b, at, at + 2, control);
            &&& same_but_control(b, after, at)
            &&& control_fields_at(after, at) == fields_of(u16_at(control, 0) as u16)
        }),
{
}

/// Stores a frame control field.
pub(crate) fn store_control(buffer: &mut [u8], at: usize, fc: &FrameControl<[u8; 2]>)
    requires
        at + 2 <= old(buffer)@.len(),
    ensures
        same_but_control(old(buffer)@, final(buffer)@, at as int),
        control_fields_at(final(buffer)@, at as int) == fc.fields(),
{
    let octets: [u8; 2] = fc.to_octets();
    buffer[at] = octets[0];
    buffer[at + 1] = octets[1];
}

/// Access to an MPDU that is owned or borrowed.
pub trait AsMpdu {
    /// The buffer that holds the MPDU.
    type Buffer: Octets;

    /// The MPDU.
    spec fn frame(&self) -> MpduFrame<Self::Buffer>;

    /// The MPDU.
    fn as_mpdu(&self) -> (r: &MpduFrame<Self::Buffer>)
        ensures
            *r == self.frame(),
    ;
}

impl<Buffer: Octets> AsMpdu for MpduFrame<Buffer> {
    type Buffer = Buffer;

    open spec fn frame(&self) -> MpduFrame<Buffer> {
        *self
    }

    fn as_mpdu(&self) -> (r: &MpduFrame<Buffer>) {
        self
    }
}

impl<'mpdu, Buffer: Octets> AsMpdu for &'mpdu MpduFrame<Buffer> {
    type Buffer = Buffer;

    open spec fn frame(&self) -> MpduFrame<Buffer> {
        **self
    }

    fn as_mpdu(&self) -> (r: &MpduFrame<Buffer>) {
        *self
    }
}

impl<'mpdu, Buffer: Octets> AsMpdu for &'mpdu mut MpduFrame<Buffer> {
    type Buffer = Buffer;

    open spec fn frame(&self) -> MpduFrame<Buffer> {
        **self
    }

    fn as_mpdu(&self) -> (r: &MpduFrame<Buffer>) {
        &**self
    }
}

/// Access for writing to an MPDU that is owned or borrowed.
pub trait AsMpduMut: AsMpdu {
    /// The MPDU for writing.
    fn as_mpdu_mut(&mut self) -> (r: &mut MpduFrame<Self::Buffer>)
        ensures
            *r == old(self).frame(),
            final(self).frame() == *final(r),
    ;
}

impl<Buffer: OctetsMut> AsMpduMut for MpduFrame<Buffer> {
    fn as_mpdu_mut(&mut self) -> (r: &mut MpduFrame<Buffer>) {
        self
    }
}

impl<'mpdu, Buffer: OctetsMut> AsMpduMut for &'mpdu mut MpduFrame<Buffer> {
    fn as_mpdu_mut(&mut self) -> (r: &mut MpduFrame<Buffer>)
        ensures
            *final(*final(self)) == *final(*old(self)),
    {
        &mut **self
    }
}

} // verus!
