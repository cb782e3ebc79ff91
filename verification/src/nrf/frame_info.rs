//! Information about a frame that is still being received.

use vstd::prelude::*;

use crate::frame::addressing::AddressingMode;
use crate::frame::addressing_fields::{offsets_from, AddressingFields};
use crate::frame::addressing_repr::{
    announced_lengths, lemma_announced, lemma_total_length_bounded, AddressingRepr,
};
use crate::frame::driver_config::RadioFrameUnsized;
use crate::frame::frame_control::{FrameControl, FrameControlFields};
use crate::frame::incoming::PreliminaryFrameInfo;
use crate::frame::radio_frame::RadioFrame;
use crate::octets::Octets;

verus! {

/// Length of the PHY header before the MPDU.
pub const PHY_HEADER_LEN: usize = 1;

/// Length of the frame control field.
pub const FC_LEN: usize = 2;

/// The number of bits of the frame control field.
pub const FC_BITS: u32 = 16;

/// Why waiting for a part of a frame has ended.
#[derive(Clone, Copy, Debug, PartialEq, Eq, Structural)]
pub enum Reception {
    /// As many bits as asked for have been received.
    Matched,
    /// The whole frame has been received.
    Ended { crc_error: bool },
}

/// What a frame control field tells about the fields behind it.
#[derive(Debug)]
pub struct FrameInfoPlan {
    frame_control: FrameControl<[u8; 2]>,
    addressing_repr: AddressingRepr,
    seq_nr_len: usize,
    dst_len: usize,
}

/// The length of the sequence number.
pub open spec fn seq_nr_octets(f: FrameControlFields) -> int {
    if f.sequence_number_suppression {
        0
    } else {
        1
    }
}

/// The length of the destination PAN ID and the destination address.
pub open spec fn dst_octets(f: FrameControlFields) -> int {
    let (pan_id, address, _, _) = announced_lengths(f)->0;
    pan_id + address
}

/// The length of all addressing fields.
pub open spec fn addressing_octets(f: FrameControlFields) -> int {
    let (a, b, c, d) = announced_lengths(f)->0;
    a + b + c + d
}

impl FrameInfoPlan {
    /// The frame control field.
    pub closed spec fn control(&self) -> FrameControl<[u8; 2]> {
        self.frame_control
    }

    /// Whether the plan follows from its frame control field.
    pub closed spec fn wf(&self) -> bool {
        let f = self.frame_control.fields();
        &&& announced_lengths(f) is Some
        &&& self.addressing_repr.lengths() == announced_lengths(f)
        &&& self.seq_nr_len == seq_nr_octets(f)
        &&& self.dst_len == dst_octets(f)
        &&& 0 <= self.dst_len <= 10
        &&& self.frame_control@.len() == 2
    }
}

/// How information about a frame is gained.
#[derive(Debug)]
pub enum FrameInfoStep {
    /// Nothing is known of the frame as it is corrupt or invalid.
    NoInfo,
    /// Only the frame control field is of interest as neither a sequence number
    /// nor a destination follows.
    ControlOnly(FrameInfoPlan),
    /// The given number of bits of the MPDU has to be received: the fields up to
    /// the destination.
    Await(FrameInfoPlan, u32),
    /// All fields up to the destination have been received.
    Ready(FrameInfoPlan),
}

impl FrameInfoStep {
    /// Whether the step goes on with what the frame control field tells.
    pub open spec fn has_plan(&self) -> bool {
        !(self is NoInfo)
    }

    /// What the frame control field tells.
    pub open spec fn plan(&self) -> FrameInfoPlan {
        match self {
            FrameInfoStep::ControlOnly(plan) => *plan,
            FrameInfoStep::Await(plan, _) => *plan,
            FrameInfoStep::Ready(plan) => *plan,
            FrameInfoStep::NoInfo => arbitrary(),
        }
    }
}

/// What a frame control field that has been received tells about the fields
/// behind it, if it announces a valid addressing.
fn plan_frame_info<Buffer: Octets>(frame: &RadioFrame<Buffer, RadioFrameUnsized>) -> (r: Option<
    FrameInfoPlan,
>)
    requires
        frame.has_frame_control(),
        frame.control_fields().dst_addressing_mode != AddressingMode::Unknown,
        frame.control_fields().src_addressing_mode != AddressingMode::Unknown,
    ensures
        r is Some <==> announced_lengths(frame.control_fields()) is Some,
        r matches Some(plan) ==> {
            &&& plan.wf()
            &&& plan.control()@ == frame@.subrange(frame.sdu_start(), frame.sdu_start() + 2)
            &&& plan.control().fields() == frame.control_fields()
        },
{
    let (frame_control, addressing_repr) = match frame.fc_and_addressing_repr() {
        Ok(fc_and_addressing_repr) => fc_and_addressing_repr,
        Err(_) => return None,
    };
    assert(frame_control@.len() == 2);
    proof {
        lemma_announced(addressing_repr, frame.control_fields());
        lemma_total_length_bounded(addressing_repr);
    }
    let lengths: [u8; 4] = match addressing_repr.addressing_fields_lengths() {
        Ok(lengths) => lengths,
        Err(_) => return None,
    };
    let seq_nr_len: usize = if frame_control.sequence_number_suppression() {
        0
    } else {
        1
    };
    let dst_len: usize = (lengths[0] + lengths[1]) as usize;
    Some(FrameInfoPlan { frame_control, addressing_repr, seq_nr_len, dst_len })
}

/// Goes on when the frame control field or the whole frame has been received.
pub fn after_frame_control<Buffer: Octets>(
    frame: &RadioFrame<Buffer, RadioFrameUnsized>,
    reception: Reception,
) -> (r: FrameInfoStep)
    requires
        !(reception matches Reception::Ended { crc_error } && crc_error) ==> {
            &&& frame.has_frame_control()
            &&& frame.control_fields().dst_addressing_mode != AddressingMode::Unknown
            &&& frame.control_fields().src_addressing_mode != AddressingMode::Unknown
        },
    ensures
        ({
            let f = frame.control_fields();
            let known = !(reception matches Reception::Ended { crc_error } && crc_error)
                && announced_lengths(f) is Some;
            let more = seq_nr_octets(f) + dst_octets(f) > 0;
            &&& r is NoInfo <==> !known
            &&& r is ControlOnly <==> known && !more
            &&& r is Await <==> known && more && reception == Reception::Matched
            &&& r is Ready <==> known && more && reception != Reception::Matched
            &&& r matches FrameInfoStep::Await(_, bits) ==> bits == 8 * (2 + seq_nr_octets(f)
                + dst_octets(f))
            &&& r.has_plan() ==> {
                &&& r.plan().wf()
                &&& r.plan().control()@ == frame@.subrange(
                    frame.sdu_start(),
                    frame.sdu_start() + 2,
                )
                &&& r.plan().control().fields() == f
            }
        }),
{
    if let Reception::Ended { crc_error } = reception {
        if crc_error {
            return FrameInfoStep::NoInfo;
        }
    }
    let plan = match plan_frame_info(frame) {
        Some(plan) => plan,
        None => return FrameInfoStep::NoInfo,
    };
    if plan.seq_nr_len == 0 && plan.dst_len == 0 {
        return FrameInfoStep::ControlOnly(plan);
    }
    match reception {
        Reception::Matched => {
            let bits: u32 = 8 * ((FC_LEN + plan.seq_nr_len + plan.dst_len) as u32);
            FrameInfoStep::Await(plan, bits)
        },
        Reception::Ended { .. } => FrameInfoStep::Ready(plan),
    }
}

/// Goes on when the fields up to the destination or the whole frame has been
/// received.
pub fn after_destination(plan: FrameInfoPlan, reception: Reception) -> (r: FrameInfoStep)
    ensures
        r == (if reception matches Reception::Ended { crc_error } && crc_error {
            FrameInfoStep::NoInfo
        } else {
            FrameInfoStep::Ready(plan)
        }),
{
    if let Reception::Ended { crc_error } = reception {
        if crc_error {
            return FrameInfoStep::NoInfo;
        }
    }
    FrameInfoStep::Ready(plan)
}

/// Nothing is known of a frame.
pub fn no_frame_info<'frame>() -> (r: PreliminaryFrameInfo<'frame>)
    ensures
        r.mpdu_length == 0,
        r.frame_control is None,
        r.seq_nr is None,
        r.addressing_fields is None,
{
    PreliminaryFrameInfo {
        mpdu_length: 0,
        frame_control: None,
        seq_nr: None,
        addressing_fields: None,
    }
}

/// What is known of a frame once the fields that are of interest have been
/// received.
pub fn frame_info<'frame, Buffer: Octets>(
    frame: &'frame RadioFrame<Buffer, RadioFrameUnsized>,
    step: FrameInfoStep,
) -> (r: PreliminaryFrameInfo<'frame>)
    requires
        !(step is Await),
        step.has_plan() ==> {
            &&& step.plan().wf()
            &&& step.plan().control().fields() == frame.control_fields()
            &&& frame@.len() > 0
        },
        step is Ready ==> 3 + seq_nr_octets(frame.control_fields()) + addressing_octets(
            frame.control_fields(),
        ) <= frame@.len(),
    ensures
        r.wf(),
        step is NoInfo ==> r.mpdu_length == 0 && r.frame_control is None && r.seq_nr is None
            && r.addressing_fields is None,
        step.has_plan() ==> r.mpdu_length == frame@[0] && r.frame_control == Some(
            step.plan().control(),
        ),
        step is ControlOnly ==> r.seq_nr is None && r.addressing_fields is None,
        step is Ready ==> ({
            let f = frame.control_fields();
            let offset = 3 + seq_nr_octets(f);
            &&& r.seq_nr == (if f.sequence_number_suppression {
                None
            } else {
                Some(frame@[3])
            })
            &&& r.addressing_fields matches Some(fields)
            &&& fields@ == frame@.subrange(offset, frame@.len() as int)
            &&& fields.offsets() == offsets_from(announced_lengths(f)->0)
        }),
{
    let pdu: &'frame [u8] = frame.pdu_ref();
    match step {
        FrameInfoStep::NoInfo => no_frame_info(),
        FrameInfoStep::ControlOnly(plan) => PreliminaryFrameInfo {
            mpdu_length: pdu[0] as u16,
            frame_control: Some(plan.frame_control),
            seq_nr: None,
            addressing_fields: None,
        },
        FrameInfoStep::Ready(plan) | FrameInfoStep::Await(plan, _) => {
            proof {
                lemma_total_length_bounded(plan.addressing_repr);
            }
            let seq_nr_offset: usize = PHY_HEADER_LEN + FC_LEN;
            let seq_nr: Option<u8> = if plan.seq_nr_len == 0 {
                None
            } else {
                Some(pdu[seq_nr_offset])
            };
            let addressing_bytes: &'frame [u8] = &pdu[seq_nr_offset + plan.seq_nr_len..pdu.len()];
            let addressing_fields = match AddressingFields::new_unchecked(
                addressing_bytes,
                plan.addressing_repr,
            ) {
                Ok(fields) => Some(fields),
                Err(_) => None,
            };
            PreliminaryFrameInfo {
                mpdu_length: pdu[0] as u16,
                frame_control: Some(plan.frame_control),
                seq_nr,
                addressing_fields,
            }
        },
    }
}

} // verus!
