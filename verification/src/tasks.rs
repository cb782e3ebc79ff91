//! Radio tasks that are scheduled by the time at which their frame passes the
//! antenna.

use vstd::prelude::*;

use crate::constants::A_MAX_SIFS_FRAME_SIZE;
use crate::frame::driver_config::{RadioFrameSized, RadioFrameUnsized};
use crate::frame::radio_frame::RadioFrame;
use crate::time::NsInstant;

verus! {

/// When a task is executed.
#[derive(Clone, Copy, Debug, PartialEq, Eq, Structural)]
pub enum Timestamp {
    /// Back-to-back to the previous task, with the minimal interframe spacing.
    BestEffort,
    /// At an instant of the local radio clock: when the RMARKER passes the antenna
    /// or when the radio starts to ramp down.
    Scheduled(NsInstant),
}

/// Switches to a low energy state.
#[derive(Debug)]
pub struct TaskOff {
    /// When the radio starts to ramp down.
    pub at: Timestamp,
}

/// The result of switching off.
#[derive(Clone, Copy, Debug, PartialEq, Eq, Structural)]
pub enum OffResult {
    Off,
}

/// Receives a single frame.
#[derive(Debug)]
pub struct TaskRx<Buffer> {
    /// When the RMARKER is expected to pass the antenna.
    pub start: Timestamp,
    /// The buffer that receives the frame.
    pub radio_frame: RadioFrame<Buffer, RadioFrameUnsized>,
}

/// The result of a reception.
#[derive(Debug)]
pub enum RxResult<Buffer> {
    /// A valid frame.
    Frame(RadioFrame<Buffer, RadioFrameSized>),
    /// Another task was scheduled before a frame was received.
    RxWindowEnded(RadioFrame<Buffer, RadioFrameUnsized>),
    /// A corrupt frame was received and the next task is executed nevertheless.
    CrcError(RadioFrame<Buffer, RadioFrameUnsized>),
    /// A valid frame was received that does not match the filter.
    FilteredFrame(RadioFrame<Buffer, RadioFrameSized>),
}

/// The error of a reception.
#[derive(Clone, Copy, Debug, PartialEq, Eq, Structural)]
pub enum RxError {
    /// A corrupt frame was received and the radio keeps receiving.
    CrcError,
}

/// Sends a single frame.
#[derive(Debug)]
pub struct TaskTx<Buffer> {
    /// When the RMARKER passes the antenna.
    pub at: Timestamp,
    /// The frame.
    pub radio_frame: RadioFrame<Buffer, RadioFrameSized>,
    /// Whether the channel has to be clear.
    pub cca: bool,
}

/// The result of a transmission.
#[derive(Debug)]
pub enum TxResult<Buffer> {
    /// The frame was sent, and acknowledged if requested.
    Sent(RadioFrame<Buffer, RadioFrameSized>),
    /// The frame was sent but not acknowledged.
    Nack(RadioFrame<Buffer, RadioFrameSized>),
}

/// The error of a transmission.
#[derive(Debug)]
pub enum TxError<Buffer> {
    /// The channel was not clear. Gives back the frame.
    CcaBusy(RadioFrame<Buffer, RadioFrameSized>),
}

/// A task could not be scheduled.
#[derive(Clone, Copy, Debug, PartialEq, Eq, Structural)]
pub struct SchedulingError;

/// The spacing between two frames.
#[derive(Clone, Copy, Debug, PartialEq, Eq, Structural)]
pub enum Ifs {
    /// The spacing before an acknowledgment.
    Aifs,
    /// The spacing after a short frame.
    Sifs,
    /// The spacing after a long frame.
    Lifs,
    /// No spacing.
    NoIfs,
}

impl Ifs {
    /// The spacing that is required after an MPDU of the given length.
    pub fn from_mpdu_length(mpdu_length: u16) -> (r: Ifs)
        ensures
            r == (if mpdu_length <= 18 {
                Ifs::Sifs
            } else {
                Ifs::Lifs
            }),
    {
        if mpdu_length <= A_MAX_SIFS_FRAME_SIZE {
            Ifs::Sifs
        } else {
            Ifs::Lifs
        }
    }
}

} // verus!
