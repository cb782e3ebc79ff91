//! How the radio enters and completes its tasks.

use vstd::prelude::*;

use crate::frame::driver_config::{RadioFrameSized, RadioFrameUnsized};
use crate::frame::radio_frame::RadioFrame;
use crate::nrf::radio_config::{received_frame, received_length, rx_completion, RxCompletion};
use crate::nrf::radio_timing::{ns, rx_entry, tx_entry};
use crate::octets::Octets;
use crate::radio::tasks::{RxError, RxResult, SchedulingError, TxError};
use crate::radio::timer::HardwareEvent;
use crate::time::NsInstant;

verus! {

/// The task that is being entered.
#[derive(Clone, Copy, Debug, PartialEq, Eq, Structural)]
pub enum EnteredTask {
    Off,
    /// A reception. Back-to-back to another one it is entered when a frame
    /// starts, otherwise when the receiver is ready.
    Rx { back_to_back: bool },
    /// A transmission.
    Tx { cca: bool },
}

/// What is awaited before a task is entered.
#[derive(Clone, Copy, Debug, PartialEq, Eq, Structural)]
pub enum EntryWait {
    /// The channel was found to be clear or busy.
    ClearChannelAssessment,
    /// The receiver is ready.
    RxReady,
    /// A frame has started.
    FrameStart,
    /// The radio is disabled.
    Disabled,
}

impl EnteredTask {
    /// What is awaited when the task is entered, once the channel was found to be
    /// clear if that is required.
    pub open spec fn last_wait(self) -> EntryWait {
        match self {
            EnteredTask::Off => EntryWait::Disabled,
            EnteredTask::Rx { back_to_back } => if back_to_back {
                EntryWait::FrameStart
            } else {
                EntryWait::RxReady
            },
            EnteredTask::Tx { .. } => EntryWait::FrameStart,
        }
    }

    /// What is awaited first.
    pub fn first_wait(self) -> (r: EntryWait)
        ensures
            r == (if self == (EnteredTask::Tx { cca: true }) {
                EntryWait::ClearChannelAssessment
            } else {
                self.last_wait()
            }),
    {
        match self {
            EnteredTask::Off => EntryWait::Disabled,
            EnteredTask::Rx { back_to_back } => if back_to_back {
                EntryWait::FrameStart
            } else {
                EntryWait::RxReady
            },
            EnteredTask::Tx { cca } => if cca {
                EntryWait::ClearChannelAssessment
            } else {
                EntryWait::FrameStart
            },
        }
    }

    /// The event whose instant tells when the task was entered.
    pub fn entry_event(self) -> (r: HardwareEvent)
        ensures
            r == (match self.last_wait() {
                EntryWait::Disabled => HardwareEvent::RadioDisabled,
                EntryWait::RxReady => HardwareEvent::RadioRxEnabled,
                _ => HardwareEvent::RadioFrameStarted,
            }),
    {
        match self {
            EnteredTask::Off => HardwareEvent::RadioDisabled,
            EnteredTask::Rx { back_to_back } => if back_to_back {
                HardwareEvent::RadioFrameStarted
            } else {
                HardwareEvent::RadioRxEnabled
            },
            EnteredTask::Tx { .. } => HardwareEvent::RadioFrameStarted,
        }
    }

    /// When the task was entered, given the instant of the entry event.
    pub open spec fn entered_at(self, event: NsInstant) -> NsInstant {
        match self {
            EnteredTask::Off => event,
            EnteredTask::Rx { back_to_back } => if back_to_back {
                event.before(ns(32_000))
            } else {
                event.after(ns(160_000))
            },
            EnteredTask::Tx { .. } => event.before(ns(12_090)),
        }
    }

    /// When the task was entered, given the instant of the entry event if it was
    /// observed. If it was not, then the task was not entered when it was
    /// scheduled.
    pub fn measured_entry(
        self,
        observed: Option<NsInstant>,
        scheduled_entry: Option<NsInstant>,
    ) -> (r: Result<NsInstant, SchedulingError>)
        ensures
            r == (match observed {
                Some(event) => Ok(self.entered_at(event)),
                None => Err(SchedulingError { instant: scheduled_entry }),
            }),
    {
        match observed {
            Some(event) => match self {
                EnteredTask::Off => Ok(event),
                EnteredTask::Rx { back_to_back } => Ok(rx_entry(event, back_to_back)),
                EnteredTask::Tx { .. } => Ok(tx_entry(event)),
            },
            None => Err(SchedulingError { instant: scheduled_entry }),
        }
    }

    /// Whether the timer is no longer needed once the task was entered. A
    /// reception needs it to observe the start of a frame and the end of the
    /// reception window.
    pub fn stops_timer(self) -> (r: bool)
        ensures
            r == !(self is Rx),
    {
        match self {
            EnteredTask::Rx { .. } => false,
            _ => true,
        }
    }

    /// The start of the frame that is being received, if it is known from the
    /// entry.
    pub fn known_frame_start(self, entry: NsInstant) -> (r: Option<NsInstant>)
        ensures
            r == (if self == (EnteredTask::Rx { back_to_back: true }) {
                Some(entry)
            } else {
                None
            }),
    {
        match self {
            EnteredTask::Rx { back_to_back } => if back_to_back {
                Some(entry)
            } else {
                None
            },
            _ => None,
        }
    }
}

/// Goes on with a transmission after the channel was assessed: if it is busy then
/// the frame is given back, otherwise the start of the frame is awaited.
pub fn after_cca<Buffer>(busy: bool, frame: RadioFrame<Buffer, RadioFrameSized>) -> (r: Result<
    (EntryWait, RadioFrame<Buffer, RadioFrameSized>),
    TxError<Buffer>,
>)
    ensures
        r == (if busy {
            Err(TxError::CcaBusy(frame))
        } else {
            Ok((EntryWait::FrameStart, frame))
        }),
{
    if busy {
        Err(TxError::CcaBusy(frame))
    } else {
        Ok((EntryWait::FrameStart, frame))
    }
}

/// A reception that has to be repeated with the same buffer.
#[derive(Debug)]
pub struct RepeatedRx<Buffer> {
    pub error: RxError,
    pub radio_frame: RadioFrame<Buffer, RadioFrameUnsized>,
    /// Whether the receiver has to be started.
    pub restart: bool,
}

/// Completes a reception.
///
/// A valid frame is handed over with the length that its PHY header tells. A
/// corrupt frame is dropped: then either the buffer is handed over, or the next
/// frame is received into it if that is asked for.
pub fn complete_rx<Buffer: Octets>(
    radio_frame: RadioFrame<Buffer, RadioFrameUnsized>,
    frame_started_at: NsInstant,
    crc_ok: bool,
    rollback_on_crcerror: bool,
    back_to_back: bool,
) -> (r: Result<RxResult<Buffer>, RepeatedRx<Buffer>>)
    requires
        radio_frame.wf(),
        radio_frame@.len() > 0,
        crc_ok ==> 0 < received_length(radio_frame@) <= radio_frame.sdu_end_wo_fcs()
            - radio_frame.sdu_start(),
    ensures
        r is Err <==> !crc_ok && rollback_on_crcerror,
        r matches Err(repeated) ==> repeated == (RepeatedRx {
            error: RxError::CrcError,
            radio_frame,
            restart: !back_to_back,
        }),
        r matches Ok(result) ==> match result {
            RxResult::Frame(frame, at) => {
                &&& crc_ok
                &&& at == frame_started_at
                &&& frame.wf()
                &&& frame.container() == radio_frame.container()
                &&& frame.sdu_start() == radio_frame.sdu_start()
                &&& frame.sdu_end_wo_fcs() == radio_frame.sdu_start() + received_length(
                    radio_frame@,
                )
                &&& frame.sdu_end() - frame.sdu_end_wo_fcs() == radio_frame.sdu_end()
                    - radio_frame.sdu_end_wo_fcs()
            },
            RxResult::CrcError(frame, at) => {
                &&& !crc_ok
                &&& at == frame_started_at
                &&& frame == radio_frame
            },
            _ => false,
        },
{
    match rx_completion(crc_ok, rollback_on_crcerror, back_to_back) {
        RxCompletion::Frame => Ok(RxResult::Frame(received_frame(radio_frame), frame_started_at)),
        RxCompletion::CrcError => Ok(RxResult::CrcError(radio_frame, frame_started_at)),
        RxCompletion::Rollback { restart } => Err(
            RepeatedRx { error: RxError::CrcError, radio_frame, restart },
        ),
    }
}

} // verus!
