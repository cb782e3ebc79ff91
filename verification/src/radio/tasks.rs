//! Radio tasks.

use vstd::prelude::*;

use crate::frame::driver_config::{RadioFrameSized, RadioFrameUnsized};
use crate::frame::radio_frame::RadioFrame;
use crate::phy::{Ifs, OQpsk250KBit, Phy};
use crate::radio::timer::RadioTimerError;
use crate::time::{NsDuration, NsInstant, SymbolsOQpsk250Duration};

verus! {

/// Switches the radio off.
#[derive(Debug)]
pub struct TaskOff;

/// The result of switching off.
#[derive(Clone, Copy, Debug, PartialEq, Eq, Structural)]
pub enum OffResult {
    Off,
}

/// Receives a frame into a buffer.
#[derive(Debug)]
pub struct TaskRx<Buffer> {
    /// The buffer that receives the frame.
    pub radio_frame: RadioFrame<Buffer, RadioFrameUnsized>,
}

/// The result of a reception.
#[derive(Debug)]
pub enum RxResult<Buffer> {
    /// A valid frame and the instant at which it started.
    Frame(RadioFrame<Buffer, RadioFrameSized>, NsInstant),
    /// No frame was received while listening.
    RxWindowEnded(RadioFrame<Buffer, RadioFrameUnsized>),
    /// A corrupt frame was received that started at the given instant.
    CrcError(RadioFrame<Buffer, RadioFrameUnsized>, NsInstant),
}

/// The error of a reception.
#[derive(Clone, Copy, Debug, PartialEq, Eq, Structural)]
pub enum RxError {
    /// A corrupt frame was received.
    CrcError,
}

/// Transmits a frame.
#[derive(Debug)]
pub struct TaskTx<Buffer> {
    /// The frame.
    pub radio_frame: RadioFrame<Buffer, RadioFrameSized>,
    /// Whether the channel has to be clear.
    pub cca: bool,
}

/// The result of a transmission.
#[derive(Debug)]
pub enum TxResult<Buffer> {
    /// The frame was sent, starting at the given instant.
    Sent(RadioFrame<Buffer, RadioFrameSized>, NsInstant),
}

/// The error of a transmission.
#[derive(Debug)]
pub enum TxError<Buffer> {
    /// The channel was not clear. Gives back the frame.
    CcaBusy(RadioFrame<Buffer, RadioFrameSized>),
}

/// Any radio task.
#[derive(Debug)]
pub enum AnyTask<Buffer> {
    Off(TaskOff),
    Rx(TaskRx<Buffer>),
    Tx(TaskTx<Buffer>),
}

/// A kind of radio task.
pub trait RadioTask<Buffer>: Sized {
    /// The task as one of any kind.
    spec fn any_task(self) -> AnyTask<Buffer>;

    /// Makes a task of any kind out of this one.
    fn into_any_task(self) -> (r: AnyTask<Buffer>)
        ensures
            r == self.any_task(),
    ;

    /// The task, if it is of this kind.
    fn try_from_any_task(any_task: AnyTask<Buffer>) -> (r: Option<Self>)
        ensures
            r matches Some(task) ==> task.any_task() == any_task,
            r is None ==> forall|task: Self| #[trigger] task.any_task() != any_task,
    ;

    /// The borrowed task, if it is of this kind.
    fn try_from_any_task_ref(any_task: &AnyTask<Buffer>) -> (r: Option<&Self>)
        ensures
            r matches Some(task) ==> task.any_task() == any_task,
            r is None ==> forall|task: Self| #[trigger] task.any_task() != any_task,
    ;
}

impl<Buffer> RadioTask<Buffer> for TaskOff {
    open spec fn any_task(self) -> AnyTask<Buffer> {
        AnyTask::Off(self)
    }

    fn into_any_task(self) -> (r: AnyTask<Buffer>) {
        AnyTask::Off(self)
    }

    fn try_from_any_task(any_task: AnyTask<Buffer>) -> (r: Option<Self>) {
        match any_task {
            AnyTask::Off(task_off) => Some(task_off),
            _ => None,
        }
    }

    fn try_from_any_task_ref(any_task: &AnyTask<Buffer>) -> (r: Option<&Self>) {
        match any_task {
            AnyTask::Off(task_off) => Some(task_off),
            _ => None,
        }
    }
}

impl<Buffer> RadioTask<Buffer> for TaskRx<Buffer> {
    open spec fn any_task(self) -> AnyTask<Buffer> {
        AnyTask::Rx(self)
    }

    fn into_any_task(self) -> (r: AnyTask<Buffer>) {
        AnyTask::Rx(self)
    }

    fn try_from_any_task(any_task: AnyTask<Buffer>) -> (r: Option<Self>) {
        match any_task {
            AnyTask::Rx(task_rx) => Some(task_rx),
            _ => None,
        }
    }

    fn try_from_any_task_ref(any_task: &AnyTask<Buffer>) -> (r: Option<&Self>) {
        match any_task {
            AnyTask::Rx(task_rx) => Some(task_rx),
            _ => None,
        }
    }
}

impl<Buffer> RadioTask<Buffer> for TaskTx<Buffer> {
    open spec fn any_task(self) -> AnyTask<Buffer> {
        AnyTask::Tx(self)
    }

    fn into_any_task(self) -> (r: AnyTask<Buffer>) {
        AnyTask::Tx(self)
    }

    fn try_from_any_task(any_task: AnyTask<Buffer>) -> (r: Option<Self>) {
        match any_task {
            AnyTask::Tx(task_tx) => Some(task_tx),
            _ => None,
        }
    }

    fn try_from_any_task_ref(any_task: &AnyTask<Buffer>) -> (r: Option<&Self>) {
        match any_task {
            AnyTask::Tx(task_tx) => Some(task_tx),
            _ => None,
        }
    }
}

impl<Buffer> AnyTask<Buffer> {
    /// The task, if it is of the given kind.
    pub fn try_into_task<Task: RadioTask<Buffer>>(self) -> (r: Option<Task>)
        ensures
            r matches Some(task) ==> task.any_task() == self,
            r is None ==> forall|task: Task| #[trigger] task.any_task() != self,
    {
        Task::try_from_any_task(self)
    }

    /// The borrowed task, if it is of the given kind.
    pub fn try_into_task_ref<Task: RadioTask<Buffer>>(&self) -> (r: Option<&Task>)
        ensures
            r matches Some(task) ==> task.any_task() == self,
            r is None ==> forall|task: Task| #[trigger] task.any_task() != self,
    {
        Task::try_from_any_task_ref(self)
    }
}

impl<Buffer> From<TaskOff> for AnyTask<Buffer> {
    fn from(task: TaskOff) -> (r: Self) {
        task.into_any_task()
    }
}

impl<Buffer> vstd::std_specs::convert::FromSpecImpl<TaskOff> for AnyTask<Buffer> {
    open spec fn obeys_from_spec() -> bool {
        true
    }

    open spec fn from_spec(task: TaskOff) -> Self {
        AnyTask::Off(task)
    }
}

impl<Buffer> From<TaskRx<Buffer>> for AnyTask<Buffer> {
    fn from(task: TaskRx<Buffer>) -> (r: Self) {
        task.into_any_task()
    }
}

impl<Buffer> vstd::std_specs::convert::FromSpecImpl<TaskRx<Buffer>> for AnyTask<Buffer> {
    open spec fn obeys_from_spec() -> bool {
        true
    }

    open spec fn from_spec(task: TaskRx<Buffer>) -> Self {
        AnyTask::Rx(task)
    }
}

impl<Buffer> From<TaskTx<Buffer>> for AnyTask<Buffer> {
    fn from(task: TaskTx<Buffer>) -> (r: Self) {
        task.into_any_task()
    }
}

impl<Buffer> vstd::std_specs::convert::FromSpecImpl<TaskTx<Buffer>> for AnyTask<Buffer> {
    open spec fn obeys_from_spec() -> bool {
        true
    }

    open spec fn from_spec(task: TaskTx<Buffer>) -> Self {
        AnyTask::Tx(task)
    }
}

/// A task could not be scheduled in time.
#[derive(Clone, Copy, Debug, PartialEq, Eq, Structural)]
pub struct SchedulingError {
    /// The offending instant, if it is known.
    pub instant: Option<NsInstant>,
}

/// The scheduling error that a timer error leads to: only an overdue instant is
/// known.
pub open spec fn scheduling_error_of(error: RadioTimerError) -> SchedulingError {
    match error {
        RadioTimerError::Overdue(instant) => SchedulingError { instant: Some(instant) },
        _ => SchedulingError { instant: None },
    }
}

impl From<RadioTimerError> for SchedulingError {
    fn from(value: RadioTimerError) -> (r: Self) {
        match value {
            RadioTimerError::Overdue(instant) => SchedulingError { instant: Some(instant) },
            RadioTimerError::Already | RadioTimerError::Busy => SchedulingError { instant: None },
        }
    }
}

impl vstd::std_specs::convert::FromSpecImpl<RadioTimerError> for SchedulingError {
    open spec fn obeys_from_spec() -> bool {
        true
    }

    open spec fn from_spec(value: RadioTimerError) -> Self {
        scheduling_error_of(value)
    }
}

/// The error of a radio task.
#[derive(Debug)]
pub enum RadioTaskError<Task, TaskError> {
    /// The task could not be scheduled in time. Gives it back.
    Scheduling(Task, SchedulingError),
    /// The task itself failed.
    Task(TaskError),
}

impl<Task, TaskError> RadioTaskError<Task, TaskError> {
    /// The error of a task that could not enter when it was scheduled.
    pub fn scheduling_error(task: Task, scheduled_entry: Option<NsInstant>) -> (r: Self)
        ensures
            r == RadioTaskError::<Task, TaskError>::Scheduling(
                task,
                SchedulingError { instant: scheduled_entry },
            ),
    {
        RadioTaskError::Scheduling(task, SchedulingError { instant: scheduled_entry })
    }
}

/// The number of nanoseconds that it takes to receive a frame with a PSDU of the
/// given length: ten symbols for the synchronization header, and two symbols for
/// each octet of the PHY header and the PSDU.
pub open spec fn ppdu_rx_nanos(psdu_size: u16) -> int {
    16_000 * (10 + 2 + 2 * psdu_size)
}

/// How long it takes to receive a frame with a PSDU of the given length.
pub fn ppdu_rx_duration(psdu_size: u16) -> (r: NsDuration)
    ensures
        r.ticks == ppdu_rx_nanos(psdu_size),
{
    OQpsk250KBit::t_shr().plus(OQpsk250KBit::t_phr()).plus(
        SymbolsOQpsk250Duration::from_ticks(psdu_size as u64 * 2).convert(),
    )
}

/// The length of the longest frame that is expected.
pub open spec fn max_psdu_size(expected: Option<u16>) -> u16 {
    match expected {
        Some(size) => size,
        None => 127,
    }
}

/// The latest instant at which a frame may start to be received if a
/// transmission is scheduled behind it: there has to be time for the longest
/// expected frame, a long interframe space and, if the channel has to be clear, a
/// backoff period.
pub fn latest_rx_frame_start_before_tx(
    tx_at: NsInstant,
    cca: bool,
    expected_max_psdu_size: Option<u16>,
) -> (r: NsInstant)
    ensures
        r.after(
            NsDuration {
                ticks: (ppdu_rx_nanos(max_psdu_size(expected_max_psdu_size)) + 640_000 + (if cca {
                    320_000int
                } else {
                    0int
                })) as u64,
            },
        ) == tx_at,
{
    let psdu_size: u16 = match expected_max_psdu_size {
        Some(size) => size,
        None => Phy::<OQpsk250KBit>::max_packet_size(),
    };
    let max_ppdu_rx = ppdu_rx_duration(psdu_size);
    let lifs = Ifs::<Phy<OQpsk250KBit>>::long().into_local_clock_duration();
    let latest_frame_start = tx_at.minus(lifs).minus(max_ppdu_rx);
    if cca {
        latest_frame_start.minus(Phy::<OQpsk250KBit>::unit_backoff_period())
    } else {
        latest_frame_start
    }
}

/// The latest instant at which a frame may start to be received if the radio is
/// to be switched off behind it. The start of a frame is given by its RMARKER,
/// which lies behind the synchronization header.
pub fn latest_rx_frame_start_before_off(
    off_at: NsInstant,
    expected_max_psdu_size: Option<u16>,
    rmarker_offset: NsDuration,
) -> (r: NsInstant)
    ensures
        r == off_at.before(
            NsDuration { ticks: ppdu_rx_nanos(max_psdu_size(expected_max_psdu_size)) as u64 },
        ).after(rmarker_offset),
{
    let psdu_size: u16 = match expected_max_psdu_size {
        Some(size) => size,
        None => Phy::<OQpsk250KBit>::max_packet_size(),
    };
    off_at.minus(ppdu_rx_duration(psdu_size)).plus(rmarker_offset)
}

} // verus!
