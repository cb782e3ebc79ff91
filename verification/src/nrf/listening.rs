//! The end of listening for a frame.
//!
//! The state machine tells what the driver has to do next. The driver reports how
//! that went, until it is known whether a frame is being received or the radio
//! has been disabled.

use vstd::prelude::*;

use crate::nrf::radio_timing::{ns, rx_window_end, rx_window_off_entry, timed_off};
use crate::radio::tasks::{scheduling_error_of, SchedulingError};
use crate::radio::timer::{HardwareSignal, RadioTimerError, TimedSignal};
use crate::time::NsInstant;

verus! {

/// What the driver has to do.
#[derive(Clone, Copy, Debug, PartialEq, Eq, Structural)]
pub enum ListeningAction {
    /// Observe when the radio is disabled.
    ObserveDisabled,
    /// Schedule a signal unless the start of a frame comes first.
    ScheduleUnlessFrameStarted(TimedSignal),
    /// Wait until a frame starts or the radio is disabled.
    AwaitFrameStartOrDisabled,
    /// Disable the radio.
    Disable,
    /// Collect the timestamp of the start of a frame. Tells whether the event has
    /// to be cleared.
    CollectFrameStart { clear_event: bool },
    /// Nothing, as the outcome is known.
    Finish,
}

/// What the driver reports.
#[derive(Clone, Copy, Debug, PartialEq, Eq)]
pub enum ListeningEvent {
    ObservedDisabled(Result<(), RadioTimerError>),
    /// Whether the signal was scheduled, and whether a frame has started
    /// meanwhile.
    Scheduled { result: Result<(), RadioTimerError>, frame_started: bool },
    /// Whether the radio was disabled before a frame started.
    Awaited { disabled: bool },
    Disabled,
    FrameStart(NsInstant),
}

/// The outcome.
#[derive(Clone, Copy, Debug, PartialEq, Eq, Structural)]
pub enum ListeningOutcome {
    /// A frame is being received. Gives its RMARKER.
    FrameStarted(NsInstant),
    /// The radio is off. Gives the instant at which it was expected to be off, if
    /// the end of listening was scheduled.
    RxWindowEnded { scheduled_off: Option<NsInstant> },
    /// The radio goes on listening.
    Failed(SchedulingError),
}

/// The state.
#[derive(Clone, Copy, Debug, PartialEq, Eq, Structural)]
pub enum ListeningState {
    Observing,
    Scheduling,
    Awaiting,
    Disabling,
    Collecting { clear_event: bool },
    Done(ListeningOutcome),
}

/// Stops listening for a frame.
#[derive(Clone, Copy, Debug, PartialEq, Eq, Structural)]
pub struct StopListening {
    /// The latest allowed start of a frame. If there is none, then listening ends
    /// immediately.
    pub latest_frame_start: Option<NsInstant>,
    pub state: ListeningState,
}

/// When the radio has to be disabled.
pub open spec fn disable_at(latest_frame_start: NsInstant) -> NsInstant {
    latest_frame_start.after(ns(32_000))
}

/// When the radio is expected to be off.
pub open spec fn off_at(latest_frame_start: Option<NsInstant>) -> Option<NsInstant> {
    match latest_frame_start {
        Some(latest) => Some(disable_at(latest).after(ns(500)).before(ns(310))),
        None => None,
    }
}

impl StopListening {
    /// What the driver has to do next.
    pub open spec fn next_action(self) -> ListeningAction {
        match self.state {
            ListeningState::Observing => ListeningAction::ObserveDisabled,
            ListeningState::Scheduling => ListeningAction::ScheduleUnlessFrameStarted(
                TimedSignal {
                    instant: disable_at(self.latest_frame_start->0),
                    signal: HardwareSignal::RadioDisable,
                },
            ),
            ListeningState::Awaiting => ListeningAction::AwaitFrameStartOrDisabled,
            ListeningState::Disabling => ListeningAction::Disable,
            ListeningState::Collecting { clear_event } => ListeningAction::CollectFrameStart {
                clear_event,
            },
            ListeningState::Done(_) => ListeningAction::Finish,
        }
    }

    /// Whether a signal is only scheduled for a latest allowed frame start.
    pub open spec fn wf(self) -> bool {
        self.state is Scheduling ==> self.latest_frame_start is Some
    }

    /// Starts, unless the start of a frame has already been noticed.
    pub fn new(rx_frame_started: Option<NsInstant>, latest_frame_start: Option<NsInstant>) -> (r:
        Self)
        ensures
            r.wf(),
            r.latest_frame_start == latest_frame_start,
            r.state == (match rx_frame_started {
                Some(rmarker) => ListeningState::Done(ListeningOutcome::FrameStarted(rmarker)),
                None => ListeningState::Observing,
            }),
    {
        let state = match rx_frame_started {
            Some(rmarker) => ListeningState::Done(ListeningOutcome::FrameStarted(rmarker)),
            None => ListeningState::Observing,
        };
        Self { latest_frame_start, state }
    }

    /// What the driver has to do next.
    pub fn action(&self) -> (r: ListeningAction)
        requires
            self.wf(),
        ensures
            r == self.next_action(),
    {
        match self.state {
            ListeningState::Observing => ListeningAction::ObserveDisabled,
            ListeningState::Scheduling => match self.latest_frame_start {
                Some(latest) => ListeningAction::ScheduleUnlessFrameStarted(
                    timed_off(rx_window_end(latest)),
                ),
                None => ListeningAction::Finish,
            },
            ListeningState::Awaiting => ListeningAction::AwaitFrameStartOrDisabled,
            ListeningState::Disabling => ListeningAction::Disable,
            ListeningState::Collecting { clear_event } => ListeningAction::CollectFrameStart {
                clear_event,
            },
            ListeningState::Done(_) => ListeningAction::Finish,
        }
    }

    /// Whether an event answers what the driver has to do next.
    pub open spec fn accepts(self, event: ListeningEvent) -> bool {
        match self.next_action() {
            ListeningAction::ObserveDisabled => event is ObservedDisabled,
            ListeningAction::ScheduleUnlessFrameStarted(_) => event is Scheduled,
            ListeningAction::AwaitFrameStartOrDisabled => event is Awaited,
            ListeningAction::Disable => event is Disabled,
            ListeningAction::CollectFrameStart { .. } => event is FrameStart,
            ListeningAction::Finish => false,
        }
    }

    /// The state that follows when an event answers what the driver has to do.
    ///
    /// - Without a latest allowed frame start, the radio is disabled immediately.
    /// - If the latest allowed frame start has passed before the signal could be
    ///   scheduled, then the radio is disabled unless a frame has started.
    pub open spec fn follow_up(self, event: ListeningEvent) -> ListeningState {
        match event {
            ListeningEvent::ObservedDisabled(Err(error)) => ListeningState::Done(
                ListeningOutcome::Failed(scheduling_error_of(error)),
            ),
            ListeningEvent::ObservedDisabled(Ok(_)) => {
                if self.latest_frame_start is Some {
                    ListeningState::Scheduling
                } else {
                    ListeningState::Disabling
                }
            },
            ListeningEvent::Scheduled { result: Ok(_), .. } => ListeningState::Awaiting,
            ListeningEvent::Scheduled { result: Err(RadioTimerError::Already), .. } => {
                ListeningState::Collecting { clear_event: true }
            },
            ListeningEvent::Scheduled {
                result: Err(RadioTimerError::Overdue(_)),
                frame_started,
            } => {
                if frame_started {
                    ListeningState::Collecting { clear_event: false }
                } else {
                    ListeningState::Disabling
                }
            },
            ListeningEvent::Scheduled { result: Err(error), .. } => ListeningState::Done(
                ListeningOutcome::Failed(scheduling_error_of(error)),
            ),
            ListeningEvent::Awaited { disabled } => {
                if disabled {
                    ListeningState::Done(
                        ListeningOutcome::RxWindowEnded {
                            scheduled_off: off_at(self.latest_frame_start),
                        },
                    )
                } else {
                    ListeningState::Collecting { clear_event: false }
                }
            },
            ListeningEvent::Disabled => ListeningState::Done(
                ListeningOutcome::RxWindowEnded { scheduled_off: off_at(self.latest_frame_start) },
            ),
            ListeningEvent::FrameStart(rmarker) => ListeningState::Done(
                ListeningOutcome::FrameStarted(rmarker),
            ),
        }
    }

    /// Goes on with what the driver reported.
    pub fn step(self, event: ListeningEvent) -> (r: Self)
        requires
            self.wf(),
            self.accepts(event),
        ensures
            r.wf(),
            r.latest_frame_start == self.latest_frame_start,
            r.state == self.follow_up(event),
    {
        let state = match event {
            ListeningEvent::ObservedDisabled(Err(error)) => ListeningState::Done(
                ListeningOutcome::Failed(SchedulingError::from(error)),
            ),
            ListeningEvent::ObservedDisabled(Ok(_)) => {
                if self.latest_frame_start.is_some() {
                    ListeningState::Scheduling
                } else {
                    ListeningState::Disabling
                }
            },
            ListeningEvent::Scheduled { result, frame_started } => match result {
                Ok(_) => ListeningState::Awaiting,
                Err(RadioTimerError::Already) => ListeningState::Collecting { clear_event: true },
                Err(RadioTimerError::Overdue(_)) => {
                    if frame_started {
                        ListeningState::Collecting { clear_event: false }
                    } else {
                        ListeningState::Disabling
                    }
                },
                Err(error) => ListeningState::Done(
                    ListeningOutcome::Failed(SchedulingError::from(error)),
                ),
            },
            ListeningEvent::Awaited { disabled } => {
                if disabled {
                    ListeningState::Done(
                        ListeningOutcome::RxWindowEnded { scheduled_off: self.scheduled_off() },
                    )
                } else {
                    ListeningState::Collecting { clear_event: false }
                }
            },
            ListeningEvent::Disabled => ListeningState::Done(
                ListeningOutcome::RxWindowEnded { scheduled_off: self.scheduled_off() },
            ),
            ListeningEvent::FrameStart(rmarker) => ListeningState::Done(
                ListeningOutcome::FrameStarted(rmarker),
            ),
        };
        Self { latest_frame_start: self.latest_frame_start, state }
    }

    fn scheduled_off(&self) -> (r: Option<NsInstant>)
        ensures
            r == off_at(self.latest_frame_start),
    {
        match self.latest_frame_start {
            Some(latest) => Some(rx_window_off_entry(rx_window_end(latest))),
            None => None,
        }
    }
}

/// How everything that the driver may have to do goes.
pub struct ListeningReplies {
    pub observed: Result<(), RadioTimerError>,
    pub scheduled: Result<(), RadioTimerError>,
    pub frame_started: bool,
    pub disabled_first: bool,
    pub frame_start: NsInstant,
}

/// How what the driver has to do next goes.
pub open spec fn listening_reply(
    replies: ListeningReplies,
    state: ListeningState,
) -> ListeningEvent {
    match state {
        ListeningState::Observing => ListeningEvent::ObservedDisabled(replies.observed),
        ListeningState::Scheduling => ListeningEvent::Scheduled {
            result: replies.scheduled,
            frame_started: replies.frame_started,
        },
        ListeningState::Awaiting => ListeningEvent::Awaited { disabled: replies.disabled_first },
        ListeningState::Disabling => ListeningEvent::Disabled,
        _ => ListeningEvent::FrameStart(replies.frame_start),
    }
}

/// The state after a number of steps.
pub open spec fn run_listening(
    start: StopListening,
    replies: ListeningReplies,
    steps: nat,
) -> ListeningState
    decreases steps,
{
    if steps == 0 {
        start.state
    } else {
        let state = run_listening(start, replies, (steps - 1) as nat);
        if state is Done {
            state
        } else {
            (StopListening { latest_frame_start: start.latest_frame_start, state }).follow_up(
                listening_reply(replies, state),
            )
        }
    }
}

/// Whether a frame is being received in the end: if a latest allowed start is
/// given, and either a frame started before the radio was disabled by a scheduled
/// signal, or a frame had started when the signal could not be scheduled any more.
pub open spec fn frame_wins(
    latest_frame_start: Option<NsInstant>,
    replies: ListeningReplies,
) -> bool {
    &&& latest_frame_start is Some
    &&& match replies.scheduled {
        Ok(_) => !replies.disabled_first,
        Err(RadioTimerError::Already) => true,
        Err(RadioTimerError::Overdue(_)) => replies.frame_started,
        Err(RadioTimerError::Busy) => false,
    }
}

/// The outcome of stopping to listen when no frame start has been noticed yet.
pub open spec fn listening_outcome(
    latest_frame_start: Option<NsInstant>,
    replies: ListeningReplies,
) -> ListeningOutcome {
    if let Err(error) = replies.observed {
        ListeningOutcome::Failed(scheduling_error_of(error))
    } else if latest_frame_start is Some && replies.scheduled == Err::<(), RadioTimerError>(
        RadioTimerError::Busy,
    ) {
        ListeningOutcome::Failed(SchedulingError { instant: None })
    } else if frame_wins(latest_frame_start, replies) {
        ListeningOutcome::FrameStarted(replies.frame_start)
    } else {
        ListeningOutcome::RxWindowEnded { scheduled_off: off_at(latest_frame_start) }
    }
}

/// Listening always stops after at most four steps: with a frame if one has
/// started in time, otherwise with the radio off.
pub proof fn lemma_listening_outcome(
    latest_frame_start: Option<NsInstant>,
    replies: ListeningReplies,
)
    ensures
        run_listening(
            StopListening { latest_frame_start, state: ListeningState::Observing },
            replies,
            4,
        ) == ListeningState::Done(listening_outcome(latest_frame_start, replies)),
{
    reveal_with_fuel(run_listening, 5);
}

} // verus!
