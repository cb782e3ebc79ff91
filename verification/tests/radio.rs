//! Radio tasks and transitions between them.

use dot15d4::frame::driver_config::{DriverConfig, RadioFrameUnsized};
use dot15d4::frame::radio_frame::RadioFrame;
use dot15d4::radio::tasks::{
    latest_rx_frame_start_before_off, latest_rx_frame_start_before_tx, ppdu_rx_duration, AnyTask,
    RadioTaskError, SchedulingError, TaskOff, TaskRx,
};
use dot15d4::radio::timer::{HardwareSignal, RadioTimerError, TimedSignal};
use dot15d4::radio::transition::{
    Action, CompletedRadioTransition, Event, RadioTransition, RollbackCause, TransitionPlan,
};
use dot15d4::tasks;
use dot15d4::time::{NsDuration, NsInstant};

struct FakeDriverConfig;

impl DriverConfig for FakeDriverConfig {
    const HEADROOM: u8 = 1;
    const TAILROOM: u8 = 2;
    const MAX_SDU_LENGTH: u16 = 125;
    const FCS_LENGTH: u8 = 0;
}

fn at(ticks: u64) -> NsInstant {
    NsInstant::from_ticks(ticks)
}

#[test]
fn ppdu_durations() {
    // An immediate acknowledgment and the longest frame.
    assert_eq!(ppdu_rx_duration(5).to_micros(), 352);
    assert_eq!(ppdu_rx_duration(127).to_micros(), 4_256);
}

#[test]
fn latest_frame_start() {
    let tx_at = at(100_000_000);
    assert_eq!(
        latest_rx_frame_start_before_tx(tx_at, false, Some(5)),
        at(100_000_000 - 640_000 - 352_000)
    );
    assert_eq!(
        latest_rx_frame_start_before_tx(tx_at, true, None),
        at(100_000_000 - 640_000 - 4_256_000 - 320_000)
    );
    assert_eq!(
        latest_rx_frame_start_before_off(tx_at, Some(5), NsDuration::micros(192)),
        at(100_000_000 - 352_000 + 192_000)
    );
}

#[test]
fn scheduling_errors_keep_the_overdue_instant() {
    let error = SchedulingError::from(RadioTimerError::Overdue(at(7)));
    assert_eq!(error, SchedulingError { instant: Some(at(7)) });
    let error = SchedulingError::from(RadioTimerError::Already);
    assert_eq!(error, SchedulingError { instant: None });
    let error = SchedulingError::from(RadioTimerError::Busy);
    assert_eq!(error, SchedulingError { instant: None });
    let error: RadioTaskError<TaskOff, ()> = RadioTaskError::scheduling_error(TaskOff, Some(at(3)));
    assert!(matches!(
        error,
        RadioTaskError::Scheduling(TaskOff, SchedulingError { instant: Some(_) })
    ));
}

#[test]
fn tasks_are_erased() {
    let radio_frame = RadioFrame::<_, RadioFrameUnsized>::new::<FakeDriverConfig>(vec![0u8; 128]);
    assert!(matches!(AnyTask::from(TaskRx { radio_frame }), AnyTask::Rx(_)));
    assert!(matches!(AnyTask::<Vec<u8>>::from(TaskOff), AnyTask::Off(_)));
}

#[test]
fn timed_signals() {
    let signal = TimedSignal::new(at(5), HardwareSignal::RadioDisable);
    assert_eq!(signal.instant, at(5));
    assert_eq!(signal.signal, HardwareSignal::RadioDisable);
}

#[test]
fn interframe_spacing_by_length() {
    assert_eq!(tasks::Ifs::from_mpdu_length(18), tasks::Ifs::Sifs);
    assert_eq!(tasks::Ifs::from_mpdu_length(19), tasks::Ifs::Lifs);
}

type Transition = RadioTransition<u8, u16, u32>;

fn run(plan: TransitionPlan, events: Vec<Event<u8, u16, u32>>) -> (Vec<Action>, Transition) {
    let mut transition = Transition::new(plan);
    let mut actions = vec![];
    for event in events {
        actions.push(transition.action());
        transition = transition.step(event);
    }
    (actions, transition)
}

#[test]
fn external_transition_enters() {
    let (actions, transition) = run(
        TransitionPlan::external(),
        vec![
            Event::Scheduled(Ok(Some(at(10)))),
            Event::AwaitedCompletion(Ok(1)),
            Event::Completed(Ok(())),
            Event::Exited(Ok(())),
            Event::Transitioned(Ok(Some(at(11)))),
            Event::EntryDone(Ok(())),
            Event::CleanedUp(Ok(())),
        ],
    );
    assert_eq!(
        actions,
        vec![
            Action::OnScheduled,
            Action::AwaitCompletion,
            Action::OnCompleted,
            Action::Exit,
            Action::Transition,
            Action::Entry,
            Action::Cleanup,
        ]
    );
    assert_eq!(transition.action(), Action::Finish);
    match transition.into_outcome() {
        Ok(CompletedRadioTransition::Entered {
            prev_task_result,
            measured_entry,
            scheduled_entry,
        }) => {
            assert_eq!(prev_task_result, 1);
            assert_eq!(measured_entry, Some(at(11)));
            assert_eq!(scheduled_entry, Some(at(10)));
        }
        _ => panic!("not entered"),
    }
}

#[test]
fn failed_entry_switches_off() {
    let (actions, transition) = run(
        TransitionPlan::self_transition(),
        vec![
            Event::Scheduled(Ok(None)),
            Event::AwaitedCompletion(Ok(1)),
            Event::Completed(Ok(())),
            Event::Transitioned(Err(9)),
            Event::CleanedUp(Ok(())),
            Event::SwitchedOff(at(20)),
        ],
    );
    assert_eq!(actions[3..], [Action::Transition, Action::Cleanup, Action::SwitchOff]);
    assert!(matches!(
        transition.into_outcome(),
        Ok(CompletedRadioTransition::Fallback { prev_task_result: 1, error: 9, .. })
    ));
}

#[test]
fn failed_task_rolls_back() {
    let (actions, transition) = run(
        TransitionPlan::external(),
        vec![
            Event::Scheduled(Ok(None)),
            Event::AwaitedCompletion(Err(4)),
            Event::CleanedUp(Ok(())),
        ],
    );
    assert_eq!(actions[2], Action::Cleanup);
    assert!(matches!(
        transition.into_outcome(),
        Ok(CompletedRadioTransition::Rollback {
            cause: RollbackCause::Task(4),
            prev_task_result: None
        })
    ));
}

#[test]
fn overdue_transition_rolls_back() {
    let error = SchedulingError { instant: Some(at(1)) };
    let (_, transition) = run(TransitionPlan::internal(), vec![Event::Scheduled(Err(error))]);
    assert!(matches!(
        transition.into_outcome(),
        Ok(CompletedRadioTransition::Rollback {
            cause: RollbackCause::Scheduling(_),
            prev_task_result: None
        })
    ));
    let (_, transition) = run(TransitionPlan::internal(), vec![Event::Scheduled(Ok(None))]);
    assert!(transition.into_outcome().is_err());
}

#[test]
fn legacy_transition_has_no_entry_behavior() {
    let (actions, _) = run(
        TransitionPlan::external_without_entry(),
        vec![
            Event::Scheduled(Ok(None)),
            Event::AwaitedCompletion(Ok(1)),
            Event::Completed(Ok(())),
            Event::Exited(Ok(())),
            Event::Transitioned(Ok(None)),
            Event::CleanedUp(Ok(())),
        ],
    );
    assert_eq!(actions[4..], [Action::Transition, Action::Cleanup]);
}
