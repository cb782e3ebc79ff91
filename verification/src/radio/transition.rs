//! The state machine of a transition from one radio task to the next.
//!
//! The machine tells which behavior of the driver has to be executed next. The
//! driver reports how that went, until the outcome of the transition is known.

use vstd::prelude::*;

use crate::radio::tasks::SchedulingError;
use crate::time::NsInstant;

verus! {

/// Which optional steps a transition has.
#[derive(Clone, Copy, Debug, PartialEq, Eq, Structural)]
pub struct TransitionPlan {
    /// Whether the exit behavior of the current state is executed.
    pub exit: bool,
    /// Whether the driver moves to the next state.
    pub transition: bool,
    /// Whether the entry behavior of the next state is executed.
    pub entry: bool,
}

impl TransitionPlan {
    /// A transition to a different state.
    pub fn external() -> (r: Self)
        ensures
            r == (TransitionPlan { exit: true, transition: true, entry: true }),
    {
        TransitionPlan { exit: true, transition: true, entry: true }
    }

    /// A transition from a state to itself.
    pub fn self_transition() -> (r: Self)
        ensures
            r == (TransitionPlan { exit: false, transition: true, entry: false }),
    {
        TransitionPlan { exit: false, transition: true, entry: false }
    }

    /// A transition to a different state that has no entry behavior.
    pub fn external_without_entry() -> (r: Self)
        ensures
            r == (TransitionPlan { exit: true, transition: true, entry: false }),
    {
        TransitionPlan { exit: true, transition: true, entry: false }
    }

    /// A transition within a state that the driver does not leave.
    pub fn internal() -> (r: Self)
        ensures
            r == (TransitionPlan { exit: false, transition: false, entry: false }),
    {
        TransitionPlan { exit: false, transition: false, entry: false }
    }
}

/// Behavior of the driver.
#[derive(Clone, Copy, Debug, PartialEq, Eq, Structural)]
pub enum Action {
    /// Executes what the transition does when it is scheduled.
    OnScheduled,
    /// Waits until the current task is completed.
    AwaitCompletion,
    /// Executes what the transition does when the current task is completed.
    OnCompleted,
    /// Executes the exit behavior of the current state.
    Exit,
    /// Moves to the next state.
    Transition,
    /// Executes the entry behavior of the next state.
    Entry,
    /// Cleans up what the transition has left.
    Cleanup,
    /// Switches the radio off.
    SwitchOff,
    /// Nothing, as the outcome is known.
    Finish,
}

/// How the behavior of a driver went. `R` and `E` are the result and the error of
/// the current task, `N` is the error of the next task.
#[derive(Debug)]
pub enum Event<R, E, N> {
    /// Gives the instant at which the next state is scheduled to enter, if it is
    /// known.
    Scheduled(Result<Option<NsInstant>, SchedulingError>),
    AwaitedCompletion(Result<R, E>),
    Completed(Result<(), SchedulingError>),
    Exited(Result<(), SchedulingError>),
    /// Gives the instant at which the next state was measured to enter, if it is
    /// known.
    Transitioned(Result<Option<NsInstant>, N>),
    EntryDone(Result<(), N>),
    CleanedUp(Result<(), N>),
    /// Gives the instant at which the radio was switched off.
    SwitchedOff(NsInstant),
}

/// Why a transition was rolled back.
#[derive(Debug)]
pub enum RollbackCause<E> {
    /// The transition could not be scheduled in time.
    Scheduling(SchedulingError),
    /// The current task failed.
    Task(E),
}

/// The outcome of a transition.
#[derive(Debug)]
pub enum CompletedRadioTransition<R, E, N> {
    /// The next state was entered.
    Entered {
        prev_task_result: R,
        measured_entry: Option<NsInstant>,
        scheduled_entry: Option<NsInstant>,
    },
    /// The current state was not left.
    Rollback { cause: RollbackCause<E>, prev_task_result: Option<R> },
    /// The next state could not be reached and the radio was switched off.
    Fallback { prev_task_result: R, error: N, measured_entry: NsInstant },
}

/// The state of a transition.
#[derive(Debug)]
pub enum TransitionState<R, E, N> {
    Scheduling,
    AwaitingCompletion { scheduled: Option<NsInstant> },
    Completing { scheduled: Option<NsInstant>, result: R },
    Exiting { scheduled: Option<NsInstant>, result: R },
    Transitioning { scheduled: Option<NsInstant>, result: R },
    Entering { scheduled: Option<NsInstant>, result: R, measured: Option<NsInstant> },
    CleaningUp {
        scheduled: Option<NsInstant>,
        result: R,
        entry: Result<Option<NsInstant>, N>,
    },
    RollingBack { cause: RollbackCause<E>, result: Option<R> },
    SwitchingOff { result: R, error: N },
    Done(CompletedRadioTransition<R, E, N>),
}

/// The behavior that a state waits for.
pub open spec fn action_of<R, E, N>(state: TransitionState<R, E, N>) -> Action {
    match state {
        TransitionState::Scheduling => Action::OnScheduled,
        TransitionState::AwaitingCompletion { .. } => Action::AwaitCompletion,
        TransitionState::Completing { .. } => Action::OnCompleted,
        TransitionState::Exiting { .. } => Action::Exit,
        TransitionState::Transitioning { .. } => Action::Transition,
        TransitionState::Entering { .. } => Action::Entry,
        TransitionState::CleaningUp { .. } => Action::Cleanup,
        TransitionState::RollingBack { .. } => Action::Cleanup,
        TransitionState::SwitchingOff { .. } => Action::SwitchOff,
        TransitionState::Done(_) => Action::Finish,
    }
}

/// Whether an event tells how a behavior went.
pub open spec fn answers<R, E, N>(action: Action, event: Event<R, E, N>) -> bool {
    match event {
        Event::Scheduled(_) => action == Action::OnScheduled,
        Event::AwaitedCompletion(_) => action == Action::AwaitCompletion,
        Event::Completed(_) => action == Action::OnCompleted,
        Event::Exited(_) => action == Action::Exit,
        Event::Transitioned(_) => action == Action::Transition,
        Event::EntryDone(_) => action == Action::Entry,
        Event::CleanedUp(_) => action == Action::Cleanup,
        Event::SwitchedOff(_) => action == Action::SwitchOff,
    }
}

/// The state once the current state may be left.
pub open spec fn after_exit<R, E, N>(
    plan: TransitionPlan,
    scheduled: Option<NsInstant>,
    result: R,
) -> TransitionState<R, E, N> {
    if plan.transition {
        TransitionState::Transitioning { scheduled, result }
    } else {
        TransitionState::CleaningUp { scheduled, result, entry: Ok(None) }
    }
}

/// The state that follows when an event answers the behavior that a state waits
/// for.
pub open spec fn next_state<R, E, N>(
    plan: TransitionPlan,
    state: TransitionState<R, E, N>,
    event: Event<R, E, N>,
) -> TransitionState<R, E, N> {
    match (state, event) {
        (TransitionState::Scheduling, Event::Scheduled(Ok(scheduled))) => {
            TransitionState::AwaitingCompletion { scheduled }
        },
        (TransitionState::Scheduling, Event::Scheduled(Err(error))) => TransitionState::Done(
            CompletedRadioTransition::Rollback { cause: RollbackCause::Scheduling(error), prev_task_result: None },
        ),
        (
            TransitionState::AwaitingCompletion { scheduled },
            Event::AwaitedCompletion(Ok(result)),
        ) => TransitionState::Completing { scheduled, result },
        (TransitionState::AwaitingCompletion { .. }, Event::AwaitedCompletion(Err(error))) => {
            TransitionState::RollingBack { cause: RollbackCause::Task(error), result: None }
        },
        (TransitionState::Completing { scheduled, result }, Event::Completed(Ok(_))) => {
            if plan.exit {
                TransitionState::Exiting { scheduled, result }
            } else {
                after_exit(plan, scheduled, result)
            }
        },
        (TransitionState::Completing { result, .. }, Event::Completed(Err(error))) => {
            TransitionState::Done(
                CompletedRadioTransition::Rollback {
                    cause: RollbackCause::Scheduling(error),
                    prev_task_result: Some(result),
                },
            )
        },
        (TransitionState::Exiting { scheduled, result }, Event::Exited(Ok(_))) => after_exit(
            plan,
            scheduled,
            result,
        ),
        (TransitionState::Exiting { result, .. }, Event::Exited(Err(error))) => {
            TransitionState::RollingBack {
                cause: RollbackCause::Scheduling(error),
                result: Some(result),
            }
        },
        (TransitionState::Transitioning { scheduled, result }, Event::Transitioned(entry)) => {
            match entry {
                Ok(measured) if plan.entry => TransitionState::Entering {
                    scheduled,
                    result,
                    measured,
                },
                _ => TransitionState::CleaningUp { scheduled, result, entry },
            }
        },
        (
            TransitionState::Entering { scheduled, result, measured },
            Event::EntryDone(Ok(_)),
        ) => TransitionState::CleaningUp { scheduled, result, entry: Ok(measured) },
        (TransitionState::Entering { result, .. }, Event::EntryDone(Err(error))) => {
            TransitionState::SwitchingOff { result, error }
        },
        (TransitionState::CleaningUp { result, .. }, Event::CleanedUp(Err(error))) => {
            TransitionState::SwitchingOff { result, error }
        },
        (TransitionState::CleaningUp { scheduled, result, entry }, Event::CleanedUp(Ok(_))) => {
            match entry {
                Ok(measured) => TransitionState::Done(
                    CompletedRadioTransition::Entered {
                        prev_task_result: result,
                        measured_entry: measured,
                        scheduled_entry: scheduled,
                    },
                ),
                Err(error) => TransitionState::SwitchingOff { result, error },
            }
        },
        (TransitionState::RollingBack { cause, result }, Event::CleanedUp(_)) => {
            TransitionState::Done(CompletedRadioTransition::Rollback { cause, prev_task_result: result })
        },
        (TransitionState::SwitchingOff { result, error }, Event::SwitchedOff(measured_entry)) => {
            TransitionState::Done(
                CompletedRadioTransition::Fallback { prev_task_result: result, error, measured_entry },
            )
        },
        (state, _) => state,
    }
}

/// A transition from one radio task to the next.
#[derive(Debug)]
pub struct RadioTransition<R, E, N> {
    plan: TransitionPlan,
    state: TransitionState<R, E, N>,
}

impl<R, E, N> RadioTransition<R, E, N> {
    /// Which optional steps the transition has.
    pub closed spec fn steps(&self) -> TransitionPlan {
        self.plan
    }

    /// The state of the transition.
    pub closed spec fn current(&self) -> TransitionState<R, E, N> {
        self.state
    }

    /// Starts a transition.
    pub fn new(plan: TransitionPlan) -> (r: Self)
        ensures
            r.steps() == plan,
            r.current() == TransitionState::<R, E, N>::Scheduling,
    {
        Self { plan, state: TransitionState::Scheduling }
    }

    /// The behavior that has to be executed next.
    pub fn action(&self) -> (r: Action)
        ensures
            r == action_of(self.current()),
    {
        match &self.state {
            TransitionState::Scheduling => Action::OnScheduled,
            TransitionState::AwaitingCompletion { .. } => Action::AwaitCompletion,
            TransitionState::Completing { .. } => Action::OnCompleted,
            TransitionState::Exiting { .. } => Action::Exit,
            TransitionState::Transitioning { .. } => Action::Transition,
            TransitionState::Entering { .. } => Action::Entry,
            TransitionState::CleaningUp { .. } => Action::Cleanup,
            TransitionState::RollingBack { .. } => Action::Cleanup,
            TransitionState::SwitchingOff { .. } => Action::SwitchOff,
            TransitionState::Done(_) => Action::Finish,
        }
    }

    fn leave(plan: TransitionPlan, scheduled: Option<NsInstant>, result: R) -> (r: TransitionState<
        R,
        E,
        N,
    >)
        ensures
            r == after_exit::<R, E, N>(plan, scheduled, result),
    {
        if plan.transition {
            TransitionState::Transitioning { scheduled, result }
        } else {
            TransitionState::CleaningUp { scheduled, result, entry: Ok(None) }
        }
    }

    /// Goes on with what the requested behavior reported.
    pub fn step(self, event: Event<R, E, N>) -> (r: Self)
        requires
            answers(action_of(self.current()), event),
        ensures
            r.steps() == self.steps(),
            r.current() == next_state(self.steps(), self.current(), event),
    {
        let plan = self.plan;
        let state = match (self.state, event) {
            (TransitionState::Scheduling, Event::Scheduled(Ok(scheduled))) => {
                TransitionState::AwaitingCompletion { scheduled }
            },
            (TransitionState::Scheduling, Event::Scheduled(Err(error))) => TransitionState::Done(
                CompletedRadioTransition::Rollback {
                    cause: RollbackCause::Scheduling(error),
                    prev_task_result: None,
                },
            ),
            (
                TransitionState::AwaitingCompletion { scheduled },
                Event::AwaitedCompletion(Ok(result)),
            ) => TransitionState::Completing { scheduled, result },
            (TransitionState::AwaitingCompletion { .. }, Event::AwaitedCompletion(Err(error))) => {
                TransitionState::RollingBack { cause: RollbackCause::Task(error), result: None }
            },
            (TransitionState::Completing { scheduled, result }, Event::Completed(Ok(_))) => {
                if plan.exit {
                    TransitionState::Exiting { scheduled, result }
                } else {
                    Self::leave(plan, scheduled, result)
                }
            },
            (TransitionState::Completing { result, .. }, Event::Completed(Err(error))) => {
                TransitionState::Done(
                    CompletedRadioTransition::Rollback {
                        cause: RollbackCause::Scheduling(error),
                        prev_task_result: Some(result),
                    },
                )
            },
            (TransitionState::Exiting { scheduled, result }, Event::Exited(Ok(_))) => Self::leave(
                plan,
                scheduled,
                result,
            ),
            (TransitionState::Exiting { result, .. }, Event::Exited(Err(error))) => {
                TransitionState::RollingBack {
                    cause: RollbackCause::Scheduling(error),
                    result: Some(result),
                }
            },
            (
                TransitionState::Transitioning { scheduled, result },
                Event::Transitioned(Ok(measured)),
            ) => {
                if plan.entry {
                    TransitionState::Entering { scheduled, result, measured }
                } else {
                    TransitionState::CleaningUp { scheduled, result, entry: Ok(measured) }
                }
            },
            (
                TransitionState::Transitioning { scheduled, result },
                Event::Transitioned(Err(error)),
            ) => TransitionState::CleaningUp { scheduled, result, entry: Err(error) },
            (
                TransitionState::Entering { scheduled, result, measured },
                Event::EntryDone(Ok(_)),
            ) => TransitionState::CleaningUp { scheduled, result, entry: Ok(measured) },
            (TransitionState::Entering { result, .. }, Event::EntryDone(Err(error))) => {
                TransitionState::SwitchingOff { result, error }
            },
            (TransitionState::CleaningUp { result, .. }, Event::CleanedUp(Err(error))) => {
                TransitionState::SwitchingOff { result, error }
            },
            (
                TransitionState::CleaningUp { scheduled, result, entry: Ok(measured) },
                Event::CleanedUp(Ok(_)),
            ) => TransitionState::Done(
                CompletedRadioTransition::Entered {
                    prev_task_result: result,
                    measured_entry: measured,
                    scheduled_entry: scheduled,
                },
            ),
            (
                TransitionState::CleaningUp { result, entry: Err(error), .. },
                Event::CleanedUp(Ok(_)),
            ) => TransitionState::SwitchingOff { result, error },
            (TransitionState::RollingBack { cause, result }, Event::CleanedUp(_)) => {
                TransitionState::Done(CompletedRadioTransition::Rollback { cause, prev_task_result: result })
            },
            (
                TransitionState::SwitchingOff { result, error },
                Event::SwitchedOff(measured_entry),
            ) => TransitionState::Done(
                CompletedRadioTransition::Fallback { prev_task_result: result, error, measured_entry },
            ),
            (state, _) => state,
        };
        Self { plan, state }
    }

    /// The outcome, once it is known.
    pub fn into_outcome(self) -> (r: Result<CompletedRadioTransition<R, E, N>, Self>)
        ensures
            r is Ok <==> self.current() is Done,
            r matches Ok(outcome) ==> self.current() == TransitionState::Done(outcome),
            r matches Err(unchanged) ==> unchanged == self,
    {
        match self.state {
            TransitionState::Done(outcome) => Ok(outcome),
            state => Err(Self { plan: self.plan, state }),
        }
    }
}

/// How each behavior of a driver goes, if it is executed.
pub struct Replies<R, E, N> {
    pub scheduled: Result<Option<NsInstant>, SchedulingError>,
    pub completion: Result<R, E>,
    pub completed: Result<(), SchedulingError>,
    pub exited: Result<(), SchedulingError>,
    pub transitioned: Result<Option<NsInstant>, N>,
    pub entry: Result<(), N>,
    pub cleanup: Result<(), N>,
    pub switched_off: NsInstant,
}

/// How the behavior that a state waits for goes.
pub open spec fn reply<R, E, N>(
    replies: Replies<R, E, N>,
    state: TransitionState<R, E, N>,
) -> Event<R, E, N> {
    match action_of(state) {
        Action::OnScheduled => Event::Scheduled(replies.scheduled),
        Action::AwaitCompletion => Event::AwaitedCompletion(replies.completion),
        Action::OnCompleted => Event::Completed(replies.completed),
        Action::Exit => Event::Exited(replies.exited),
        Action::Transition => Event::Transitioned(replies.transitioned),
        Action::Entry => Event::EntryDone(replies.entry),
        Action::Cleanup => Event::CleanedUp(replies.cleanup),
        _ => Event::SwitchedOff(replies.switched_off),
    }
}

/// The state after a number of steps.
pub open spec fn run<R, E, N>(
    plan: TransitionPlan,
    replies: Replies<R, E, N>,
    steps: nat,
) -> TransitionState<R, E, N>
    decreases steps,
{
    if steps == 0 {
        TransitionState::Scheduling
    } else {
        let state = run(plan, replies, (steps - 1) as nat);
        next_state(plan, state, reply(replies, state))
    }
}

/// The outcome of a transition whose behaviors go as given.
///
/// - Nothing changes if the transition cannot be scheduled, the current task
///   fails, or the current state cannot be left. The result of the current task
///   is kept if there is one.
/// - Once the current state is left, the radio is switched off if anything fails.
pub open spec fn outcome<R, E, N>(
    plan: TransitionPlan,
    replies: Replies<R, E, N>,
) -> CompletedRadioTransition<R, E, N> {
    match (replies.scheduled, replies.completion) {
        (Err(error), _) => CompletedRadioTransition::Rollback {
            cause: RollbackCause::Scheduling(error),
            prev_task_result: None,
        },
        (_, Err(error)) => CompletedRadioTransition::Rollback {
            cause: RollbackCause::Task(error),
            prev_task_result: None,
        },
        (Ok(scheduled_entry), Ok(prev_task_result)) => {
            if let Err(error) = replies.completed {
                CompletedRadioTransition::Rollback {
                    cause: RollbackCause::Scheduling(error),
                    prev_task_result: Some(prev_task_result),
                }
            } else if plan.exit && replies.exited is Err {
                CompletedRadioTransition::Rollback {
                    cause: RollbackCause::Scheduling(replies.exited->Err_0),
                    prev_task_result: Some(prev_task_result),
                }
            } else if let Some(error) = entry_failure(plan, replies) {
                CompletedRadioTransition::Fallback {
                    prev_task_result,
                    error,
                    measured_entry: replies.switched_off,
                }
            } else {
                CompletedRadioTransition::Entered {
                    prev_task_result,
                    measured_entry: if plan.transition {
                        replies.transitioned->Ok_0
                    } else {
                        None
                    },
                    scheduled_entry,
                }
            }
        },
    }
}

/// What prevents the next state from being entered, if anything: the entry
/// behavior that follows a successful move, or the cleanup, or the move itself.
pub open spec fn entry_failure<R, E, N>(plan: TransitionPlan, replies: Replies<R, E, N>) -> Option<
    N,
> {
    if plan.transition && plan.entry && replies.transitioned is Ok && replies.entry is Err {
        Some(replies.entry->Err_0)
    } else if let Err(error) = replies.cleanup {
        Some(error)
    } else if plan.transition && replies.transitioned is Err {
        Some(replies.transitioned->Err_0)
    } else {
        None
    }
}

/// Every transition ends after at most eight steps with the outcome that follows
/// from how the behaviors go.
pub proof fn lemma_transition_outcome<R, E, N>(plan: TransitionPlan, replies: Replies<R, E, N>)
    ensures
        run(plan, replies, 8) == TransitionState::Done(outcome(plan, replies)),
{
    reveal_with_fuel(run, 9);
}

/// Every behavior is answered by an event that the state machine accepts.
pub proof fn lemma_reply_accepted<R, E, N>(
    replies: Replies<R, E, N>,
    state: TransitionState<R, E, N>,
)
    requires
        !(state is Done),
    ensures
        answers(action_of(state), reply(replies, state)),
{
}

/// Whether a behavior is executed in one of the first steps.
pub open spec fn executes<R, E, N>(
    plan: TransitionPlan,
    replies: Replies<R, E, N>,
    action: Action,
    steps: nat,
) -> bool {
    exists|i: nat| i < steps && action_of(#[trigger] run(plan, replies, i)) == action
}

/// The radio is switched off exactly if the outcome is a fallback.
pub proof fn lemma_switched_off<R, E, N>(plan: TransitionPlan, replies: Replies<R, E, N>)
    ensures
        executes(plan, replies, Action::SwitchOff, 8) <==> outcome(plan, replies) is Fallback,
{
    reveal_with_fuel(run, 9);
    if executes(plan, replies, Action::SwitchOff, 8) {
        let i = choose|i: nat|
            i < 8 && action_of(#[trigger] run(plan, replies, i)) == Action::SwitchOff;
        assert(i == 0 || i == 1 || i == 2 || i == 3 || i == 4 || i == 5 || i == 6 || i == 7);
    }
    let s7 = run(plan, replies, 7);
    let s6 = run(plan, replies, 6);
    let s5 = run(plan, replies, 5);
    let s4 = run(plan, replies, 4);
    let s3 = run(plan, replies, 3);
    lemma_transition_outcome(plan, replies);
    assert(run(plan, replies, 0) is Scheduling);
    if outcome(plan, replies) is Fallback {
        assert(action_of(s7) == Action::SwitchOff || action_of(s6) == Action::SwitchOff || action_of(
            s5,
        ) == Action::SwitchOff || action_of(s4) == Action::SwitchOff || action_of(s3)
            == Action::SwitchOff);
    }
}

/// The next state is never moved to unless the transition has been scheduled, the
/// current task has completed, and the exit behavior, if there is any, has
/// succeeded.
pub proof fn lemma_left_only_after_exit<R, E, N>(plan: TransitionPlan, replies: Replies<R, E, N>)
    ensures
        executes(plan, replies, Action::Transition, 8) ==> {
            &&& replies.scheduled is Ok
            &&& replies.completion is Ok
            &&& replies.completed is Ok
            &&& plan.exit ==> replies.exited is Ok
        },
{
    reveal_with_fuel(run, 9);
    if executes(plan, replies, Action::Transition, 8) {
        let i = choose|i: nat|
            i < 8 && action_of(#[trigger] run(plan, replies, i)) == Action::Transition;
        assert(i == 0 || i == 1 || i == 2 || i == 3 || i == 4 || i == 5 || i == 6 || i == 7);
    }
}

} // verus!
