//! How a task is handed over between the scheduling context and the interrupt that
//! executes it.

use vstd::prelude::*;

verus! {

/// The memory that the scheduling context shares with the interrupt.
///
/// While the task is set, it is owned by the interrupt together with the waker.
#[derive(Clone, Copy, Debug, PartialEq, Eq, Structural)]
pub struct ExecutorState {
    /// Whether a task is handed over to the interrupt.
    pub task_set: bool,
    /// Whether there is an outer task to be woken.
    pub outer_waker_set: bool,
}

/// What the outer task does when it is polled.
#[derive(Clone, Copy, Debug, PartialEq, Eq, Structural)]
pub enum SpawnPoll {
    /// It is polled for the first time: store the waker, hand over the task and
    /// pend the interrupt.
    Start,
    /// The interrupt has not finished the task.
    Wait,
    /// The task has finished: remove the waker.
    Complete,
}

/// What the interrupt does.
#[derive(Clone, Copy, Debug, PartialEq, Eq, Structural)]
pub enum InterruptStep {
    /// There is no task: the interrupt is spurious.
    Missed,
    /// The task has not finished.
    Pending,
    /// The task has finished. Wake the outer task if there is one, then hand the
    /// task back.
    Finished { wakes: bool },
}

impl ExecutorState {
    /// The state without any task.
    pub fn new() -> (r: Self)
        ensures
            r == (ExecutorState { task_set: false, outer_waker_set: false }),
    {
        Self { task_set: false, outer_waker_set: false }
    }

    /// Whether there is neither a task nor a waker.
    pub open spec fn idle(self) -> bool {
        !self.task_set && !self.outer_waker_set
    }

    /// What follows when the outer task is polled.
    pub open spec fn polled(self) -> (ExecutorState, SpawnPoll) {
        if !self.outer_waker_set {
            (ExecutorState { task_set: true, outer_waker_set: true }, SpawnPoll::Start)
        } else if self.task_set {
            (self, SpawnPoll::Wait)
        } else {
            (ExecutorState { task_set: false, outer_waker_set: false }, SpawnPoll::Complete)
        }
    }

    /// What follows when the interrupt is executed and the task, if there is one,
    /// has finished or not.
    pub open spec fn interrupted(self, finished: bool) -> (ExecutorState, InterruptStep) {
        if !self.task_set {
            (self, InterruptStep::Missed)
        } else if finished {
            (
                ExecutorState { task_set: false, ..self },
                InterruptStep::Finished { wakes: self.outer_waker_set },
            )
        } else {
            (self, InterruptStep::Pending)
        }
    }

    /// Polls the outer task.
    pub fn poll(&mut self) -> (r: SpawnPoll)
        requires
            !old(self).outer_waker_set ==> !old(self).task_set,
        ensures
            (*final(self), r) == old(self).polled(),
    {
        if !self.outer_waker_set {
            self.outer_waker_set = true;
            self.task_set = true;
            SpawnPoll::Start
        } else if self.task_set {
            SpawnPoll::Wait
        } else {
            self.outer_waker_set = false;
            SpawnPoll::Complete
        }
    }

    /// Executes the interrupt.
    pub fn interrupt(&mut self, finished: bool) -> (r: InterruptStep)
        ensures
            (*final(self), r) == old(self).interrupted(finished),
    {
        if !self.task_set {
            InterruptStep::Missed
        } else if finished {
            self.task_set = false;
            InterruptStep::Finished { wakes: self.outer_waker_set }
        } else {
            InterruptStep::Pending
        }
    }

    /// Takes the task back before it has finished.
    pub fn cancel(&mut self)
        ensures
            final(self).idle(),
    {
        self.task_set = false;
        self.outer_waker_set = false;
    }

    /// Hands a task over for a call that blocks until it has finished.
    pub fn block_on(&mut self)
        ensures
            *final(self) == (ExecutorState { task_set: true, ..*old(self) }),
    {
        self.task_set = true;
    }

    /// Whether a blocking call can return.
    pub fn is_finished(&self) -> (r: bool)
        ensures
            r == !self.task_set,
    {
        !self.task_set
    }
}

/// As long as the task has not finished, neither polling the outer task nor
/// executing the interrupt changes anything.
pub proof fn lemma_unfinished_task_waits(state: ExecutorState)
    requires
        state.task_set,
        state.outer_waker_set,
    ensures
        state.polled() == (state, SpawnPoll::Wait),
        state.interrupted(false) == (state, InterruptStep::Pending),
{
}

/// A task that is handed over and finished by the interrupt wakes the outer task,
/// which then completes and leaves the executor idle. Until then spurious
/// interrupts are ignored.
pub proof fn lemma_task_completes(state: ExecutorState, finished: bool)
    requires
        state.idle(),
    ensures
        ({
            let (started, first) = state.polled();
            let (handed_back, step) = started.interrupted(true);
            let (done, last) = handed_back.polled();
            &&& first == SpawnPoll::Start
            &&& step == (InterruptStep::Finished { wakes: true })
            &&& handed_back.interrupted(finished) == (handed_back, InterruptStep::Missed)
            &&& last == SpawnPoll::Complete
            &&& done.idle()
        }),
{
}

} // verus!
