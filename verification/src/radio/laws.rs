//! What radio tasks, the transitions between them and the times of the PHY are for.
//!
//! The laws speak of calls: each relates the arguments and the results of one or
//! more functions.

use vstd::prelude::*;

use crate::config;
use crate::constants;
use crate::nrf::schedule_laws::elapsed;
use crate::phy::{Ifs, OQpsk250KBit, Phy, PhyConfig};
use crate::radio::tasks::{
    latest_rx_frame_start_before_off, latest_rx_frame_start_before_tx, ppdu_rx_duration, AnyTask,
    RadioTask, RadioTaskError, SchedulingError, TaskOff, TaskRx, TaskTx,
};
use crate::radio::timer::{HardwareSignal, RadioTimerError, TimedSignal};
use crate::radio::transition::{
    Action, CompletedRadioTransition, Event, RadioTransition, RollbackCause, TransitionPlan,
    TransitionState,
};
use crate::time::{
    rtc_tick_period, timer_tick_period, NsDuration, NsInstant, SymbolsOQpsk250Duration,
};

verus! {

/// Which steps the kinds of transitions have. Only a transition to a different state
/// leaves the current one, and only one within a state moves nowhere.
pub proof fn lemma_transition_plans(
    external: TransitionPlan,
    to_itself: TransitionPlan,
    without_entry: TransitionPlan,
    internal: TransitionPlan,
)
    requires
        call_ensures(TransitionPlan::external, (), external),
        call_ensures(TransitionPlan::self_transition, (), to_itself),
        call_ensures(TransitionPlan::external_without_entry, (), without_entry),
        call_ensures(TransitionPlan::internal, (), internal),
    ensures
        external.exit && external.transition && external.entry,
        !to_itself.exit && to_itself.transition && !to_itself.entry,
        without_entry.exit && without_entry.transition && !without_entry.entry,
        !internal.exit && !internal.transition && !internal.entry,
{
}

/// A transition begins by being scheduled.
pub proof fn lemma_transition_begins<R, E, N>(
    plan: TransitionPlan,
    transition: RadioTransition<R, E, N>,
    action: Action,
)
    requires
        call_ensures(RadioTransition::<R, E, N>::new, (plan,), transition),
        call_ensures(RadioTransition::<R, E, N>::action, (&transition,), action),
    ensures
        transition.steps() == plan,
        action == Action::OnScheduled,
        transition.current() is Scheduling,
{
}

/// What is executed tells how far a transition has come.
pub proof fn lemma_transition_action<R, E, N>(
    transition: RadioTransition<R, E, N>,
    action: Action,
)
    requires
        call_ensures(RadioTransition::<R, E, N>::action, (&transition,), action),
    ensures
        action == Action::OnScheduled <==> transition.current() is Scheduling,
        action == Action::AwaitCompletion <==> transition.current() is AwaitingCompletion,
        action == Action::OnCompleted <==> transition.current() is Completing,
        action == Action::Exit <==> transition.current() is Exiting,
        action == Action::Transition <==> transition.current() is Transitioning,
        action == Action::Entry <==> transition.current() is Entering,
        action == Action::Cleanup <==> transition.current() is CleaningUp
            || transition.current() is RollingBack,
        action == Action::SwitchOff <==> transition.current() is SwitchingOff,
        action == Action::Finish <==> transition.current() is Done,
{
}

/// As long as nothing fails, a transition is scheduled, waits for the current task,
/// completes it, leaves its state, moves to the next state, enters it and cleans up. It
/// skips the steps that it does not have. The result of the current task and both
/// entries are kept on the way.
pub proof fn lemma_transition_goes_on<R, E, N>(
    transition: RadioTransition<R, E, N>,
    event: Event<R, E, N>,
    next: RadioTransition<R, E, N>,
)
    requires
        call_ensures(RadioTransition::<R, E, N>::step, (transition, event), next),
    ensures
        ({
            let plan = transition.steps();
            let (before, after) = (transition.current(), next.current());
            &&& next.steps() == plan
            &&& before is Scheduling ==> (event matches Event::Scheduled(Ok(entry)) ==> after == (
            TransitionState::AwaitingCompletion::<R, E, N> { scheduled: entry }))
            &&& before matches TransitionState::AwaitingCompletion { scheduled } ==> (
            event matches Event::AwaitedCompletion(Ok(result)) ==> after == (
            TransitionState::Completing::<R, E, N> { scheduled, result }))
            &&& before matches TransitionState::Completing { scheduled, result } ==> (
            event matches Event::Completed(Ok(_)) ==> {
                &&& plan.exit ==> after == (TransitionState::Exiting::<R, E, N> {
                    scheduled,
                    result,
                })
                &&& !plan.exit && plan.transition ==> after == (
                TransitionState::Transitioning::<R, E, N> { scheduled, result })
                &&& !plan.exit && !plan.transition ==> after == (
                TransitionState::CleaningUp::<R, E, N> { scheduled, result, entry: Ok(None) })
            })
            &&& before matches TransitionState::Exiting { scheduled, result } ==> (
            event matches Event::Exited(Ok(_)) ==> {
                &&& plan.transition ==> after == (TransitionState::Transitioning::<R, E, N> {
                    scheduled,
                    result,
                })
                &&& !plan.transition ==> after == (TransitionState::CleaningUp::<R, E, N> {
                    scheduled,
                    result,
                    entry: Ok(None),
                })
            })
            &&& before matches TransitionState::Transitioning { scheduled, result } ==> (
            event matches Event::Transitioned(Ok(measured)) ==> {
                &&& plan.entry ==> after == (TransitionState::Entering::<R, E, N> {
                    scheduled,
                    result,
                    measured,
                })
                &&& !plan.entry ==> after == (TransitionState::CleaningUp::<R, E, N> {
                    scheduled,
                    result,
                    entry: Ok(measured),
                })
            })
            &&& before matches TransitionState::Entering { scheduled, result, measured } ==> (
            event matches Event::EntryDone(Ok(_)) ==> after == (
            TransitionState::CleaningUp::<R, E, N> { scheduled, result, entry: Ok(measured) }))
            &&& before matches TransitionState::CleaningUp {
                scheduled,
                result,
                entry: Ok(measured),
            } ==> (event matches Event::CleanedUp(Ok(_)) ==> after == TransitionState::Done(
                CompletedRadioTransition::Entered::<R, E, N> {
                    prev_task_result: result,
                    measured_entry: measured,
                    scheduled_entry: scheduled,
                },
            ))
        }),
{
}

/// What fails before the current state is left ends in a rollback: the radio stays in
/// its state, and nothing is lost of a result that the current task has given. If
/// something has been set up that has to be undone, then it is cleaned up before.
pub proof fn lemma_transition_rolls_back<R, E, N>(
    transition: RadioTransition<R, E, N>,
    event: Event<R, E, N>,
    next: RadioTransition<R, E, N>,
)
    requires
        call_ensures(RadioTransition::<R, E, N>::step, (transition, event), next),
    ensures
        ({
            let (before, after) = (transition.current(), next.current());
            &&& before is Scheduling ==> (event matches Event::Scheduled(Err(error)) ==> after
                == TransitionState::Done(
                CompletedRadioTransition::Rollback::<R, E, N> {
                    cause: RollbackCause::Scheduling(error),
                    prev_task_result: None,
                },
            ))
            &&& before is AwaitingCompletion ==> (event matches Event::AwaitedCompletion(Err(error))
                ==> after == (TransitionState::RollingBack::<R, E, N> {
                cause: RollbackCause::Task(error),
                result: None,
            }))
            &&& before matches TransitionState::Completing { scheduled, result } ==> (
            event matches Event::Completed(Err(error)) ==> after == TransitionState::Done(
                CompletedRadioTransition::Rollback::<R, E, N> {
                    cause: RollbackCause::Scheduling(error),
                    prev_task_result: Some(result),
                },
            ))
            &&& before matches TransitionState::Exiting { scheduled, result } ==> (
            event matches Event::Exited(Err(error)) ==> after == (
            TransitionState::RollingBack::<R, E, N> {
                cause: RollbackCause::Scheduling(error),
                result: Some(result),
            }))
            &&& before matches TransitionState::RollingBack { cause, result } ==> (
            event is CleanedUp ==> after == TransitionState::Done(
                CompletedRadioTransition::Rollback::<R, E, N> { cause, prev_task_result: result },
            ))
        }),
{
}

/// What fails once the current state is left ends in a fallback: the radio is switched
/// off. A failed move is cleaned up before, and a failing cleanup comes first.
pub proof fn lemma_transition_falls_back<R, E, N>(
    transition: RadioTransition<R, E, N>,
    event: Event<R, E, N>,
    next: RadioTransition<R, E, N>,
)
    requires
        call_ensures(RadioTransition::<R, E, N>::step, (transition, event), next),
    ensures
        ({
            let (before, after) = (transition.current(), next.current());
            &&& before matches TransitionState::Transitioning { scheduled, result } ==> (
            event matches Event::Transitioned(Err(error)) ==> after == (
            TransitionState::CleaningUp::<R, E, N> { scheduled, result, entry: Err(error) }))
            &&& before matches TransitionState::Entering { scheduled, result, measured } ==> (
            event matches Event::EntryDone(Err(error)) ==> after == (
            TransitionState::SwitchingOff::<R, E, N> { result, error }))
            &&& before matches TransitionState::CleaningUp { scheduled, result, entry } ==> {
                &&& event matches Event::CleanedUp(Err(error)) ==> after == (
                TransitionState::SwitchingOff::<R, E, N> { result, error })
                &&& event matches Event::CleanedUp(Ok(_)) ==> (entry matches Err(error) ==> after
                    == (TransitionState::SwitchingOff::<R, E, N> { result, error }))
            }
            &&& before matches TransitionState::SwitchingOff { result, error } ==> (
            event matches Event::SwitchedOff(at) ==> after == TransitionState::Done(
                CompletedRadioTransition::Fallback::<R, E, N> {
                    prev_task_result: result,
                    error,
                    measured_entry: at,
                },
            ))
        }),
{
}

/// The outcome can be taken exactly when there is nothing left to execute.
pub proof fn lemma_outcome_taken<R, E, N>(
    transition: RadioTransition<R, E, N>,
    action: Action,
    outcome: Result<CompletedRadioTransition<R, E, N>, RadioTransition<R, E, N>>,
)
    requires
        call_ensures(RadioTransition::<R, E, N>::action, (&transition,), action),
        call_ensures(RadioTransition::<R, E, N>::into_outcome, (transition,), outcome),
    ensures
        outcome is Ok <==> action == Action::Finish,
        outcome matches Err(same) ==> same == transition,
        outcome matches Ok(outcome) ==> transition.current() == TransitionState::Done(outcome),
{
}

/// A task stays what it is among tasks of any kind.
pub proof fn lemma_task_kinds<Buffer>(
    off: TaskOff,
    rx: TaskRx<Buffer>,
    tx: TaskTx<Buffer>,
    any_off: AnyTask<Buffer>,
    any_rx: AnyTask<Buffer>,
    any_tx: AnyTask<Buffer>,
    from_off: AnyTask<Buffer>,
    from_rx: AnyTask<Buffer>,
    from_tx: AnyTask<Buffer>,
)
    requires
        call_ensures(<TaskOff as RadioTask<Buffer>>::into_any_task, (off,), any_off),
        call_ensures(<TaskRx<Buffer> as RadioTask<Buffer>>::into_any_task, (rx,), any_rx),
        call_ensures(<TaskTx<Buffer> as RadioTask<Buffer>>::into_any_task, (tx,), any_tx),
        call_ensures(<AnyTask<Buffer> as From<TaskOff>>::from, (off,), from_off),
        call_ensures(<AnyTask<Buffer> as From<TaskRx<Buffer>>>::from, (rx,), from_rx),
        call_ensures(<AnyTask<Buffer> as From<TaskTx<Buffer>>>::from, (tx,), from_tx),
    ensures
        any_off == AnyTask::<Buffer>::Off(off) && from_off == any_off,
        any_rx == AnyTask::Rx(rx) && from_rx == any_rx,
        any_tx == AnyTask::Tx(tx) && from_tx == any_tx,
{
}

/// Only an overdue timer tells the instant that could not be met.
pub proof fn lemma_timer_errors(error: RadioTimerError, scheduling: SchedulingError)
    requires
        call_ensures(<SchedulingError as From<RadioTimerError>>::from, (error,), scheduling),
    ensures
        error matches RadioTimerError::Overdue(instant) ==> scheduling.instant == Some(instant),
        error is Already || error is Busy ==> scheduling.instant is None,
{
}

/// A task that could not be scheduled is given back with the instant of its entry.
pub proof fn lemma_unscheduled_task<Task, TaskError>(
    task: Task,
    entry: Option<NsInstant>,
    error: RadioTaskError<Task, TaskError>,
)
    requires
        call_ensures(
            RadioTaskError::<Task, TaskError>::scheduling_error,
            (task, entry),
            error,
        ),
    ensures
        error matches RadioTaskError::Scheduling(back, scheduling) && back == task
            && scheduling.instant == entry,
{
}

/// A frame takes as long as its synchronization header and its PHY header, and another
/// 32 microseconds for each octet of its PSDU.
pub proof fn lemma_frame_duration(
    empty: NsDuration,
    size: u16,
    duration: NsDuration,
    longer: NsDuration,
    sync: NsDuration,
    header: NsDuration,
)
    requires
        size < 0xffff,
        call_ensures(ppdu_rx_duration, (0u16,), empty),
        call_ensures(ppdu_rx_duration, (size,), duration),
        call_ensures(ppdu_rx_duration, ((size + 1) as u16,), longer),
        call_ensures(OQpsk250KBit::t_shr, (), sync),
        call_ensures(OQpsk250KBit::t_phr, (), header),
    ensures
        empty.ticks == sync.ticks + header.ticks,
        longer.ticks == duration.ticks + 32_000,
        duration.ticks == empty.ticks + 32_000 * size,
{
}

/// A frame that starts at the latest possible instant has been received, and a long
/// interframe space and possibly a backoff period have passed, just when a transmission
/// is scheduled behind it.
pub proof fn lemma_latest_start_before_tx(
    tx_at: NsInstant,
    cca: bool,
    size: u16,
    latest: NsInstant,
    unknown: NsInstant,
    largest: NsInstant,
    duration: NsDuration,
    space: NsDuration,
    backoff: NsDuration,
)
    requires
        call_ensures(latest_rx_frame_start_before_tx, (tx_at, cca, Some(size)), latest),
        call_ensures(latest_rx_frame_start_before_tx, (tx_at, cca, None), unknown),
        call_ensures(latest_rx_frame_start_before_tx, (tx_at, cca, Some(127u16)), largest),
        call_ensures(ppdu_rx_duration, (size,), duration),
        call_ensures(
            Ifs::<Phy<OQpsk250KBit>>::into_local_clock_duration,
            (Ifs::Lifs(core::marker::PhantomData),),
            space,
        ),
        call_ensures(Phy::<OQpsk250KBit>::unit_backoff_period, (), backoff),
    ensures
        elapsed(latest, tx_at) == duration.ticks + space.ticks + (if cca {
            backoff.ticks as int
        } else {
            0
        }),
        unknown == largest,
{
}

/// A frame that starts at the latest possible instant has been received just when the
/// radio is to be switched off, where its start is taken at its marker.
pub proof fn lemma_latest_start_before_off(
    off_at: NsInstant,
    size: u16,
    marker: NsDuration,
    latest: NsInstant,
    unknown: NsInstant,
    largest: NsInstant,
    duration: NsDuration,
)
    requires
        marker.ticks <= duration.ticks,
        call_ensures(latest_rx_frame_start_before_off, (off_at, Some(size), marker), latest),
        call_ensures(latest_rx_frame_start_before_off, (off_at, None, marker), unknown),
        call_ensures(latest_rx_frame_start_before_off, (off_at, Some(127u16), marker), largest),
        call_ensures(ppdu_rx_duration, (size,), duration),
    ensures
        elapsed(latest, off_at) + marker.ticks == duration.ticks,
        unknown == largest,
{
}

/// The times of the PHY, at 62500 symbols in a second: ten symbols for the
/// synchronization header, two for the PHY header, eight for a clear channel assessment
/// and twenty for a backoff period.
pub proof fn lemma_phy_times(
    sync: NsDuration,
    header: NsDuration,
    assessment: NsDuration,
    backoff: NsDuration,
    size: u16,
)
    requires
        call_ensures(OQpsk250KBit::t_shr, (), sync),
        call_ensures(OQpsk250KBit::t_phr, (), header),
        call_ensures(Phy::<OQpsk250KBit>::cca_duration, (), assessment),
        call_ensures(Phy::<OQpsk250KBit>::unit_backoff_period, (), backoff),
        call_ensures(Phy::<OQpsk250KBit>::max_packet_size, (), size),
    ensures
        sync.ticks * 62_500 == 10 * 1_000_000_000,
        header.ticks * 62_500 == 2 * 1_000_000_000,
        assessment.ticks * 62_500 == 8 * 1_000_000_000,
        backoff.ticks * 62_500 == 20 * 1_000_000_000,
        size == 127,
{
}

/// The FCS has four octets if it is of the type zero, and two if it is of the type one.
pub proof fn lemma_fcs_length<PhyName>(fcs: u8) where Phy<PhyName>: PhyConfig
    requires
        call_ensures(Phy::<PhyName>::fcs_length, (), fcs),
    ensures
        <Phy<PhyName> as PhyConfig>::MAC_FCS_TYPE == 0 ==> fcs == 4,
        <Phy<PhyName> as PhyConfig>::MAC_FCS_TYPE == 1 ==> fcs == 2,
{
}

/// A frame of up to 18 octets is followed by a short interframe space of twelve symbols,
/// a longer one by a long space of forty symbols. An acknowledgment follows after twelve.
pub proof fn lemma_interframe_spaces(
    length: u16,
    space: Ifs<Phy<OQpsk250KBit>>,
    short: Ifs<Phy<OQpsk250KBit>>,
    long: Ifs<Phy<OQpsk250KBit>>,
    ack: Ifs<Phy<OQpsk250KBit>>,
    short_time: NsDuration,
    long_time: NsDuration,
    ack_time: NsDuration,
    converted: NsDuration,
)
    requires
        call_ensures(Ifs::<Phy<OQpsk250KBit>>::from_mpdu_length, (length,), space),
        call_ensures(Ifs::<Phy<OQpsk250KBit>>::short, (), short),
        call_ensures(Ifs::<Phy<OQpsk250KBit>>::long, (), long),
        call_ensures(Ifs::<Phy<OQpsk250KBit>>::ack, (), ack),
        call_ensures(
            Ifs::<Phy<OQpsk250KBit>>::into_local_clock_duration,
            (short,),
            short_time,
        ),
        call_ensures(
            Ifs::<Phy<OQpsk250KBit>>::into_local_clock_duration,
            (long,),
            long_time,
        ),
        call_ensures(Ifs::<Phy<OQpsk250KBit>>::into_local_clock_duration, (ack,), ack_time),
        call_ensures(<NsDuration as From<Ifs<Phy<OQpsk250KBit>>>>::from, (long,), converted),
    ensures
        length <= 18 ==> space is Sifs,
        length >= 19 ==> space is Lifs,
        short is Sifs && long is Lifs && ack is Aifs,
        short_time.ticks == 12 * 16_000,
        long_time.ticks == 40 * 16_000,
        ack_time.ticks == short_time.ticks,
        converted == long_time,
{
}

/// The same holds of the spaces of scheduled tasks.
pub proof fn lemma_scheduled_interframe_spaces(length: u16, space: crate::tasks::Ifs)
    requires
        call_ensures(crate::tasks::Ifs::from_mpdu_length, (length,), space),
    ensures
        length <= 18 ==> space == crate::tasks::Ifs::Sifs,
        length >= 19 ==> space == crate::tasks::Ifs::Lifs,
{
}

/// An instant that is later by a duration is reached from the earlier one by adding it,
/// the earlier one is reached by subtracting it, and it is the difference of both. In
/// the opposite order there is no difference.
pub proof fn lemma_instants_and_durations(
    instant: NsInstant,
    duration: NsDuration,
    later: Option<NsInstant>,
    back: Option<NsInstant>,
    difference: Option<NsDuration>,
    opposite: Option<NsDuration>,
)
    requires
        duration.ticks <= 0x7fff_ffff_ffff_ffff,
        call_ensures(NsInstant::checked_add_duration, (instant, duration), later),
        later is Some ==> call_ensures(
            NsInstant::checked_sub_duration,
            (later->0, duration),
            back,
        ) && call_ensures(NsInstant::checked_duration_since, (later->0, instant), difference)
            && call_ensures(NsInstant::checked_duration_since, (instant, later->0), opposite),
    ensures
        later matches Some(later) && elapsed(instant, later) == duration.ticks,
        back == Some(instant),
        difference == Some(duration),
        0 < duration.ticks ==> opposite is None,
{
}

/// Durations are sums of nanoseconds: a microsecond has a thousand of them, and a symbol
/// has 16 microseconds.
pub proof fn lemma_durations(
    a: NsDuration,
    b: NsDuration,
    sum: Option<NsDuration>,
    difference: Option<NsDuration>,
    micros: u64,
    of_micros: NsDuration,
    back: u64,
    symbols: SymbolsOQpsk250Duration,
    symbol_nanos: NsDuration,
    symbol_micros: u64,
)
    requires
        micros <= 18_446_744_073_709_551,
        symbols.ticks <= 1_152_921_504_606_846,
        call_ensures(NsDuration::checked_add, (a, b), sum),
        sum is Some ==> call_ensures(NsDuration::checked_sub, (sum->0, b), difference),
        call_ensures(NsDuration::micros, (micros,), of_micros),
        call_ensures(NsDuration::to_micros, (&of_micros,), back),
        call_ensures(SymbolsOQpsk250Duration::convert, (symbols,), symbol_nanos),
        call_ensures(SymbolsOQpsk250Duration::to_micros, (&symbols,), symbol_micros),
    ensures
        sum is Some <==> a.ticks + b.ticks <= 0xffff_ffff_ffff_ffff,
        sum matches Some(sum) ==> sum.ticks == a.ticks + b.ticks && difference == Some(a),
        of_micros.ticks == 1_000 * micros && back == micros,
        symbol_nanos.ticks == 1_000 * symbol_micros && symbol_micros == 16 * symbols.ticks,
{
}

/// A duration is told by its ticks.
pub proof fn lemma_duration_ticks(
    ticks: u64,
    duration: NsDuration,
    nanos: NsDuration,
    back: u64,
    symbols: SymbolsOQpsk250Duration,
    symbols_back: u64,
)
    requires
        call_ensures(NsDuration::from_ticks, (ticks,), duration),
        call_ensures(NsDuration::nanos, (ticks,), nanos),
        call_ensures(NsDuration::ticks, (&duration,), back),
        call_ensures(SymbolsOQpsk250Duration::from_ticks, (ticks,), symbols),
        call_ensures(SymbolsOQpsk250Duration::ticks, (&symbols,), symbols_back),
    ensures
        back == ticks && nanos == duration && symbols_back == ticks,
{
}

/// An instant is told by its ticks, and as microseconds within a thousand seconds.
pub proof fn lemma_instant_ticks(
    ticks: u64,
    instant: NsInstant,
    back: u64,
    since_epoch: NsDuration,
    remainder: u32,
)
    requires
        call_ensures(NsInstant::from_ticks, (ticks,), instant),
        call_ensures(NsInstant::ticks, (&instant,), back),
        call_ensures(NsInstant::duration_since_epoch, (instant,), since_epoch),
        call_ensures(NsInstant::to_micros_remainder, (instant,), remainder),
    ensures
        back == ticks && since_epoch.ticks == ticks,
        remainder == ticks as int / 1_000 % 1_000_000_000,
{
}

/// A timed signal has the instant and the signal that it was made of.
pub proof fn lemma_signal_made(instant: NsInstant, signal: HardwareSignal, timed: TimedSignal)
    requires
        call_ensures(TimedSignal::new, (instant, signal), timed),
    ensures
        timed.instant == instant && timed.signal == signal,
{
}

/// The periods of a tick of both timers, rounded down to nanoseconds.
pub proof fn lemma_timer_periods(sleep: NsDuration, timer: NsDuration)
    requires
        call_ensures(rtc_tick_period, (), sleep),
        call_ensures(timer_tick_period, (), timer),
    ensures
        sleep.ticks * 32_768 <= 1_000_000_000 < (sleep.ticks + 1) * 32_768,
        timer.ticks * 16_000_000 <= 1_000_000_000 < (timer.ticks + 1) * 16_000_000,
{
}

/// The periods of the MAC layer in symbols: a superframe has 16 slots of 60 symbols, and a
/// backoff period is a turnaround and a clear channel assessment.
pub proof fn lemma_mac_periods()
    ensures
        constants::A_BASE_SUPERFRAME_DURATION == 16 * 60,
        constants::A_BASE_SLOT_DURATION == 60 && constants::A_MIN_CAP_LENGTH == 440,
        constants::A_TURNAROUND_TIME == 12 && constants::PHY_CCA_DURATION == 8,
        constants::MAC_UNIT_BACKOFF_PERIOD == 12 + 8,
        constants::MAC_SIFS == 12 && constants::MAC_AIFS == 12 && constants::MAC_LIFS == 40,
        constants::A_NUM_SUPERFRAME_SLOTS == 16,
        constants::A_MAX_SIFS_FRAME_SIZE == 18,
        constants::PHY_MAX_PACKET_SIZE_127 == 127,
        constants::DEFAULT_SFD == 0xa7,
        constants::PHY_HDR_LEN == 1 && constants::FCS_LEN == 2,
        constants::A_MAX_LOST_BEACONS == 4 && constants::A_GTS_DESC_PERSISTENCE_TIME == 4,
        config::MAC_MIN_BE == 0 && config::MAC_MAX_BE == 8,
        config::MAC_MAX_CSMA_BACKOFFS == 16 && config::MAC_MAX_FRAME_RETRIES == 3,
        !config::MAC_IMPLICIT_BROADCAST,
{
}

} // verus!
