//! What the timers, the event bus and the executor are for.
//!
//! The laws speak of calls: each relates the arguments and the results of one or
//! more functions.

use vstd::prelude::*;

use crate::nrf::clock::{LfClockSettings, LfClockSource, LfOscillator};
use crate::nrf::executor::{ExecutorState, InterruptStep, SpawnPoll};
use crate::nrf::high_precision::{captured_ticks, NrfRadioHighPrecisionTimer, NrfRadioSleepTimer};
use crate::nrf::ppi::{
    after_event_programmed, bit, poll_signal, program_timed_signal, safely_schedule_signal,
    signal_interrupt_mask, EventChannel, EventUse, NrfRadioTimerTracingConfig,
    NrfRadioTracingConfig, PpiChannels, SignalPoll, SignalProgram,
};
use crate::nrf::rtc::{
    rtc_enables_compare, rtc_find_sleep_alarm, rtc_increment_half_period, rtc_now_tick,
    rtc_poll_alarm, rtc_program_alarm, rtc_trigger_alarm, rtc_was_safely_scheduled, AlarmChannel,
    AlarmPoll, AlarmProgram, AlarmState, AlarmTrigger,
};
use crate::nrf::setup::{
    radio_setup, timer_setup, CcaMode, InitializationState, RadioSetup, TimerSetup,
};
use crate::nrf::schedule_laws::elapsed;
use crate::nrf::ticks::{
    lemma_rtc_resolution, lemma_rtc_tick_round_trip, lemma_rtc_ticks_monotonic,
    lemma_timer_resolution, TickConversion,
};
use crate::radio::timer::{HardwareEvent, HardwareSignal, RadioTimerError};
use crate::time::{NsDuration, NsInstant};

verus! {

/// The tick that is read is the true tick, whether or not the half period in which
/// it lies has been noticed yet. Half a period has 2^23 ticks, and the counter wraps
/// around after 2^24 ticks.
pub proof fn lemma_tick_read_in_time(tick: int, half_period: u32, counter: u32, r: u64)
    requires
        0 <= tick,
        counter == tick % 0x100_0000,
        half_period <= tick / 0x80_0000 <= half_period + 1,
        call_ensures(rtc_now_tick, (half_period, counter), r),
    ensures
        r == tick,
{
}

/// Half periods are counted one by one.
pub proof fn lemma_half_period_counted(half_period: u32, next: u32)
    requires
        call_ensures(rtc_increment_half_period, (half_period,), next),
    ensures
        next == half_period + 1,
{
}

/// An alarm goes through its states in turn: only an unused one can be acquired,
/// and then it is pending.
pub proof fn lemma_alarm_acquired(
    state: AlarmState,
    acquired: Result<AlarmState, RadioTimerError>,
    owned: bool,
    pending: bool,
    synchronizing: bool,
    poll: AlarmPoll,
)
    requires
        call_ensures(AlarmState::try_acquire, (state,), acquired),
        call_ensures(AlarmState::is_owned_by_interrupt, (state,), owned),
        call_ensures(AlarmState::is_pending, (state,), pending),
        call_ensures(AlarmState::is_synchronizing, (state,), synchronizing),
        call_ensures(rtc_poll_alarm, (state,), poll),
    ensures
        state is Unused ==> acquired == Ok::<AlarmState, RadioTimerError>(AlarmState::Pending),
        !(state is Unused) ==> acquired == Err::<AlarmState, RadioTimerError>(
            RadioTimerError::Busy,
        ),
        pending <==> state is Pending,
        synchronizing <==> state is Synchronizing,
        owned <==> state is Active || state is Synchronizing,
        poll is Wait <==> owned,
        poll is Arm <==> pending,
        poll is Complete <==> state is Unused || state is Fired,
{
}

/// A pending alarm either has fired as it is at most two ticks away, or becomes
/// active. Then the counter compares equal just when the alarm is due, and the
/// comparison is enabled at once if that is less than three quarters of a period
/// away.
pub proof fn lemma_alarm_programmed(
    alarm_tick: u64,
    now_tick: u64,
    r: (AlarmState, AlarmProgram),
    poll: AlarmPoll,
)
    requires
        call_ensures(rtc_program_alarm, (AlarmState::Pending, alarm_tick, now_tick), r),
        call_ensures(rtc_poll_alarm, (r.0,), poll),
    ensures
        alarm_tick <= now_tick + 2 ==> r.1 == AlarmProgram::Overdue && r.0 == AlarmState::Fired
            && poll == AlarmPoll::Complete,
        alarm_tick > now_tick + 2 ==> {
            &&& r.1 matches AlarmProgram::Armed { compare, imminent }
            &&& compare < 0x100_0000
            &&& (alarm_tick - compare) % 0x100_0000 == 0
            &&& imminent <==> alarm_tick - now_tick < 0xc0_0000
            &&& r.0 == AlarmState::Active
            &&& poll == AlarmPoll::Wait
        },
{
}

/// An alarm is safely scheduled if it is at least two ticks ahead.
pub proof fn lemma_alarm_safely_scheduled(alarm_tick: u64, now_tick: u64, r: bool)
    requires
        call_ensures(rtc_was_safely_scheduled, (alarm_tick, now_tick), r),
    ensures
        r <==> alarm_tick - now_tick >= 2,
{
}

/// The comparison of a scheduled alarm is enabled in the half period whose begin is
/// less than three quarters of a period away, and in no other state.
pub proof fn lemma_compare_enabled(
    state: AlarmState,
    alarm_tick: u64,
    half_period: u32,
    r: bool,
)
    requires
        call_ensures(rtc_enables_compare, (state, alarm_tick, half_period), r),
    ensures
        r ==> state is Active || state is Synchronizing,
        state is Active || state is Synchronizing ==> (r <==> alarm_tick - half_period * 0x80_0000
            < 0xc0_0000),
{
}

/// An alarm goes off when it is due and not before. Then the waker is called, or
/// the alarm is unused again if nobody waits for it.
pub proof fn lemma_alarm_triggered(
    state: AlarmState,
    now_tick: u64,
    alarm_tick: u64,
    has_waker: bool,
    r: (AlarmState, AlarmTrigger),
)
    requires
        call_ensures(rtc_trigger_alarm, (state, now_tick, alarm_tick, has_waker), r),
    ensures
        !(state is Active || state is Synchronizing) ==> r == (state, AlarmTrigger::Ignore),
        (state is Active || state is Synchronizing) && now_tick < alarm_tick ==> r == (
            state,
            AlarmTrigger::ResetEvent,
        ),
        (state is Active || state is Synchronizing) && alarm_tick <= now_tick ==> r == (
        if has_waker {
            (AlarmState::Fired, AlarmTrigger::Wake)
        } else {
            (AlarmState::Unused, AlarmTrigger::Release)
        }),
{
}

/// An alarm that has fired can be used again.
pub proof fn lemma_alarm_released(
    released: AlarmState,
    acquired: Result<AlarmState, RadioTimerError>,
)
    requires
        call_ensures(AlarmState::release, (AlarmState::Fired,), released),
        call_ensures(AlarmState::try_acquire, (released,), acquired),
    ensures
        released is Unused,
        acquired is Ok,
{
}

/// A sleep alarm is one of two. The first one that can be acquired is taken, and
/// none of them is the alarm of the high-precision timer.
pub proof fn lemma_sleep_alarm_found(
    first: AlarmState,
    second: AlarmState,
    r: Result<AlarmChannel, RadioTimerError>,
    index: usize,
)
    requires
        call_ensures(rtc_find_sleep_alarm, (first, second), r),
        r matches Ok(channel) ==> call_ensures(AlarmChannel::index, (channel,), index),
    ensures
        r is Ok <==> first is Unused || second is Unused,
        r matches Err(error) ==> error == RadioTimerError::Busy,
        r is Ok ==> index == (if first is Unused {
            1int
        } else {
            2
        }),
{
}

/// Each alarm has a compare register of its own.
pub proof fn lemma_alarm_registers(
    timer: usize,
    sleep1: usize,
    sleep2: usize,
    number: usize,
)
    requires
        call_ensures(AlarmChannel::index, (AlarmChannel::HighPrecisionTimer,), timer),
        call_ensures(AlarmChannel::index, (AlarmChannel::SleepTimer1,), sleep1),
        call_ensures(AlarmChannel::index, (AlarmChannel::SleepTimer2,), sleep2),
        call_ensures(AlarmChannel::index, (AlarmChannel::NumRtcChannels,), number),
    ensures
        timer == 0 && sleep1 == 1 && sleep2 == 2,
        number == 3,
{
}

/// The conversion to ticks of the sleep timer multiplies by 9903520314283042199 and
/// shifts by 78 bits: a tick takes about 30517.578 ns. The conversion to ticks of the
/// high-precision timer multiplies by 549755813 and shifts by 35 bits: a tick takes about
/// 62.5 ns. Both round down.
pub proof fn lemma_tick_conversions(
    instant: NsInstant,
    rtc_tick: u64,
    duration: NsDuration,
    timer_ticks: u32,
)
    requires
        duration.ticks <= 33_554_432_000,
        call_ensures(TickConversion::instant_to_rtc_tick, (instant,), rtc_tick),
        call_ensures(TickConversion::duration_to_timer_ticks, (duration,), timer_ticks),
    ensures
        rtc_tick * 302_231_454_903_657_293_676_544 <= instant.ticks * 9_903_520_314_283_042_199,
        instant.ticks * 9_903_520_314_283_042_199 < (rtc_tick + 1)
            * 302_231_454_903_657_293_676_544,
        timer_ticks * 34_359_738_368 <= duration.ticks * 549_755_813,
        duration.ticks * 549_755_813 < (timer_ticks + 1) * 34_359_738_368,
{
}

/// An instant is converted to the tick of the sleep timer at or less than two ticks
/// before it. The tick is no later than that of any later instant. There are 32768
/// ticks in a second.
pub proof fn lemma_sleep_timer_tick(instant: NsInstant, tick: u64, later: NsInstant, other: u64)
    requires
        call_ensures(TickConversion::instant_to_rtc_tick, (instant,), tick),
        call_ensures(TickConversion::instant_to_rtc_tick, (later,), other),
        instant.ticks <= later.ticks,
    ensures
        tick * 1_000_000_000 <= instant.ticks * 32_768,
        instant.ticks * 32_768 < (tick + 2) * 1_000_000_000,
        tick <= other,
{
    lemma_rtc_ticks_monotonic(instant.ticks as int, later.ticks as int);
}

/// The instant of a tick of the sleep timer is exact to a nanosecond, and converted
/// back it gives that tick or the one before.
pub proof fn lemma_sleep_timer_instant(tick: u64, instant: NsInstant, back: u64)
    requires
        tick <= 604_462_909_807_314,
        call_ensures(TickConversion::rtc_tick_to_instant, (tick,), instant),
        call_ensures(TickConversion::instant_to_rtc_tick, (instant,), back),
    ensures
        instant.ticks * 32_768 <= tick * 1_000_000_000,
        tick * 1_000_000_000 < (instant.ticks + 1) * 32_768,
        tick - 1 <= back <= tick,
{
    lemma_rtc_tick_round_trip(tick as int);
}

/// A duration is converted to as many ticks of the high-precision timer as fit into
/// it, or one less. There are 16 ticks in a microsecond.
pub proof fn lemma_timer_ticks_of_duration(duration: NsDuration, ticks: u32, back: NsDuration)
    requires
        duration.ticks <= 33_554_432_000,
        call_ensures(TickConversion::duration_to_timer_ticks, (duration,), ticks),
        call_ensures(TickConversion::timer_ticks_to_duration, (ticks,), back),
    ensures
        ticks * 1_000 <= duration.ticks * 16,
        duration.ticks * 16 < (ticks + 2) * 1_000,
        back.ticks <= duration.ticks <= back.ticks + 125,
{
    lemma_timer_resolution(duration.ticks as int);
}

/// The duration of a number of timer ticks is 62.5 ns each, rounded down.
pub proof fn lemma_duration_of_timer_ticks(ticks: u32, duration: NsDuration)
    requires
        call_ensures(TickConversion::timer_ticks_to_duration, (ticks,), duration),
    ensures
        2 * duration.ticks <= 125 * ticks <= 2 * duration.ticks + 1,
{
}

/// Ticks since the timer was started are those of the duration since then, in both
/// directions.
pub proof fn lemma_timer_epoch(
    epoch: NsInstant,
    instant: NsInstant,
    ticks: u32,
    duration_ticks: u32,
    back: NsInstant,
    duration: NsDuration,
)
    requires
        epoch.ticks < instant.ticks,
        call_ensures(
            TickConversion::instant_to_timer_ticks_with_epoch,
            (epoch, instant),
            ticks,
        ),
        call_ensures(
            TickConversion::duration_to_timer_ticks,
            (NsDuration { ticks: (instant.ticks - epoch.ticks) as u64 },),
            duration_ticks,
        ),
        call_ensures(TickConversion::timer_ticks_to_instant_with_epoch, (epoch, ticks), back),
        call_ensures(TickConversion::timer_ticks_to_duration, (ticks,), duration),
    ensures
        ticks == duration_ticks,
        elapsed(epoch, back) == duration.ticks,
{
}

/// Both timers tell how long a tick takes, rounded down to nanoseconds. The sleep
/// timer keeps a guard time of 150 microseconds.
pub proof fn lemma_tick_periods(sleep: NsDuration, timer: NsDuration, guard: NsDuration)
    requires
        call_ensures(NrfRadioSleepTimer::tick_period, (), sleep),
        call_ensures(NrfRadioHighPrecisionTimer::tick_period, (), timer),
        call_ensures(NrfRadioSleepTimer::guard_time, (), guard),
    ensures
        sleep.ticks * 32_768 <= 1_000_000_000 < (sleep.ticks + 1) * 32_768,
        timer.ticks * 16 <= 1_000 < (timer.ticks + 1) * 16,
        guard.ticks == 150_000,
{
}

/// The time that is read is that of the tick that is read.
pub proof fn lemma_now_is_current_tick(
    half_period: u32,
    counter: u32,
    now: NsInstant,
    tick: u64,
    instant: NsInstant,
)
    requires
        call_ensures(NrfRadioSleepTimer::now, (half_period, counter), now),
        call_ensures(rtc_now_tick, (half_period, counter), tick),
        call_ensures(TickConversion::rtc_tick_to_instant, (tick,), instant),
    ensures
        now == instant,
{
}

/// The high-precision timer is started at a tick of the sleep timer. It then runs
/// before the instant for which it is needed, by at least 126 ns and by less than
/// two and a half ticks.
pub proof fn lemma_timer_started_before(
    at: NsInstant,
    tick: u64,
    timer: NrfRadioHighPrecisionTimer,
    within: bool,
)
    requires
        126 <= at.ticks,
        call_ensures(NrfRadioSleepTimer::high_precision_start_tick, (at,), tick),
        call_ensures(NrfRadioHighPrecisionTimer::started_at, (tick,), timer),
        call_ensures(NrfRadioHighPrecisionTimer::is_within_range, (&timer, at), within),
    ensures
        timer.epoch.ticks + 126 <= at.ticks <= timer.epoch.ticks + 126 + 30_519,
        within,
{
    lemma_rtc_resolution(at.ticks - 126);
    crate::nrf::high_precision::lemma_started_in_time(at, timer);
}

/// The timer is started at the tick of the instant that lies 126 ns, the time that
/// starting takes, before it is needed. Its epoch is the instant of that tick.
pub proof fn lemma_timer_start_tick(
    at: NsInstant,
    tick: u64,
    earlier_tick: u64,
    timer: NrfRadioHighPrecisionTimer,
    instant: NsInstant,
)
    requires
        126 <= at.ticks,
        call_ensures(NrfRadioSleepTimer::high_precision_start_tick, (at,), tick),
        call_ensures(
            TickConversion::instant_to_rtc_tick,
            (NsInstant { ticks: (at.ticks - 126) as u64 },),
            earlier_tick,
        ),
        call_ensures(NrfRadioHighPrecisionTimer::started_at, (tick,), timer),
        call_ensures(TickConversion::rtc_tick_to_instant, (tick,), instant),
    ensures
        tick == earlier_tick,
        timer.epoch == instant,
{
}

/// A running timer can send a signal at an instant that is at least one tick and at
/// most 33.5 seconds ahead of its start. A signal that is a single tick ahead is
/// overdue. Any other is sent a tick earlier, as sending takes one.
pub proof fn lemma_signal_sent_in_time(
    timer: NrfRadioHighPrecisionTimer,
    instant: NsInstant,
    ticks: u32,
    within: bool,
    r: Result<u32, RadioTimerError>,
)
    requires
        timer.epoch.ticks < instant.ticks <= timer.epoch.ticks + 33_554_432_000,
        call_ensures(
            TickConversion::instant_to_timer_ticks_with_epoch,
            (timer.epoch, instant),
            ticks,
        ),
        call_ensures(NrfRadioHighPrecisionTimer::is_within_range, (&timer, instant), within),
        call_ensures(NrfRadioHighPrecisionTimer::signal_ticks, (&timer, instant), r),
    ensures
        within <==> ticks >= 1,
        ticks == 1 ==> r == Err::<u32, RadioTimerError>(RadioTimerError::Overdue(instant)),
        ticks > 1 ==> (r matches Ok(compare) && compare + 1 == ticks),
{
}

/// An instant before the start of the timer, or too far ahead, is out of range.
pub proof fn lemma_signal_out_of_range(
    timer: NrfRadioHighPrecisionTimer,
    instant: NsInstant,
    within: bool,
)
    requires
        call_ensures(NrfRadioHighPrecisionTimer::is_within_range, (&timer, instant), within),
        instant.ticks <= timer.epoch.ticks || instant.ticks > timer.epoch.ticks + 33_554_432_000,
    ensures
        !within,
{
}

/// The instant of an event is told by the ticks that were captured, less one that
/// capturing takes. Nothing was captured if there are none.
pub proof fn lemma_event_observed(
    timer: NrfRadioHighPrecisionTimer,
    captured: u32,
    ticks: Option<u32>,
    instant: Option<NsInstant>,
)
    requires
        call_ensures(captured_ticks, (captured,), ticks),
        call_ensures(NrfRadioHighPrecisionTimer::observed_instant, (&timer, captured), instant),
    ensures
        captured == 0 ==> ticks is None && instant is None,
        captured > 0 ==> {
            &&& ticks matches Some(ticks) && ticks + 1 == captured
            &&& instant matches Some(instant)
            &&& 2 * elapsed(timer.epoch, instant) <= 125 * (captured - 1)
            &&& 125 * (captured - 1) <= 2 * elapsed(timer.epoch, instant) + 1
        },
{
}

/// A task is started once, waits while it runs, and completes after the interrupt
/// has finished it. Then the executor is free again.
pub proof fn lemma_executor_polled(state: &mut ExecutorState, r: SpawnPoll)
    requires
        call_ensures(ExecutorState::poll, (state,), r),
    ensures
        !old(state).outer_waker_set ==> r == SpawnPoll::Start && final(state).task_set
            && final(state).outer_waker_set,
        old(state).outer_waker_set && old(state).task_set ==> r == SpawnPoll::Wait && *final(state)
            == *old(state),
        old(state).outer_waker_set && !old(state).task_set ==> r == SpawnPoll::Complete
            && !final(state).task_set && !final(state).outer_waker_set,
{
}

/// The interrupt takes the task away when it is finished, and only then, and wakes
/// whoever waits for it.
pub proof fn lemma_executor_interrupted(
    state: &mut ExecutorState,
    finished: bool,
    r: InterruptStep,
)
    requires
        call_ensures(ExecutorState::interrupt, (state, finished), r),
    ensures
        final(state).outer_waker_set == old(state).outer_waker_set,
        final(state).task_set == (old(state).task_set && !finished),
        !old(state).task_set ==> r == InterruptStep::Missed,
        old(state).task_set && !finished ==> r == InterruptStep::Pending,
        old(state).task_set && finished ==> r == (InterruptStep::Finished {
            wakes: old(state).outer_waker_set,
        }),
{
}

/// A new or cancelled executor starts the next task. A blocking one hands the task
/// over without a waker.
pub proof fn lemma_executor_idle(
    state: &mut ExecutorState,
    other: &mut ExecutorState,
    new: ExecutorState,
    finished: bool,
    new_finished: bool,
)
    requires
        call_ensures(ExecutorState::cancel, (state,), ()),
        call_ensures(ExecutorState::block_on, (other,), ()),
        call_ensures(ExecutorState::new, (), new),
        call_ensures(ExecutorState::is_finished, (&*final(other),), finished),
        call_ensures(ExecutorState::is_finished, (&new,), new_finished),
    ensures
        *final(state) == new,
        !new.task_set && !new.outer_waker_set,
        final(other).task_set && final(other).outer_waker_set == old(other).outer_waker_set,
        !finished && new_finished,
{
}

/// The signals have fixed channels of the event bus. The receiver and the
/// transmitter are enabled by the first compare register of the timer, the radio is
/// disabled by the second one.
pub proof fn lemma_signal_channels(signal: HardwareSignal, channels: (usize, usize), mask: u32)
    requires
        call_ensures(PpiChannels::timer_signal_channels, (signal,), channels),
        call_ensures(signal_interrupt_mask, (signal,), mask),
    ensures
        signal == HardwareSignal::RadioTxEnable ==> channels == (20usize, 0usize),
        signal == HardwareSignal::RadioRxEnable ==> channels == (21usize, 0usize),
        signal == HardwareSignal::RadioDisable ==> channels == (22usize, 1usize),
        forall|index: u32| #![trigger mask >> index]
            index < 32 ==> ((mask >> index) & 1 == 1 <==> index == 16 + channels.1),
{
    assert forall|index: u32| #![trigger mask >> index] index < 32 implies ((mask >> index) & 1 == 1
        <==> index == 16 + channels.1) by {
        let _ = bit(mask, index);
    }
}

/// Frame starts are captured apart from the other events, with a channel of their
/// own on the event bus.
pub proof fn lemma_event_channels(
    channels: PpiChannels,
    event: HardwareEvent,
    bus: usize,
    timer: usize,
)
    requires
        call_ensures(PpiChannels::ppi_event_channel, (&channels, event), bus),
        call_ensures(PpiChannels::timer_event_channel, (event,), timer),
    ensures
        event == HardwareEvent::RadioFrameStarted ==> bus == channels.ppi_channel2 && timer == 1,
        event == HardwareEvent::RadioRxEnabled ==> bus == channels.ppi_channel1 && timer == 0,
        event == HardwareEvent::RadioDisabled ==> bus == channels.ppi_channel1 && timer == 0,
{
}

/// The channels have to be two different programmable ones with a group.
pub proof fn lemma_channels_checked(channels: PpiChannels, valid: bool, setup: Option<TimerSetup>)
    requires
        call_ensures(PpiChannels::is_valid, (&channels,), valid),
        call_ensures(timer_setup, (&channels,), setup),
    ensures
        valid <==> channels.ppi_channel1 <= 19 && channels.ppi_channel2 <= 19
            && channels.ppi_channel1 != channels.ppi_channel2 && channels.ppi_channel_group <= 5,
        setup is Some <==> valid,
{
}

/// The channels used for tracing have to be different from each other and from the
/// programmable channels.
pub proof fn lemma_tracing_checked(
    config: NrfRadioTimerTracingConfig,
    channels: PpiChannels,
    valid: bool,
)
    requires
        call_ensures(NrfRadioTimerTracingConfig::is_valid, (&config, &channels), valid),
    ensures
        valid ==> config.gpiote_out_channel < 8 && config.gpiote_in_channel < 8
            && config.gpiote_tick_channel < 8 && config.ppi_tick_channel < 20,
        config.gpiote_out_channel == config.gpiote_in_channel || config.gpiote_out_channel
            == config.gpiote_tick_channel || config.gpiote_in_channel == config.gpiote_tick_channel
            ==> !valid,
        config.ppi_tick_channel == channels.ppi_channel1 || config.ppi_tick_channel
            == channels.ppi_channel2 ==> !valid,
        config.gpiote_out_channel < 8 && config.gpiote_in_channel < 8 && config.gpiote_tick_channel
            < 8 && config.ppi_tick_channel < 20 && config.gpiote_out_channel
            != config.gpiote_in_channel && config.gpiote_out_channel != config.gpiote_tick_channel
            && config.gpiote_in_channel != config.gpiote_tick_channel && config.ppi_tick_channel
            != channels.ppi_channel1 && config.ppi_tick_channel != channels.ppi_channel2 ==> valid,
{
}

/// Exactly the channels that the timer uses are set up: both programmable ones, the
/// three of the signals, and the one that starts the timer.
pub proof fn lemma_channels_set_up(
    channels: PpiChannels,
    mask: u32,
    setup: Option<TimerSetup>,
    index: u32,
)
    requires
        channels.valid(),
        call_ensures(PpiChannels::channel_mask, (&channels,), mask),
        call_ensures(timer_setup, (&channels,), setup),
        index < 32,
    ensures
        (mask >> index) & 1 == 1 <==> (index == channels.ppi_channel1 || index
            == channels.ppi_channel2 || index == 20 || index == 21 || index == 22 || index == 31),
        setup matches Some(setup) && {
            &&& (setup.ppi_channel_mask >> index) & 1 == (mask >> index) & 1
            &&& (setup.overflow_shorts >> index) & 1 == 1 <==> index == 11
            &&& setup.overflow_compare == 0xffff_ffff
            &&& setup.half_period_compare == 0x80_0000
        },
{
    let _ = bit(mask, index);
    let _ = bit(setup->0.ppi_channel_mask, index);
    let _ = bit(setup->0.overflow_shorts, index);
    let shared = setup->0.ppi_channel_mask;
    assert((shared >> index) & 1 == 0 || (shared >> index) & 1 == 1) by (bit_vector);
    assert((mask >> index) & 1 == 0 || (mask >> index) & 1 == 1) by (bit_vector);
}

/// Exactly the four channels that trace frames are set.
pub proof fn lemma_tracing_channels(config: NrfRadioTracingConfig, mask: u32, index: u32)
    requires
        call_ensures(NrfRadioTracingConfig::channel_mask, (&config,), mask),
        index < 32,
    ensures
        (mask >> index) & 1 == 1 <==> (index == config.ppi_framestart_channel || index
            == config.ppi_frameend_channel || index == config.ppi_trxstart_channel || index
            == config.ppi_trxend_channel),
{
    let _ = bit(mask, index);
}

/// A signal can be programmed if an earlier one has been sent or none is pending.
/// If it is pending but a frame has started that cancels it, then the frame came
/// first.
pub proof fn lemma_signal_programmed(
    compare_event: bool,
    compare_value: u32,
    disabled_by: Option<HardwareEvent>,
    frame_started: bool,
    r: Result<SignalProgram, RadioTimerError>,
)
    requires
        call_ensures(
            program_timed_signal,
            (compare_event, compare_value, disabled_by, frame_started),
            r,
        ),
    ensures
        r is Ok <==> compare_event || compare_value == 0,
        r matches Ok(program) ==> (program == SignalProgram::ReuseChannel <==> compare_event),
        r matches Err(error) ==> error == (if frame_started && disabled_by == Some(
            HardwareEvent::RadioFrameStarted,
        ) {
            RadioTimerError::Already
        } else {
            RadioTimerError::Busy
        }),
{
}

/// A channel that is in use serves no other event, and an event cancels at most one
/// signal. A channel that observes an event and then also cancels a signal does
/// both.
pub proof fn lemma_event_programmed(
    channel: EventChannel,
    event: HardwareEvent,
    event_use: EventUse,
    r: Result<EventChannel, RadioTimerError>,
    observing: bool,
)
    requires
        call_ensures(EventChannel::program_event, (&channel, event, event_use), r),
        r matches Ok(programmed) ==> call_ensures(
            EventChannel::is_observing,
            (&programmed, event),
            observing,
        ),
    ensures
        channel.enabled && channel.event != Some(event) ==> r is Err,
        event_use == EventUse::DisablesSignal && (channel.group_busy || (channel.enabled
            && channel.disables)) ==> r is Err,
        event_use == EventUse::Observes && (!channel.enabled || channel.event == Some(event))
            ==> r is Ok,
        event_use == EventUse::DisablesSignal && !channel.group_busy && (!channel.enabled || (
        channel.event == Some(event) && !channel.disables)) ==> r is Ok,
        r matches Err(error) ==> error == RadioTimerError::Busy,
        r matches Ok(programmed) ==> {
            &&& programmed.enabled
            &&& programmed.event == Some(event)
            &&& event_use == EventUse::Observes ==> observing && programmed.captures
                && programmed.disables == (channel.enabled && channel.disables)
                && programmed.group_busy == channel.group_busy
            &&& event_use == EventUse::DisablesSignal ==> programmed.disables
                && programmed.group_busy && programmed.captures == (channel.enabled
                && channel.captures) && observing == programmed.captures
        },
{
}

/// An event that has occurred before it was observed has come too early. One that
/// cancels a signal tells whether it has occurred.
pub proof fn lemma_early_event(
    observed_before: bool,
    occurred: bool,
    observes: Result<bool, RadioTimerError>,
    disables: Result<bool, RadioTimerError>,
)
    requires
        call_ensures(
            after_event_programmed,
            (EventUse::Observes, observed_before, occurred),
            observes,
        ),
        call_ensures(
            after_event_programmed,
            (EventUse::DisablesSignal, observed_before, occurred),
            disables,
        ),
    ensures
        observes is Err <==> occurred && !observed_before,
        observes matches Err(error) ==> error == RadioTimerError::Already,
        observes matches Ok(cancelled) ==> !cancelled,
        disables == Ok::<bool, RadioTimerError>(occurred),
{
}

/// A signal is only overdue if the timer has passed it without sending it.
pub proof fn lemma_signal_overdue(
    instant: NsInstant,
    ticks: u32,
    now: u32,
    sent: bool,
    r: Result<(), RadioTimerError>,
)
    requires
        call_ensures(safely_schedule_signal, (instant, ticks, now, sent), r),
    ensures
        r is Err <==> now >= ticks && !sent,
        r matches Err(error) ==> error == RadioTimerError::Overdue(instant),
{
}

/// Waiting for a signal ends when it has been sent. Until then the interrupt is
/// enabled once.
pub proof fn lemma_signal_polled(sent: bool, interrupts: u32, r: SignalPoll)
    requires
        call_ensures(poll_signal, (sent, interrupts), r),
    ensures
        r == SignalPoll::Complete <==> sent,
        r == SignalPoll::EnableInterrupt <==> !sent && interrupts == 0,
        r == SignalPoll::Wait <==> !sent && interrupts != 0,
{
}

/// Initialization begins once.
pub proof fn lemma_initialized_once(
    state: InitializationState,
    begun: Option<InitializationState>,
    again: Option<InitializationState>,
    initialized: bool,
)
    requires
        call_ensures(InitializationState::begin, (state,), begun),
        begun matches Some(begun) ==> call_ensures(InitializationState::begin, (begun,), again),
        call_ensures(InitializationState::is_initialized, (state,), initialized),
    ensures
        begun is Some <==> state == InitializationState::Uninitialized,
        begun matches Some(begun) ==> begun == InitializationState::Initializing && again is None,
        initialized ==> begun is None,
        initialized <==> state == InitializationState::Initialized,
{
}

/// The radio is set up for the PHY: a frame check sequence of two octets with the
/// polynomial of ITU-T, a PHY header of one octet with a length of up to 127, and a
/// bit counter that stops behind the frame control field.
pub proof fn lemma_radio_set_up(setup: RadioSetup)
    requires
        call_ensures(radio_setup, (), setup),
    ensures
        setup.crc_polynomial == 0x1_0000 + 0x1000 + 0x20 + 1 && setup.crc_initial == 0,
        setup.length_field_bits == 8 && setup.max_length == 127,
        setup.bit_counter == 8 * 2,
        setup.sfd == 0xa7,
        setup.tx_power == 0,
        2400 + setup.frequency == 2410,
        setup.cca == CcaMode::CarrierSense,
{
}

/// An external clock is a crystal that is bypassed. Nothing else is external.
pub proof fn lemma_clock_settings(source: LfClockSource, settings: LfClockSettings)
    requires
        call_ensures(LfClockSource::settings, (source,), settings),
    ensures
        source == LfClockSource::Rc ==> settings.oscillator == LfOscillator::Rc,
        source == LfClockSource::Synth ==> settings.oscillator == LfOscillator::Synth,
        source == LfClockSource::Xtal ==> settings.oscillator == LfOscillator::Xtal,
        source == LfClockSource::External ==> settings.oscillator == LfOscillator::Xtal,
        settings.external <==> source == LfClockSource::External,
        settings.bypass <==> source == LfClockSource::External,
{
}

} // verus!
