//! The overflow-protected counter and the alarms of the sleep timer.

use vstd::prelude::*;

use crate::radio::timer::RadioTimerError;

verus! {

/// Half a period of the 24-bit counter in ticks.
pub const RTC_HALF_PERIOD: u64 = 0x80_0000;

/// A period of the 24-bit counter in ticks.
pub const RTC_PERIOD: u64 = 0x100_0000;

/// Three quarters of a period of the 24-bit counter in ticks.
pub const RTC_THREE_QUARTERS_PERIOD: u64 = 0xc0_0000;

/// A compare value must be further ahead of the counter than this to be
/// recognized reliably.
pub const RTC_GUARD_TICKS: u64 = 2;

/// The alarms that the scheduling context shares with interrupts.
#[derive(Clone, Copy, Debug, PartialEq, Eq, Structural)]
pub enum AlarmChannel {
    HighPrecisionTimer,
    SleepTimer1,
    SleepTimer2,
    NumRtcChannels,
}

impl AlarmChannel {
    /// The compare register of the channel.
    pub open spec fn number(self) -> nat {
        match self {
            AlarmChannel::HighPrecisionTimer => 0,
            AlarmChannel::SleepTimer1 => 1,
            AlarmChannel::SleepTimer2 => 2,
            AlarmChannel::NumRtcChannels => 3,
        }
    }

    /// The compare register of the channel.
    pub fn index(self) -> (r: usize)
        ensures
            r == self.number(),
    {
        match self {
            AlarmChannel::HighPrecisionTimer => 0,
            AlarmChannel::SleepTimer1 => 1,
            AlarmChannel::SleepTimer2 => 2,
            AlarmChannel::NumRtcChannels => 3,
        }
    }
}

/// Who owns an alarm.
#[derive(Clone, Copy, Debug, PartialEq, Eq, Structural)]
pub enum AlarmState {
    /// Any scheduling context may acquire the alarm.
    Unused,
    /// A scheduling context has acquired the alarm and owns it.
    Pending,
    /// The high-precision timer is being synchronized with the sleep timer. The
    /// alarm is owned by the interrupt.
    Synchronizing,
    /// The alarm may fire any time. It is owned by the interrupt.
    Active,
    /// The alarm was handed back to the scheduling context.
    Fired,
}

impl AlarmState {
    /// Whether the alarm is owned by the interrupt.
    pub open spec fn interrupt_owned(self) -> bool {
        self == AlarmState::Active || self == AlarmState::Synchronizing
    }

    /// Whether the alarm is owned by the interrupt.
    pub fn is_owned_by_interrupt(self) -> (r: bool)
        ensures
            r == self.interrupt_owned(),
    {
        match self {
            AlarmState::Active | AlarmState::Synchronizing => true,
            _ => false,
        }
    }

    /// Whether the alarm was acquired but not yet activated.
    pub fn is_pending(self) -> (r: bool)
        ensures
            r == (self == AlarmState::Pending),
    {
        match self {
            AlarmState::Pending => true,
            _ => false,
        }
    }

    /// Whether the high-precision timer is being synchronized.
    pub fn is_synchronizing(self) -> (r: bool)
        ensures
            r == (self == AlarmState::Synchronizing),
    {
        match self {
            AlarmState::Synchronizing => true,
            _ => false,
        }
    }

    /// Acquires an unused alarm.
    pub fn try_acquire(self) -> (r: Result<AlarmState, RadioTimerError>)
        ensures
            r == (if self == AlarmState::Unused {
                Ok(AlarmState::Pending)
            } else {
                Err(RadioTimerError::Busy)
            }),
    {
        match self {
            AlarmState::Unused => Ok(AlarmState::Pending),
            _ => Err(RadioTimerError::Busy),
        }
    }

    /// Releases an alarm that has fired.
    pub fn release(self) -> (r: AlarmState)
        requires
            self == AlarmState::Fired,
        ensures
            r == AlarmState::Unused,
    {
        AlarmState::Unused
    }
}

/// The overflow-protected tick of a counter value that was read after the number
/// of half periods.
///
/// Even half periods cover the lower half of the counter's range and odd ones the
/// upper half. If the counter is in the other half then the next half period has
/// begun in between.
pub open spec fn current_tick(half_period: int, counter: int) -> int {
    let expected_half = half_period % 2;
    let actual_half = counter / 0x80_0000;
    if expected_half == actual_half {
        half_period * 0x80_0000 + counter % 0x80_0000
    } else {
        (half_period + 1) * 0x80_0000 + counter % 0x80_0000
    }
}

/// Combines the number of half periods with a counter value that was read after
/// it.
pub fn rtc_now_tick(half_period: u32, counter: u32) -> (r: u64)
    requires
        counter < RTC_PERIOD,
    ensures
        r == current_tick(half_period as int, counter as int),
{
    let offset: u32 = if half_period % 2 == 0 {
        counter
    } else if counter >= 0x80_0000 {
        counter - 0x80_0000
    } else {
        counter + 0x80_0000
    };
    half_period as u64 * RTC_HALF_PERIOD + offset as u64
}

/// The tick is right, no matter whether the half period ended between reading the
/// number of half periods and reading the counter.
pub proof fn lemma_now_tick_race_free(tick: int, half_period: int)
    requires
        0 <= tick,
        half_period == tick / RTC_HALF_PERIOD as int || half_period + 1 == tick
            / RTC_HALF_PERIOD as int,
    ensures
        current_tick(half_period, tick % RTC_PERIOD as int) == tick,
{
}

/// Whether the compare event of an alarm may be enabled at the beginning of a half
/// period.
pub open spec fn within_reach(alarm_tick: int, half_period: int) -> bool {
    alarm_tick < half_period * 0x80_0000 + 0xc0_0000
}

/// Counts a half period. Returns the new number of half periods.
pub fn rtc_increment_half_period(half_period: u32) -> (r: u32)
    requires
        half_period < u32::MAX,
    ensures
        r == half_period + 1,
{
    half_period + 1
}

/// Decides whether to enable the compare event of an alarm at the beginning of a
/// half period.
pub fn rtc_enables_compare(state: AlarmState, alarm_tick: u64, half_period: u32) -> (r: bool)
    ensures
        r == (state.interrupt_owned() && within_reach(alarm_tick as int, half_period as int)),
{
    state.is_owned_by_interrupt() && alarm_tick < half_period as u64 * RTC_HALF_PERIOD
        + RTC_THREE_QUARTERS_PERIOD
}

/// What to do about a compare event.
#[derive(Clone, Copy, Debug, PartialEq, Eq, Structural)]
pub enum AlarmTrigger {
    /// The alarm is not owned by the interrupt: leave it alone.
    Ignore,
    /// The event belongs to an earlier compare value: reset it.
    ResetEvent,
    /// Disable the compare event, then wake the waiting task.
    Wake,
    /// Disable the compare event and release the alarm, as no task is waiting.
    Release,
}

/// What follows from a compare event.
pub open spec fn trigger_of(
    state: AlarmState,
    now_tick: u64,
    alarm_tick: u64,
    has_waker: bool,
) -> AlarmTrigger {
    if !state.interrupt_owned() {
        AlarmTrigger::Ignore
    } else if now_tick < alarm_tick {
        AlarmTrigger::ResetEvent
    } else if has_waker {
        AlarmTrigger::Wake
    } else {
        AlarmTrigger::Release
    }
}

/// The state of an alarm after a compare event was handled.
pub open spec fn triggered(state: AlarmState, trigger: AlarmTrigger) -> AlarmState {
    match trigger {
        AlarmTrigger::Ignore | AlarmTrigger::ResetEvent => state,
        AlarmTrigger::Wake => AlarmState::Fired,
        AlarmTrigger::Release => AlarmState::Unused,
    }
}

/// Handles the compare event of an alarm. Returns the new state of the alarm and
/// what to do.
pub fn rtc_trigger_alarm(
    state: AlarmState,
    now_tick: u64,
    alarm_tick: u64,
    has_waker: bool,
) -> (r: (AlarmState, AlarmTrigger))
    ensures
        r.1 == trigger_of(state, now_tick, alarm_tick, has_waker),
        r.0 == triggered(state, r.1),
{
    if !state.is_owned_by_interrupt() {
        (state, AlarmTrigger::Ignore)
    } else if now_tick < alarm_tick {
        (state, AlarmTrigger::ResetEvent)
    } else if has_waker {
        (AlarmState::Fired, AlarmTrigger::Wake)
    } else {
        (AlarmState::Unused, AlarmTrigger::Release)
    }
}

/// How an alarm is armed.
#[derive(Clone, Copy, Debug, PartialEq, Eq, Structural)]
pub enum AlarmProgram {
    /// The tick has passed or is too close.
    Overdue,
    /// Store the compare value. If the alarm is imminent then also enable the
    /// compare event and confirm that this was not too late.
    Armed { compare: u32, imminent: bool },
}

/// How an alarm for the given tick is armed.
pub open spec fn program_of(alarm_tick: u64, now_tick: u64) -> AlarmProgram {
    if alarm_tick <= now_tick + RTC_GUARD_TICKS {
        AlarmProgram::Overdue
    } else {
        AlarmProgram::Armed {
            compare: (alarm_tick % RTC_PERIOD) as u32,
            imminent: alarm_tick - now_tick < RTC_THREE_QUARTERS_PERIOD,
        }
    }
}

/// Arms a pending alarm. Returns its new state and how to program the timer.
///
/// The compare event of an alarm in the far future is left disabled. It is enabled
/// at the beginning of a later half period.
pub fn rtc_program_alarm(state: AlarmState, alarm_tick: u64, now_tick: u64) -> (r: (
    AlarmState,
    AlarmProgram,
))
    requires
        state == AlarmState::Pending,
        now_tick + RTC_GUARD_TICKS <= u64::MAX,
    ensures
        r.1 == program_of(alarm_tick, now_tick),
        r.0 == (if r.1 == AlarmProgram::Overdue {
            AlarmState::Fired
        } else {
            AlarmState::Active
        }),
{
    if alarm_tick <= now_tick + RTC_GUARD_TICKS {
        return (AlarmState::Fired, AlarmProgram::Overdue);
    }
    let compare: u32 = (alarm_tick % RTC_PERIOD) as u32;
    let imminent = alarm_tick - now_tick < RTC_THREE_QUARTERS_PERIOD;
    (AlarmState::Active, AlarmProgram::Armed { compare, imminent })
}

/// Confirms that an imminent alarm was armed in time, with the tick that was read
/// after its compare event was enabled. If not then the alarm has to be disabled
/// and marked as fired.
pub fn rtc_was_safely_scheduled(alarm_tick: u64, now_tick: u64) -> (r: bool)
    requires
        now_tick + RTC_GUARD_TICKS <= u64::MAX,
    ensures
        r == (now_tick + RTC_GUARD_TICKS <= alarm_tick),
{
    now_tick + RTC_GUARD_TICKS <= alarm_tick
}

/// What a task that waits for an alarm does when it is polled.
#[derive(Clone, Copy, Debug, PartialEq, Eq, Structural)]
pub enum AlarmPoll {
    /// The alarm has not fired yet and must not be accessed.
    Wait,
    /// Store the waker, then arm the alarm.
    Arm,
    /// Store the waker. The alarm has fired.
    Complete,
}

/// Decides what a task that waits for an alarm does when it is polled.
pub fn rtc_poll_alarm(state: AlarmState) -> (r: AlarmPoll)
    ensures
        r == (if state.interrupt_owned() {
            AlarmPoll::Wait
        } else if state == AlarmState::Pending {
            AlarmPoll::Arm
        } else {
            AlarmPoll::Complete
        }),
{
    match state {
        AlarmState::Active | AlarmState::Synchronizing => AlarmPoll::Wait,
        AlarmState::Pending => AlarmPoll::Arm,
        AlarmState::Unused | AlarmState::Fired => AlarmPoll::Complete,
    }
}

/// Finds the first sleep timer alarm that can be acquired.
pub fn rtc_find_sleep_alarm(first: AlarmState, second: AlarmState) -> (r: Result<
    AlarmChannel,
    RadioTimerError,
>)
    ensures
        r == (if first == AlarmState::Unused {
            Ok(AlarmChannel::SleepTimer1)
        } else if second == AlarmState::Unused {
            Ok(AlarmChannel::SleepTimer2)
        } else {
            Err(RadioTimerError::Busy)
        }),
{
    match (first, second) {
        (AlarmState::Unused, _) => Ok(AlarmChannel::SleepTimer1),
        (_, AlarmState::Unused) => Ok(AlarmChannel::SleepTimer2),
        _ => Err(RadioTimerError::Busy),
    }
}

/// Within a period before the alarm's tick, the counter does not match the
/// compare value: an enabled compare event announces the alarm's tick and no
/// earlier one.
pub proof fn lemma_compare_matches_once(alarm_tick: u64, now_tick: u64, tick: u64)
    requires
        program_of(alarm_tick, now_tick) is Armed,
        alarm_tick - RTC_PERIOD < tick < alarm_tick,
    ensures
        tick % RTC_PERIOD != program_of(alarm_tick, now_tick)->compare,
        alarm_tick % RTC_PERIOD == program_of(alarm_tick, now_tick)->compare,
{
}

/// The half period at whose beginning the compare event of an alarm in the far
/// future is enabled.
pub open spec fn enabling_half_period(alarm_tick: int) -> int {
    (alarm_tick - 0xc0_0000) / 0x80_0000 + 1
}

/// The compare event of an alarm that is not imminent is enabled at the beginning
/// of a later half period: less than three quarters of a period, but at least a
/// quarter, ahead of the alarm.
pub proof fn lemma_far_alarm_enabled_in_time(alarm_tick: u64, now_tick: u64)
    requires
        program_of(alarm_tick, now_tick) matches AlarmProgram::Armed { imminent, .. } && !imminent,
    ensures
        ({
            let half_period = enabling_half_period(alarm_tick as int);
            let begin = half_period * RTC_HALF_PERIOD;
            &&& now_tick < begin
            &&& begin + 0x40_0000 <= alarm_tick < begin + RTC_THREE_QUARTERS_PERIOD
            &&& within_reach(alarm_tick as int, half_period)
            &&& !within_reach(alarm_tick as int, half_period - 1)
        }),
{
}

/// An alarm never fires before its tick, and an alarm that the interrupt does not
/// own does not fire at all.
pub proof fn lemma_no_early_alarm(
    state: AlarmState,
    now_tick: u64,
    alarm_tick: u64,
    has_waker: bool,
)
    ensures
        triggered(state, trigger_of(state, now_tick, alarm_tick, has_waker)) != state ==> (
        alarm_tick <= now_tick && state.interrupt_owned()),
{
}

} // verus!
