//! Instants of the sleep timer and of the high-precision timer.

use vstd::prelude::*;

use crate::nrf::rtc::{current_tick, rtc_now_tick, RTC_PERIOD};
use crate::nrf::ticks::{
    lemma_rtc_resolution, nanoseconds, rtc_ticks, timer_ticks, TickConversion, MAX_RTC_TICKS,
    MAX_TIMER_DURATION_NS,
};
use crate::radio::timer::RadioTimerError;
use crate::time::{rtc_tick_period, timer_tick_period, NsDuration, NsInstant};

verus! {

/// How many nanoseconds before an instant the high-precision timer has to be
/// started so that a signal can be scheduled at the instant: two timer ticks,
/// rounded up.
pub const TIMER_OFFSET_NS: u64 = 126;

/// The sleep timer.
#[derive(Clone, Copy, Debug, PartialEq, Eq, Structural)]
pub struct NrfRadioSleepTimer;

impl NrfRadioSleepTimer {
    /// The period of the timer, without its fraction.
    pub fn tick_period() -> (r: NsDuration)
        ensures
            r.ticks == 30_517,
    {
        rtc_tick_period()
    }

    /// How far an instant must be ahead to be scheduled.
    pub fn guard_time() -> (r: NsDuration)
        ensures
            r.ticks == 150_000,
    {
        NsDuration::micros(150)
    }

    /// The current instant, from the number of half periods and from a counter
    /// value that was read after it.
    pub fn now(half_period: u32, counter: u32) -> (r: NsInstant)
        requires
            counter < RTC_PERIOD,
            current_tick(half_period as int, counter as int) <= MAX_RTC_TICKS,
        ensures
            r.ticks == nanoseconds(current_tick(half_period as int, counter as int), 32_768),
    {
        TickConversion::rtc_tick_to_instant(rtc_now_tick(half_period, counter))
    }

    /// The sleep timer tick at which to start the high-precision timer so that a
    /// signal can be scheduled at the given instant.
    pub fn high_precision_start_tick(at: NsInstant) -> (r: u64)
        requires
            TIMER_OFFSET_NS <= at.ticks,
        ensures
            r == rtc_ticks(at.ticks - TIMER_OFFSET_NS),
            r <= MAX_RTC_TICKS,
    {
        TickConversion::instant_to_rtc_tick(NsInstant { ticks: at.ticks - TIMER_OFFSET_NS })
    }
}

/// The high-precision timer, which counts from its epoch.
#[derive(Clone, Copy, Debug, PartialEq, Eq, Structural)]
pub struct NrfRadioHighPrecisionTimer {
    pub epoch: NsInstant,
}

impl NrfRadioHighPrecisionTimer {
    /// Whether a signal at the given instant is within the range of the timer:
    /// it is at least one tick after the epoch and not too far from it.
    pub open spec fn covers(self, instant: NsInstant) -> bool {
        &&& self.epoch.ticks < instant.ticks
        &&& instant.ticks - self.epoch.ticks <= MAX_TIMER_DURATION_NS
        &&& 1 <= timer_ticks(instant.ticks - self.epoch.ticks)
    }

    /// The period of the timer, without its fraction.
    pub fn tick_period() -> (r: NsDuration)
        ensures
            r.ticks == 62,
    {
        timer_tick_period()
    }

    /// The timer that is started at the given sleep timer tick.
    pub fn started_at(rtc_tick: u64) -> (r: Self)
        requires
            rtc_tick <= MAX_RTC_TICKS,
        ensures
            r.epoch.ticks == nanoseconds(rtc_tick as int, 32_768),
    {
        Self { epoch: TickConversion::rtc_tick_to_instant(rtc_tick) }
    }

    /// Whether a signal at the given instant is within the range of the timer.
    pub fn is_within_range(&self, instant: NsInstant) -> (r: bool)
        ensures
            r == self.covers(instant),
    {
        if instant.ticks <= self.epoch.ticks {
            return false;
        }
        let elapsed: u64 = instant.ticks - self.epoch.ticks;
        elapsed <= MAX_TIMER_DURATION_NS && 1 <= TickConversion::duration_to_timer_ticks(
            NsDuration { ticks: elapsed },
        )
    }

    /// The compare value that emits a signal at the given instant: one tick early,
    /// as the event bus delays the signal by one tick.
    pub fn signal_ticks(&self, instant: NsInstant) -> (r: Result<u32, RadioTimerError>)
        requires
            self.covers(instant),
        ensures
            ({
                let ticks = timer_ticks(instant.ticks - self.epoch.ticks);
                r == (if ticks == 1 {
                    Err(RadioTimerError::Overdue(instant))
                } else {
                    Ok((ticks - 1) as u32)
                })
            }),
    {
        let ticks: u32 = TickConversion::instant_to_timer_ticks_with_epoch(self.epoch, instant);
        if ticks == 1 {
            Err(RadioTimerError::Overdue(instant))
        } else {
            Ok(ticks - 1)
        }
    }

    /// The instant of an event from the value that was captured when it occurred.
    /// A captured value of zero means that the event has not been observed. The
    /// event bus delays the event by one tick.
    pub fn observed_instant(&self, captured: u32) -> (r: Option<NsInstant>)
        ensures
            r == (if captured == 0 {
                None
            } else {
                Some(
                    self.epoch.after(
                        (NsDuration { ticks: nanoseconds(captured - 1, 16_000_000) as u64 }),
                    ),
                )
            }),
    {
        match captured_ticks(captured) {
            Some(ticks) => Some(
                TickConversion::timer_ticks_to_instant_with_epoch(self.epoch, ticks),
            ),
            None => None,
        }
    }
}

/// The timer tick of an event, from the value that was captured when it occurred.
/// A captured value of zero means that the event has not been observed. The event
/// bus delays the event by one tick.
pub fn captured_ticks(captured: u32) -> (r: Option<u32>)
    ensures
        r == (if captured == 0 {
            None
        } else {
            Some((captured - 1) as u32)
        }),
{
    if captured > 0 {
        Some(captured - 1)
    } else {
        None
    }
}

/// A timer that is started for an instant is started before the instant and early
/// enough to emit a signal at it.
pub proof fn lemma_started_in_time(at: NsInstant, timer: NrfRadioHighPrecisionTimer)
    requires
        TIMER_OFFSET_NS <= at.ticks,
        timer.epoch.ticks == nanoseconds(rtc_ticks(at.ticks - TIMER_OFFSET_NS), 32_768),
    ensures
        timer.epoch.ticks + TIMER_OFFSET_NS <= at.ticks,
        timer.covers(at),
        2 <= timer_ticks(at.ticks - timer.epoch.ticks),
{
    lemma_rtc_resolution(at.ticks - TIMER_OFFSET_NS);
}

/// An event that is captured when the signal of an instant is emitted is observed
/// no later than the instant, nor earlier by more than about three timer ticks.
pub proof fn lemma_signal_observed(timer: NrfRadioHighPrecisionTimer, instant: NsInstant)
    requires
        timer.covers(instant),
    ensures
        ({
            let ticks = timer_ticks(instant.ticks - timer.epoch.ticks);
            let observed = timer.epoch.after(
                (NsDuration { ticks: nanoseconds(ticks - 1, 16_000_000) as u64 }),
            );
            observed.ticks <= instant.ticks && instant.ticks - observed.ticks <= 188
        }),
{
    let elapsed = instant.ticks - timer.epoch.ticks;
    let ticks = timer_ticks(elapsed);
    assert(nanoseconds(ticks - 1, 16_000_000) == (ticks - 1) * 125 / 2);
    assert(0 <= (ticks - 1) * 125 / 2 <= elapsed);
}

} // verus!
