//! Conversion between the ticks of the hardware timers and nanoseconds.

use vstd::prelude::*;

use crate::time::{NsDuration, NsInstant};

verus! {

/// Converts the ticks of the sleep timer, which runs at 32768 Hz, and of the
/// high-precision timer, which runs at 16 MHz, to nanoseconds and back.
///
/// The conversion to ticks multiplies by a fixed-point reciprocal instead of
/// dividing. It may fall short of the exact value by one tick and never exceeds
/// it.
#[derive(Clone, Copy, Debug, PartialEq, Eq, Structural)]
pub struct TickConversion;

/// The number of nanoseconds of a second.
pub const NS_PER_S: u64 = 1_000_000_000;

/// The rate of the sleep timer in Hz.
pub const RTC_FREQUENCY: u64 = 32_768;

/// The rate of the high-precision timer in Hz.
pub const TIMER_FREQUENCY: u64 = 16_000_000;

/// The largest number of sleep timer ticks that can be represented in
/// nanoseconds, some 584 years.
pub const MAX_RTC_TICKS: u64 = 604_462_909_807_314;

/// The longest duration in nanoseconds that can be converted to ticks of the
/// high-precision timer, some 33 seconds.
pub const MAX_TIMER_DURATION_NS: u64 = 33_554_432_000;

/// 2^84 / 5^9, rounded down.
const RTC_MULTIPLIER: u128 = 9_903_520_314_283_042_199;

/// 2^78.
const RTC_DIVISOR: u128 = 302_231_454_903_657_293_676_544;

/// 2^36 / 5^3, rounded down.
const TIMER_MULTIPLIER: u64 = 549_755_813;

/// 2^35.
const TIMER_DIVISOR: u64 = 34_359_738_368;

/// The number of whole periods of the given frequency within a duration in
/// nanoseconds.
pub open spec fn whole_ticks(ns: int, frequency: int) -> int {
    ns * frequency / 1_000_000_000
}

/// The nanoseconds that pass during the given number of periods of the given
/// frequency, rounded down.
pub open spec fn nanoseconds(ticks: int, frequency: int) -> int {
    ticks * 1_000_000_000 / frequency
}

/// The sleep timer tick to which an instant is converted.
pub open spec fn rtc_ticks(ns: int) -> int {
    ns * 9_903_520_314_283_042_199 / 302_231_454_903_657_293_676_544
}

/// The high-precision timer ticks to which a duration is converted.
pub open spec fn timer_ticks(ns: int) -> int {
    ns * 549_755_813 / 34_359_738_368
}

proof fn lemma_rtc_ticks(ns: int)
    requires
        0 <= ns <= u64::MAX,
    ensures
        whole_ticks(ns, 32_768) - 1 <= rtc_ticks(ns) <= whole_ticks(ns, 32_768),
        0 <= rtc_ticks(ns) <= MAX_RTC_TICKS,
        whole_ticks(ns, 32_768) == ns * 64 / 1_953_125,
{
}

proof fn lemma_timer_ticks(ns: int)
    requires
        0 <= ns <= MAX_TIMER_DURATION_NS,
    ensures
        whole_ticks(ns, 16_000_000) - 1 <= timer_ticks(ns) <= whole_ticks(ns, 16_000_000),
        0 <= timer_ticks(ns) <= u32::MAX,
        whole_ticks(ns, 16_000_000) == ns * 2 / 125,
{
}

impl TickConversion {
    /// Converts an instant to the sleep timer tick that has begun by then.
    pub fn instant_to_rtc_tick(instant: NsInstant) -> (r: u64)
        ensures
            r == rtc_ticks(instant.ticks as int),
            whole_ticks(instant.ticks as int, RTC_FREQUENCY as int) - 1 <= r <= whole_ticks(
                instant.ticks as int,
                RTC_FREQUENCY as int,
            ),
            r <= MAX_RTC_TICKS,
    {
        proof {
            lemma_rtc_ticks(instant.ticks as int);
        }
        let product: u128 = instant.ticks as u128 * RTC_MULTIPLIER;
        (product / RTC_DIVISOR) as u64
    }

    /// Converts a duration to ticks of the high-precision timer.
    pub fn duration_to_timer_ticks(duration: NsDuration) -> (r: u32)
        requires
            duration.ticks <= MAX_TIMER_DURATION_NS,
        ensures
            r == timer_ticks(duration.ticks as int),
            whole_ticks(duration.ticks as int, TIMER_FREQUENCY as int) - 1 <= r <= whole_ticks(
                duration.ticks as int,
                TIMER_FREQUENCY as int,
            ),
    {
        proof {
            lemma_timer_ticks(duration.ticks as int);
        }
        let product: u64 = duration.ticks * TIMER_MULTIPLIER;
        (product / TIMER_DIVISOR) as u32
    }

    /// Converts an instant to ticks of a high-precision timer that was started at
    /// the given epoch.
    pub fn instant_to_timer_ticks_with_epoch(timer_epoch: NsInstant, instant: NsInstant) -> (r: u32)
        requires
            timer_epoch.ticks < instant.ticks,
            instant.ticks - timer_epoch.ticks <= MAX_TIMER_DURATION_NS,
        ensures
            r == timer_ticks(instant.ticks - timer_epoch.ticks),
            whole_ticks(instant.ticks - timer_epoch.ticks, TIMER_FREQUENCY as int) - 1 <= r,
            r <= whole_ticks(instant.ticks - timer_epoch.ticks, TIMER_FREQUENCY as int),
    {
        Self::duration_to_timer_ticks(NsDuration { ticks: instant.ticks - timer_epoch.ticks })
    }

    /// Converts a sleep timer tick to the instant at which it begins.
    pub fn rtc_tick_to_instant(rtc_tick: u64) -> (r: NsInstant)
        requires
            rtc_tick <= MAX_RTC_TICKS,
        ensures
            r.ticks == nanoseconds(rtc_tick as int, RTC_FREQUENCY as int),
    {
        let product: u128 = rtc_tick as u128 * 1_953_125;
        NsInstant { ticks: (product / 64) as u64 }
    }

    /// Converts ticks of the high-precision timer to a duration.
    pub fn timer_ticks_to_duration(timer_ticks: u32) -> (r: NsDuration)
        ensures
            r.ticks == nanoseconds(timer_ticks as int, TIMER_FREQUENCY as int),
    {
        NsDuration { ticks: timer_ticks as u64 * 125 / 2 }
    }

    /// Converts ticks of a high-precision timer that was started at the given
    /// epoch to an instant.
    ///
    /// The result wraps around like the instants of the local clock do.
    pub fn timer_ticks_to_instant_with_epoch(timer_epoch: NsInstant, timer_ticks: u32) -> (r:
        NsInstant)
        ensures
            r == timer_epoch.after(
                (NsDuration { ticks: nanoseconds(timer_ticks as int, 16_000_000) as u64 }),
            ),
    {
        timer_epoch.plus(Self::timer_ticks_to_duration(timer_ticks))
    }
}

/// Converting the beginning of a sleep timer tick back to ticks gives that tick
/// or the one before it.
pub proof fn lemma_rtc_tick_round_trip(rtc_tick: int)
    requires
        0 <= rtc_tick <= MAX_RTC_TICKS,
    ensures
        rtc_tick - 1 <= rtc_ticks(nanoseconds(rtc_tick, RTC_FREQUENCY as int)) <= rtc_tick,
{
    assert(nanoseconds(rtc_tick, 32_768) == rtc_tick * 1_953_125 / 64);
}

/// The tick to which an instant is converted does not begin later than the
/// instant, nor earlier by more than about one tick.
pub proof fn lemma_rtc_resolution(ns: int)
    requires
        0 <= ns <= u64::MAX,
    ensures
        nanoseconds(rtc_ticks(ns), RTC_FREQUENCY as int) <= ns,
        ns - nanoseconds(rtc_ticks(ns), RTC_FREQUENCY as int) <= 30_519,
{
    let tick = rtc_ticks(ns);
    assert(nanoseconds(tick, 32_768) == tick * 1_953_125 / 64);
}

/// The timer ticks to which a duration is converted do not last longer than the
/// duration, nor shorter by more than two ticks.
pub proof fn lemma_timer_resolution(ns: int)
    requires
        0 <= ns <= MAX_TIMER_DURATION_NS,
    ensures
        nanoseconds(timer_ticks(ns), TIMER_FREQUENCY as int) <= ns,
        ns - nanoseconds(timer_ticks(ns), TIMER_FREQUENCY as int) <= 125,
{
    let ticks = timer_ticks(ns);
    assert(nanoseconds(ticks, 16_000_000) == ticks * 125 / 2);
}

/// A later instant is not converted to an earlier tick.
pub proof fn lemma_rtc_ticks_monotonic(a: int, b: int)
    requires
        0 <= a <= b <= u64::MAX,
    ensures
        rtc_ticks(a) <= rtc_ticks(b),
{
}

/// The last instant is converted to the last tick, and the instant of the last
/// tick can be represented.
pub proof fn lemma_rtc_range()
    ensures
        rtc_ticks(u64::MAX as int) == MAX_RTC_TICKS,
        whole_ticks(u64::MAX as int, RTC_FREQUENCY as int) == MAX_RTC_TICKS,
        nanoseconds(MAX_RTC_TICKS as int, RTC_FREQUENCY as int) == u64::MAX - 17_924,
{
}

} // verus!
