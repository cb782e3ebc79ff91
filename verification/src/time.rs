//! Instants and durations of the local radio clock.

use vstd::prelude::*;

verus! {

/// A duration in nanoseconds.
#[derive(Clone, Copy, Debug, PartialEq, Eq, Structural)]
pub struct NsDuration {
    pub ticks: u64,
}

/// An instant of the local radio clock in nanoseconds since its epoch.
#[derive(Clone, Copy, Debug, PartialEq, Eq, Structural)]
pub struct NsInstant {
    pub ticks: u64,
}

/// A duration in symbol periods of the O-QPSK PHY with 250 kb/s.
#[derive(Clone, Copy, Debug, PartialEq, Eq, Structural)]
pub struct SymbolsOQpsk250Duration {
    pub ticks: u64,
}

/// A duration of the local radio clock.
pub type LocalClockDuration = NsDuration;

/// An instant of the local radio clock.
pub type LocalClockInstant = NsInstant;

/// Calls `fugit::Duration::checked_add` for two durations in nanoseconds: the sum
/// of the ticks, or nothing if it overflows.
#[verifier::external_body]
fn duration_checked_add(a: u64, b: u64) -> (r: Option<u64>)
    ensures
        r == (if a + b <= u64::MAX {
            Some((a + b) as u64)
        } else {
            None
        }),
{
    match fugit::NanosDurationU64::from_ticks(a).checked_add(
        fugit::NanosDurationU64::from_ticks(b),
    ) {
        Some(sum) => Some(sum.ticks()),
        None => None,
    }
}

/// Calls `fugit::Duration::checked_sub` for two durations in nanoseconds: the
/// difference of the ticks, or nothing if it is negative.
#[verifier::external_body]
fn duration_checked_sub(a: u64, b: u64) -> (r: Option<u64>)
    ensures
        r == (if a >= b {
            Some((a - b) as u64)
        } else {
            None
        }),
{
    match fugit::NanosDurationU64::from_ticks(a).checked_sub(
        fugit::NanosDurationU64::from_ticks(b),
    ) {
        Some(difference) => Some(difference.ticks()),
        None => None,
    }
}

/// Calls `fugit::Duration::micros` for a duration in nanoseconds, which multiplies
/// by a thousand.
#[verifier::external_body]
fn duration_micros(micros: u64) -> (r: u64)
    requires
        1000 * micros <= u64::MAX,
    ensures
        r == 1000 * micros,
{
    fugit::NanosDurationU64::micros(micros).ticks()
}

/// Calls `fugit::Duration::to_micros` for a duration in nanoseconds, which divides
/// by a thousand and drops the remainder.
#[verifier::external_body]
fn duration_to_micros(nanos: u64) -> (r: u64)
    ensures
        r == nanos / 1000,
{
    fugit::NanosDurationU64::from_ticks(nanos).to_micros()
}

/// Calls `fugit::Instant::checked_add_duration` for an instant and a duration in
/// nanoseconds, which wraps around when it overflows.
#[verifier::external_body]
fn instant_checked_add(a: u64, b: u64) -> (r: Option<u64>)
    ensures
        r == Some(((a + b) % 0x1_0000_0000_0000_0000) as u64),
{
    match fugit::Instant::<u64, 1, 1_000_000_000>::from_ticks(a).checked_add_duration(
        fugit::NanosDurationU64::from_ticks(b),
    ) {
        Some(instant) => Some(instant.ticks()),
        None => None,
    }
}

/// Calls `fugit::Instant::checked_sub_duration` for an instant and a duration in
/// nanoseconds, which wraps around when the duration reaches back behind the
/// epoch.
#[verifier::external_body]
fn instant_checked_sub(a: u64, b: u64) -> (r: Option<u64>)
    ensures
        r == Some(((a - b) % 0x1_0000_0000_0000_0000) as u64),
{
    match fugit::Instant::<u64, 1, 1_000_000_000>::from_ticks(a).checked_sub_duration(
        fugit::NanosDurationU64::from_ticks(b),
    ) {
        Some(instant) => Some(instant.ticks()),
        None => None,
    }
}

/// Calls `fugit::Instant::checked_duration_since` for two instants in nanoseconds:
/// the difference modulo 2^64, or nothing if it exceeds half of that, as then the
/// first instant is taken to be the earlier one.
#[verifier::external_body]
fn instant_checked_since(a: u64, b: u64) -> (r: Option<u64>)
    ensures
        r == (if (a - b) % 0x1_0000_0000_0000_0000 <= 0x7fff_ffff_ffff_ffff {
            Some(((a - b) % 0x1_0000_0000_0000_0000) as u64)
        } else {
            None
        }),
{
    match fugit::Instant::<u64, 1, 1_000_000_000>::from_ticks(a).checked_duration_since(
        fugit::Instant::<u64, 1, 1_000_000_000>::from_ticks(b),
    ) {
        Some(duration) => Some(duration.ticks()),
        None => None,
    }
}

/// Calls `fugit::Duration::convert` from symbol periods at 62.5 kHz to
/// nanoseconds, which multiplies by 16000.
#[verifier::external_body]
fn symbols_convert(symbols: u64) -> (r: u64)
    requires
        16000 * symbols <= u64::MAX,
    ensures
        r == 16000 * symbols,
{
    let nanos: fugit::NanosDurationU64 = fugit::Duration::<u64, 1, 62_500>::from_ticks(
        symbols,
    ).convert();
    nanos.ticks()
}

/// Calls `fugit::Duration::to_micros` for symbol periods at 62.5 kHz, which
/// multiplies by 16.
#[verifier::external_body]
fn symbols_to_micros(symbols: u64) -> (r: u64)
    requires
        16 * symbols <= u64::MAX,
    ensures
        r == 16 * symbols,
{
    fugit::Duration::<u64, 1, 62_500>::from_ticks(symbols).to_micros()
}

/// Calls `fugit::Rate::into_duration` for a frequency of 32768 Hz: the period in
/// nanoseconds without its fraction.
#[verifier::external_body]
fn rtc_rate_into_duration() -> (r: u64)
    ensures
        r == 30517,
{
    let period: fugit::NanosDurationU64 = fugit::TimerRateU64::<32_768>::from_raw(
        1,
    ).into_duration();
    period.ticks()
}

/// Calls `fugit::Rate::into_duration` for a frequency of 16 MHz: the period in
/// nanoseconds without its fraction.
#[verifier::external_body]
fn timer_rate_into_duration() -> (r: u64)
    ensures
        r == 62,
{
    let period: fugit::NanosDurationU64 = fugit::TimerRateU64::<16_000_000>::from_raw(
        1,
    ).into_duration();
    period.ticks()
}

impl NsDuration {
    /// A duration of the given number of nanoseconds.
    pub fn from_ticks(ticks: u64) -> (r: Self)
        ensures
            r.ticks == ticks,
    {
        NsDuration { ticks }
    }

    /// A duration of the given number of nanoseconds.
    pub fn nanos(nanos: u64) -> (r: Self)
        ensures
            r.ticks == nanos,
    {
        NsDuration { ticks: nanos }
    }

    /// A duration of the given number of microseconds.
    pub fn micros(micros: u64) -> (r: Self)
        requires
            1000 * micros <= u64::MAX,
        ensures
            r.ticks == 1000 * micros,
    {
        NsDuration { ticks: duration_micros(micros) }
    }

    /// The number of nanoseconds.
    pub fn ticks(&self) -> (r: u64)
        ensures
            r == self.ticks,
    {
        self.ticks
    }

    /// The number of whole microseconds.
    pub fn to_micros(&self) -> (r: u64)
        ensures
            r == self.ticks / 1000,
    {
        duration_to_micros(self.ticks)
    }

    /// The sum of two durations, unless it overflows.
    pub fn checked_add(self, other: NsDuration) -> (r: Option<NsDuration>)
        ensures
            r == (if self.ticks + other.ticks <= u64::MAX {
                Some(NsDuration { ticks: (self.ticks + other.ticks) as u64 })
            } else {
                None
            }),
    {
        match duration_checked_add(self.ticks, other.ticks) {
            Some(ticks) => Some(NsDuration { ticks }),
            None => None,
        }
    }

    /// The difference of two durations, unless it is negative.
    pub fn checked_sub(self, other: NsDuration) -> (r: Option<NsDuration>)
        ensures
            r == (if self.ticks >= other.ticks {
                Some(NsDuration { ticks: (self.ticks - other.ticks) as u64 })
            } else {
                None
            }),
    {
        match duration_checked_sub(self.ticks, other.ticks) {
            Some(ticks) => Some(NsDuration { ticks }),
            None => None,
        }
    }

    /// The sum of two durations that does not overflow.
    pub(crate) fn plus(self, other: NsDuration) -> (r: NsDuration)
        requires
            self.ticks + other.ticks <= u64::MAX,
        ensures
            r.ticks == self.ticks + other.ticks,
    {
        match self.checked_add(other) {
            Some(sum) => sum,
            None => self,
        }
    }

    /// The difference of two durations that is not negative.
    pub(crate) fn minus(self, other: NsDuration) -> (r: NsDuration)
        requires
            self.ticks >= other.ticks,
        ensures
            r.ticks == self.ticks - other.ticks,
    {
        match self.checked_sub(other) {
            Some(difference) => difference,
            None => self,
        }
    }
}

impl NsInstant {
    /// The instant the given number of nanoseconds after the epoch.
    pub fn from_ticks(ticks: u64) -> (r: Self)
        ensures
            r.ticks == ticks,
    {
        NsInstant { ticks }
    }

    /// The number of nanoseconds since the epoch.
    pub fn ticks(&self) -> (r: u64)
        ensures
            r == self.ticks,
    {
        self.ticks
    }

    /// The duration since the epoch.
    pub fn duration_since_epoch(self) -> (r: NsDuration)
        ensures
            r.ticks == self.ticks,
    {
        NsDuration { ticks: self.ticks }
    }

    /// The instant after a duration. The clock wraps around.
    pub fn checked_add_duration(self, duration: NsDuration) -> (r: Option<NsInstant>)
        ensures
            r == Some(self.after(duration)),
    {
        match instant_checked_add(self.ticks, duration.ticks) {
            Some(ticks) => Some(NsInstant { ticks }),
            None => None,
        }
    }

    /// The instant before a duration. The clock wraps around.
    pub fn checked_sub_duration(self, duration: NsDuration) -> (r: Option<NsInstant>)
        ensures
            r == Some(self.before(duration)),
    {
        match instant_checked_sub(self.ticks, duration.ticks) {
            Some(ticks) => Some(NsInstant { ticks }),
            None => None,
        }
    }

    /// The duration since another instant, if that is earlier or the same. As the
    /// clock wraps around, an instant more than half a cycle ahead is taken to be
    /// earlier.
    pub fn checked_duration_since(self, other: NsInstant) -> (r: Option<NsDuration>)
        ensures
            r == (if self.not_earlier_than(other) {
                Some(
                    NsDuration {
                        ticks: ((self.ticks - other.ticks) % 0x1_0000_0000_0000_0000) as u64,
                    },
                )
            } else {
                None
            }),
    {
        match instant_checked_since(self.ticks, other.ticks) {
            Some(ticks) => Some(NsDuration { ticks }),
            None => None,
        }
    }

    /// The instant after a duration. The clock wraps around.
    pub open spec fn after(self, duration: NsDuration) -> NsInstant {
        NsInstant { ticks: ((self.ticks + duration.ticks) % 0x1_0000_0000_0000_0000) as u64 }
    }

    /// The instant before a duration. The clock wraps around.
    pub open spec fn before(self, duration: NsDuration) -> NsInstant {
        NsInstant { ticks: ((self.ticks - duration.ticks) % 0x1_0000_0000_0000_0000) as u64 }
    }

    /// Whether the instant is at most half a cycle of the clock ahead of another.
    pub open spec fn not_earlier_than(self, other: NsInstant) -> bool {
        (self.ticks - other.ticks) % 0x1_0000_0000_0000_0000 <= 0x7fff_ffff_ffff_ffff
    }

    /// The instant after a duration. The clock wraps around.
    pub(crate) fn plus(self, duration: NsDuration) -> (r: NsInstant)
        ensures
            r == self.after(duration),
    {
        match self.checked_add_duration(duration) {
            Some(instant) => instant,
            None => self,
        }
    }

    /// The instant before a duration. The clock wraps around.
    pub(crate) fn minus(self, duration: NsDuration) -> (r: NsInstant)
        ensures
            r == self.before(duration),
    {
        match self.checked_sub_duration(duration) {
            Some(instant) => instant,
            None => self,
        }
    }

    /// The number of microseconds since the epoch modulo 10^9, which is the
    /// largest power of ten that 32 bits can tell.
    pub fn to_micros_remainder(self) -> (r: u32)
        ensures
            r == self.ticks / 1000 % 1_000_000_000,
    {
        (self.duration_since_epoch().to_micros() % 1_000_000_000) as u32
    }
}

/// Going back by a duration undoes going forward by it, and the other way round.
pub proof fn lemma_after_before(instant: NsInstant, duration: NsDuration)
    ensures
        instant.after(duration).before(duration) == instant,
        instant.before(duration).after(duration) == instant,
{
}

/// The instant after a duration is not earlier, unless the duration exceeds half
/// a cycle of the clock.
pub proof fn lemma_after_not_earlier(instant: NsInstant, duration: NsDuration)
    requires
        duration.ticks <= 0x7fff_ffff_ffff_ffff,
    ensures
        instant.after(duration).not_earlier_than(instant),
{
}

impl SymbolsOQpsk250Duration {
    /// A duration of the given number of symbol periods.
    pub fn from_ticks(ticks: u64) -> (r: Self)
        ensures
            r.ticks == ticks,
    {
        SymbolsOQpsk250Duration { ticks }
    }

    /// The number of symbol periods.
    pub fn ticks(&self) -> (r: u64)
        ensures
            r == self.ticks,
    {
        self.ticks
    }

    /// The number of microseconds.
    pub fn to_micros(&self) -> (r: u64)
        requires
            16 * self.ticks <= u64::MAX,
        ensures
            r == 16 * self.ticks,
    {
        symbols_to_micros(self.ticks)
    }

    /// The same duration in nanoseconds.
    pub fn convert(self) -> (r: NsDuration)
        requires
            16000 * self.ticks <= u64::MAX,
        ensures
            r.ticks == 16000 * self.ticks,
    {
        NsDuration { ticks: symbols_convert(self.ticks) }
    }
}

/// The period of the sleep timer, which ticks with 32768 Hz, without its
/// fraction.
pub fn rtc_tick_period() -> (r: NsDuration)
    ensures
        r.ticks == 30517,
{
    NsDuration { ticks: rtc_rate_into_duration() }
}

/// The period of the high-precision timer, which ticks with 16 MHz, without its
/// fraction.
pub fn timer_tick_period() -> (r: NsDuration)
    ensures
        r.ticks == 62,
{
    NsDuration { ticks: timer_rate_into_duration() }
}

} // verus!
