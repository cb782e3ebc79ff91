//! Timing of the radio.

use vstd::prelude::*;

use crate::phy::{Ifs, OQpsk250KBit, Phy};
use crate::radio::timer::{HardwareSignal, TimedSignal};
use crate::time::{timer_tick_period, NsDuration, NsInstant};

verus! {

/// A duration of the given number of nanoseconds.
pub open spec fn ns(nanos: int) -> NsDuration {
    NsDuration { ticks: nanos as u64 }
}

/// A number of ticks of the high-precision timer.
fn timer_ticks(ticks: u64) -> (r: NsDuration)
    requires
        62 * ticks <= u64::MAX,
    ensures
        r.ticks == 62 * ticks,
{
    NsDuration::from_ticks(ticks * timer_tick_period().ticks())
}

/// How much earlier than documented the radio was measured to be ramped up.
fn measured_ramp_up_error() -> (r: NsDuration)
    ensures
        r.ticks == 620,
{
    timer_ticks(10)
}

/// How much earlier than documented the radio was measured to be ramped down.
fn measured_ramp_down_error() -> (r: NsDuration)
    ensures
        r.ticks == 310,
{
    timer_ticks(5)
}

/// How much faster than documented the radio was measured to turn around.
fn measured_turnaround_error() -> (r: NsDuration)
    ensures
        r.ticks == 496,
{
    timer_ticks(8)
}

/// How much later than documented the start of a sent frame was measured.
fn measured_tx_framestart_error() -> (r: NsDuration)
    ensures
        r.ticks == 12_090,
{
    timer_ticks(195)
}

/// How long it takes to ramp up the transmitter.
pub fn t_txen() -> (r: NsDuration)
    ensures
        r.ticks == 129_380,
{
    NsDuration::micros(130).minus(measured_ramp_up_error())
}

/// How long it takes to ramp up the receiver.
pub fn t_rxen() -> (r: NsDuration)
    ensures
        r.ticks == 129_380,
{
    NsDuration::micros(130).minus(measured_ramp_up_error())
}

/// How long it takes to ramp down the receiver.
pub fn t_rxdis() -> (r: NsDuration)
    ensures
        r.ticks == 500,
{
    NsDuration::nanos(500)
}

/// How long it takes to turn around between receiver and transmitter.
pub fn t_turnaround() -> (r: NsDuration)
    ensures
        r.ticks == 129_504,
{
    NsDuration::micros(130).minus(measured_turnaround_error())
}

/// How long a clear channel assessment and a turnaround take.
pub fn t_backoff_period() -> (r: NsDuration)
    ensures
        r.ticks == 257_504,
{
    Phy::<OQpsk250KBit>::cca_duration().plus(t_turnaround())
}

/// When the receiver has to be enabled so that a frame can start at `start`:
/// before ramping up and before the synchronization header.
pub fn timed_rx_enable(start: NsInstant) -> (r: TimedSignal)
    ensures
        r.signal == HardwareSignal::RadioRxEnable,
        r.instant == start.before(ns(129_380int + 160_000)),
{
    TimedSignal::new(
        start.minus(t_rxen().plus(OQpsk250KBit::t_shr())),
        HardwareSignal::RadioRxEnable,
    )
}

/// How long before a frame starts the radio has to be enabled to send it.
pub open spec fn tx_lead(cca: bool) -> NsDuration {
    if cca {
        // Receiver ramp up, clear channel assessment, turnaround and
        // synchronization header.
        ns(129_380int + 257_504 + 160_000)
    } else {
        // Transmitter ramp up and synchronization header.
        ns(129_380int + 160_000)
    }
}

/// When and how the radio has to be enabled so that a sent frame starts at `at`.
/// If the channel has to be clear, then the receiver is enabled first.
pub fn timed_tx_enable(at: NsInstant, cca: bool) -> (r: TimedSignal)
    ensures
        r.signal == (if cca {
            HardwareSignal::RadioRxEnable
        } else {
            HardwareSignal::RadioTxEnable
        }),
        r.instant == at.before(tx_lead(cca)),
{
    if cca {
        TimedSignal::new(
            at.minus(t_rxen().plus(t_backoff_period()).plus(OQpsk250KBit::t_shr())),
            HardwareSignal::RadioRxEnable,
        )
    } else {
        TimedSignal::new(
            at.minus(t_txen().plus(OQpsk250KBit::t_shr())),
            HardwareSignal::RadioTxEnable,
        )
    }
}

/// Switches the radio off at the given instant.
pub fn timed_off(at: NsInstant) -> (r: TimedSignal)
    ensures
        r == (TimedSignal { instant: at, signal: HardwareSignal::RadioDisable }),
{
    TimedSignal::new(at, HardwareSignal::RadioDisable)
}

/// How long before the radio is enabled to send a frame the receiver has to be
/// switched off: long enough to ramp down or, with an interframe space, for what
/// remains of that space once the radio has ramped up.
pub open spec fn rx_off_lead(ifs: Option<Ifs<Phy<OQpsk250KBit>>>) -> NsDuration {
    match ifs {
        Some(Ifs::Lifs(_)) => ns(640_000 - 129_380),
        Some(_) => ns(192_000 - 129_380),
        None => ns(500),
    }
}

/// The signals that switch the receiver off and then enable the radio so that a
/// sent frame starts at `at`.
pub fn timed_rx_off_and_tx_enable(
    at: NsInstant,
    cca: bool,
    ifs: Option<Ifs<Phy<OQpsk250KBit>>>,
) -> (r: (TimedSignal, TimedSignal))
    ensures
        r.0.signal == HardwareSignal::RadioDisable,
        r.0.instant == r.1.instant.before(rx_off_lead(ifs)),
        r.1.signal == (if cca {
            HardwareSignal::RadioRxEnable
        } else {
            HardwareSignal::RadioTxEnable
        }),
        r.1.instant == at.before(tx_lead(cca)),
{
    let tx_enable = timed_tx_enable(at, cca);
    let rx_off_at = match ifs {
        Some(ifs) => {
            let ramp_up = if cca {
                t_rxen()
            } else {
                t_txen()
            };
            tx_enable.instant.plus(ramp_up).minus(ifs.into_local_clock_duration())
        },
        None => tx_enable.instant.minus(t_rxdis()),
    };
    (timed_off(rx_off_at), tx_enable)
}

/// The receiver is switched off before the radio is enabled to send.
pub proof fn lemma_rx_off_before_tx_enable(
    tx_enable: NsInstant,
    ifs: Option<Ifs<Phy<OQpsk250KBit>>>,
)
    ensures
        tx_enable.before(rx_off_lead(ifs)).after(rx_off_lead(ifs)) == tx_enable,
        0 < rx_off_lead(ifs).ticks <= 0x7fff_ffff_ffff_ffff,
        tx_enable.not_earlier_than(tx_enable.before(rx_off_lead(ifs))),
        tx_enable != tx_enable.before(rx_off_lead(ifs)),
{
}

/// When the radio has to be disabled if the latest allowed frame start has passed.
/// The start of a frame is only noticed behind its PHY header.
pub fn rx_window_end(latest_frame_start: NsInstant) -> (r: NsInstant)
    ensures
        r == latest_frame_start.after(ns(32_000)),
{
    latest_frame_start.plus(OQpsk250KBit::t_phr())
}

/// When the radio is expected to be off after it has been disabled while
/// listening.
pub fn rx_window_off_entry(disable_at: NsInstant) -> (r: NsInstant)
    ensures
        r == disable_at.after(ns(500)).before(ns(310)),
{
    disable_at.plus(t_rxdis()).minus(measured_ramp_down_error())
}

/// The instant at which reception started, given when the receiver was enabled or
/// when the start of a frame was noticed: the earliest RMARKER of a frame, or the
/// RMARKER of the frame.
pub fn rx_entry(timestamp: NsInstant, back_to_back: bool) -> (r: NsInstant)
    ensures
        r == (if back_to_back {
            timestamp.before(ns(32_000))
        } else {
            timestamp.after(ns(160_000))
        }),
{
    if back_to_back {
        timestamp.minus(OQpsk250KBit::t_phr())
    } else {
        timestamp.plus(OQpsk250KBit::t_shr())
    }
}

/// The instant at which a sent frame started, given when its start was noticed.
pub fn tx_entry(timestamp: NsInstant) -> (r: NsInstant)
    ensures
        r == timestamp.before(ns(12_090)),
{
    timestamp.minus(measured_tx_framestart_error())
}

/// The number of microseconds between two frames that the radio has to keep. If
/// the next frame is received, then the receiver is ready a microsecond earlier,
/// which exceeds any clock drift.
pub fn ifs_micros(ifs: Option<Ifs<Phy<OQpsk250KBit>>>, with_guard_time: bool) -> (r: u16)
    ensures
        r == (match ifs {
            Some(Ifs::Lifs(_)) => 640int,
            Some(_) => 192,
            None => 0,
        }) - (if ifs is Some && with_guard_time {
            1int
        } else {
            0int
        }),
{
    match ifs {
        Some(ifs) => {
            let micros: u16 = ifs.into_local_clock_duration().to_micros() as u16;
            if with_guard_time {
                micros - 1
            } else {
                micros
            }
        },
        None => 0,
    }
}

} // verus!
