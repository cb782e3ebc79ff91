//! Instants, durations and the timing of the PHY.

use dot15d4::nrf::high_precision::{NrfRadioHighPrecisionTimer, NrfRadioSleepTimer};
use dot15d4::nrf::ticks::{TickConversion, MAX_RTC_TICKS, MAX_TIMER_DURATION_NS};
use dot15d4::phy::{Ifs, OQpsk250KBit, Phy};
use dot15d4::radio::timer::RadioTimerError;
use dot15d4::time::{
    rtc_tick_period, timer_tick_period, NsDuration, NsInstant, SymbolsOQpsk250Duration,
};

#[test]
fn inv_symbol_rate() {
    let symbol_period: u64 = SymbolsOQpsk250Duration::from_ticks(1).to_micros();
    assert_eq!(symbol_period, 16);
}

#[test]
fn symbols_are_converted_to_nanoseconds() {
    assert_eq!(SymbolsOQpsk250Duration::from_ticks(40).convert().ticks(), 640_000);
    assert_eq!(SymbolsOQpsk250Duration::from_ticks(40).to_micros(), 640);
}

#[test]
fn durations() {
    let a = NsDuration::micros(3);
    let b = NsDuration::from_ticks(500);
    assert_eq!(a.ticks(), 3_000);
    assert_eq!(a.checked_add(b), Some(NsDuration::nanos(3_500)));
    assert_eq!(a.checked_sub(b), Some(NsDuration::nanos(2_500)));
    assert_eq!(b.checked_sub(a), None);
    assert_eq!(a.checked_add(NsDuration::from_ticks(u64::MAX)), None);
    assert_eq!(NsDuration::nanos(3_999).to_micros(), 3);
}

#[test]
fn instants() {
    let instant = NsInstant::from_ticks(10);
    let duration = NsDuration::from_ticks(15);
    assert_eq!(instant.checked_add_duration(duration), Some(NsInstant::from_ticks(25)));
    // The clock wraps around.
    assert_eq!(
        instant.checked_sub_duration(duration),
        Some(NsInstant::from_ticks(u64::MAX - 4))
    );
    assert_eq!(
        NsInstant::from_ticks(u64::MAX).checked_add_duration(duration),
        Some(NsInstant::from_ticks(14))
    );
    assert_eq!(
        NsInstant::from_ticks(25).checked_duration_since(instant),
        Some(duration)
    );
    assert_eq!(instant.checked_duration_since(NsInstant::from_ticks(25)), None);
    assert_eq!(instant.duration_since_epoch(), NsDuration::from_ticks(10));
    assert_eq!(NsInstant::from_ticks(1_000_000_005_123_999).to_micros_remainder(), 5_123);
}

#[test]
fn tick_periods() {
    assert_eq!(rtc_tick_period().ticks(), 30_517);
    assert_eq!(timer_tick_period().ticks(), 62);
    assert_eq!(NrfRadioSleepTimer::tick_period().ticks(), 30_517);
    assert_eq!(NrfRadioHighPrecisionTimer::tick_period().ticks(), 62);
    assert_eq!(NrfRadioSleepTimer::guard_time().to_micros(), 150);
}

#[test]
fn phy_timing() {
    assert_eq!(OQpsk250KBit::t_shr().to_micros(), 160);
    assert_eq!(OQpsk250KBit::t_phr().to_micros(), 32);
    assert_eq!(Phy::<OQpsk250KBit>::max_packet_size(), 127);
    assert_eq!(Phy::<OQpsk250KBit>::cca_duration().to_micros(), 128);
    assert_eq!(Phy::<OQpsk250KBit>::unit_backoff_period().to_micros(), 320);
    assert_eq!(Phy::<OQpsk250KBit>::fcs_length(), 2);
}

#[test]
fn interframe_spacing() {
    let sifs = Ifs::<Phy<OQpsk250KBit>>::from_mpdu_length(18);
    assert_eq!(sifs.into_local_clock_duration().to_micros(), 192);
    let lifs = Ifs::<Phy<OQpsk250KBit>>::from_mpdu_length(19);
    assert_eq!(lifs.into_local_clock_duration().to_micros(), 640);
    let aifs: NsDuration = Ifs::<Phy<OQpsk250KBit>>::ack().into();
    assert_eq!(aifs.to_micros(), 192);
}

#[test]
fn tick_conversion_covers_the_whole_range() {
    let max_rtc_tick = TickConversion::instant_to_rtc_tick(NsInstant::from_ticks(u64::MAX));
    assert_eq!(max_rtc_tick, MAX_RTC_TICKS);
    let rtc_tick_ns = TickConversion::rtc_tick_to_instant(max_rtc_tick).ticks();
    assert_eq!(rtc_tick_ns, u64::MAX - 17924);

    let timer_ticks = TickConversion::duration_to_timer_ticks(NsDuration::from_ticks(17924));
    assert_eq!(timer_ticks, 286);
    let timer_ticks_ns = TickConversion::timer_ticks_to_duration(timer_ticks).ticks();
    assert_eq!(u64::MAX - rtc_tick_ns - timer_ticks_ns, 49);

    let max_timer_ticks =
        TickConversion::duration_to_timer_ticks(NsDuration::from_ticks(MAX_TIMER_DURATION_NS));
    assert_eq!(max_timer_ticks, 536_870_912 - 1);
    assert_eq!(
        TickConversion::duration_to_timer_ticks(NsDuration::from_ticks(875)),
        13
    );
}

#[test]
fn rtc_ticks_round_trip() {
    for tick in [0, 1, 63, 64, 65, 1_000_000, MAX_RTC_TICKS] {
        let instant = TickConversion::rtc_tick_to_instant(tick);
        let back = TickConversion::instant_to_rtc_tick(instant);
        assert!(back == tick || back + 1 == tick);
    }
}

#[test]
fn high_precision_timer_starts_in_time() {
    let at = NsInstant::from_ticks(5_000_000_000);
    let tick = NrfRadioSleepTimer::high_precision_start_tick(at);
    assert_eq!(tick, 163_839);
    let timer = NrfRadioHighPrecisionTimer::started_at(tick);
    assert!(timer.is_within_range(at));
    assert!(at.ticks() - timer.epoch.ticks() >= 126);
    let ticks = timer.signal_ticks(at).unwrap();
    // An event that is captured with the signal is observed close to it.
    let observed = timer.observed_instant(ticks + 1).unwrap();
    assert!(observed.ticks() <= at.ticks());
    assert!(at.ticks() - observed.ticks() <= 188);
}

#[test]
fn signal_right_after_the_epoch_is_overdue() {
    let timer = NrfRadioHighPrecisionTimer { epoch: NsInstant::from_ticks(1_000) };
    let instant = NsInstant::from_ticks(1_063);
    assert!(timer.is_within_range(instant));
    assert_eq!(timer.signal_ticks(instant), Err(RadioTimerError::Overdue(instant)));
    assert!(!timer.is_within_range(NsInstant::from_ticks(1_000)));
    assert!(!timer.is_within_range(NsInstant::from_ticks(1_010)));
    assert_eq!(timer.observed_instant(0), None);
    assert_eq!(timer.observed_instant(1), Some(NsInstant::from_ticks(1_000)));
    assert_eq!(timer.observed_instant(3), Some(NsInstant::from_ticks(1_125)));
}

#[test]
fn sleep_timer_now() {
    assert_eq!(NrfRadioSleepTimer::now(0, 32_768).ticks(), 1_000_000_000);
    // A half period has ended after the number of half periods was read.
    assert_eq!(NrfRadioSleepTimer::now(0, 0x80_0000).ticks(), 256_000_000_000);
    assert_eq!(NrfRadioSleepTimer::now(1, 0x80_0000).ticks(), 256_000_000_000);
    assert_eq!(NrfRadioSleepTimer::now(1, 0).ticks(), 512_000_000_000);
}
