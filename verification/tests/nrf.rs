//! Decisions of the driver for the nRF52840.

use dot15d4::frame::driver_config::RadioFrameUnsized;
use dot15d4::frame::incoming::{is_frame_valid_and_for, is_frame_valid_and_for_us};
use dot15d4::frame::radio_frame::RadioFrame;
use dot15d4::nrf::clock::{LfClockSource, LfOscillator};
use dot15d4::nrf::entry::{after_cca, complete_rx, EnteredTask, EntryWait};
use dot15d4::nrf::executor::{ExecutorState, InterruptStep, SpawnPoll};
use dot15d4::nrf::frame_info::{
    after_destination, after_frame_control, frame_info, FrameInfoStep, Reception,
};
use dot15d4::nrf::listening::{
    ListeningAction, ListeningEvent, ListeningOutcome, ListeningState, StopListening,
};
use dot15d4::nrf::ppi::{
    after_event_programmed, poll_signal, program_timed_signal, safely_schedule_signal,
    signal_interrupt_mask, EventChannel, EventUse, NrfRadioTimerTracingConfig,
    NrfRadioTracingConfig, PpiChannels, SignalPoll, SignalProgram,
};
use dot15d4::nrf::radio_config::{
    frequency_offset, ieee802154_address, prepare_tx_frame, received_frame, tx_power_value,
    NrfRadioDriver,
};
use dot15d4::nrf::radio_timing::{
    ifs_micros, timed_off, timed_rx_enable, timed_rx_off_and_tx_enable, timed_tx_enable,
};
use dot15d4::nrf::rtc::{
    rtc_enables_compare, rtc_find_sleep_alarm, rtc_increment_half_period, rtc_now_tick,
    rtc_poll_alarm, rtc_program_alarm, rtc_trigger_alarm, rtc_was_safely_scheduled, AlarmChannel,
    AlarmPoll, AlarmProgram, AlarmState, AlarmTrigger,
};
use dot15d4::nrf::schedule::{
    after_completion, must_disable, off_to_rx, off_to_tx, rx_to_off, rx_to_rx, rx_to_tx,
    shorts_after, shorts_on_completion, shorts_on_exit, tifs_after, tx_to_off, tx_to_rx, tx_to_tx,
    RadioFlags, RadioPhase, RadioTrigger, Shorts, TaskChange,
};
use dot15d4::nrf::setup::{radio_setup, timer_setup, CcaMode, InitializationState};
use dot15d4::phy::{Ifs, OQpsk250KBit, Phy};
use dot15d4::radio::tasks::{RxError, RxResult, SchedulingError, TxError};
use dot15d4::radio::timer::{HardwareEvent, HardwareSignal, RadioTimerError};
use dot15d4::time::NsInstant;

fn at(ticks: u64) -> NsInstant {
    NsInstant::from_ticks(ticks)
}

fn frame_with(pdu: &[u8]) -> RadioFrame<Vec<u8>, RadioFrameUnsized> {
    let mut buffer = vec![0u8; 128];
    buffer[..pdu.len()].copy_from_slice(pdu);
    RadioFrame::<_, RadioFrameUnsized>::new::<NrfRadioDriver>(buffer)
}

#[test]
fn channels_and_power() {
    assert_eq!(frequency_offset(11), 5);
    assert_eq!(frequency_offset(26), 80);
    assert_eq!(tx_power_value(8), Some(8));
    assert_eq!(tx_power_value(-40), Some(0xd8));
    assert_eq!(tx_power_value(1), None);
}

#[test]
fn device_address() {
    assert_eq!(
        ieee802154_address(0x0123_4567, 0x89ab_cdef),
        [0x01, 0x23, 0x45, 0x67, 0x89, 0xab, 0xcd, 0xef]
    );
}

#[test]
fn phy_header_round_trip() {
    let mut sent = frame_with(&[]).with_size(20);
    prepare_tx_frame(&mut sent);
    let buffer = sent.into_buffer();
    assert_eq!(buffer[0], 22);
    let received = received_frame(RadioFrame::<_, RadioFrameUnsized>::new::<NrfRadioDriver>(buffer));
    assert_eq!(received.sdu_wo_fcs_length(), 20);
}

#[test]
fn receptions_complete() {
    let frame = frame_with(&[12]);
    match complete_rx(frame, at(5), true, true, false) {
        Ok(RxResult::Frame(frame, started)) => {
            assert_eq!(frame.sdu_wo_fcs_length(), 10);
            assert_eq!(started, at(5));
        }
        _ => panic!("no frame"),
    }
    assert!(matches!(
        complete_rx(frame_with(&[12]), at(5), false, false, false),
        Ok(RxResult::CrcError(_, _))
    ));
    let repeated = complete_rx(frame_with(&[12]), at(5), false, true, false)
        .err()
        .unwrap();
    assert_eq!(repeated.error, RxError::CrcError);
    assert!(repeated.restart);
    let repeated = complete_rx(frame_with(&[12]), at(5), false, true, true)
        .err()
        .unwrap();
    assert!(!repeated.restart);
}

#[test]
fn tasks_are_entered() {
    let off = EnteredTask::Off;
    let rx = EnteredTask::Rx { back_to_back: false };
    let back_to_back = EnteredTask::Rx { back_to_back: true };
    let tx = EnteredTask::Tx { cca: false };
    let cca = EnteredTask::Tx { cca: true };
    assert_eq!(off.first_wait(), EntryWait::Disabled);
    assert_eq!(rx.first_wait(), EntryWait::RxReady);
    assert_eq!(back_to_back.first_wait(), EntryWait::FrameStart);
    assert_eq!(tx.first_wait(), EntryWait::FrameStart);
    assert_eq!(cca.first_wait(), EntryWait::ClearChannelAssessment);
    assert_eq!(rx.entry_event(), HardwareEvent::RadioRxEnabled);
    assert_eq!(cca.entry_event(), HardwareEvent::RadioFrameStarted);
    assert_eq!(off.entry_event(), HardwareEvent::RadioDisabled);

    let event = Some(at(1_000_000));
    assert_eq!(off.measured_entry(event, None), Ok(at(1_000_000)));
    assert_eq!(rx.measured_entry(event, None), Ok(at(1_160_000)));
    assert_eq!(back_to_back.measured_entry(event, None), Ok(at(968_000)));
    assert_eq!(tx.measured_entry(event, None), Ok(at(987_910)));
    assert_eq!(
        tx.measured_entry(None, Some(at(3))),
        Err(SchedulingError { instant: Some(at(3)) })
    );
    assert!(tx.stops_timer());
    assert!(!rx.stops_timer());
    assert_eq!(back_to_back.known_frame_start(at(8)), Some(at(8)));
    assert_eq!(rx.known_frame_start(at(8)), None);
}

#[test]
fn busy_channel_gives_the_frame_back() {
    let frame = frame_with(&[]).with_size(7);
    let (wait, frame) = after_cca(false, frame).unwrap();
    assert_eq!(wait, EntryWait::FrameStart);
    match after_cca(true, frame) {
        Err(TxError::CcaBusy(frame)) => assert_eq!(frame.sdu_wo_fcs_length(), 7),
        _ => panic!("not busy"),
    }
}

#[test]
fn signals_are_timed() {
    let rx = timed_rx_enable(at(10_000_000));
    assert_eq!(rx.signal, HardwareSignal::RadioRxEnable);
    assert!(rx.instant.ticks() < 10_000_000);
    let tx = timed_tx_enable(at(10_000_000), false);
    assert_eq!(tx.signal, HardwareSignal::RadioTxEnable);
    let cca = timed_tx_enable(at(10_000_000), true);
    assert_eq!(cca.signal, HardwareSignal::RadioRxEnable);
    assert!(cca.instant.ticks() < tx.instant.ticks());
    assert_eq!(timed_off(at(10_000_000)).signal, HardwareSignal::RadioDisable);
    let (off, tx) = timed_rx_off_and_tx_enable(at(10_000_000), false, None);
    assert_eq!(off.signal, HardwareSignal::RadioDisable);
    assert!(off.instant.ticks() < tx.instant.ticks());
}

#[test]
fn interframe_space_register() {
    assert_eq!(ifs_micros(None, true), 0);
    assert_eq!(ifs_micros(Some(Ifs::<Phy<OQpsk250KBit>>::long()), false), 640);
    assert_eq!(ifs_micros(Some(Ifs::<Phy<OQpsk250KBit>>::short()), true), 191);
}

#[test]
fn transitions_are_programmed() {
    let plan = off_to_rx(None, Some(12));
    assert_eq!(plan.trigger, RadioTrigger::RxEnable);
    assert_eq!(plan.frequency, Some(10));
    assert!(plan.shorts.rxready_start);
    let plan = off_to_rx(Some(at(10_000_000)), None);
    assert_eq!(plan.trigger, RadioTrigger::Nothing);
    assert_eq!(plan.signal, Some(timed_rx_enable(at(10_000_000))));

    let plan = off_to_tx(None, true, None);
    assert!(plan.shorts.rxready_ccastart && plan.shorts.ccaidle_txen);
    assert_eq!(plan.trigger, RadioTrigger::RxEnable);
    let plan = off_to_tx(None, false, None);
    assert_eq!(plan.trigger, RadioTrigger::TxEnable);

    assert!(rx_to_rx(None).shorts.end_start);
    let ifs = Ifs::<Phy<OQpsk250KBit>>::short();
    assert!(rx_to_rx(Some(ifs)).shorts.end_disable);
    assert!(rx_to_tx(None, false, Some(ifs)).shorts.txready_start);
    assert!(rx_to_off(None).shorts.end_disable);
    assert!(tx_to_rx(ifs).shorts.disabled_rxen);
    assert!(tx_to_tx(false, ifs).shorts.disabled_txen);
    assert!(tx_to_off().observe_disabled);
}

#[test]
fn late_shortcuts_are_made_up_for() {
    let flags = RadioFlags { phase: RadioPhase::RxIdle, frame_started: false, frame_ended: true };
    assert_eq!(after_completion(TaskChange::RxToRx, flags, true), RadioTrigger::Start);
    assert_eq!(after_completion(TaskChange::RxToRx, flags, false), RadioTrigger::Disable);
    assert_eq!(after_completion(TaskChange::RxToOff, flags, false), RadioTrigger::Disable);
    let flags = RadioFlags { phase: RadioPhase::RxDisable, ..flags };
    assert_eq!(after_completion(TaskChange::RxToOff, flags, false), RadioTrigger::Nothing);
    assert!(shorts_on_completion(TaskChange::TxToRx, Shorts::none()).framestart_bcstart);
    assert_eq!(shorts_on_completion(TaskChange::TxToTx, Shorts::none()), Shorts::none());
    let mut receiving = Shorts::none();
    receiving.framestart_bcstart = true;
    assert_eq!(shorts_on_exit(TaskChange::RxToTx, receiving), Shorts::none());
    assert_eq!(shorts_on_exit(TaskChange::RxToRx, receiving), receiving);
    assert_eq!(tifs_after(TaskChange::RxToTx), Some(0));
    assert_eq!(tifs_after(TaskChange::RxToOff), None);
    assert!(shorts_after(TaskChange::TxToRx, Shorts::none()).framestart_bcstart);
    assert_eq!(shorts_after(TaskChange::TxToOff, Shorts::none()), Shorts::none());
    assert!(must_disable(RadioPhase::Tx));
    assert!(!must_disable(RadioPhase::TxDisable));
}

#[test]
fn listening_ends_with_a_frame() {
    let listening = StopListening::new(None, Some(at(50_000_000)));
    assert_eq!(listening.action(), ListeningAction::ObserveDisabled);
    let listening = listening.step(ListeningEvent::ObservedDisabled(Ok(())));
    assert!(matches!(
        listening.action(),
        ListeningAction::ScheduleUnlessFrameStarted(_)
    ));
    let listening = listening.step(ListeningEvent::Scheduled {
        result: Ok(()),
        frame_started: false,
    });
    assert_eq!(listening.action(), ListeningAction::AwaitFrameStartOrDisabled);
    let listening = listening.step(ListeningEvent::Awaited { disabled: false });
    assert_eq!(
        listening.action(),
        ListeningAction::CollectFrameStart { clear_event: false }
    );
    let listening = listening.step(ListeningEvent::FrameStart(at(40_000_000)));
    assert_eq!(listening.action(), ListeningAction::Finish);
    assert_eq!(
        listening.state,
        ListeningState::Done(ListeningOutcome::FrameStarted(at(40_000_000)))
    );
}

#[test]
fn listening_ends_without_a_frame() {
    let listening = StopListening::new(None, None)
        .step(ListeningEvent::ObservedDisabled(Ok(())));
    assert_eq!(listening.action(), ListeningAction::Disable);
    let listening = listening.step(ListeningEvent::Disabled);
    assert_eq!(
        listening.state,
        ListeningState::Done(ListeningOutcome::RxWindowEnded { scheduled_off: None })
    );
    let listening = StopListening::new(None, None)
        .step(ListeningEvent::ObservedDisabled(Err(RadioTimerError::Busy)));
    assert_eq!(
        listening.state,
        ListeningState::Done(ListeningOutcome::Failed(SchedulingError { instant: None }))
    );
    let listening = StopListening::new(Some(at(3)), None);
    assert_eq!(
        listening.state,
        ListeningState::Done(ListeningOutcome::FrameStarted(at(3)))
    );
}

#[test]
fn frame_info_is_gained_step_by_step() {
    // A data frame of 2006 with a sequence number and short addresses in one PAN.
    let pdu = [11, 0x41, 0x98, 7, 0xed, 0xfe, 0xff, 0xff, 0x78, 0x56];
    let frame = frame_with(&pdu);
    let plan = match after_frame_control(&frame, Reception::Matched) {
        FrameInfoStep::Await(plan, bits) => {
            assert_eq!(bits, 8 * (2 + 1 + 4));
            plan
        }
        _ => panic!("no plan"),
    };
    let info = frame_info(&frame, after_destination(plan, Reception::Matched));
    assert_eq!(info.mpdu_length, 11);
    assert_eq!(info.seq_nr, Some(7));
    let addressing = info.addressing_fields.as_ref().unwrap();
    assert_eq!(addressing.dst_pan_id().unwrap().as_ref(), &[0xed, 0xfe]);
    assert!(addressing.dst_address().unwrap().is_broadcast());
    assert!(is_frame_valid_and_for_us(&[1, 2, 3, 4, 5, 6, 7, 8], &info));
    assert!(!is_frame_valid_and_for(&[1, 2, 3, 4, 5, 6, 7, 8], &[1, 1], false, &info));
}

#[test]
fn corrupt_frames_give_no_info() {
    let frame = frame_with(&[5, 0x02, 0x10, 7]);
    let step = after_frame_control(&frame, Reception::Ended { crc_error: true });
    assert!(matches!(step, FrameInfoStep::NoInfo));
    let info = frame_info(&frame, step);
    assert_eq!(info.mpdu_length, 0);
    assert!(!is_frame_valid_and_for_us(&[0; 8], &info));
    // An enhanced acknowledgment without sequence number and addresses.
    let frame = frame_with(&[5, 0x02, 0x21]);
    let step = after_frame_control(&frame, Reception::Ended { crc_error: false });
    assert!(matches!(step, FrameInfoStep::ControlOnly(_)));
}

#[test]
fn frames_for_another_device_are_rejected() {
    let pdu = [11, 0x41, 0x98, 7, 0xed, 0xfe, 0x08, 0x07, 0x78, 0x56];
    let frame = frame_with(&pdu);
    let step = after_frame_control(&frame, Reception::Ended { crc_error: false });
    let info = frame_info(&frame, step);
    assert!(is_frame_valid_and_for_us(&[1, 2, 3, 4, 5, 6, 7, 8], &info));
    assert!(!is_frame_valid_and_for_us(&[1, 2, 3, 4, 5, 6, 7, 9], &info));
}

#[test]
fn rtc_tick_is_free_of_races() {
    for tick in [0u64, 1, 0x7f_ffff, 0x80_0000, 0xff_ffff, 0x100_0000, 0x17f_ffff, 0x180_0000] {
        let counter = (tick % 0x100_0000) as u32;
        let half_period = (tick / 0x80_0000) as u32;
        assert_eq!(rtc_now_tick(half_period, counter), tick);
        if half_period > 0 {
            assert_eq!(rtc_now_tick(half_period - 1, counter), tick);
        }
    }
    assert_eq!(rtc_increment_half_period(4), 5);
}

#[test]
fn alarms_are_armed_and_fire() {
    let state = AlarmState::Unused.try_acquire().unwrap();
    assert_eq!(state, AlarmState::Pending);
    assert_eq!(state.try_acquire(), Err(RadioTimerError::Busy));
    assert_eq!(rtc_poll_alarm(state), AlarmPoll::Arm);

    let (fired, program) = rtc_program_alarm(state, 102, 100);
    assert_eq!((fired, program), (AlarmState::Fired, AlarmProgram::Overdue));
    assert_eq!(rtc_poll_alarm(fired), AlarmPoll::Complete);
    assert_eq!(fired.release(), AlarmState::Unused);

    let (active, program) = rtc_program_alarm(state, 0x100_0103, 0xff_ff00);
    assert_eq!(active, AlarmState::Active);
    assert_eq!(program, AlarmProgram::Armed { compare: 0x103, imminent: true });
    assert!(active.is_owned_by_interrupt());
    assert_eq!(rtc_poll_alarm(active), AlarmPoll::Wait);
    assert!(rtc_was_safely_scheduled(0x100_0103, 0x100_0101));
    assert!(!rtc_was_safely_scheduled(0x100_0103, 0x100_0102));

    assert_eq!(
        rtc_trigger_alarm(active, 0x100_0102, 0x100_0103, true),
        (AlarmState::Active, AlarmTrigger::ResetEvent)
    );
    assert_eq!(
        rtc_trigger_alarm(active, 0x100_0103, 0x100_0103, true),
        (AlarmState::Fired, AlarmTrigger::Wake)
    );
    assert_eq!(
        rtc_trigger_alarm(active, 0x100_0103, 0x100_0103, false),
        (AlarmState::Unused, AlarmTrigger::Release)
    );
    assert_eq!(
        rtc_trigger_alarm(state, 0x100_0103, 0x100_0103, true),
        (AlarmState::Pending, AlarmTrigger::Ignore)
    );
}

#[test]
fn far_alarms_are_enabled_later() {
    let (state, program) = rtc_program_alarm(AlarmState::Pending, 0x200_0000, 100);
    assert_eq!(program, AlarmProgram::Armed { compare: 0, imminent: false });
    assert!(!rtc_enables_compare(state, 0x200_0000, 1));
    assert!(!rtc_enables_compare(state, 0x200_0000, 2));
    assert!(rtc_enables_compare(state, 0x200_0000, 3));
    assert!(!rtc_enables_compare(AlarmState::Pending, 0x200_0000, 3));
}

#[test]
fn sleep_alarms_are_shared() {
    let unused = AlarmState::Unused;
    let active = AlarmState::Active;
    assert_eq!(rtc_find_sleep_alarm(unused, unused), Ok(AlarmChannel::SleepTimer1));
    assert_eq!(rtc_find_sleep_alarm(active, unused), Ok(AlarmChannel::SleepTimer2));
    assert_eq!(rtc_find_sleep_alarm(active, active), Err(RadioTimerError::Busy));
    assert_eq!(AlarmChannel::SleepTimer2.index(), 2);
}

#[test]
fn bus_channels_are_assigned() {
    let channels = PpiChannels { ppi_channel1: 3, ppi_channel2: 4, ppi_channel_group: 0 };
    let setup = timer_setup(&channels).unwrap();
    assert_eq!(setup.ppi_channel_mask, 0x8070_0018);
    assert_eq!(setup.overflow_shorts, 1 << 11);
    assert_eq!(setup.half_period_compare, 0x80_0000);
    assert_eq!(channels.ppi_event_channel(HardwareEvent::RadioFrameStarted), 4);
    assert_eq!(PpiChannels::timer_event_channel(HardwareEvent::RadioDisabled), 0);
    assert_eq!(
        PpiChannels::timer_signal_channels(HardwareSignal::RadioDisable),
        (22, 1)
    );
    assert_eq!(signal_interrupt_mask(HardwareSignal::RadioDisable), 0x2_0000);

    let invalid = PpiChannels { ppi_channel2: 3, ..channels };
    assert_eq!(timer_setup(&invalid), None);
    let invalid = PpiChannels { ppi_channel_group: 6, ..channels };
    assert!(!invalid.is_valid());

    let tracing = NrfRadioTimerTracingConfig {
        gpiote_out_channel: 0,
        gpiote_in_channel: 1,
        gpiote_tick_channel: 2,
        ppi_tick_channel: 5,
    };
    assert!(tracing.is_valid(&channels));
    assert!(!NrfRadioTimerTracingConfig { ppi_tick_channel: 3, ..tracing }.is_valid(&channels));
    let tracing = NrfRadioTracingConfig {
        gpiote_frame_channel: 0,
        gpiote_trx_channel: 1,
        ppi_framestart_channel: 6,
        ppi_frameend_channel: 7,
        ppi_trxstart_channel: 8,
        ppi_trxend_channel: 9,
    };
    assert_eq!(tracing.channel_mask(), 0x3c0);
}

#[test]
fn signals_are_programmed() {
    let started = Some(HardwareEvent::RadioFrameStarted);
    assert_eq!(program_timed_signal(true, 5, None, false), Ok(SignalProgram::ReuseChannel));
    assert_eq!(program_timed_signal(false, 0, None, false), Ok(SignalProgram::EnableChannel));
    assert_eq!(
        program_timed_signal(false, 5, started, true),
        Err(RadioTimerError::Already)
    );
    assert_eq!(program_timed_signal(false, 5, started, false), Err(RadioTimerError::Busy));
    assert_eq!(program_timed_signal(false, 5, None, true), Err(RadioTimerError::Busy));

    assert_eq!(safely_schedule_signal(at(1), 10, 9, false), Ok(()));
    assert_eq!(safely_schedule_signal(at(1), 10, 10, true), Ok(()));
    assert_eq!(
        safely_schedule_signal(at(1), 10, 10, false),
        Err(RadioTimerError::Overdue(at(1)))
    );
    assert_eq!(poll_signal(true, 0), SignalPoll::Complete);
    assert_eq!(poll_signal(false, 1), SignalPoll::Wait);
    assert_eq!(poll_signal(false, 0), SignalPoll::EnableInterrupt);
}

#[test]
fn events_are_programmed_in_any_order() {
    let event = HardwareEvent::RadioFrameStarted;
    let unused = EventChannel {
        enabled: false,
        event: None,
        captures: true,
        disables: true,
        group_busy: false,
    };
    let a = unused
        .program_event(event, EventUse::Observes)
        .unwrap()
        .program_event(event, EventUse::DisablesSignal)
        .unwrap();
    let b = unused
        .program_event(event, EventUse::DisablesSignal)
        .unwrap()
        .program_event(event, EventUse::Observes)
        .unwrap();
    assert_eq!(a, b);
    assert!(a.captures && a.disables && a.group_busy);
    // Observing an event again changes nothing.
    assert!(a.is_observing(event));
    assert_eq!(a.program_event(event, EventUse::Observes), Ok(a));
    assert_eq!(
        a.program_event(event, EventUse::DisablesSignal),
        Err(RadioTimerError::Busy)
    );

    let observing = unused.program_event(event, EventUse::Observes).unwrap();
    assert!(!observing.disables);
    assert_eq!(
        observing.program_event(HardwareEvent::RadioDisabled, EventUse::DisablesSignal),
        Err(RadioTimerError::Busy)
    );
    assert_eq!(after_event_programmed(EventUse::DisablesSignal, false, true), Ok(true));
    assert_eq!(after_event_programmed(EventUse::Observes, false, false), Ok(false));
    assert_eq!(after_event_programmed(EventUse::Observes, true, true), Ok(false));
    assert_eq!(
        after_event_programmed(EventUse::Observes, false, true),
        Err(RadioTimerError::Already)
    );
}

#[test]
fn executor_hands_tasks_over() {
    let mut state = ExecutorState::new();
    assert_eq!(state.interrupt(true), InterruptStep::Missed);
    assert_eq!(state.poll(), SpawnPoll::Start);
    assert_eq!(state.poll(), SpawnPoll::Wait);
    assert_eq!(state.interrupt(false), InterruptStep::Pending);
    assert_eq!(state.interrupt(true), InterruptStep::Finished { wakes: true });
    assert_eq!(state.poll(), SpawnPoll::Complete);
    assert_eq!(state, ExecutorState::new());

    state.block_on();
    assert!(!state.is_finished());
    assert_eq!(state.interrupt(true), InterruptStep::Finished { wakes: false });
    assert!(state.is_finished());

    state.poll();
    state.cancel();
    assert_eq!(state, ExecutorState::new());
}

#[test]
fn clock_sources() {
    let settings = LfClockSource::External.settings();
    assert_eq!(settings.oscillator, LfOscillator::Xtal);
    assert!(settings.external && settings.bypass);
    let settings = LfClockSource::Synth.settings();
    assert_eq!(settings.oscillator, LfOscillator::Synth);
    assert!(!settings.external && !settings.bypass);
}

#[test]
fn initial_settings() {
    let setup = radio_setup();
    assert_eq!(setup.max_length, 127);
    assert_eq!(setup.sfd, 0xa7);
    assert_eq!(setup.frequency, 10);
    assert_eq!(setup.cca, CcaMode::CarrierSense);
    let state = InitializationState::Uninitialized.begin().unwrap();
    assert_eq!(state.begin(), None);
    assert!(!state.is_initialized());
    assert!(InitializationState::Initialized.is_initialized());
}
