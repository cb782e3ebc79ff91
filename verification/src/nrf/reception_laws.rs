//! What listening, entering a task and reading a frame while it is received are
//! for.
//!
//! The laws speak of calls: each relates the arguments and the results of one or
//! more functions.

use vstd::prelude::*;

use crate::frame::control_laws::lemma_word_bits;
use crate::frame::driver_config::{RadioFrameSized, RadioFrameUnsized};
use crate::frame::addressing_repr::{lemma_announced, AddressingRepr};
use crate::frame::frame_control::{FrameControl, FrameVersion};
use crate::frame::incoming::PreliminaryFrameInfo;
use crate::frame::radio_frame::RadioFrame;
use crate::nrf::entry::{after_cca, complete_rx, EnteredTask, EntryWait, RepeatedRx};
use crate::nrf::frame_info::{
    after_destination, after_frame_control, frame_info, no_frame_info, FrameInfoPlan, FrameInfoStep,
    Reception,
};
use crate::nrf::listening::{
    ListeningAction, ListeningEvent, ListeningOutcome, ListeningState, StopListening,
};
use crate::nrf::radio_config::{
    frequency_offset, ieee802154_address, prepare_tx_frame, received_frame, rx_completion,
    tx_power_value, RxCompletion,
};
use crate::nrf::radio_timing::{
    ifs_micros, rx_entry, rx_window_end, rx_window_off_entry, t_backoff_period, t_rxdis, t_rxen,
    t_turnaround, t_txen, timed_off, timed_rx_enable, timed_rx_off_and_tx_enable, timed_tx_enable,
    tx_entry,
};
use crate::nrf::schedule::{off_to_rx, off_to_tx, SchedulePlan};
use crate::nrf::schedule_laws::elapsed;
use crate::octets::{Octets, OctetsMut};
use crate::phy::{Ifs, OQpsk250KBit, Phy};
use crate::radio::tasks::{RxError, RxResult, SchedulingError, TxError};
use crate::radio::timer::{HardwareEvent, HardwareSignal, RadioTimerError, TimedSignal};
use crate::time::{NsDuration, NsInstant};
use crate::Error;

verus! {

/// Whenever a signal is scheduled to end listening, it disables the radio: 32_000
/// ns behind the latest allowed start of a frame, which is how long it takes until
/// the start of a frame is noticed.
pub proof fn lemma_listening_ends_by_disabling(
    listening: StopListening,
    latest: NsInstant,
    action: ListeningAction,
    signal: TimedSignal,
)
    requires
        listening.latest_frame_start == Some(latest),
        call_ensures(StopListening::action, (&listening,), action),
        action == ListeningAction::ScheduleUnlessFrameStarted(signal),
    ensures
        signal.signal == HardwareSignal::RadioDisable,
        elapsed(latest, signal.instant) == 32_000,
{
}

/// What has to be done tells how far listening has come to its end.
pub proof fn lemma_listening_action(listening: StopListening, action: ListeningAction)
    requires
        call_ensures(StopListening::action, (&listening,), action),
    ensures
        listening.state == ListeningState::Observing <==> action
            == ListeningAction::ObserveDisabled,
        listening.state == ListeningState::Scheduling <==> action is ScheduleUnlessFrameStarted,
        listening.state == ListeningState::Awaiting <==> action
            == ListeningAction::AwaitFrameStartOrDisabled,
        listening.state == ListeningState::Disabling <==> action == ListeningAction::Disable,
        action matches ListeningAction::CollectFrameStart { clear_event } ==> listening.state == (
        ListeningState::Collecting { clear_event }),
        listening.state is Done <==> action == ListeningAction::Finish,
{
}

/// The radio is first told to observe when it is disabled, unless a frame has
/// started already.
pub proof fn lemma_listening_starts(
    started: Option<NsInstant>,
    latest: Option<NsInstant>,
    listening: StopListening,
    action: ListeningAction,
)
    requires
        call_ensures(StopListening::new, (started, latest), listening),
        call_ensures(StopListening::action, (&listening,), action),
    ensures
        listening.latest_frame_start == latest,
        started is None ==> action == ListeningAction::ObserveDisabled,
        started matches Some(rmarker) ==> action == ListeningAction::Finish && listening.state
            == ListeningState::Done(ListeningOutcome::FrameStarted(rmarker)),
{
}

/// Each report leads to what has to be done next. The radio is only found to be
/// off once it has been disabled, and a frame is only found to be received once its
/// start has been collected. With a latest allowed frame start, the radio is
/// expected to be off 32_190 ns behind it.
pub proof fn lemma_listening_goes_on(
    listening: StopListening,
    event: ListeningEvent,
    next: StopListening,
    action: ListeningAction,
)
    requires
        call_ensures(StopListening::step, (listening, event), next),
        call_ensures(StopListening::action, (&next,), action),
    ensures
        next.latest_frame_start == listening.latest_frame_start,
        event matches ListeningEvent::ObservedDisabled(Ok(_)) ==> {
            &&& listening.latest_frame_start is Some ==> action is ScheduleUnlessFrameStarted
            &&& listening.latest_frame_start is None ==> action == ListeningAction::Disable
        },
        event matches ListeningEvent::Scheduled { result: Ok(_), .. } ==> action
            == ListeningAction::AwaitFrameStartOrDisabled,
        event matches ListeningEvent::Scheduled { result: Err(RadioTimerError::Already), .. }
            ==> action == (ListeningAction::CollectFrameStart { clear_event: true }),
        event matches ListeningEvent::Scheduled {
            result: Err(RadioTimerError::Overdue(_)),
            frame_started,
        } ==> action == (if frame_started {
            ListeningAction::CollectFrameStart { clear_event: false }
        } else {
            ListeningAction::Disable
        }),
        event matches ListeningEvent::Scheduled { result: Err(RadioTimerError::Busy), .. }
            ==> next.state == ListeningState::Done(
            ListeningOutcome::Failed(SchedulingError { instant: None }),
        ),
        event matches ListeningEvent::ObservedDisabled(Err(error)) ==> next.state
            == ListeningState::Done(
            ListeningOutcome::Failed(
                SchedulingError {
                    instant: if let RadioTimerError::Overdue(instant) = error {
                        Some(instant)
                    } else {
                        None
                    },
                },
            ),
        ),
        event matches ListeningEvent::Awaited { disabled: false } ==> action == (
        ListeningAction::CollectFrameStart { clear_event: false }),
        event matches ListeningEvent::FrameStart(rmarker) ==> next.state == ListeningState::Done(
            ListeningOutcome::FrameStarted(rmarker),
        ),
        (event matches ListeningEvent::Awaited { disabled: true }) || event is Disabled ==> {
            &&& next.state matches ListeningState::Done(ListeningOutcome::RxWindowEnded {
                scheduled_off,
            })
            &&& scheduled_off is Some <==> listening.latest_frame_start is Some
            &&& scheduled_off matches Some(off) ==> elapsed(
                listening.latest_frame_start->0,
                off,
            ) == 32_000 + 500 - 310
        },
        next.state matches ListeningState::Done(ListeningOutcome::RxWindowEnded { .. }) ==> (
        event matches ListeningEvent::Awaited { disabled: true }) || event is Disabled,
        next.state matches ListeningState::Done(ListeningOutcome::FrameStarted(_))
            ==> event is FrameStart,
{
}

/// The times that the radio takes: both ramp ups take as long, a turnaround takes
/// a little longer, and a backoff period is an assessment and a turnaround.
pub proof fn lemma_radio_times(
    txen: NsDuration,
    rxen: NsDuration,
    rxdis: NsDuration,
    turnaround: NsDuration,
    backoff: NsDuration,
    assessment: NsDuration,
)
    requires
        call_ensures(t_txen, (), txen),
        call_ensures(t_rxen, (), rxen),
        call_ensures(t_rxdis, (), rxdis),
        call_ensures(t_turnaround, (), turnaround),
        call_ensures(t_backoff_period, (), backoff),
        call_ensures(Phy::<OQpsk250KBit>::cca_duration, (), assessment),
    ensures
        txen.ticks == 130_000 - 10 * 62,
        rxen == txen,
        rxdis.ticks == 500,
        turnaround.ticks == 130_000 - 8 * 62,
        backoff.ticks == assessment.ticks + turnaround.ticks,
        assessment.ticks == 8 * 16_000,
{
}

/// A receiver that is enabled by the timed signal is ramped up just when the
/// synchronization header of a frame that starts at the given instant begins.
pub proof fn lemma_receiver_ready_for_frame(
    start: NsInstant,
    signal: TimedSignal,
    ramp_up: NsDuration,
    header: NsDuration,
)
    requires
        call_ensures(timed_rx_enable, (start,), signal),
        call_ensures(t_rxen, (), ramp_up),
        call_ensures(OQpsk250KBit::t_shr, (), header),
    ensures
        signal.signal == HardwareSignal::RadioRxEnable,
        elapsed(signal.instant, start) == ramp_up.ticks + header.ticks,
{
}

/// A radio that is enabled by the timed signal is ready just when the
/// synchronization header of the frame that is sent has to begin. If the channel
/// has to be clear, then the receiver is enabled a backoff period earlier.
pub proof fn lemma_transmitter_ready_for_frame(
    at: NsInstant,
    cca: bool,
    signal: TimedSignal,
    ramp_up: NsDuration,
    backoff: NsDuration,
    header: NsDuration,
)
    requires
        call_ensures(timed_tx_enable, (at, cca), signal),
        call_ensures(t_txen, (), ramp_up),
        call_ensures(t_backoff_period, (), backoff),
        call_ensures(OQpsk250KBit::t_shr, (), header),
    ensures
        signal.signal == (if cca {
            HardwareSignal::RadioRxEnable
        } else {
            HardwareSignal::RadioTxEnable
        }),
        elapsed(signal.instant, at) == ramp_up.ticks + header.ticks + (if cca {
            backoff.ticks as int
        } else {
            0
        }),
{
}

/// Before a frame is sent, the receiver is switched off by a signal of its own. With
/// an interframe space, this lies that space before the transmitter is ramped up.
/// Without one, there is just enough time to ramp down.
pub proof fn lemma_receiver_off_before_frame(
    at: NsInstant,
    cca: bool,
    ifs: Option<Ifs<Phy<OQpsk250KBit>>>,
    signals: (TimedSignal, TimedSignal),
    enable: TimedSignal,
    space: NsDuration,
    ramp_up: NsDuration,
    ramp_down: NsDuration,
)
    requires
        call_ensures(timed_rx_off_and_tx_enable, (at, cca, ifs), signals),
        call_ensures(timed_tx_enable, (at, cca), enable),
        ifs matches Some(ifs) ==> call_ensures(
            Ifs::<Phy<OQpsk250KBit>>::into_local_clock_duration,
            (ifs,),
            space,
        ),
        call_ensures(t_txen, (), ramp_up),
        call_ensures(t_rxdis, (), ramp_down),
    ensures
        signals.1 == enable,
        signals.0.signal == HardwareSignal::RadioDisable,
        ifs is Some ==> elapsed(signals.0.instant, enable.instant) + ramp_up.ticks == space.ticks,
        ifs is None ==> elapsed(signals.0.instant, enable.instant) == ramp_down.ticks,
{
}

/// The signal that switches the radio off does so at the given instant.
pub proof fn lemma_switched_off_in_time(at: NsInstant, signal: TimedSignal)
    requires
        call_ensures(timed_off, (at,), signal),
    ensures
        signal.instant == at && signal.signal == HardwareSignal::RadioDisable,
{
}

/// The receiver is disabled a PHY header behind the latest allowed frame start and
/// is then off as soon as it was measured to ramp down.
pub proof fn lemma_window_times(
    latest: NsInstant,
    end: NsInstant,
    off: NsInstant,
    header: NsDuration,
    ramp_down: NsDuration,
)
    requires
        call_ensures(rx_window_end, (latest,), end),
        call_ensures(rx_window_off_entry, (end,), off),
        call_ensures(OQpsk250KBit::t_phr, (), header),
        call_ensures(t_rxdis, (), ramp_down),
    ensures
        elapsed(latest, end) == header.ticks,
        elapsed(end, off) + 5 * 62 == ramp_down.ticks,
{
}

/// The entry of a reception is the earliest possible start of a frame, a
/// synchronization header behind the ready receiver, or the start of the frame
/// that was noticed a PHY header later. The entry of a transmission lies 195 timer
/// ticks before its start is noticed.
pub proof fn lemma_entry_times(
    timestamp: NsInstant,
    ready: NsInstant,
    noticed: NsInstant,
    sent: NsInstant,
)
    requires
        call_ensures(rx_entry, (timestamp, false), ready),
        call_ensures(rx_entry, (timestamp, true), noticed),
        call_ensures(tx_entry, (timestamp,), sent),
    ensures
        elapsed(timestamp, ready) == 10 * 16_000,
        elapsed(noticed, timestamp) == 2 * 16_000,
        elapsed(sent, timestamp) == 195 * 62,
{
}

/// The radio keeps an interframe space in microseconds. A receiver that is guarded
/// against clock drift is ready a microsecond earlier.
pub proof fn lemma_interframe_micros(
    ifs: Ifs<Phy<OQpsk250KBit>>,
    duration: NsDuration,
    exact: u16,
    guarded: u16,
    none: u16,
    none_guarded: u16,
)
    requires
        call_ensures(Ifs::<Phy<OQpsk250KBit>>::into_local_clock_duration, (ifs,), duration),
        call_ensures(ifs_micros, (Some(ifs), false), exact),
        call_ensures(ifs_micros, (Some(ifs), true), guarded),
        call_ensures(ifs_micros, (None, false), none),
        call_ensures(ifs_micros, (None, true), none_guarded),
    ensures
        1_000 * exact == duration.ticks,
        guarded + 1 == exact,
        none == 0 && none_guarded == 0,
{
}

/// A transmission that requires a clear channel waits for its assessment before
/// anything else. Then, as any transmission and any reception back to back, it waits
/// for the start of a frame. Other receptions wait for the receiver and the off
/// state waits for the radio to be disabled.
pub proof fn lemma_entry_waits(task: EnteredTask, wait: EntryWait, event: HardwareEvent)
    requires
        call_ensures(EnteredTask::first_wait, (task,), wait),
        call_ensures(EnteredTask::entry_event, (task,), event),
    ensures
        task == EnteredTask::Off ==> wait == EntryWait::Disabled && event
            == HardwareEvent::RadioDisabled,
        task == (EnteredTask::Rx { back_to_back: false }) ==> wait == EntryWait::RxReady && event
            == HardwareEvent::RadioRxEnabled,
        task == (EnteredTask::Rx { back_to_back: true }) ==> wait == EntryWait::FrameStart && event
            == HardwareEvent::RadioFrameStarted,
        task == (EnteredTask::Tx { cca: false }) ==> wait == EntryWait::FrameStart && event
            == HardwareEvent::RadioFrameStarted,
        task == (EnteredTask::Tx { cca: true }) ==> wait == EntryWait::ClearChannelAssessment
            && event == HardwareEvent::RadioFrameStarted,
{
}

/// A busy channel gives the frame back. A clear one is followed by its start.
pub proof fn lemma_assessment_decides<Buffer>(
    busy: bool,
    frame: RadioFrame<Buffer, RadioFrameSized>,
    r: Result<(EntryWait, RadioFrame<Buffer, RadioFrameSized>), TxError<Buffer>>,
)
    requires
        call_ensures(after_cca::<Buffer>, (busy, frame), r),
    ensures
        r is Err <==> busy,
        r matches Err(TxError::CcaBusy(back)) ==> back == frame,
        r matches Ok((wait, sent)) ==> wait == EntryWait::FrameStart && sent == frame,
{
}

/// A reception whose receiver becomes ready as scheduled is measured to enter when
/// it was scheduled to.
pub proof fn lemma_reception_enters_as_scheduled(
    start: NsInstant,
    channel: Option<u8>,
    plan: SchedulePlan,
    ramp_up: NsDuration,
    ready: NsInstant,
    entry: Result<NsInstant, SchedulingError>,
)
    requires
        call_ensures(off_to_rx, (Some(start), channel), plan),
        call_ensures(t_rxen, (), ramp_up),
        elapsed(plan.signal->0.instant, ready) == ramp_up.ticks,
        call_ensures(
            EnteredTask::measured_entry,
            (EnteredTask::Rx { back_to_back: false }, Some(ready), plan.scheduled_entry),
            entry,
        ),
    ensures
        entry == Ok::<NsInstant, SchedulingError>(start),
{
}

/// A transmission whose start is noticed as long after its signal as the radio
/// takes, and 12_090 ns more, is measured to enter when it was scheduled to.
pub proof fn lemma_transmission_enters_as_scheduled(
    at: NsInstant,
    cca: bool,
    channel: Option<u8>,
    plan: SchedulePlan,
    noticed: NsInstant,
    entry: Result<NsInstant, SchedulingError>,
)
    requires
        call_ensures(off_to_tx, (Some(at), cca, channel), plan),
        elapsed(plan.signal->0.instant, noticed) == 129_380 + 160_000 + 12_090 + (if cca {
            257_504int
        } else {
            0
        }),
        call_ensures(
            EnteredTask::measured_entry,
            (EnteredTask::Tx { cca }, Some(noticed), plan.scheduled_entry),
            entry,
        ),
    ensures
        entry == Ok::<NsInstant, SchedulingError>(at),
{
}

/// The entry of each task lies as far from its event as the task requires. Without
/// an observed event, the task was not entered when it was scheduled.
pub proof fn lemma_measured_entry(
    task: EnteredTask,
    observed: Option<NsInstant>,
    scheduled: Option<NsInstant>,
    entry: Result<NsInstant, SchedulingError>,
)
    requires
        call_ensures(EnteredTask::measured_entry, (task, observed, scheduled), entry),
    ensures
        entry is Ok <==> observed is Some,
        entry matches Err(error) ==> error.instant == scheduled,
        entry matches Ok(entry) ==> {
            &&& task is Off ==> Some(entry) == observed
            &&& task == (EnteredTask::Rx { back_to_back: false }) ==> elapsed(observed->0, entry)
                == 160_000
            &&& task == (EnteredTask::Rx { back_to_back: true }) ==> elapsed(entry, observed->0)
                == 32_000
            &&& task is Tx ==> elapsed(entry, observed->0) == 12_090
        },
{
}

/// The timer goes on only for a reception. The start of a frame is only known on
/// entry if the reception is back to back to another one.
pub proof fn lemma_after_entry(
    task: EnteredTask,
    entry: NsInstant,
    stops: bool,
    start: Option<NsInstant>,
)
    requires
        call_ensures(EnteredTask::stops_timer, (task,), stops),
        call_ensures(EnteredTask::known_frame_start, (task, entry), start),
    ensures
        task is Rx ==> !stops,
        task is Off || task is Tx ==> stops,
        task is Off || task is Tx ==> start is None,
        task matches EnteredTask::Rx { back_to_back } ==> start == (if back_to_back {
            Some(entry)
        } else {
            None
        }),
{
}

/// While a frame is received, its fields are awaited up to the end of the
/// destination address. Counted in octets of the MPDU, these are
///
/// - two for the frame control field,
/// - one for the sequence number unless it is suppressed,
/// - two for the destination PAN ID if there is one,
/// - none, two or eight for an absent, short or extended destination address.
///
/// In frames of the older versions, the PAN ID comes with the address. Otherwise it
/// is omitted if only the source or none of both has an address, or if it is
/// compressed. If both addresses are present and one is short, then only the source
/// PAN ID is compressed. If both are absent, then it is there if it is compressed.
pub proof fn lemma_destination_awaited<Buffer: Octets>(
    frame: RadioFrame<Buffer, RadioFrameUnsized>,
    step: FrameInfoStep,
    plan: FrameInfoPlan,
    bits: u32,
)
    requires
        frame.has_frame_control(),
        frame.sdu_start() >= 0,
        call_ensures(after_frame_control::<Buffer>, (&frame, Reception::Matched), step),
        step == FrameInfoStep::Await(plan, bits),
        frame@[frame.sdu_start() + 1] as int / 4 % 4 != 1,
        frame@[frame.sdu_start() + 1] as int / 64 != 1,
    ensures
        ({
            let low = frame@[frame.sdu_start()] as int;
            let high = frame@[frame.sdu_start() + 1] as int;
            let compressed = low / 64 % 2 == 1;
            let suppressed = high % 2 == 1;
            let (dst, version, src) = (high / 4 % 4, high / 16 % 4, high / 64);
            let pan_id_present = if version < 2 {
                dst != 0
            } else if dst == 0 {
                src == 0 && compressed
            } else if src == 0 || (dst == 3 && src == 3) {
                !compressed
            } else {
                true
            };
            bits == 8 * (2 + (if suppressed {
                0int
            } else {
                1
            }) + (if pan_id_present {
                2int
            } else {
                0
            }) + (if dst == 3 {
                8int
            } else if dst == 2 {
                2
            } else {
                0
            }))
        }),
{
    lemma_word_bits(frame@[frame.sdu_start()], frame@[frame.sdu_start() + 1]);
}

/// Nothing is known of a frame that is corrupt, has an unknown version, or has an
/// older version and no address. Only the frame control field is of interest if
/// nothing else comes before the end of the destination. Otherwise that end is
/// awaited, unless the whole frame has been received.
pub proof fn lemma_frame_control_decides<Buffer: Octets>(
    frame: RadioFrame<Buffer, RadioFrameUnsized>,
    reception: Reception,
    step: FrameInfoStep,
)
    requires
        frame.has_frame_control(),
        frame.sdu_start() >= 0,
        call_ensures(after_frame_control::<Buffer>, (&frame, reception), step),
        frame@[frame.sdu_start() + 1] as int / 4 % 4 != 1,
        frame@[frame.sdu_start() + 1] as int / 64 != 1,
    ensures
        ({
            let low = frame@[frame.sdu_start()] as int;
            let high = frame@[frame.sdu_start() + 1] as int;
            let (dst, version, src) = (high / 4 % 4, high / 16 % 4, high / 64);
            let unknown = reception == (Reception::Ended { crc_error: true }) || version == 3 || (
            version < 2 && dst == 0 && src == 0);
            let nothing_else = high % 2 == 1 && dst == 0 && !(version == 2 && src == 0 && low / 64
                % 2 == 1);
            &&& step is NoInfo <==> unknown
            &&& step is ControlOnly <==> !unknown && nothing_else
            &&& step is Await <==> !unknown && !nothing_else && reception == Reception::Matched
            &&& step is Ready <==> !unknown && !nothing_else && reception != Reception::Matched
            &&& !unknown ==> step.plan().control()@ == frame@.subrange(
                frame.sdu_start(),
                frame.sdu_start() + 2,
            )
        }),
{
    lemma_word_bits(frame@[frame.sdu_start()], frame@[frame.sdu_start() + 1]);
}

/// Once the awaited bits have been received, the destination that is read from the
/// frame lies within them and ends where they end.
pub proof fn lemma_awaited_bits_hold_destination<Buffer: Octets>(
    frame: RadioFrame<Buffer, RadioFrameUnsized>,
    step: FrameInfoStep,
    plan: FrameInfoPlan,
    bits: u32,
    ready: FrameInfoStep,
    info: PreliminaryFrameInfo,
)
    requires
        call_ensures(after_frame_control::<Buffer>, (&frame, Reception::Matched), step),
        step == FrameInfoStep::Await(plan, bits),
        call_ensures(after_destination, (plan, Reception::Matched), ready),
        call_ensures(frame_info::<Buffer>, (&frame, ready), info),
    ensures
        info.addressing_fields matches Some(fields) && bits == 8 * (2 + (if info.seq_nr is Some {
            1int
        } else {
            0
        }) + fields.dst_pan_id_octets().len() + fields.dst_address_octets().len()),
{
}

/// The addressing fields of a frame that is being received are as long as the frame
/// control field announces.
pub proof fn lemma_received_addressing<Buffer: Octets>(
    frame: RadioFrame<Buffer, RadioFrameUnsized>,
    plan: FrameInfoPlan,
    info: PreliminaryFrameInfo,
    announced: Result<(FrameControl<[u8; 2]>, AddressingRepr), Error>,
    lengths: Result<[u8; 4], Error>,
)
    requires
        frame.control_fields().frame_version != FrameVersion::Unknown,
        call_ensures(
            RadioFrame::<Buffer, RadioFrameUnsized>::fc_and_addressing_repr,
            (&frame,),
            announced,
        ),
        announced is Ok ==> call_ensures(
            AddressingRepr::addressing_fields_lengths,
            (&(announced->Ok_0).1,),
            lengths,
        ),
        lengths is Ok,
        call_ensures(frame_info::<Buffer>, (&frame, FrameInfoStep::Ready(plan)), info),
    ensures
        announced matches Ok((fc, _)) && fc@ == frame@.subrange(
            frame.sdu_start(),
            frame.sdu_start() + 2,
        ),
        info.addressing_fields matches Some(fields) && ({
            let l = lengths->Ok_0@;
            &&& fields.offsets().dst_addr == l[0]
            &&& fields.offsets().src_pan_id == l[0] + l[1]
            &&& fields.offsets().src_addr == l[0] + l[1] + l[2]
            &&& fields.offsets().end == l[0] + l[1] + l[2] + l[3]
        }),
{
    lemma_announced((announced->Ok_0).1, frame.control_fields());
}

/// A corrupt frame is dropped once its end has been received.
pub proof fn lemma_corrupt_destination(
    plan: FrameInfoPlan,
    reception: Reception,
    step: FrameInfoStep,
)
    requires
        call_ensures(after_destination, (plan, reception), step),
    ensures
        step is NoInfo <==> reception == (Reception::Ended { crc_error: true }),
        step matches FrameInfoStep::Ready(kept) ==> kept == plan,
        step is NoInfo || step is Ready,
{
}

/// What is told of a frame is read from it: its length from the PHY header, and the
/// sequence number from behind the frame control field.
pub proof fn lemma_frame_info_read<Buffer: Octets>(
    frame: RadioFrame<Buffer, RadioFrameUnsized>,
    plan: FrameInfoPlan,
    ready: PreliminaryFrameInfo,
    control_only: PreliminaryFrameInfo,
    dropped: PreliminaryFrameInfo,
    nothing: PreliminaryFrameInfo,
)
    requires
        call_ensures(frame_info::<Buffer>, (&frame, FrameInfoStep::Ready(plan)), ready),
        call_ensures(
            frame_info::<Buffer>,
            (&frame, FrameInfoStep::ControlOnly(plan)),
            control_only,
        ),
        call_ensures(frame_info::<Buffer>, (&frame, FrameInfoStep::NoInfo), dropped),
        call_ensures(no_frame_info, (), nothing),
    ensures
        ready.mpdu_length == frame@[0] && control_only.mpdu_length == frame@[0],
        ready.frame_control == Some(plan.control()),
        control_only.frame_control == Some(plan.control()),
        ready.seq_nr matches Some(seq_nr) ==> seq_nr == frame@[3],
        ready.addressing_fields matches Some(fields) && fields@ == frame@.subrange(
            3 + (if ready.seq_nr is Some {
                1int
            } else {
                0
            }),
            frame@.len() as int,
        ),
        control_only.seq_nr is None && control_only.addressing_fields is None,
        dropped.mpdu_length == 0 && dropped.frame_control is None && dropped.seq_nr is None
            && dropped.addressing_fields is None,
        nothing.mpdu_length == 0 && nothing.frame_control is None && nothing.seq_nr is None
            && nothing.addressing_fields is None,
{
}

/// A frame that is sent is received with the same length: the PHY header tells the
/// length with the frame check sequence of two octets, and nothing else changes.
pub proof fn lemma_sent_frame_received<Buffer: OctetsMut>(
    frame: &mut RadioFrame<Buffer, RadioFrameSized>,
    unsized_frame: RadioFrame<Buffer, RadioFrameUnsized>,
    received: RadioFrame<Buffer, RadioFrameSized>,
)
    requires
        frame.wf(),
        frame@.len() > 0,
        frame.sdu_end_wo_fcs() - frame.sdu_start() <= 125,
        call_ensures(prepare_tx_frame::<Buffer>, (frame,), ()),
        unsized_frame.container() == final(frame).container(),
        unsized_frame.sdu_start() == frame.sdu_start(),
        call_ensures(received_frame::<Buffer>, (unsized_frame,), received),
    ensures
        final(frame)@[0] == old(frame).sdu_end_wo_fcs() - old(frame).sdu_start() + 2,
        forall|i: int| 0 < i < old(frame)@.len() ==> final(frame)@[i] == old(frame)@[i],
        final(frame)@.len() == old(frame)@.len(),
        final(frame).sdu_start() == old(frame).sdu_start(),
        final(frame).sdu_end_wo_fcs() == old(frame).sdu_end_wo_fcs(),
        final(frame).sdu_end() == old(frame).sdu_end(),
        received.container() == final(frame).container(),
        received.sdu_start() == old(frame).sdu_start(),
        received.sdu_end_wo_fcs() == old(frame).sdu_end_wo_fcs(),
        received.sdu_end() - received.sdu_end_wo_fcs() == unsized_frame.sdu_end()
            - unsized_frame.sdu_end_wo_fcs(),
{
}

/// A reception is repeated exactly if the frame is corrupt and that is asked for. A
/// valid frame has the length that its PHY header tells, without the frame check
/// sequence of two octets.
pub proof fn lemma_reception_completed<Buffer: Octets>(
    frame: RadioFrame<Buffer, RadioFrameUnsized>,
    at: NsInstant,
    crc_ok: bool,
    rollback: bool,
    back_to_back: bool,
    r: Result<RxResult<Buffer>, RepeatedRx<Buffer>>,
    completion: RxCompletion,
)
    requires
        call_ensures(complete_rx::<Buffer>, (frame, at, crc_ok, rollback, back_to_back), r),
        call_ensures(rx_completion, (crc_ok, rollback, back_to_back), completion),
    ensures
        crc_ok ==> completion is Frame && (r matches Ok(RxResult::Frame(received, start)) && start
            == at && received.container() == frame.container() && received.sdu_end_wo_fcs()
            - received.sdu_start() + 2 == frame@[0] && received.sdu_start() == frame.sdu_start()
            && received.sdu_end() - received.sdu_end_wo_fcs() == frame.sdu_end()
            - frame.sdu_end_wo_fcs()),
        !crc_ok && !rollback ==> completion is CrcError && (r matches Ok(
            RxResult::CrcError(back, start),
        ) && start == at && back == frame),
        !crc_ok && rollback ==> completion == (RxCompletion::Rollback { restart: !back_to_back })
            && (r matches Err(repeated) && repeated.radio_frame == frame && repeated.error
            == RxError::CrcError && repeated.restart == !back_to_back),
{
}

/// Each supported transmission power is a value of its own, from which it can be
/// told as a signed octet.
pub proof fn lemma_tx_power(power: i8, value: Option<u8>)
    requires
        call_ensures(tx_power_value, (power,), value),
    ensures
        value matches Some(value) ==> power == (if value < 0x80 {
            value as int
        } else {
            value - 0x100
        }),
        value is Some <==> (power == 8 || power == 7 || power == 6 || power == 5 || power == 4
            || power == 3 || power == 2 || power == 0 || power == -4 || power == -8 || power == -12
            || power == -16 || power == -20 || power == -40),
{
}

/// The offset of a channel is its distance from 2400 MHz.
pub proof fn lemma_frequency_offset(channel: u8, offset: u8)
    requires
        call_ensures(frequency_offset, (channel,), offset),
    ensures
        2400 + offset == 2405 + 5 * (channel - 11),
{
}

/// The address of a device consists of its two identifiers, the most significant
/// octet first, so that different devices have different addresses.
pub proof fn lemma_device_address(id1: u32, id2: u32, address: [u8; 8])
    requires
        call_ensures(ieee802154_address, (id1, id2), address),
    ensures
        id1 == ((address@[0] * 0x100 + address@[1]) * 0x100 + address@[2]) * 0x100 + address@[3],
        id2 == ((address@[4] * 0x100 + address@[5]) * 0x100 + address@[6]) * 0x100 + address@[7],
{
}

} // verus!
