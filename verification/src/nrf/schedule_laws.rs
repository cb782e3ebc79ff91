//! What the programming of the radio is for.
//!
//! The laws speak of calls: each relates the arguments and the results of one or
//! more functions.

use vstd::prelude::*;

use crate::nrf::schedule::{
    after_completion, must_disable, off_to_rx, off_to_tx, rx_to_off, rx_to_rx, rx_to_tx,
    shorts_after, shorts_on_completion, shorts_on_exit, tifs_after, tx_to_off, tx_to_rx, tx_to_tx,
    RadioFlags, RadioPhase, RadioTrigger, SchedulePlan, Shorts, TaskChange,
};
use crate::phy::{Ifs, OQpsk250KBit, Phy};
use crate::radio::timer::HardwareSignal;
use crate::time::{NsDuration, NsInstant};

verus! {

/// An event of the radio that can set off a task by a shortcut.
pub enum ShortEvent {
    RxReady,
    TxReady,
    FrameStarted,
    FrameEnded,
    ChannelClear,
    ChannelBusy,
    Disabled,
}

/// A task of the radio that a shortcut can set off.
pub enum ShortTask {
    Start,
    Disable,
    RxEnable,
    TxEnable,
    AssessChannel,
    CountBits,
}

/// Whether an event sets off a task.
pub open spec fn sets_off(shorts: Shorts, event: ShortEvent, task: ShortTask) -> bool {
    match (event, task) {
        (ShortEvent::RxReady, ShortTask::Start) => shorts.rxready_start,
        (ShortEvent::TxReady, ShortTask::Start) => shorts.txready_start,
        (ShortEvent::FrameEnded, ShortTask::Disable) => shorts.end_disable,
        (ShortEvent::FrameEnded, ShortTask::Start) => shorts.end_start,
        (ShortEvent::Disabled, ShortTask::RxEnable) => shorts.disabled_rxen,
        (ShortEvent::Disabled, ShortTask::TxEnable) => shorts.disabled_txen,
        (ShortEvent::RxReady, ShortTask::AssessChannel) => shorts.rxready_ccastart,
        (ShortEvent::ChannelClear, ShortTask::TxEnable) => shorts.ccaidle_txen,
        (ShortEvent::ChannelBusy, ShortTask::Disable) => shorts.ccabusy_disable,
        (ShortEvent::FrameStarted, ShortTask::CountBits) => shorts.framestart_bcstart,
        _ => false,
    }
}

/// The number of nanoseconds from one instant to another.
pub open spec fn elapsed(from: NsInstant, to: NsInstant) -> int {
    (to.ticks - from.ticks) % 0x1_0000_0000_0000_0000
}

/// The radio is tuned to 2405 MHz on channel 11 and to another 5 MHz per channel,
/// whether it receives or sends. It stays tuned if no channel is given.
pub proof fn lemma_tuned_to_channel(
    start: Option<NsInstant>,
    at: Option<NsInstant>,
    cca: bool,
    channel: u8,
    rx: SchedulePlan,
    tx: SchedulePlan,
)
    requires
        11 <= channel <= 26,
        call_ensures(off_to_rx, (start, Some(channel)), rx),
        call_ensures(off_to_tx, (at, cca, Some(channel)), tx),
    ensures
        rx.frequency matches Some(offset) && 2400 + offset == 2405 + 5 * (channel - 11),
        tx.frequency matches Some(offset) && 2400 + offset == 2405 + 5 * (channel - 11),
        tx.frequency == rx.frequency,
{
}

/// Two adjacent channels are 5 MHz apart.
pub proof fn lemma_channel_spacing(
    start: Option<NsInstant>,
    channel: u8,
    lower: SchedulePlan,
    upper: SchedulePlan,
)
    requires
        11 <= channel < 26,
        call_ensures(off_to_rx, (start, Some(channel)), lower),
        call_ensures(off_to_rx, (start, Some((channel + 1) as u8)), upper),
    ensures
        lower.frequency matches Some(a) && upper.frequency matches Some(b) && b - a == 5,
{
}

/// The radio stays tuned if no channel is given or the radio is not switched on.
pub proof fn lemma_stays_tuned(
    at: Option<NsInstant>,
    cca: bool,
    ifs: Ifs<Phy<OQpsk250KBit>>,
    gap: Option<Ifs<Phy<OQpsk250KBit>>>,
    plans: (SchedulePlan, SchedulePlan, SchedulePlan, SchedulePlan),
    others: (SchedulePlan, SchedulePlan, SchedulePlan, SchedulePlan),
)
    requires
        call_ensures(off_to_rx, (at, None), plans.0),
        call_ensures(off_to_tx, (at, cca, None), plans.1),
        call_ensures(rx_to_rx, (gap,), plans.2),
        call_ensures(rx_to_tx, (at, cca, gap), plans.3),
        call_ensures(rx_to_off, (at,), others.0),
        call_ensures(tx_to_rx, (ifs,), others.1),
        call_ensures(tx_to_tx, (cca, ifs), others.2),
        call_ensures(tx_to_off, (), others.3),
    ensures
        plans.0.frequency is None,
        plans.1.frequency is None,
        plans.2.frequency is None,
        plans.3.frequency is None,
        others.0.frequency is None,
        others.1.frequency is None,
        others.2.frequency is None,
        others.3.frequency is None,
{
}

/// Without an instant, switching to reception enables the receiver by the CPU.
/// With an instant, the receiver is enabled by a signal alone: 129_380 ns to ramp
/// up and 160_000 ns for the synchronization header before a frame may start.
pub proof fn lemma_reception_from_off(
    start: Option<NsInstant>,
    channel: Option<u8>,
    plan: SchedulePlan,
)
    requires
        call_ensures(off_to_rx, (start, channel), plan),
    ensures
        start is None ==> plan.trigger == RadioTrigger::RxEnable && plan.signal is None
            && plan.timer_start is None && plan.scheduled_entry is None,
        start matches Some(start) ==> {
            &&& plan.trigger == RadioTrigger::Nothing
            &&& plan.signal matches Some(signal)
            &&& signal.signal == HardwareSignal::RadioRxEnable
            &&& elapsed(signal.instant, start) == 129_380 + 160_000
            &&& plan.timer_start == Some(signal.instant)
            &&& plan.scheduled_entry == Some(start)
        },
        plan.rx_off is None,
        plan.tifs_micros is None,
        plan.observe_rx_enabled && plan.observe_frame_started && !plan.observe_disabled,
        forall|event: ShortEvent, task: ShortTask| #[trigger]
            sets_off(plan.shorts, event, task) <==> {
                ||| event is RxReady && task is Start
                ||| event is FrameStarted && task is CountBits
            },
{
}

/// A frame whose channel has to be clear is preceded by the receiver: 129_380 ns to
/// ramp up, 128_000 ns of assessment and 129_504 ns of turnaround. Otherwise the
/// transmitter ramps up at once. In both cases the synchronization header takes
/// 160_000 ns.
pub proof fn lemma_transmission_from_off(
    at: Option<NsInstant>,
    cca: bool,
    channel: Option<u8>,
    plan: SchedulePlan,
)
    requires
        call_ensures(off_to_tx, (at, cca, channel), plan),
    ensures
        at is None ==> plan.trigger == (if cca {
            RadioTrigger::RxEnable
        } else {
            RadioTrigger::TxEnable
        }) && plan.signal is None && plan.timer_start is None && plan.scheduled_entry is None,
        at matches Some(at) ==> {
            &&& plan.trigger == RadioTrigger::Nothing
            &&& plan.signal matches Some(signal)
            &&& cca ==> signal.signal == HardwareSignal::RadioRxEnable && elapsed(
                signal.instant,
                at,
            ) == 129_380 + 128_000 + 129_504 + 160_000
            &&& !cca ==> signal.signal == HardwareSignal::RadioTxEnable && elapsed(
                signal.instant,
                at,
            ) == 129_380 + 160_000
            &&& plan.timer_start == Some(signal.instant)
            &&& plan.scheduled_entry == Some(at)
        },
        plan.rx_off is None,
        plan.tifs_micros is None,
        !plan.observe_rx_enabled && plan.observe_frame_started && !plan.observe_disabled,
        forall|event: ShortEvent, task: ShortTask| #[trigger]
            sets_off(plan.shorts, event, task) <==> {
                ||| event is TxReady && task is Start
                ||| cca && event is RxReady && task is AssessChannel
                ||| cca && event is ChannelClear && task is TxEnable
                ||| cca && event is ChannelBusy && task is Disable
            },
{
}

/// Back to back, the end of a frame starts the next reception. With an interframe
/// space the receiver is disabled, enabled again and started once it is ready.
pub proof fn lemma_reception_from_reception(
    ifs: Option<Ifs<Phy<OQpsk250KBit>>>,
    plan: SchedulePlan,
)
    requires
        call_ensures(rx_to_rx, (ifs,), plan),
    ensures
        plan.signal is None && plan.rx_off is None && plan.timer_start is None,
        plan.trigger == RadioTrigger::Nothing && plan.scheduled_entry is None,
        plan.observe_rx_enabled == ifs is Some,
        plan.observe_frame_started && !plan.observe_disabled,
        ifs is None ==> plan.tifs_micros is None,
        ifs is None ==> forall|event: ShortEvent, task: ShortTask| #[trigger]
            sets_off(plan.shorts, event, task) <==> {
                ||| event is FrameEnded && task is Start
                ||| event is FrameStarted && task is CountBits
            },
        ifs is Some ==> forall|event: ShortEvent, task: ShortTask| #[trigger]
            sets_off(plan.shorts, event, task) <==> {
                ||| event is FrameEnded && task is Disable
                ||| event is Disabled && task is RxEnable
                ||| event is RxReady && task is Start
                ||| event is FrameStarted && task is CountBits
            },
{
}

/// A frame that is received is followed by a transmission: the receiver is
/// disabled by the end of the frame or by a signal that leaves enough time to ramp
/// down, and the radio is enabled by a signal or by having been disabled.
pub proof fn lemma_transmission_from_reception(
    at: Option<NsInstant>,
    cca: bool,
    ifs: Option<Ifs<Phy<OQpsk250KBit>>>,
    plan: SchedulePlan,
)
    requires
        call_ensures(rx_to_tx, (at, cca, ifs), plan),
    ensures
        plan.trigger == RadioTrigger::Nothing,
        plan.scheduled_entry == at,
        !plan.observe_rx_enabled && plan.observe_frame_started && !plan.observe_disabled,
        at is None ==> plan.signal is None && plan.rx_off is None && plan.timer_start is None,
        at matches Some(at) ==> {
            &&& plan.signal matches Some(signal)
            &&& plan.rx_off matches Some(rx_off)
            &&& rx_off.signal == HardwareSignal::RadioDisable
            &&& ifs is None ==> elapsed(rx_off.instant, signal.instant) == 500
            &&& ifs matches Some(ifs) ==> elapsed(rx_off.instant, signal.instant) + 129_380 == (
            if ifs is Lifs {
                640_000int
            } else {
                192_000
            })
            &&& cca ==> signal.signal == HardwareSignal::RadioRxEnable && elapsed(
                signal.instant,
                at,
            ) == 129_380 + 128_000 + 129_504 + 160_000
            &&& !cca ==> signal.signal == HardwareSignal::RadioTxEnable && elapsed(
                signal.instant,
                at,
            ) == 129_380 + 160_000
            &&& plan.timer_start == Some(rx_off.instant)
        },
        forall|event: ShortEvent, task: ShortTask| #[trigger]
            sets_off(plan.shorts, event, task) <==> {
                ||| event is FrameEnded && task is Disable
                ||| at is None && cca && event is Disabled && task is RxEnable
                ||| at is None && !cca && event is Disabled && task is TxEnable
                ||| event is TxReady && task is Start
                ||| cca && event is RxReady && task is AssessChannel
                ||| cca && event is ChannelClear && task is TxEnable
                ||| cca && event is ChannelBusy && task is Disable
            },
{
}

/// The radio is switched off by the end of a frame, or before at a given instant.
pub proof fn lemma_off_from_reception(at: Option<NsInstant>, plan: SchedulePlan)
    requires
        call_ensures(rx_to_off, (at,), plan),
    ensures
        plan.trigger == RadioTrigger::Nothing,
        plan.scheduled_entry == at && plan.timer_start == at,
        plan.rx_off is None && plan.tifs_micros is None,
        plan.signal is Some <==> at is Some,
        plan.signal matches Some(signal) ==> Some(signal.instant) == at && signal.signal
            == HardwareSignal::RadioDisable,
        !plan.observe_rx_enabled && !plan.observe_frame_started && plan.observe_disabled,
        forall|event: ShortEvent, task: ShortTask| #[trigger]
            sets_off(plan.shorts, event, task) <==> event is FrameEnded && task is Disable,
{
}

/// A frame that is sent is followed by a reception, another transmission or
/// nothing: the radio is disabled by the end of the frame and then enabled as
/// required. The frame that is still being sent does not start the bit counter.
pub proof fn lemma_from_transmission(
    cca: bool,
    ifs: Ifs<Phy<OQpsk250KBit>>,
    rx: SchedulePlan,
    tx: SchedulePlan,
    off: SchedulePlan,
)
    requires
        call_ensures(tx_to_rx, (ifs,), rx),
        call_ensures(tx_to_tx, (cca, ifs), tx),
        call_ensures(tx_to_off, (), off),
    ensures
        rx.signal is None && rx.rx_off is None && rx.timer_start is None,
        tx.signal is None && tx.rx_off is None && tx.timer_start is None,
        off.signal is None && off.rx_off is None && off.timer_start is None,
        rx.scheduled_entry is None && tx.scheduled_entry is None && off.scheduled_entry is None,
        rx.trigger == RadioTrigger::Nothing,
        tx.trigger == RadioTrigger::Nothing,
        off.trigger == RadioTrigger::Nothing,
        rx.observe_rx_enabled && rx.observe_frame_started && !rx.observe_disabled,
        !tx.observe_rx_enabled && tx.observe_frame_started && !tx.observe_disabled,
        !off.observe_rx_enabled && !off.observe_frame_started && off.observe_disabled,
        off.tifs_micros is None,
        forall|event: ShortEvent, task: ShortTask| #[trigger]
            sets_off(rx.shorts, event, task) <==> {
                ||| event is FrameEnded && task is Disable
                ||| event is Disabled && task is RxEnable
                ||| event is RxReady && task is Start
            },
        forall|event: ShortEvent, task: ShortTask| #[trigger]
            sets_off(tx.shorts, event, task) <==> {
                ||| event is FrameEnded && task is Disable
                ||| cca && event is Disabled && task is RxEnable
                ||| !cca && event is Disabled && task is TxEnable
                ||| event is TxReady && task is Start
                ||| cca && event is RxReady && task is AssessChannel
                ||| cca && event is ChannelClear && task is TxEnable
                ||| cca && event is ChannelBusy && task is Disable
            },
        forall|event: ShortEvent, task: ShortTask| #[trigger]
            sets_off(off.shorts, event, task) <==> event is FrameEnded && task is Disable,
{
}

/// The interframe space that is programmed is the one that is asked for, in
/// microseconds. A receiver is ready a microsecond before it has passed.
pub proof fn lemma_interframe_space_kept(
    at: Option<NsInstant>,
    cca: bool,
    ifs: Ifs<Phy<OQpsk250KBit>>,
    duration: NsDuration,
    rx_rx: SchedulePlan,
    rx_tx: SchedulePlan,
    tx_rx: SchedulePlan,
    tx_tx: SchedulePlan,
    immediate: SchedulePlan,
)
    requires
        call_ensures(Ifs::<Phy<OQpsk250KBit>>::into_local_clock_duration, (ifs,), duration),
        call_ensures(rx_to_rx, (Some(ifs),), rx_rx),
        call_ensures(rx_to_tx, (at, cca, Some(ifs)), rx_tx),
        call_ensures(tx_to_rx, (ifs,), tx_rx),
        call_ensures(tx_to_tx, (cca, ifs), tx_tx),
        call_ensures(rx_to_tx, (at, cca, None), immediate),
    ensures
        rx_rx.tifs_micros matches Some(micros) && 1_000 * (micros + 1) == duration.ticks,
        tx_rx.tifs_micros matches Some(micros) && 1_000 * (micros + 1) == duration.ticks,
        rx_tx.tifs_micros matches Some(micros) && 1_000 * micros == duration.ticks,
        tx_tx.tifs_micros matches Some(micros) && 1_000 * micros == duration.ticks,
        immediate.tifs_micros == Some(0u16),
{
}

/// A radio that idles when its task is completed is set in motion again: after a
/// transmission that is followed by a reception or by switching off it is disabled,
/// and likewise in any other transition whose shortcuts came too late. A reception
/// that follows back to back is started. A radio that does not idle, or idles as
/// the next frame has already come, is left alone.
pub proof fn lemma_idle_radio_is_left(
    change: TaskChange,
    flags: RadioFlags,
    back_to_back: bool,
    trigger: RadioTrigger,
)
    requires
        call_ensures(after_completion, (change, flags, back_to_back), trigger),
    ensures
        flags.phase == RadioPhase::TxIdle && (change == TaskChange::TxToRx || change
            == TaskChange::TxToOff) ==> trigger == RadioTrigger::Disable,
        flags.phase == RadioPhase::TxIdle && change == TaskChange::TxToTx ==> trigger == (
        if flags.frame_ended {
            RadioTrigger::Nothing
        } else {
            RadioTrigger::Disable
        }),
        flags.phase == RadioPhase::RxIdle && (change == TaskChange::RxToTx || change
            == TaskChange::RxToOff) ==> trigger == RadioTrigger::Disable,
        flags.phase == RadioPhase::RxIdle && change == TaskChange::RxToRx ==> trigger == (
        if flags.frame_started {
            RadioTrigger::Nothing
        } else if back_to_back {
            RadioTrigger::Start
        } else {
            RadioTrigger::Disable
        }),
        flags.phase != RadioPhase::TxIdle && flags.phase != RadioPhase::RxIdle ==> trigger
            == RadioTrigger::Nothing,
        flags.phase == RadioPhase::TxIdle && (change == TaskChange::RxToRx || change
            == TaskChange::RxToTx || change == TaskChange::RxToOff) ==> trigger
            == RadioTrigger::Nothing,
        flags.phase == RadioPhase::RxIdle && (change == TaskChange::TxToRx || change
            == TaskChange::TxToTx || change == TaskChange::TxToOff) ==> trigger
            == RadioTrigger::Nothing,
        change == TaskChange::OffToRx || change == TaskChange::OffToTx ==> trigger
            == RadioTrigger::Nothing,
{
}

/// Behind a frame that was sent, the start of the next frame starts the bit
/// counter. No other transition changes its shortcuts on completion.
pub proof fn lemma_bit_counter_behind_sent_frame(
    change: TaskChange,
    shorts: Shorts,
    completed: Shorts,
)
    requires
        call_ensures(shorts_on_completion, (change, shorts), completed),
    ensures
        forall|event: ShortEvent, task: ShortTask| #[trigger]
            sets_off(completed, event, task) <==> {
                ||| sets_off(shorts, event, task)
                ||| change == TaskChange::TxToRx && event is FrameStarted && task is CountBits
            },
{
}

/// Once reception is left, the start of a frame does not start the bit counter any
/// more. All else is kept.
pub proof fn lemma_bit_counter_released(change: TaskChange, shorts: Shorts, left: Shorts)
    requires
        call_ensures(shorts_on_exit, (change, shorts), left),
    ensures
        forall|event: ShortEvent, task: ShortTask| #[trigger]
            sets_off(left, event, task) <==> {
                &&& sets_off(shorts, event, task)
                &&& !((change == TaskChange::RxToTx || change == TaskChange::RxToOff)
                    && event is FrameStarted && task is CountBits)
            },
{
}

/// Once a transition to reception has ended, the start of a frame starts the bit
/// counter and no other shortcut remains. After any other transition none remains.
pub proof fn lemma_shorts_after_transition(
    start: Option<NsInstant>,
    channel: Option<u8>,
    plan: SchedulePlan,
    change: TaskChange,
    shorts: Shorts,
    remaining: Shorts,
)
    requires
        call_ensures(off_to_rx, (start, channel), plan),
        change == TaskChange::OffToRx ==> shorts == plan.shorts,
        call_ensures(shorts_after, (change, shorts), remaining),
    ensures
        forall|event: ShortEvent, task: ShortTask| #[trigger]
            sets_off(remaining, event, task) <==> {
                &&& change == TaskChange::OffToRx || change == TaskChange::RxToRx || change
                    == TaskChange::TxToRx
                &&& event is FrameStarted && task is CountBits
            },
{
}

/// Without a shortcut, no event sets off a task.
pub proof fn lemma_no_shorts(shorts: Shorts)
    requires
        call_ensures(Shorts::none, (), shorts),
    ensures
        forall|event: ShortEvent, task: ShortTask| !#[trigger] sets_off(shorts, event, task),
{
}

/// The interframe space is reset exactly by the transitions between two frames.
pub proof fn lemma_interframe_space_reset(change: TaskChange, tifs: Option<u16>)
    requires
        call_ensures(tifs_after, (change,), tifs),
    ensures
        tifs is Some <==> (change != TaskChange::OffToRx && change != TaskChange::OffToTx && change
            != TaskChange::RxToOff && change != TaskChange::TxToOff),
        tifs matches Some(micros) ==> micros == 0,
{
}

/// A radio that is neither off nor about to be off has to be disabled.
pub proof fn lemma_running_radio_disabled(phase: RadioPhase, disable: bool)
    requires
        call_ensures(must_disable, (phase,), disable),
    ensures
        phase == RadioPhase::Disabled || phase == RadioPhase::RxDisable || phase
            == RadioPhase::TxDisable ==> !disable,
        phase == RadioPhase::RxRampUp || phase == RadioPhase::RxIdle || phase == RadioPhase::Rx
            ==> disable,
        phase == RadioPhase::TxRampUp || phase == RadioPhase::TxIdle || phase == RadioPhase::Tx
            ==> disable,
{
}

} // verus!
