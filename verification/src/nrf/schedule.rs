//! How the radio is programmed for a transition between radio tasks.
//!
//! The radio has shortcuts ("shorts") that let an event trigger a task without
//! the CPU. A transition that starts at a given instant is triggered by a timed
//! signal. Any other transition is triggered by a shortcut at the end of the
//! current frame or, from the off state, by the CPU.

use vstd::prelude::*;

use crate::nrf::radio_config::frequency_offset;
use crate::nrf::radio_timing::{
    ifs_micros, ns, rx_off_lead, timed_off, timed_rx_enable, timed_rx_off_and_tx_enable,
    timed_tx_enable, tx_lead,
};
use crate::phy::{Ifs, OQpsk250KBit, Phy};
use crate::radio::timer::{HardwareSignal, TimedSignal};
use crate::time::NsInstant;

verus! {

/// The shortcuts between events and tasks of the radio.
#[derive(Clone, Copy, Debug, PartialEq, Eq, Structural)]
pub struct Shorts {
    /// Receiver ready: start.
    pub rxready_start: bool,
    /// Transmitter ready: start.
    pub txready_start: bool,
    /// Frame ended: disable.
    pub end_disable: bool,
    /// Frame ended: start.
    pub end_start: bool,
    /// Disabled: enable the receiver.
    pub disabled_rxen: bool,
    /// Disabled: enable the transmitter.
    pub disabled_txen: bool,
    /// Receiver ready: start a clear channel assessment.
    pub rxready_ccastart: bool,
    /// Channel clear: enable the transmitter.
    pub ccaidle_txen: bool,
    /// Channel busy: disable.
    pub ccabusy_disable: bool,
    /// Frame started: start the bit counter.
    pub framestart_bcstart: bool,
}

/// No shortcut.
pub open spec fn no_shorts() -> Shorts {
    Shorts {
        rxready_start: false,
        txready_start: false,
        end_disable: false,
        end_start: false,
        disabled_rxen: false,
        disabled_txen: false,
        rxready_ccastart: false,
        ccaidle_txen: false,
        ccabusy_disable: false,
        framestart_bcstart: false,
    }
}

impl Shorts {
    /// No shortcut.
    pub fn none() -> (r: Self)
        ensures
            r == no_shorts(),
    {
        Shorts {
            rxready_start: false,
            txready_start: false,
            end_disable: false,
            end_start: false,
            disabled_rxen: false,
            disabled_txen: false,
            rxready_ccastart: false,
            ccaidle_txen: false,
            ccabusy_disable: false,
            framestart_bcstart: false,
        }
    }

    /// The shortcuts that send a frame once the radio is enabled: at once or, if
    /// the channel has to be clear, after an assessment by the receiver.
    pub open spec fn sending(cca: bool) -> Shorts {
        Shorts {
            txready_start: true,
            rxready_ccastart: cca,
            ccaidle_txen: cca,
            ccabusy_disable: cca,
            ..no_shorts()
        }
    }

    fn to_send(cca: bool) -> (r: Self)
        ensures
            r == Self::sending(cca),
    {
        let mut shorts = Self::none();
        shorts.txready_start = true;
        shorts.rxready_ccastart = cca;
        shorts.ccaidle_txen = cca;
        shorts.ccabusy_disable = cca;
        shorts
    }
}

/// A task of the radio that the CPU triggers.
#[derive(Clone, Copy, Debug, PartialEq, Eq, Structural)]
pub enum RadioTrigger {
    Nothing,
    /// Enables the receiver.
    RxEnable,
    /// Enables the transmitter.
    TxEnable,
    /// Starts reception or transmission.
    Start,
    /// Disables the radio.
    Disable,
}

/// How the radio is programmed when a transition is scheduled.
#[derive(Clone, Copy, Debug, PartialEq, Eq)]
pub struct SchedulePlan {
    /// When the high-precision timer has to be running, or as soon as possible.
    pub timer_start: Option<NsInstant>,
    /// Switches the receiver off.
    pub rx_off: Option<TimedSignal>,
    /// Enables or disables the radio.
    pub signal: Option<TimedSignal>,
    /// Which timestamps have to be captured.
    pub observe_rx_enabled: bool,
    pub observe_frame_started: bool,
    pub observe_disabled: bool,
    /// The frequency that has to be set, as an offset in MHz.
    pub frequency: Option<u8>,
    /// The interframe space that has to be set in microseconds.
    pub tifs_micros: Option<u16>,
    pub shorts: Shorts,
    /// What the CPU triggers in the end.
    pub trigger: RadioTrigger,
    /// When the next state is scheduled to enter, if that is known.
    pub scheduled_entry: Option<NsInstant>,
}

/// Whether nothing but the end of a clear channel assessment enables the
/// transmitter, and a busy channel disables the radio.
pub open spec fn sends_only_if_clear(plan: SchedulePlan) -> bool {
    &&& plan.trigger != RadioTrigger::TxEnable
    &&& !plan.shorts.disabled_txen
    &&& plan.signal matches Some(signal) ==> signal.signal != HardwareSignal::RadioTxEnable
    &&& plan.rx_off matches Some(signal) ==> signal.signal != HardwareSignal::RadioTxEnable
    &&& plan.shorts.rxready_ccastart
    &&& plan.shorts.ccabusy_disable
}

/// The instant of a signal, if there is one.
pub open spec fn signal_instant(signal: Option<TimedSignal>) -> Option<NsInstant> {
    match signal {
        Some(signal) => Some(signal.instant),
        None => None,
    }
}

/// The frequency of a channel, if one is given.
pub open spec fn channel_frequency(channel: Option<u8>) -> Option<u8> {
    match channel {
        Some(channel) => Some((5 * (channel - 10)) as u8),
        None => None,
    }
}

fn frequency_of(channel: Option<u8>) -> (r: Option<u8>)
    requires
        channel matches Some(channel) ==> 11 <= channel <= 26,
    ensures
        r == channel_frequency(channel),
{
    match channel {
        Some(channel) => Some(frequency_offset(channel)),
        None => None,
    }
}

/// A plan that does nothing but start the timer.
fn empty_plan() -> (r: SchedulePlan)
    ensures
        r == (SchedulePlan {
            timer_start: None,
            rx_off: None,
            signal: None,
            observe_rx_enabled: false,
            observe_frame_started: false,
            observe_disabled: false,
            frequency: None,
            tifs_micros: None,
            shorts: no_shorts(),
            trigger: RadioTrigger::Nothing,
            scheduled_entry: None,
        }),
{
    SchedulePlan {
        timer_start: None,
        rx_off: None,
        signal: None,
        observe_rx_enabled: false,
        observe_frame_started: false,
        observe_disabled: false,
        frequency: None,
        tifs_micros: None,
        shorts: Shorts::none(),
        trigger: RadioTrigger::Nothing,
        scheduled_entry: None,
    }
}

/// Programs reception from the off state: at the given instant, or immediately.
pub fn off_to_rx(start: Option<NsInstant>, channel: Option<u8>) -> (r: SchedulePlan)
    requires
        channel matches Some(channel) ==> 11 <= channel <= 26,
    ensures
        r == (SchedulePlan {
            timer_start: signal_instant(r.signal),
            rx_off: None,
            signal: match start {
                Some(start) => Some(
                    TimedSignal {
                        instant: start.before(ns(129_380int + 160_000)),
                        signal: HardwareSignal::RadioRxEnable,
                    },
                ),
                None => None,
            },
            observe_rx_enabled: true,
            observe_frame_started: true,
            observe_disabled: false,
            frequency: channel_frequency(channel),
            tifs_micros: None,
            shorts: Shorts { rxready_start: true, framestart_bcstart: true, ..no_shorts() },
            trigger: if start is Some {
                RadioTrigger::Nothing
            } else {
                RadioTrigger::RxEnable
            },
            scheduled_entry: start,
        }),
{
    let mut plan = empty_plan();
    match start {
        Some(start) => {
            let signal = timed_rx_enable(start);
            plan.timer_start = Some(signal.instant);
            plan.signal = Some(signal);
        },
        None => {
            plan.trigger = RadioTrigger::RxEnable;
        },
    }
    plan.observe_rx_enabled = true;
    plan.observe_frame_started = true;
    plan.frequency = frequency_of(channel);
    plan.shorts.rxready_start = true;
    plan.shorts.framestart_bcstart = true;
    plan.scheduled_entry = start;
    plan
}

/// Programs transmission from the off state: at the given instant, or
/// immediately.
pub fn off_to_tx(at: Option<NsInstant>, cca: bool, channel: Option<u8>) -> (r: SchedulePlan)
    requires
        channel matches Some(channel) ==> 11 <= channel <= 26,
    ensures
        cca ==> sends_only_if_clear(r),
        r == (SchedulePlan {
            timer_start: signal_instant(r.signal),
            rx_off: None,
            signal: match at {
                Some(at) => Some(
                    TimedSignal {
                        instant: at.before(tx_lead(cca)),
                        signal: if cca {
                            HardwareSignal::RadioRxEnable
                        } else {
                            HardwareSignal::RadioTxEnable
                        },
                    },
                ),
                None => None,
            },
            observe_rx_enabled: false,
            observe_frame_started: true,
            observe_disabled: false,
            frequency: channel_frequency(channel),
            tifs_micros: None,
            shorts: Shorts::sending(cca),
            trigger: if at is Some {
                RadioTrigger::Nothing
            } else if cca {
                RadioTrigger::RxEnable
            } else {
                RadioTrigger::TxEnable
            },
            scheduled_entry: at,
        }),
{
    let mut plan = empty_plan();
    match at {
        Some(at) => {
            let signal = timed_tx_enable(at, cca);
            plan.timer_start = Some(signal.instant);
            plan.signal = Some(signal);
        },
        None => {
            plan.trigger = if cca {
                RadioTrigger::RxEnable
            } else {
                RadioTrigger::TxEnable
            };
        },
    }
    plan.observe_frame_started = true;
    plan.frequency = frequency_of(channel);
    plan.shorts = Shorts::to_send(cca);
    plan.scheduled_entry = at;
    plan
}

/// Programs another reception while receiving: after an interframe space, or
/// back to back.
pub fn rx_to_rx(ifs: Option<Ifs<Phy<OQpsk250KBit>>>) -> (r: SchedulePlan)
    ensures
        r == (SchedulePlan {
            timer_start: None,
            rx_off: None,
            signal: None,
            observe_rx_enabled: ifs is Some,
            observe_frame_started: true,
            observe_disabled: false,
            frequency: None,
            tifs_micros: match ifs {
                Some(Ifs::Lifs(_)) => Some(639),
                Some(_) => Some(191),
                None => None,
            },
            shorts: Shorts {
                end_start: ifs is None,
                end_disable: ifs is Some,
                disabled_rxen: ifs is Some,
                rxready_start: ifs is Some,
                framestart_bcstart: true,
                ..no_shorts()
            },
            trigger: RadioTrigger::Nothing,
            scheduled_entry: None,
        }),
{
    let mut plan = empty_plan();
    let back_to_back: bool = ifs.is_none();
    plan.observe_rx_enabled = !back_to_back;
    plan.observe_frame_started = true;
    if back_to_back {
        plan.shorts.end_start = true;
    } else {
        plan.tifs_micros = Some(ifs_micros(ifs, true));
        plan.shorts.end_disable = true;
        plan.shorts.disabled_rxen = true;
        plan.shorts.rxready_start = true;
    }
    plan.shorts.framestart_bcstart = true;
    plan
}

/// Programs transmission while receiving: at the given instant, or as soon as the
/// frame has been received and the interframe space has passed.
pub fn rx_to_tx(at: Option<NsInstant>, cca: bool, ifs: Option<Ifs<Phy<OQpsk250KBit>>>) -> (r:
    SchedulePlan)
    ensures
        cca ==> sends_only_if_clear(r),
        r == (SchedulePlan {
            timer_start: signal_instant(r.rx_off),
            rx_off: match at {
                Some(at) => Some(
                    TimedSignal {
                        instant: at.before(tx_lead(cca)).before(rx_off_lead(ifs)),
                        signal: HardwareSignal::RadioDisable,
                    },
                ),
                None => None,
            },
            signal: match at {
                Some(at) => Some(
                    TimedSignal {
                        instant: at.before(tx_lead(cca)),
                        signal: if cca {
                            HardwareSignal::RadioRxEnable
                        } else {
                            HardwareSignal::RadioTxEnable
                        },
                    },
                ),
                None => None,
            },
            observe_rx_enabled: false,
            observe_frame_started: true,
            observe_disabled: false,
            frequency: None,
            tifs_micros: match ifs {
                Some(Ifs::Lifs(_)) => Some(640),
                Some(_) => Some(192),
                None => Some(0),
            },
            shorts: Shorts {
                end_disable: true,
                disabled_rxen: cca && at is None,
                disabled_txen: !cca && at is None,
                ..Shorts::sending(cca)
            },
            trigger: RadioTrigger::Nothing,
            scheduled_entry: at,
        }),
{
    let mut plan = empty_plan();
    if let Some(at) = at {
        let (rx_off, tx_enable) = timed_rx_off_and_tx_enable(at, cca, ifs);
        plan.timer_start = Some(rx_off.instant);
        plan.rx_off = Some(rx_off);
        plan.signal = Some(tx_enable);
    }
    plan.observe_frame_started = true;
    plan.tifs_micros = Some(ifs_micros(ifs, false));
    plan.shorts = Shorts::to_send(cca);
    plan.shorts.end_disable = true;
    let is_best_effort: bool = at.is_none();
    plan.shorts.disabled_rxen = cca && is_best_effort;
    plan.shorts.disabled_txen = !cca && is_best_effort;
    plan.scheduled_entry = at;
    plan
}

/// Programs the radio to be switched off while receiving: at the given instant,
/// and in any case when the frame has been received.
pub fn rx_to_off(at: Option<NsInstant>) -> (r: SchedulePlan)
    ensures
        r == (SchedulePlan {
            timer_start: at,
            rx_off: None,
            signal: match at {
                Some(at) => Some(
                    TimedSignal { instant: at, signal: HardwareSignal::RadioDisable },
                ),
                None => None,
            },
            observe_rx_enabled: false,
            observe_frame_started: false,
            observe_disabled: true,
            frequency: None,
            tifs_micros: None,
            shorts: Shorts { end_disable: true, ..no_shorts() },
            trigger: RadioTrigger::Nothing,
            scheduled_entry: at,
        }),
{
    let mut plan = empty_plan();
    plan.timer_start = at;
    if let Some(at) = at {
        plan.signal = Some(timed_off(at));
    }
    plan.observe_disabled = true;
    plan.shorts.end_disable = true;
    plan.scheduled_entry = at;
    plan
}

/// Programs reception while transmitting. The bit counter must not be started by
/// the frame that is still being sent.
pub fn tx_to_rx(ifs: Ifs<Phy<OQpsk250KBit>>) -> (r: SchedulePlan)
    ensures
        r == (SchedulePlan {
            timer_start: None,
            rx_off: None,
            signal: None,
            observe_rx_enabled: true,
            observe_frame_started: true,
            observe_disabled: false,
            frequency: None,
            tifs_micros: Some(
                if ifs is Lifs {
                    639
                } else {
                    191
                },
            ),
            shorts: Shorts {
                end_disable: true,
                disabled_rxen: true,
                rxready_start: true,
                ..no_shorts()
            },
            trigger: RadioTrigger::Nothing,
            scheduled_entry: None,
        }),
{
    let mut plan = empty_plan();
    plan.observe_rx_enabled = true;
    plan.observe_frame_started = true;
    plan.tifs_micros = Some(ifs_micros(Some(ifs), true));
    plan.shorts.end_disable = true;
    plan.shorts.disabled_rxen = true;
    plan.shorts.rxready_start = true;
    plan
}

/// Programs another transmission while transmitting.
pub fn tx_to_tx(cca: bool, ifs: Ifs<Phy<OQpsk250KBit>>) -> (r: SchedulePlan)
    ensures
        cca ==> sends_only_if_clear(r),
        r == (SchedulePlan {
            timer_start: None,
            rx_off: None,
            signal: None,
            observe_rx_enabled: false,
            observe_frame_started: true,
            observe_disabled: false,
            frequency: None,
            tifs_micros: Some(
                if ifs is Lifs {
                    640
                } else {
                    192
                },
            ),
            shorts: Shorts {
                end_disable: true,
                disabled_rxen: cca,
                disabled_txen: !cca,
                ..Shorts::sending(cca)
            },
            trigger: RadioTrigger::Nothing,
            scheduled_entry: None,
        }),
{
    let mut plan = empty_plan();
    plan.observe_frame_started = true;
    plan.tifs_micros = Some(ifs_micros(Some(ifs), false));
    plan.shorts = Shorts::to_send(cca);
    plan.shorts.end_disable = true;
    plan.shorts.disabled_rxen = cca;
    plan.shorts.disabled_txen = !cca;
    plan
}

/// Programs the radio to be switched off when a frame has been sent.
pub fn tx_to_off() -> (r: SchedulePlan)
    ensures
        r == (SchedulePlan {
            timer_start: None,
            rx_off: None,
            signal: None,
            observe_rx_enabled: false,
            observe_frame_started: false,
            observe_disabled: true,
            frequency: None,
            tifs_micros: None,
            shorts: Shorts { end_disable: true, ..no_shorts() },
            trigger: RadioTrigger::Nothing,
            scheduled_entry: None,
        }),
{
    let mut plan = empty_plan();
    plan.observe_disabled = true;
    plan.shorts.end_disable = true;
    plan
}

/// A transition between radio tasks.
#[derive(Clone, Copy, Debug, PartialEq, Eq, Structural)]
pub enum TaskChange {
    OffToRx,
    OffToTx,
    RxToRx,
    RxToTx,
    RxToOff,
    TxToRx,
    TxToTx,
    TxToOff,
}

/// What the radio is doing.
#[derive(Clone, Copy, Debug, PartialEq, Eq, Structural)]
pub enum RadioPhase {
    Disabled,
    RxRampUp,
    RxIdle,
    Rx,
    RxDisable,
    TxRampUp,
    TxIdle,
    Tx,
    TxDisable,
}

/// What the radio has told since the transition was programmed.
#[derive(Clone, Copy, Debug, PartialEq, Eq, Structural)]
pub struct RadioFlags {
    pub phase: RadioPhase,
    /// A frame has started.
    pub frame_started: bool,
    /// A frame has ended that has not been attended to yet.
    pub frame_ended: bool,
}

/// Whether the radio idles because the current task had ended before the
/// shortcuts were programmed, so that these have had no effect.
pub open spec fn scheduled_late(change: TaskChange, flags: RadioFlags) -> bool {
    match change {
        TaskChange::OffToRx | TaskChange::OffToTx => false,
        TaskChange::RxToRx => flags.phase == RadioPhase::RxIdle && !flags.frame_started,
        TaskChange::RxToTx | TaskChange::RxToOff => flags.phase == RadioPhase::RxIdle,
        TaskChange::TxToRx | TaskChange::TxToOff => flags.phase == RadioPhase::TxIdle,
        TaskChange::TxToTx => flags.phase == RadioPhase::TxIdle && !flags.frame_ended,
    }
}

/// What the CPU has to trigger once the current task is completed: nothing, unless
/// the shortcuts came too late. Then disabling the radio sets off the remaining
/// shortcuts, and back-to-back reception is simply started.
///
/// When the radio is to be switched off after a reception, it idles or has been
/// disabled by then.
pub fn after_completion(change: TaskChange, flags: RadioFlags, back_to_back: bool) -> (r:
    RadioTrigger)
    requires
        change == TaskChange::RxToOff ==> {
            ||| flags.phase == RadioPhase::RxIdle
            ||| flags.phase == RadioPhase::RxDisable
            ||| flags.phase == RadioPhase::Disabled
        },
    ensures
        r == (if !scheduled_late(change, flags) {
            RadioTrigger::Nothing
        } else if change == TaskChange::RxToRx && back_to_back {
            RadioTrigger::Start
        } else {
            RadioTrigger::Disable
        }),
{
    let late: bool = match change {
        TaskChange::OffToRx | TaskChange::OffToTx => false,
        TaskChange::RxToRx => flags.phase == RadioPhase::RxIdle && !flags.frame_started,
        TaskChange::RxToTx | TaskChange::RxToOff => flags.phase == RadioPhase::RxIdle,
        TaskChange::TxToRx | TaskChange::TxToOff => flags.phase == RadioPhase::TxIdle,
        TaskChange::TxToTx => flags.phase == RadioPhase::TxIdle && !flags.frame_ended,
    };
    if !late {
        RadioTrigger::Nothing
    } else if change == TaskChange::RxToRx && back_to_back {
        RadioTrigger::Start
    } else {
        RadioTrigger::Disable
    }
}

/// The shortcuts once the current task is completed: behind a frame that was sent,
/// the start of the next frame starts the bit counter.
pub fn shorts_on_completion(change: TaskChange, shorts: Shorts) -> (r: Shorts)
    ensures
        r == (if change == TaskChange::TxToRx {
            Shorts { framestart_bcstart: true, ..shorts }
        } else {
            shorts
        }),
{
    let mut shorts = shorts;
    if change == TaskChange::TxToRx {
        shorts.framestart_bcstart = true;
    }
    shorts
}

/// The shortcuts once the current task is left: frames start the bit counter only
/// in a receiving state.
pub fn shorts_on_exit(change: TaskChange, shorts: Shorts) -> (r: Shorts)
    ensures
        r == (match change {
            TaskChange::RxToTx | TaskChange::RxToOff => Shorts {
                framestart_bcstart: false,
                ..shorts
            },
            _ => shorts,
        }),
{
    let mut shorts = shorts;
    match change {
        TaskChange::RxToTx | TaskChange::RxToOff => {
            shorts.framestart_bcstart = false;
        },
        _ => {},
    }
    shorts
}

/// The interframe space that has to be set once a transition has ended, if the
/// transition has set one.
pub fn tifs_after(change: TaskChange) -> (r: Option<u16>)
    ensures
        r == (match change {
            TaskChange::RxToRx
            | TaskChange::RxToTx
            | TaskChange::TxToRx
            | TaskChange::TxToTx => Some(0u16),
            _ => None,
        }),
{
    match change {
        TaskChange::RxToRx | TaskChange::RxToTx | TaskChange::TxToRx | TaskChange::TxToTx => {
            Some(0)
        },
        _ => None,
    }
}

/// The shortcuts that remain once a transition has ended: in a receiving state a
/// frame starts the bit counter, otherwise there are none.
pub fn shorts_after(change: TaskChange, shorts: Shorts) -> (r: Shorts)
    ensures
        r == (match change {
            TaskChange::OffToRx => Shorts { rxready_start: false, ..shorts },
            TaskChange::RxToRx | TaskChange::TxToRx => Shorts {
                framestart_bcstart: true,
                ..no_shorts()
            },
            _ => no_shorts(),
        }),
{
    match change {
        TaskChange::OffToRx => {
            let mut shorts = shorts;
            shorts.rxready_start = false;
            shorts
        },
        TaskChange::RxToRx | TaskChange::TxToRx => {
            let mut shorts = Shorts::none();
            shorts.framestart_bcstart = true;
            shorts
        },
        _ => Shorts::none(),
    }
}

/// Whether the radio has to be disabled to be switched off.
pub fn must_disable(phase: RadioPhase) -> (r: bool)
    ensures
        r <==> phase != RadioPhase::Disabled && phase != RadioPhase::RxDisable && phase
            != RadioPhase::TxDisable,
{
    match phase {
        RadioPhase::TxDisable | RadioPhase::RxDisable | RadioPhase::Disabled => false,
        _ => true,
    }
}

} // verus!
