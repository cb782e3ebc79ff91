//! Programming the event bus that connects the timers with the radio.

use vstd::prelude::*;

use crate::radio::timer::{HardwareEvent, HardwareSignal, RadioTimerError};
use crate::time::NsInstant;

verus! {

/// The timer channel that captures the current time.
pub const TIMER_TEST_CHANNEL: usize = 2;

/// The timer channel that stops the timer before it overflows.
pub const TIMER_OVERFLOW_PROTECTION_CHANNEL: usize = 3;

/// The bus channel from timer channel 0 to the radio's transmit task.
pub const TIMER_CC0_RADIO_TXEN_CHANNEL: usize = 20;

/// The bus channel from timer channel 0 to the radio's receive task.
pub const TIMER_CC0_RADIO_RXEN_CHANNEL: usize = 21;

/// The bus channel from timer channel 1 to the radio's disable task.
pub const TIMER_CC1_RADIO_DISABLE_CHANNEL: usize = 22;

/// The bus channel from the sleep timer to the start task of the timer.
pub const RTC_CC0_TIMER_START_CHANNEL: usize = 31;

/// Whether a bit of a register is set.
pub open spec fn bit(register: u32, index: u32) -> bool {
    (register >> index) & 1 == 1
}

/// The bus resources that are assigned to the timer.
#[derive(Clone, Copy, Debug, PartialEq, Eq, Structural)]
pub struct PpiChannels {
    pub ppi_channel1: usize,
    pub ppi_channel2: usize,
    pub ppi_channel_group: usize,
}

/// The resources that are used to trace the timer.
#[derive(Clone, Copy, Debug, PartialEq, Eq, Structural)]
pub struct NrfRadioTimerTracingConfig {
    pub gpiote_out_channel: usize,
    pub gpiote_in_channel: usize,
    pub gpiote_tick_channel: usize,
    pub ppi_tick_channel: usize,
}

/// The resources that are used to trace the radio.
#[derive(Clone, Copy, Debug, PartialEq, Eq, Structural)]
pub struct NrfRadioTracingConfig {
    pub gpiote_frame_channel: usize,
    pub gpiote_trx_channel: usize,
    pub ppi_framestart_channel: usize,
    pub ppi_frameend_channel: usize,
    pub ppi_trxstart_channel: usize,
    pub ppi_trxend_channel: usize,
}

impl NrfRadioTracingConfig {
    /// The mask of all bus channels that are used to trace the radio.
    pub fn channel_mask(&self) -> (r: u32)
        requires
            self.ppi_framestart_channel < 32,
            self.ppi_frameend_channel < 32,
            self.ppi_trxstart_channel < 32,
            self.ppi_trxend_channel < 32,
        ensures
            forall|index: u32|
                index < 32 ==> (#[trigger] bit(r, index) <==> {
                    ||| index == self.ppi_framestart_channel
                    ||| index == self.ppi_frameend_channel
                    ||| index == self.ppi_trxstart_channel
                    ||| index == self.ppi_trxend_channel
                }),
    {
        let a: u32 = self.ppi_framestart_channel as u32;
        let b: u32 = self.ppi_frameend_channel as u32;
        let c: u32 = self.ppi_trxstart_channel as u32;
        let d: u32 = self.ppi_trxend_channel as u32;
        let mask: u32 = (1u32 << a) | (1u32 << b) | (1u32 << c) | (1u32 << d);
        proof {
            assert forall|index: u32| index < 32 implies (#[trigger] bit(mask, index) <==> {
                ||| index == self.ppi_framestart_channel
                ||| index == self.ppi_frameend_channel
                ||| index == self.ppi_trxstart_channel
                ||| index == self.ppi_trxend_channel
            }) by {
                assert(((mask >> index) & 1 == 1) == (index == a || index == b || index == c
                    || index == d)) by (bit_vector)
                    requires
                        a < 32,
                        b < 32,
                        c < 32,
                        d < 32,
                        index < 32,
                        mask == (1u32 << a) | (1u32 << b) | (1u32 << c) | (1u32 << d),
                ;
            }
        }
        mask
    }
}

impl PpiChannels {
    /// Whether the two channels are distinct programmable channels and the group
    /// exists.
    pub open spec fn valid(self) -> bool {
        &&& self.ppi_channel1 <= 19
        &&& self.ppi_channel2 <= 19
        &&& self.ppi_channel1 != self.ppi_channel2
        &&& self.ppi_channel_group <= 5
    }

    /// Whether the two channels are distinct programmable channels and the group
    /// exists.
    pub fn is_valid(&self) -> (r: bool)
        ensures
            r == self.valid(),
    {
        self.ppi_channel1 <= 19 && self.ppi_channel2 <= 19 && self.ppi_channel1
            != self.ppi_channel2 && self.ppi_channel_group <= 5
    }

    /// The mask of all channels that the timer uses.
    pub fn channel_mask(&self) -> (r: u32)
        requires
            self.valid(),
        ensures
            forall|index: u32|
                index < 32 ==> (#[trigger] bit(r, index) <==> {
                    ||| index == self.ppi_channel1
                    ||| index == self.ppi_channel2
                    ||| index == TIMER_CC0_RADIO_TXEN_CHANNEL
                    ||| index == TIMER_CC0_RADIO_RXEN_CHANNEL
                    ||| index == TIMER_CC1_RADIO_DISABLE_CHANNEL
                    ||| index == RTC_CC0_TIMER_START_CHANNEL
                }),
    {
        let first: u32 = self.ppi_channel1 as u32;
        let second: u32 = self.ppi_channel2 as u32;
        let mask: u32 = (1u32 << first) | (1u32 << second) | 0x8070_0000;
        proof {
            assert forall|index: u32| index < 32 implies (#[trigger] bit(mask, index) <==> {
                ||| index == self.ppi_channel1
                ||| index == self.ppi_channel2
                ||| index == TIMER_CC0_RADIO_TXEN_CHANNEL
                ||| index == TIMER_CC0_RADIO_RXEN_CHANNEL
                ||| index == TIMER_CC1_RADIO_DISABLE_CHANNEL
                ||| index == RTC_CC0_TIMER_START_CHANNEL
            }) by {
                assert(((mask >> index) & 1 == 1) == (index == first || index == second || index
                    == 20 || index == 21 || index == 22 || index == 31)) by (bit_vector)
                    requires
                        first < 32,
                        second < 32,
                        index < 32,
                        mask == (1u32 << first) | (1u32 << second) | 0x8070_0000,
                ;
            }
        }
        mask
    }

    /// The bus channel and the timer channel of a signal.
    pub open spec fn signal_channels(signal: HardwareSignal) -> (usize, usize) {
        match signal {
            HardwareSignal::RadioRxEnable => (TIMER_CC0_RADIO_RXEN_CHANNEL, 0),
            HardwareSignal::RadioTxEnable => (TIMER_CC0_RADIO_TXEN_CHANNEL, 0),
            HardwareSignal::RadioDisable => (TIMER_CC1_RADIO_DISABLE_CHANNEL, 1),
        }
    }

    /// The bus channel and the timer channel of a signal.
    pub fn timer_signal_channels(signal: HardwareSignal) -> (r: (usize, usize))
        ensures
            r == Self::signal_channels(signal),
    {
        match signal {
            HardwareSignal::RadioRxEnable => (TIMER_CC0_RADIO_RXEN_CHANNEL, 0),
            HardwareSignal::RadioTxEnable => (TIMER_CC0_RADIO_TXEN_CHANNEL, 0),
            HardwareSignal::RadioDisable => (TIMER_CC1_RADIO_DISABLE_CHANNEL, 1),
        }
    }

    /// The bus channel of an event.
    pub open spec fn event_channel(self, event: HardwareEvent) -> usize {
        match event {
            HardwareEvent::RadioRxEnabled | HardwareEvent::RadioDisabled => self.ppi_channel1,
            HardwareEvent::RadioFrameStarted => self.ppi_channel2,
        }
    }

    /// The bus channel of an event.
    pub fn ppi_event_channel(&self, event: HardwareEvent) -> (r: usize)
        ensures
            r == self.event_channel(event),
    {
        match event {
            HardwareEvent::RadioRxEnabled | HardwareEvent::RadioDisabled => self.ppi_channel1,
            HardwareEvent::RadioFrameStarted => self.ppi_channel2,
        }
    }

    /// The timer channel that captures an event.
    pub open spec fn capture_channel(event: HardwareEvent) -> usize {
        match event {
            HardwareEvent::RadioRxEnabled | HardwareEvent::RadioDisabled => 0,
            HardwareEvent::RadioFrameStarted => 1,
        }
    }

    /// The timer channel that captures an event.
    pub fn timer_event_channel(event: HardwareEvent) -> (r: usize)
        ensures
            r == Self::capture_channel(event),
    {
        match event {
            HardwareEvent::RadioRxEnabled | HardwareEvent::RadioDisabled => 0,
            HardwareEvent::RadioFrameStarted => 1,
        }
    }
}

impl NrfRadioTimerTracingConfig {
    /// Whether all channels exist and none is used twice.
    pub open spec fn valid(self, channels: PpiChannels) -> bool {
        &&& self.gpiote_out_channel <= 7
        &&& self.gpiote_in_channel <= 7
        &&& self.gpiote_tick_channel <= 7
        &&& self.gpiote_in_channel != self.gpiote_out_channel
        &&& self.gpiote_in_channel != self.gpiote_tick_channel
        &&& self.gpiote_tick_channel != self.gpiote_out_channel
        &&& self.ppi_tick_channel <= 19
        &&& self.ppi_tick_channel != channels.ppi_channel1
        &&& self.ppi_tick_channel != channels.ppi_channel2
    }

    /// Whether all channels exist and none is used twice.
    pub fn is_valid(&self, channels: &PpiChannels) -> (r: bool)
        ensures
            r == self.valid(*channels),
    {
        self.gpiote_out_channel <= 7 && self.gpiote_in_channel <= 7 && self.gpiote_tick_channel
            <= 7 && self.gpiote_in_channel != self.gpiote_out_channel && self.gpiote_in_channel
            != self.gpiote_tick_channel && self.gpiote_tick_channel != self.gpiote_out_channel
            && self.ppi_tick_channel <= 19 && self.ppi_tick_channel != channels.ppi_channel1
            && self.ppi_tick_channel != channels.ppi_channel2
    }
}

/// The signals, events and the start of the timer never compete for a bus channel:
/// no channel serves both a signal and an event.
pub proof fn lemma_channels_distinct(
    channels: PpiChannels,
    signal: HardwareSignal,
    event: HardwareEvent,
)
    requires
        channels.valid(),
    ensures
        PpiChannels::signal_channels(signal).0 != channels.event_channel(event),
        PpiChannels::signal_channels(signal).0 != RTC_CC0_TIMER_START_CHANNEL,
        channels.event_channel(event) != RTC_CC0_TIMER_START_CHANNEL,
{
}

/// How to prepare the bus channel of a signal.
#[derive(Clone, Copy, Debug, PartialEq, Eq, Structural)]
pub enum SignalProgram {
    /// An earlier signal was emitted. Clear its compare event. The channel is
    /// still enabled.
    ReuseChannel,
    /// Enable the channel.
    EnableChannel,
}

/// Decides how to prepare the bus channel of a signal, from the signal's compare
/// event and compare register, and from whether a frame has started.
pub fn program_timed_signal(
    compare_event: bool,
    compare_value: u32,
    disabled_by_event: Option<HardwareEvent>,
    frame_started: bool,
) -> (r: Result<SignalProgram, RadioTimerError>)
    ensures
        r == (if compare_event {
            Ok(SignalProgram::ReuseChannel)
        } else if compare_value == 0 {
            Ok(SignalProgram::EnableChannel)
        } else if disabled_by_event == Some(HardwareEvent::RadioFrameStarted) && frame_started {
            Err(RadioTimerError::Already)
        } else {
            Err(RadioTimerError::Busy)
        }),
{
    if compare_event {
        return Ok(SignalProgram::ReuseChannel);
    }
    if compare_value == 0 {
        return Ok(SignalProgram::EnableChannel);
    }
    match disabled_by_event {
        Some(HardwareEvent::RadioFrameStarted) if frame_started => Err(RadioTimerError::Already),
        _ => Err(RadioTimerError::Busy),
    }
}

/// What the bus channel of an event is used for.
#[derive(Clone, Copy, Debug, PartialEq, Eq, Structural)]
pub enum EventUse {
    /// The event disables a signal over a channel group.
    DisablesSignal,
    /// A timer channel captures the time of the event.
    Observes,
}

/// The registers of an event's bus channel.
#[derive(Clone, Copy, Debug, PartialEq, Eq, Structural)]
pub struct EventChannel {
    /// Whether the channel is enabled.
    pub enabled: bool,
    /// The event to which the channel is connected.
    pub event: Option<HardwareEvent>,
    /// Whether the channel's task is set.
    pub captures: bool,
    /// Whether the channel's fork is set.
    pub disables: bool,
    /// Whether the channel group is set.
    pub group_busy: bool,
}

impl EventChannel {
    /// Whether the channel observes an event.
    pub open spec fn observing(self, event: HardwareEvent) -> bool {
        self.enabled && self.event == Some(event) && self.captures
    }

    /// Whether the channel can take up a use of an event: an enabled channel is
    /// connected to the event, and no event disables a signal yet if this one is
    /// to do so. An event may be observed that is already being observed.
    pub open spec fn available(self, event: HardwareEvent, event_use: EventUse) -> bool {
        &&& event_use == EventUse::DisablesSignal ==> !self.group_busy
        &&& self.enabled ==> {
            &&& self.event == Some(event)
            &&& event_use == EventUse::DisablesSignal ==> !self.disables
        }
    }

    /// The registers after a use of an event was programmed. A channel that was
    /// disabled starts without the other use.
    pub open spec fn programmed(self, event: HardwareEvent, event_use: EventUse) -> EventChannel {
        let disables_signal = event_use == EventUse::DisablesSignal;
        EventChannel {
            enabled: true,
            event: Some(event),
            captures: if disables_signal {
                self.enabled && self.captures
            } else {
                true
            },
            disables: if disables_signal {
                true
            } else {
                self.enabled && self.disables
            },
            group_busy: self.group_busy || disables_signal,
        }
    }

    /// Decides how to program a use of an event. Returns the registers that the
    /// channel must have afterwards.
    pub fn program_event(&self, event: HardwareEvent, event_use: EventUse) -> (r: Result<
        EventChannel,
        RadioTimerError,
    >)
        ensures
            r == (if self.available(event, event_use) {
                Ok(self.programmed(event, event_use))
            } else {
                Err(RadioTimerError::Busy)
            }),
    {
        let disables_signal = match event_use {
            EventUse::DisablesSignal => true,
            EventUse::Observes => false,
        };
        if disables_signal && self.group_busy {
            return Err(RadioTimerError::Busy);
        }
        if self.enabled {
            let same_event = match self.event {
                Some(current) => current == event,
                None => false,
            };
            if !same_event {
                return Err(RadioTimerError::Busy);
            }
            if disables_signal && self.disables {
                return Err(RadioTimerError::Busy);
            }
        }
        Ok(
            EventChannel {
                enabled: true,
                event: Some(event),
                captures: !disables_signal || self.enabled && self.captures,
                disables: disables_signal || self.enabled && self.disables,
                group_busy: self.group_busy || disables_signal,
            },
        )
    }

    /// Whether the channel observes an event.
    pub fn is_observing(&self, event: HardwareEvent) -> (r: bool)
        ensures
            r == self.observing(event),
    {
        let same_event = match self.event {
            Some(current) => current == event,
            None => false,
        };
        self.enabled && same_event && self.captures
    }
}

/// Decides what to do after a use of an event was programmed, given whether the
/// event was being observed before and whether it has occurred. Returns whether the
/// signal has to be disabled by hand.
///
/// # Errors
///
/// Fails if the event occurred before it was observed.
pub fn after_event_programmed(
    event_use: EventUse,
    observed_before: bool,
    occurred: bool,
) -> (r: Result<bool, RadioTimerError>)
    ensures
        r == (match event_use {
            EventUse::DisablesSignal => Ok(occurred),
            EventUse::Observes => if occurred && !observed_before {
                Err(RadioTimerError::Already)
            } else {
                Ok(false)
            },
        }),
{
    match event_use {
        EventUse::DisablesSignal => Ok(occurred),
        EventUse::Observes => if occurred && !observed_before {
            Err(RadioTimerError::Already)
        } else {
            Ok(false)
        },
    }
}

/// An event can be observed and made to disable a signal, and the order in which
/// this is programmed does not matter.
pub proof fn lemma_event_uses_commute(channel: EventChannel, event: HardwareEvent)
    requires
        !channel.enabled,
        !channel.group_busy,
    ensures
        channel.available(event, EventUse::Observes),
        channel.available(event, EventUse::DisablesSignal),
        channel.programmed(event, EventUse::Observes).available(event, EventUse::DisablesSignal),
        channel.programmed(event, EventUse::DisablesSignal).available(event, EventUse::Observes),
        channel.programmed(event, EventUse::Observes).programmed(event, EventUse::DisablesSignal)
            == channel.programmed(event, EventUse::DisablesSignal).programmed(
            event,
            EventUse::Observes,
        ),
{
}

/// Observing an event is idempotent: if the event is already being observed, then
/// observing it succeeds and changes nothing.
pub proof fn lemma_observing_idempotent(channel: EventChannel, event: HardwareEvent)
    requires
        channel.available(event, EventUse::Observes),
    ensures
        channel.programmed(event, EventUse::Observes).observing(event),
        channel.observing(event) ==> channel.programmed(event, EventUse::Observes) == channel,
        channel.programmed(event, EventUse::Observes).available(event, EventUse::Observes),
{
}

/// An event cannot be made to disable a second signal, nor can another event use
/// an enabled channel.
pub proof fn lemma_event_use_exclusive(
    channel: EventChannel,
    event: HardwareEvent,
    event_use: EventUse,
    other: HardwareEvent,
    other_use: EventUse,
)
    requires
        channel.available(event, event_use),
    ensures
        event_use == EventUse::DisablesSignal ==> !channel.programmed(event, event_use).available(
            event,
            event_use,
        ),
        other != event ==> !channel.programmed(event, event_use).available(other, other_use),
{
}

/// Decides whether a signal whose compare register has been set is emitted in
/// time, from the time that was captured afterwards and from the compare event. If
/// not then the bus channel has to be disabled and the compare register reset.
pub fn safely_schedule_signal(
    instant: NsInstant,
    timer_ticks: u32,
    timer_now: u32,
    compare_event: bool,
) -> (r: Result<(), RadioTimerError>)
    ensures
        r == (if timer_now < timer_ticks || compare_event {
            Ok(())
        } else {
            Err(RadioTimerError::Overdue(instant))
        }),
{
    if timer_now < timer_ticks || compare_event {
        Ok(())
    } else {
        Err(RadioTimerError::Overdue(instant))
    }
}

/// What a task that waits for a signal does when it is polled.
#[derive(Clone, Copy, Debug, PartialEq, Eq, Structural)]
pub enum SignalPoll {
    /// The signal was emitted.
    Complete,
    /// The interrupt is enabled and owns the waker.
    Wait,
    /// Store the waker, then enable the interrupt.
    EnableInterrupt,
}

/// Decides what a task that waits for a signal does when it is polled.
pub fn poll_signal(compare_event: bool, interrupts: u32) -> (r: SignalPoll)
    ensures
        r == (if compare_event {
            SignalPoll::Complete
        } else if interrupts != 0 {
            SignalPoll::Wait
        } else {
            SignalPoll::EnableInterrupt
        }),
{
    if compare_event {
        SignalPoll::Complete
    } else if interrupts != 0 {
        SignalPoll::Wait
    } else {
        SignalPoll::EnableInterrupt
    }
}

/// The interrupt mask of the timer channel of a signal.
pub fn signal_interrupt_mask(signal: HardwareSignal) -> (r: u32)
    ensures
        forall|index: u32|
            index < 32 ==> (#[trigger] bit(r, index) <==> index == 16
                + PpiChannels::signal_channels(signal).1),
{
    let mask: u32 = match signal {
        HardwareSignal::RadioRxEnable | HardwareSignal::RadioTxEnable => 0x1_0000,
        HardwareSignal::RadioDisable => 0x2_0000,
    };
    proof {
        assert forall|index: u32| index < 32 implies (#[trigger] bit(mask, index) <==> index == 16
            + PpiChannels::signal_channels(signal).1) by {
            assert(((0x1_0000u32 >> index) & 1 == 1) == (index == 16) && ((0x2_0000u32 >> index)
                & 1 == 1) == (index == 17)) by (bit_vector)
                requires
                    index < 32,
            ;
        }
    }
    mask
}

} // verus!
