//! Timed signals and events of the radio hardware.

use vstd::prelude::*;

use crate::time::NsInstant;

verus! {

/// The error of a timer operation.
#[derive(Clone, Copy, Debug, PartialEq, Eq, Structural)]
pub enum RadioTimerError {
    /// An instant or signal could not be safely scheduled, because the instant
    /// has passed or is too close. Gives the offending instant.
    Overdue(NsInstant),
    /// An event cannot be observed as it has already occurred.
    Already,
    /// There is no free timer channel.
    Busy,
}

/// Signals that can be sent to the radio over an event bus.
#[derive(Clone, Copy, Debug, PartialEq, Eq, Structural)]
pub enum HardwareSignal {
    /// Enables reception.
    RadioRxEnable,
    /// Enables transmission.
    RadioTxEnable,
    /// Cancels any reception or transmission.
    RadioDisable,
}

/// Events that the radio announces over an event bus.
#[derive(Clone, Copy, Debug, PartialEq, Eq, Structural)]
pub enum HardwareEvent {
    /// The receiver has been enabled.
    RadioRxEnabled,
    /// The reception of a frame has started.
    RadioFrameStarted,
    /// The radio has been disabled.
    RadioDisabled,
}

/// A signal that is to be sent at a precise instant.
#[derive(Clone, Copy, Debug, PartialEq, Eq, Structural)]
pub struct TimedSignal {
    pub instant: NsInstant,
    pub signal: HardwareSignal,
}

impl TimedSignal {
    /// Creates a timed signal.
    pub fn new(instant: NsInstant, signal: HardwareSignal) -> (r: Self)
        ensures
            r == (TimedSignal { instant, signal }),
    {
        Self { instant, signal }
    }
}

} // verus!
