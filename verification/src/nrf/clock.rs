//! The low-frequency clock.

use vstd::prelude::*;

verus! {

/// The source of the low-frequency clock.
#[derive(Clone, Copy, Debug, PartialEq, Eq, Structural)]
pub enum LfClockSource {
    /// The internal RC oscillator, which is not precise enough but for tests.
    Rc,
    /// Synthesized from the high-frequency clock, which consumes too much energy
    /// but for tests.
    Synth,
    /// A crystal oscillator.
    Xtal,
    /// A full-swing clock signal at a pin, which synchronizes several devices.
    External,
}

/// The oscillator that a clock source selects.
#[derive(Clone, Copy, Debug, PartialEq, Eq, Structural)]
pub enum LfOscillator {
    Rc,
    Synth,
    Xtal,
}

/// The settings of the low-frequency clock.
#[derive(Clone, Copy, Debug, PartialEq, Eq, Structural)]
pub struct LfClockSettings {
    pub oscillator: LfOscillator,
    pub external: bool,
    pub bypass: bool,
}

impl LfClockSource {
    /// The settings of the clock: an external source replaces and bypasses the
    /// crystal.
    pub fn settings(self) -> (r: LfClockSettings)
        ensures
            r.oscillator == (match self {
                LfClockSource::Rc => LfOscillator::Rc,
                LfClockSource::Synth => LfOscillator::Synth,
                LfClockSource::Xtal | LfClockSource::External => LfOscillator::Xtal,
            }),
            r.external == (self == LfClockSource::External),
            r.bypass == (self == LfClockSource::External),
    {
        let (oscillator, external) = match self {
            LfClockSource::Rc => (LfOscillator::Rc, false),
            LfClockSource::Synth => (LfOscillator::Synth, false),
            LfClockSource::Xtal => (LfOscillator::Xtal, false),
            LfClockSource::External => (LfOscillator::Xtal, true),
        };
        LfClockSettings { oscillator, external, bypass: external }
    }
}

} // verus!
