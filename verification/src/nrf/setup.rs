//! The initial settings of the timers and of the radio.

use vstd::prelude::*;

use crate::constants::DEFAULT_SFD;
use crate::nrf::frame_info::FC_BITS;
use crate::nrf::ppi::{bit, PpiChannels, TIMER_OVERFLOW_PROTECTION_CHANNEL};
use crate::nrf::radio_config::{frequency_offset, tx_power_value};
use crate::nrf::rtc::RTC_HALF_PERIOD;
use crate::phy::{OQpsk250KBit, Phy};

verus! {

/// Whether a driver was initialized.
#[derive(Clone, Copy, Debug, PartialEq, Eq, Structural)]
pub enum InitializationState {
    Uninitialized,
    Initializing,
    Initialized,
}

impl InitializationState {
    /// Begins the initialization, which can be done only once.
    pub fn begin(self) -> (r: Option<InitializationState>)
        ensures
            r == (if self == InitializationState::Uninitialized {
                Some(InitializationState::Initializing)
            } else {
                None
            }),
    {
        match self {
            InitializationState::Uninitialized => Some(InitializationState::Initializing),
            _ => None,
        }
    }

    /// Whether the driver may be used.
    pub fn is_initialized(self) -> (r: bool)
        ensures
            r == (self == InitializationState::Initialized),
    {
        match self {
            InitializationState::Initialized => true,
            _ => false,
        }
    }
}

/// The initial settings of the timers.
#[derive(Clone, Copy, Debug, PartialEq, Eq, Structural)]
pub struct TimerSetup {
    /// The mask of all bus channels that the timer uses.
    pub ppi_channel_mask: u32,
    /// The compare value that stops the high-precision timer.
    pub overflow_compare: u32,
    /// The shortcut from the compare event of the overflow protection channel to
    /// the stop task.
    pub overflow_shorts: u32,
    /// The compare value of the sleep timer that begins the second half period.
    pub half_period_compare: u32,
}

/// The initial settings of the timers, if the bus channels are valid.
///
/// The high-precision timer is stopped before it overflows. Half periods of the
/// sleep timer are counted in the middle and at the end of its range.
pub fn timer_setup(channels: &PpiChannels) -> (r: Option<TimerSetup>)
    ensures
        r is Some <==> channels.valid(),
        r matches Some(setup) ==> {
            &&& forall|index: u32|
                index < 32 ==> (#[trigger] bit(setup.ppi_channel_mask, index) <==> {
                    ||| index == channels.ppi_channel1
                    ||| index == channels.ppi_channel2
                    ||| 20 <= index <= 22
                    ||| index == 31
                })
            &&& setup.overflow_compare == u32::MAX
            &&& forall|index: u32|
                index < 32 ==> (#[trigger] bit(setup.overflow_shorts, index) <==> index == 8
                    + TIMER_OVERFLOW_PROTECTION_CHANNEL)
            &&& setup.half_period_compare == RTC_HALF_PERIOD
        },
{
    if !channels.is_valid() {
        return None;
    }
    proof {
        assert forall|index: u32| index < 32 implies (#[trigger] bit(0x800, index) <==> index == 8
            + TIMER_OVERFLOW_PROTECTION_CHANNEL) by {
            assert(((0x800u32 >> index) & 1 == 1) == (index == 11)) by (bit_vector)
                requires
                    index < 32,
            ;
        }
    }
    Some(
        TimerSetup {
            ppi_channel_mask: channels.channel_mask(),
            overflow_compare: u32::MAX,
            overflow_shorts: 0x800,
            half_period_compare: 0x80_0000,
        },
    )
}

/// How the radio finds out whether the channel is clear.
#[derive(Clone, Copy, Debug, PartialEq, Eq, Structural)]
pub enum CcaMode {
    /// It looks for a signal of the PHY.
    CarrierSense,
    /// It looks for energy above a threshold.
    EnergyDetection { ed_threshold: u8 },
}

/// The initial settings of the radio.
#[derive(Clone, Copy, Debug, PartialEq, Eq, Structural)]
pub struct RadioSetup {
    /// The polynomial of the FCS with its highest term.
    pub crc_polynomial: u32,
    pub crc_initial: u32,
    /// The number of bits of the PHY header.
    pub length_field_bits: u8,
    /// The longest frame with its FCS.
    pub max_length: u8,
    /// After how many bits of a frame the bit counter announces the frame control
    /// field.
    pub bit_counter: u32,
    pub sfd: u8,
    /// The register value of the transmission power.
    pub tx_power: u8,
    /// The offset of the channel in MHz from 2400 MHz.
    pub frequency: u8,
    pub cca: CcaMode,
}

/// The initial settings of the radio: the O-QPSK PHY with 250 kb/s, 0 dBm, channel
/// 12 and carrier sense.
pub fn radio_setup() -> (r: RadioSetup)
    ensures
        r.crc_polynomial == 0x1_1021,
        r.crc_initial == 0,
        r.length_field_bits == 8,
        r.max_length == 127,
        r.bit_counter == 16,
        r.sfd == 0xa7,
        r.tx_power == 0,
        r.frequency == 10,
        r.cca == CcaMode::CarrierSense,
{
    let tx_power: u8 = match tx_power_value(0) {
        Some(value) => value,
        None => 0,
    };
    RadioSetup {
        crc_polynomial: 0x1_1021,
        crc_initial: 0,
        length_field_bits: 8,
        max_length: Phy::<OQpsk250KBit>::max_packet_size() as u8,
        bit_counter: FC_BITS,
        sfd: DEFAULT_SFD,
        tx_power,
        frequency: frequency_offset(12),
        cca: CcaMode::CarrierSense,
    }
}

} // verus!
