//! Properties of a PHY.

use vstd::prelude::*;

use core::marker::PhantomData;

use crate::constants::{self, A_MAX_SIFS_FRAME_SIZE};
use crate::time::{NsDuration, SymbolsOQpsk250Duration};

verus! {

/// Properties of a PHY. Durations are in symbol periods.
pub trait PhyConfig {
    /// Symbols per second.
    const SYMBOL_RATE: u32;

    /// The turnaround time between reception and transmission.
    const A_TURNAROUND_TIME: u64;

    /// The maximum PSDU length.
    const PHY_MAX_PACKET_SIZE: u16;

    /// The duration of a clear channel assessment.
    const PHY_CCA_DURATION: u64;

    /// Duration of a superframe slot when the superframe order is zero.
    const A_BASE_SLOT_DURATION: u64;

    /// Duration of a superframe when the superframe order is zero.
    const A_BASE_SUPERFRAME_DURATION: u64;

    /// The minimum duration of the contention access period.
    const A_MIN_CAP_LENGTH: u64;

    /// The type of the FCS: zero for four octets, one for two octets.
    const MAC_FCS_TYPE: u8;

    /// The basic time period of the CSMA-CA algorithm.
    const MAC_UNIT_BACKOFF_PERIOD: u64;

    /// Short interframe space.
    const MAC_SIFS_PERIOD: u64;

    /// Long interframe space.
    const MAC_LIFS_PERIOD: u64;

    /// Interframe space before an acknowledgment.
    const AIFS: u64;
}

/// The O-QPSK PHY with 250 kb/s.
#[derive(Clone, Copy, Debug, PartialEq, Eq)]
pub struct OQpsk250KBit;

impl OQpsk250KBit {
    /// Start of frame delimiter.
    pub const DEFAULT_SFD: u8 = 0xA7;

    /// Length of the PHY header.
    pub const PHY_HDR_LEN: usize = 1;

    /// Duration of the synchronization header: preamble (8 symbols) and start of
    /// frame delimiter (2 symbols).
    pub fn t_shr() -> (r: NsDuration)
        ensures
            r.ticks == 160_000,
    {
        SymbolsOQpsk250Duration::from_ticks(10).convert()
    }

    /// Duration of the PHY header: one octet (2 symbols).
    pub fn t_phr() -> (r: NsDuration)
        ensures
            r.ticks == 32_000,
    {
        SymbolsOQpsk250Duration::from_ticks(2).convert()
    }
}

/// A PHY that is known by its name.
#[derive(Debug)]
pub struct Phy<PhyName> {
    phy: PhantomData<PhyName>,
}

impl PhyConfig for Phy<OQpsk250KBit> {
    /// An octet has two symbols.
    const SYMBOL_RATE: u32 = 62_500;

    const A_TURNAROUND_TIME: u64 = constants::A_TURNAROUND_TIME;

    const PHY_MAX_PACKET_SIZE: u16 = constants::PHY_MAX_PACKET_SIZE_127;

    const PHY_CCA_DURATION: u64 = constants::PHY_CCA_DURATION;

    const A_BASE_SLOT_DURATION: u64 = constants::A_BASE_SLOT_DURATION;

    const A_BASE_SUPERFRAME_DURATION: u64 = constants::A_BASE_SUPERFRAME_DURATION;

    const A_MIN_CAP_LENGTH: u64 = constants::A_MIN_CAP_LENGTH;

    const MAC_FCS_TYPE: u8 = 1;

    const MAC_UNIT_BACKOFF_PERIOD: u64 = constants::MAC_UNIT_BACKOFF_PERIOD;

    const MAC_SIFS_PERIOD: u64 = constants::MAC_SIFS;

    const MAC_LIFS_PERIOD: u64 = constants::MAC_LIFS;

    const AIFS: u64 = constants::MAC_AIFS;
}

impl Phy<OQpsk250KBit> {
    /// The maximum PSDU length.
    pub fn max_packet_size() -> (r: u16)
        ensures
            r == 127,
    {
        <Self as PhyConfig>::PHY_MAX_PACKET_SIZE
    }

    /// The duration of a clear channel assessment.
    pub fn cca_duration() -> (r: NsDuration)
        ensures
            r.ticks == 128_000,
    {
        SymbolsOQpsk250Duration::from_ticks(<Self as PhyConfig>::PHY_CCA_DURATION).convert()
    }

    /// The basic time period of the CSMA-CA algorithm.
    pub fn unit_backoff_period() -> (r: NsDuration)
        ensures
            r.ticks == 320_000,
    {
        SymbolsOQpsk250Duration::from_ticks(<Self as PhyConfig>::MAC_UNIT_BACKOFF_PERIOD).convert()
    }
}

impl<PhyName> Phy<PhyName> where Self: PhyConfig {
    /// Length of the FCS.
    pub fn fcs_length() -> (r: u8)
        requires
            <Self as PhyConfig>::MAC_FCS_TYPE <= 1,
        ensures
            r == (if <Self as PhyConfig>::MAC_FCS_TYPE == 0 {
                4
            } else {
                2int
            }),
    {
        if <Self as PhyConfig>::MAC_FCS_TYPE == 0 {
            4
        } else {
            2
        }
    }
}

/// An interframe space.
#[derive(Debug)]
pub enum Ifs<PhyImpl> {
    /// Before an acknowledgment.
    Aifs(PhantomData<PhyImpl>),
    /// After a short frame.
    Sifs(PhantomData<PhyImpl>),
    /// After a long frame.
    Lifs(PhantomData<PhyImpl>),
}

impl<PhyImpl> Clone for Ifs<PhyImpl> {
    fn clone(&self) -> (r: Self)
        ensures
            r == *self,
    {
        match self {
            Ifs::Aifs(_) => Ifs::Aifs(PhantomData),
            Ifs::Sifs(_) => Ifs::Sifs(PhantomData),
            Ifs::Lifs(_) => Ifs::Lifs(PhantomData),
        }
    }
}

impl<PhyImpl> Copy for Ifs<PhyImpl> {

}

impl<PhyImpl: PhyConfig> Ifs<PhyImpl> {
    /// The interframe space before an acknowledgment.
    pub fn ack() -> (r: Self)
        ensures
            r is Aifs,
    {
        Ifs::Aifs(PhantomData)
    }

    /// The short interframe space.
    pub fn short() -> (r: Self)
        ensures
            r is Sifs,
    {
        Ifs::Sifs(PhantomData)
    }

    /// The long interframe space.
    pub fn long() -> (r: Self)
        ensures
            r is Lifs,
    {
        Ifs::Lifs(PhantomData)
    }

    /// The interframe space after an MPDU of the given length: short up to
    /// 18 octets, long otherwise.
    pub fn from_mpdu_length(mpdu_length: u16) -> (r: Self)
        ensures
            mpdu_length <= 18 ==> r is Sifs,
            mpdu_length > 18 ==> r is Lifs,
    {
        if mpdu_length <= A_MAX_SIFS_FRAME_SIZE {
            Self::short()
        } else {
            Self::long()
        }
    }

    /// The number of symbol periods.
    pub open spec fn symbols(self) -> u64 {
        match self {
            Ifs::Aifs(_) => PhyImpl::AIFS,
            Ifs::Sifs(_) => PhyImpl::MAC_SIFS_PERIOD,
            Ifs::Lifs(_) => PhyImpl::MAC_LIFS_PERIOD,
        }
    }
}

impl Ifs<Phy<OQpsk250KBit>> {
    /// The duration of the interframe space: 192 us, or 640 us if it is long.
    pub fn into_local_clock_duration(self) -> (r: NsDuration)
        ensures
            r.ticks == 16_000 * self.symbols(),
            r.ticks == (if self is Lifs {
                640_000
            } else {
                192_000int
            }),
    {
        let symbols: u64 = match self {
            Ifs::Aifs(_) => <Phy<OQpsk250KBit> as PhyConfig>::AIFS,
            Ifs::Sifs(_) => <Phy<OQpsk250KBit> as PhyConfig>::MAC_SIFS_PERIOD,
            Ifs::Lifs(_) => <Phy<OQpsk250KBit> as PhyConfig>::MAC_LIFS_PERIOD,
        };
        SymbolsOQpsk250Duration::from_ticks(symbols).convert()
    }
}

impl From<Ifs<Phy<OQpsk250KBit>>> for NsDuration {
    fn from(value: Ifs<Phy<OQpsk250KBit>>) -> (r: NsDuration) {
        value.into_local_clock_duration()
    }
}

impl vstd::std_specs::convert::FromSpecImpl<Ifs<Phy<OQpsk250KBit>>> for NsDuration {
    open spec fn obeys_from_spec() -> bool {
        true
    }

    open spec fn from_spec(value: Ifs<Phy<OQpsk250KBit>>) -> NsDuration {
        NsDuration {
            ticks: if value is Lifs {
                640_000
            } else {
                192_000
            },
        }
    }
}

/// The FCS of this PHY has two octets, and its frames have up to 127 octets. Its periods
/// in symbols are those of the MAC layer.
pub proof fn lemma_oqpsk_config(fcs: u8)
    requires
        call_ensures(Phy::<OQpsk250KBit>::fcs_length, (), fcs),
    ensures
        fcs == 2,
        <Phy<OQpsk250KBit> as PhyConfig>::SYMBOL_RATE == 62_500,
        <Phy<OQpsk250KBit> as PhyConfig>::PHY_MAX_PACKET_SIZE == 127,
        <Phy<OQpsk250KBit> as PhyConfig>::A_TURNAROUND_TIME == 12,
        <Phy<OQpsk250KBit> as PhyConfig>::PHY_CCA_DURATION == 8,
        <Phy<OQpsk250KBit> as PhyConfig>::A_BASE_SLOT_DURATION == 60,
        <Phy<OQpsk250KBit> as PhyConfig>::A_BASE_SUPERFRAME_DURATION == 960,
        <Phy<OQpsk250KBit> as PhyConfig>::A_MIN_CAP_LENGTH == 440,
        <Phy<OQpsk250KBit> as PhyConfig>::MAC_UNIT_BACKOFF_PERIOD == 20,
        <Phy<OQpsk250KBit> as PhyConfig>::MAC_SIFS_PERIOD == 12,
        <Phy<OQpsk250KBit> as PhyConfig>::MAC_LIFS_PERIOD == 40,
        <Phy<OQpsk250KBit> as PhyConfig>::AIFS == 12,
{
}

} // verus!
