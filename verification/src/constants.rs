//! Constants of the MAC and PHY layers. Durations are in symbol periods.

use vstd::prelude::*;

verus! {

/// The number of consecutive lost beacons that make a receiving device declare a
/// loss of synchronization.
pub const A_MAX_LOST_BEACONS: u8 = 4;

/// The maximum length of an MPDU that can be followed by a short interframe
/// space.
pub const A_MAX_SIFS_FRAME_SIZE: u16 = 18;

/// The number of slots of any superframe.
pub const A_NUM_SUPERFRAME_SLOTS: u8 = 16;

/// The number of superframes in which a GTS descriptor exists in the beacon of
/// the PAN coordinator.
pub const A_GTS_DESC_PERSISTENCE_TIME: u8 = 4;

/// Duration of a superframe slot when the superframe order is zero.
pub const A_BASE_SLOT_DURATION: u64 = 60;

/// Duration of a superframe when the superframe order is zero.
pub const A_BASE_SUPERFRAME_DURATION: u64 = A_BASE_SLOT_DURATION * 16;

/// The minimum duration of the contention access period.
pub const A_MIN_CAP_LENGTH: u64 = 440;

/// The turnaround time between reception and transmission.
pub const A_TURNAROUND_TIME: u64 = 12;

/// The duration of a clear channel assessment.
pub const PHY_CCA_DURATION: u64 = 8;

/// The basic time period of the CSMA-CA algorithm.
pub const MAC_UNIT_BACKOFF_PERIOD: u64 = A_TURNAROUND_TIME + PHY_CCA_DURATION;

/// Short interframe space.
pub const MAC_SIFS: u64 = 12;

/// Long interframe space.
pub const MAC_LIFS: u64 = 40;

/// Interframe space before an acknowledgment.
pub const MAC_AIFS: u64 = MAC_SIFS;

/// The maximum PSDU length of SUN, TVWS, RCC, LECIM FSK and MSK PHYs.
pub const PHY_MAX_PACKET_SIZE_2047: u16 = 2048;

/// The maximum PSDU length of all other PHYs.
pub const PHY_MAX_PACKET_SIZE_127: u16 = 127;

/// Start of frame delimiter of the O-QPSK PHY.
pub const DEFAULT_SFD: u8 = 0xA7;

/// Length of the PHY header of the O-QPSK PHY.
pub const PHY_HDR_LEN: usize = 1;

/// Length of the FCS.
pub const FCS_LEN: usize = 2;

} // verus!
