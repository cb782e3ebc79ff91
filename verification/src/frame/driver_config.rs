//! Properties of a radio driver that determine the structure of frame buffers.

use vstd::prelude::*;

verus! {

/// Properties of a radio driver.
pub trait DriverConfig {
    /// Number of octets that the driver needs before the frame.
    const HEADROOM: u8;

    /// Number of octets that the driver needs behind the frame.
    const TAILROOM: u8;

    /// Maximum length of a frame including the FCS, if the FCS is not handled by
    /// the driver.
    const MAX_SDU_LENGTH: u16;

    /// Length of the FCS, if it is not handled by the driver, otherwise zero.
    const FCS_LENGTH: u8;
}

/// Whether buffers for the frames of a driver are no longer than a 16-bit length
/// can tell, and frames are longer than their FCS.
pub open spec fn config_valid<Config: DriverConfig>() -> bool {
    &&& Config::HEADROOM + Config::TAILROOM <= u8::MAX
    &&& Config::FCS_LENGTH < Config::MAX_SDU_LENGTH
    &&& Config::MAX_SDU_LENGTH + Config::HEADROOM + Config::TAILROOM <= u16::MAX
}

/// State of a frame whose length is not known yet.
#[derive(Clone, Copy, Debug, PartialEq, Eq)]
pub struct RadioFrameUnsized;

/// State of a frame whose length is known.
#[derive(Clone, Copy, Debug, PartialEq, Eq)]
pub struct RadioFrameSized;

} // verus!
