//! The structure of a frame buffer.

use vstd::prelude::*;

use core::marker::PhantomData;
use core::ops::Range;

use crate::frame::driver_config::{
    config_valid, DriverConfig, RadioFrameSized, RadioFrameUnsized,
};

verus! {

/// Describes a frame buffer: headroom, SDU (the MPDU with its FCS, if that is
/// not handled by the driver) and tailroom.
#[derive(Debug)]
pub struct RadioFrameRepr<Config, State> {
    config: PhantomData<Config>,
    /// The length of the SDU once it is known.
    sdu_length: Option<u16>,
    state: PhantomData<State>,
}

impl<Config: DriverConfig, State> Clone for RadioFrameRepr<Config, State> {
    fn clone(&self) -> (r: Self)
        ensures
            r.sdu() == self.sdu(),
    {
        Self { config: PhantomData, sdu_length: self.sdu_length, state: PhantomData }
    }
}

impl<Config: DriverConfig, State> Copy for RadioFrameRepr<Config, State> {

}

impl<Config: DriverConfig, State> RadioFrameRepr<Config, State> {
    /// The length of the SDU once it is known.
    pub closed spec fn sdu(&self) -> Option<u16> {
        self.sdu_length
    }

    /// Whether the SDU has a length that the driver allows.
    pub open spec fn sized(&self) -> bool {
        &&& config_valid::<Config>()
        &&& self.sdu() matches Some(length)
        &&& Config::FCS_LENGTH < length <= Config::MAX_SDU_LENGTH
    }

    /// Length of the headroom.
    pub fn headroom_length(&self) -> (r: u8)
        ensures
            r == Config::HEADROOM,
    {
        Config::HEADROOM
    }

    /// Length of the tailroom.
    pub fn tailroom_length(&self) -> (r: u8)
        ensures
            r == Config::TAILROOM,
    {
        Config::TAILROOM
    }

    /// Length of the headroom and the tailroom.
    pub fn driver_overhead(&self) -> (r: u8)
        requires
            config_valid::<Config>(),
        ensures
            r == Config::HEADROOM + Config::TAILROOM,
    {
        self.headroom_length() + self.tailroom_length()
    }

    /// Maximum length of an SDU.
    pub fn max_sdu_length(&self) -> (r: u16)
        ensures
            r == Config::MAX_SDU_LENGTH,
    {
        Config::MAX_SDU_LENGTH
    }

    /// Maximum length of an SDU without its FCS.
    pub fn max_sdu_length_wo_fcs(&self) -> (r: u16)
        requires
            config_valid::<Config>(),
        ensures
            r == Config::MAX_SDU_LENGTH - Config::FCS_LENGTH,
            r > 0,
    {
        self.max_sdu_length() - self.fcs_length() as u16
    }

    /// Length of the FCS, if it is not handled by the driver.
    pub fn fcs_length(&self) -> (r: u8)
        ensures
            r == Config::FCS_LENGTH,
    {
        Config::FCS_LENGTH
    }

    /// Length of a buffer that can hold any frame.
    pub fn max_buffer_length(&self) -> (r: u16)
        requires
            config_valid::<Config>(),
        ensures
            r == Config::MAX_SDU_LENGTH + Config::HEADROOM + Config::TAILROOM,
    {
        self.max_sdu_length() + self.driver_overhead() as u16
    }
}

impl<Config: DriverConfig> RadioFrameRepr<Config, RadioFrameUnsized> {
    /// Describes a buffer for a frame of unknown length.
    pub fn new() -> (r: Self)
        ensures
            r.sdu() is None,
    {
        Self { config: PhantomData, sdu_length: None, state: PhantomData }
    }

    /// Describes a buffer for a frame of known, non-zero length without its FCS.
    pub fn with_sdu(&self, sdu_length_wo_fcs: u16) -> (r: RadioFrameRepr<Config, RadioFrameSized>)
        requires
            config_valid::<Config>(),
            0 < sdu_length_wo_fcs,
            sdu_length_wo_fcs + Config::FCS_LENGTH <= Config::MAX_SDU_LENGTH,
        ensures
            r.sized(),
            r.sdu()->0 == sdu_length_wo_fcs + Config::FCS_LENGTH,
    {
        RadioFrameRepr::<Config, RadioFrameSized>::new(sdu_length_wo_fcs)
    }
}

impl<Config: DriverConfig> Default for RadioFrameRepr<Config, RadioFrameUnsized> {
    fn default() -> (r: Self)
        ensures
            r.sdu() is None,
    {
        Self::new()
    }
}

impl<Config: DriverConfig> RadioFrameRepr<Config, RadioFrameSized> {
    /// Describes a buffer for a frame of known, non-zero length without its FCS.
    pub fn new(sdu_length_wo_fcs: u16) -> (r: Self)
        requires
            config_valid::<Config>(),
            0 < sdu_length_wo_fcs,
            sdu_length_wo_fcs + Config::FCS_LENGTH <= Config::MAX_SDU_LENGTH,
        ensures
            r.sized(),
            r.sdu()->0 == sdu_length_wo_fcs + Config::FCS_LENGTH,
    {
        let sdu_length: u16 = sdu_length_wo_fcs + Config::FCS_LENGTH as u16;
        Self { config: PhantomData, sdu_length: Some(sdu_length), state: PhantomData }
    }

    /// Offset of the SDU.
    pub fn offset_sdu(&self) -> (r: u8)
        ensures
            r == Config::HEADROOM,
    {
        self.headroom_length()
    }

    /// Offset of the tailroom.
    pub fn offset_tailroom(&self) -> (r: u16)
        requires
            self.sized(),
        ensures
            r == Config::HEADROOM + self.sdu()->0,
            r > 0,
    {
        self.sdu_length() + self.offset_sdu() as u16
    }

    /// Length of a buffer that holds exactly this frame.
    pub fn pdu_length(&self) -> (r: u16)
        requires
            self.sized(),
        ensures
            r == Config::HEADROOM + self.sdu()->0 + Config::TAILROOM,
    {
        self.offset_tailroom() + self.tailroom_length() as u16
    }

    /// Offset range of the headroom.
    pub fn headroom_range(&self) -> (r: Range<usize>)
        ensures
            r.start == 0,
            r.end == Config::HEADROOM,
    {
        0..self.offset_sdu() as usize
    }

    /// Offset range of the tailroom.
    pub fn tailroom_range(&self) -> (r: Range<usize>)
        requires
            self.sized(),
        ensures
            r.start == Config::HEADROOM + self.sdu()->0,
            r.end == Config::HEADROOM + self.sdu()->0 + Config::TAILROOM,
    {
        self.offset_tailroom() as usize..self.pdu_length() as usize
    }

    /// Offset of the FCS, or of the tailroom if the FCS is handled by the
    /// driver.
    pub fn offset_fcs(&self) -> (r: u16)
        requires
            self.sized(),
        ensures
            r == Config::HEADROOM + self.sdu()->0 - Config::FCS_LENGTH,
            r > 0,
    {
        self.offset_tailroom() - self.fcs_length() as u16
    }

    /// Offset range of the SDU without its FCS.
    pub fn sdu_range_wo_fcs(&self) -> (r: Range<usize>)
        requires
            self.sized(),
        ensures
            r.start == Config::HEADROOM,
            r.end == Config::HEADROOM + self.sdu()->0 - Config::FCS_LENGTH,
    {
        self.offset_sdu() as usize..self.offset_fcs() as usize
    }

    /// Offset range of the FCS, if it is not handled by the driver.
    pub fn fcs_range(&self) -> (r: Option<Range<usize>>)
        requires
            self.sized(),
        ensures
            r is Some <==> Config::FCS_LENGTH > 0,
            r matches Some(range) ==> {
                &&& range.start == Config::HEADROOM + self.sdu()->0 - Config::FCS_LENGTH
                &&& range.end == Config::HEADROOM + self.sdu()->0
            },
    {
        let offset_fcs: u16 = self.offset_fcs();
        let offset_tailroom: u16 = self.offset_tailroom();
        if offset_fcs == offset_tailroom {
            None
        } else {
            Some(offset_fcs as usize..offset_tailroom as usize)
        }
    }

    /// Offset range of the whole buffer.
    pub fn pdu_range(&self) -> (r: Range<usize>)
        requires
            self.sized(),
        ensures
            r.start == 0,
            r.end == Config::HEADROOM + self.sdu()->0 + Config::TAILROOM,
    {
        0..self.pdu_length() as usize
    }

    /// Length of the SDU with its FCS, if that is not handled by the driver.
    pub fn sdu_length(&self) -> (r: u16)
        requires
            self.sized(),
        ensures
            r == self.sdu()->0,
            r > 0,
    {
        match self.sdu_length {
            Some(length) => length,
            None => 0,
        }
    }

    /// Length of the SDU without its FCS.
    pub fn sdu_length_wo_fcs(&self) -> (r: u16)
        requires
            self.sized(),
        ensures
            r == self.sdu()->0 - Config::FCS_LENGTH,
            r > 0,
    {
        self.sdu_length() - self.fcs_length() as u16
    }
}

/// A frame fits into the largest buffer, and the ranges of its parts follow each
/// other without a gap.
pub proof fn lemma_ranges_adjacent<Config: DriverConfig>(
    repr: RadioFrameRepr<Config, RadioFrameSized>,
)
    requires
        repr.sized(),
    ensures
        ({
            let sdu_end_wo_fcs = Config::HEADROOM + repr.sdu()->0 - Config::FCS_LENGTH;
            let sdu_end = Config::HEADROOM + repr.sdu()->0;
            let end = Config::HEADROOM + repr.sdu()->0 + Config::TAILROOM;
            &&& 0 <= Config::HEADROOM < sdu_end_wo_fcs <= sdu_end <= end
            &&& end <= Config::MAX_SDU_LENGTH + Config::HEADROOM + Config::TAILROOM
        }),
{
}

} // verus!
