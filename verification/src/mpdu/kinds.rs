//! Kinds of frames.

use vstd::prelude::*;

use crate::frame::frame_control::{
    fields_of, frame_control_valid, FrameControl, FrameControlFields, FrameType, FrameVersion,
};
use crate::octets::{u16_at, Octets};
use crate::Error;

verus! {

/// A beacon frame of a version up to 2006.
#[derive(Debug)]
pub struct BeaconFrame<T> {
    pub buffer: T,
}

/// A beacon frame of a version since 2015.
#[derive(Debug)]
pub struct EnhancedBeaconFrame<T> {
    pub buffer: T,
}

/// A data frame.
#[derive(Debug)]
pub struct DataFrame<T> {
    pub buffer: T,
}

/// A frame of a known kind.
#[derive(Debug)]
pub enum Frame<T> {
    /// A beacon frame of a version up to 2006.
    Beacon(BeaconFrame<T>),
    /// A beacon frame of a version since 2015.
    EnhancedBeacon(EnhancedBeaconFrame<T>),
    /// A data frame.
    Data(DataFrame<T>),
}

/// Whether a frame control field announces a frame of a known kind.
pub open spec fn kind_known(f: FrameControlFields) -> bool {
    frame_control_valid(f) && (f.frame_type == FrameType::Beacon || f.frame_type == FrameType::Data)
}

impl<T> Frame<T> {
    /// The octets of the frame.
    pub open spec fn container(&self) -> T {
        match self {
            Frame::Beacon(frame) => frame.buffer,
            Frame::EnhancedBeacon(frame) => frame.buffer,
            Frame::Data(frame) => frame.buffer,
        }
    }

    /// The beacon frame of a version up to 2006.
    pub fn into_beacon(self) -> (r: BeaconFrame<T>)
        requires
            self is Beacon,
        ensures
            self == Frame::Beacon(r),
    {
        match self {
            Frame::Beacon(frame) => frame,
            _ => vstd::pervasive::unreached(),
        }
    }

    /// The beacon frame of a version since 2015.
    pub fn into_enhanced_beacon(self) -> (r: EnhancedBeaconFrame<T>)
        requires
            self is EnhancedBeacon,
        ensures
            self == Frame::EnhancedBeacon(r),
    {
        match self {
            Frame::EnhancedBeacon(frame) => frame,
            _ => vstd::pervasive::unreached(),
        }
    }

    /// The data frame.
    pub fn into_data(self) -> (r: DataFrame<T>)
        requires
            self is Data,
        ensures
            self == Frame::Data(r),
    {
        match self {
            Frame::Data(frame) => frame,
            _ => vstd::pervasive::unreached(),
        }
    }
}

impl<T: Octets> Frame<T> {
    /// Tells the kind of a frame by its frame control field.
    ///
    /// # Errors
    ///
    /// Fails if the frame control field is incomplete or invalid, or the frame is
    /// neither a beacon nor a data frame.
    pub fn new(buffer: T) -> (r: Result<Self, Error>)
        ensures
            r is Ok <==> buffer.bytes().len() >= 2 && kind_known(
                fields_of(u16_at(buffer.bytes(), 0) as u16),
            ),
            r matches Ok(frame) ==> ({
                let fields = fields_of(u16_at(buffer.bytes(), 0) as u16);
                &&& frame.container() == buffer
                &&& frame is Data <==> fields.frame_type == FrameType::Data
                &&& frame is EnhancedBeacon <==> fields.frame_type == FrameType::Beacon
                    && fields.frame_version == FrameVersion::Ieee802154
            }),
    {
        let octets = buffer.octets();
        if octets.len() < 2 {
            return Err(Error);
        }
        let frame_control = match FrameControl::new(&octets[0..2]) {
            Ok(frame_control) => frame_control,
            Err(_) => return Err(Error),
        };
        match frame_control.frame_type() {
            FrameType::Beacon => match frame_control.frame_version() {
                FrameVersion::Ieee802154_2003 | FrameVersion::Ieee802154_2006 => Ok(
                    Frame::Beacon(BeaconFrame { buffer }),
                ),
                FrameVersion::Ieee802154 => Ok(
                    Frame::EnhancedBeacon(EnhancedBeaconFrame { buffer }),
                ),
                FrameVersion::Unknown => Err(Error),
            },
            FrameType::Data => Ok(Frame::Data(DataFrame { buffer })),
            _ => Err(Error),
        }
    }
}

} // verus!
