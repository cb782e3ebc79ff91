//! How much of the structure of an MPDU is known.

use vstd::prelude::*;

verus! {

/// Nothing is known yet.
#[derive(Clone, Copy, Debug, PartialEq, Eq)]
pub struct MpduNoFields;

/// The frame control field and the sequence number are known.
#[derive(Clone, Copy, Debug, PartialEq, Eq)]
pub struct MpduWithFrameControl;

/// The fields up to the addressing fields are known.
#[derive(Clone, Copy, Debug, PartialEq, Eq)]
pub struct MpduWithAddressing;

/// The fields up to the auxiliary security header are known.
#[derive(Clone, Copy, Debug, PartialEq, Eq)]
pub struct MpduWithSecurity;

/// The fields up to the information elements are known.
#[derive(Clone, Copy, Debug, PartialEq, Eq)]
pub struct MpduWithIes;

/// All fields are known.
#[derive(Clone, Copy, Debug, PartialEq, Eq)]
pub struct MpduWithAllFields;

/// The states in which the addressing fields are known.
pub trait MpduParsedUpToAddressing {

}

impl MpduParsedUpToAddressing for MpduWithAddressing {

}

impl MpduParsedUpToAddressing for MpduWithSecurity {

}

impl MpduParsedUpToAddressing for MpduWithAllFields {

}

/// The states in which the security related fields are known.
pub trait MpduParsedUpToSecurity {

}

impl MpduParsedUpToSecurity for MpduWithSecurity {

}

impl MpduParsedUpToSecurity for MpduWithAllFields {

}

/// The states in which the information elements are known.
pub trait MpduParsedUpToIes {

}

impl MpduParsedUpToIes for MpduWithAllFields {

}

} // verus!
