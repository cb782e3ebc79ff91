//! The structure of the addressing fields.

use vstd::prelude::*;

use crate::frame::addressing::AddressingMode;
use crate::frame::frame_control::{FrameControl, FrameControlFields, FrameVersion};
use crate::octets::Octets;
use crate::Error;

verus! {

/// How the PAN IDs of a frame are compressed.
#[derive(Clone, Copy, Debug, PartialEq, Eq, Structural)]
pub enum PanIdCompressionRepr {
    /// The PAN ID compression bit is set.
    Yes,
    /// The PAN ID compression bit is not set.
    No,
    /// Addressing as of the versions of the protocol up to 2006.
    Legacy,
}

/// Describes which addressing fields a frame has.
#[derive(Clone, Copy, Debug, PartialEq, Eq, Structural)]
pub struct AddressingRepr {
    pub(crate) dst: AddressingMode,
    pub(crate) src: AddressingMode,
    pub(crate) pan_ids_equal: bool,
    pub(crate) pan_id_compression: PanIdCompressionRepr,
}

/// Whether an address of the given mode is present.
pub open spec fn present(mode: AddressingMode) -> bool {
    mode == AddressingMode::Short || mode == AddressingMode::Extended
}

/// Whether the destination and the source PAN ID are present, if the addressing
/// is valid.
///
/// Before 2015 each present address comes with its PAN ID, except that the
/// source PAN ID is omitted if both are present and equal. PAN IDs can only be
/// said to be equal if both addresses are present, and at least one address must
/// be.
///
/// Since 2015 the PAN ID compression bit decides:
/// - Without any address the bit tells whether a destination PAN ID is present.
/// - The PAN ID of a single address is present unless the bit is set.
/// - Two extended addresses share a destination PAN ID unless the bit is set.
/// - Other pairs of addresses have a destination PAN ID. They have a source PAN
///   ID unless the bit is set.
pub open spec fn pan_ids_present(
    dst: AddressingMode,
    src: AddressingMode,
    pan_ids_equal: bool,
    compression: PanIdCompressionRepr,
) -> Option<(bool, bool)> {
    let both = present(dst) && present(src);
    let compressed = compression == PanIdCompressionRepr::Yes;
    if compression == PanIdCompressionRepr::Legacy {
        if both || ((present(dst) || present(src)) && !pan_ids_equal) {
            Some((present(dst), present(src) && !pan_ids_equal))
        } else {
            None
        }
    } else if !present(dst) && !present(src) {
        Some((compressed, false))
    } else if !both || (dst == AddressingMode::Extended && src == AddressingMode::Extended) {
        Some((present(dst) && !compressed, !present(dst) && !compressed))
    } else {
        Some((true, !compressed))
    }
}

/// Length of a PAN ID field.
pub open spec fn pan_id_octets(is_present: bool) -> int {
    if is_present {
        2
    } else {
        0
    }
}

impl AddressingRepr {
    /// Destination addressing mode.
    pub closed spec fn dst_mode(&self) -> AddressingMode {
        self.dst
    }

    /// Source addressing mode.
    pub closed spec fn src_mode(&self) -> AddressingMode {
        self.src
    }

    /// Whether the PAN IDs are known to be equal.
    pub closed spec fn same_pan(&self) -> bool {
        self.pan_ids_equal
    }

    /// How the PAN IDs are compressed.
    pub closed spec fn compression(&self) -> PanIdCompressionRepr {
        self.pan_id_compression
    }

    #[verifier::type_invariant]
    spec fn inv(self) -> bool {
        self.dst != AddressingMode::Unknown && self.src != AddressingMode::Unknown
    }

    /// Whether the addressing modes are known.
    pub open spec fn known(&self) -> bool {
        self.dst_mode() != AddressingMode::Unknown && self.src_mode() != AddressingMode::Unknown
    }

    /// Which of the PAN IDs are present, if the addressing is valid.
    pub open spec fn pan_ids(&self) -> Option<(bool, bool)> {
        pan_ids_present(self.dst_mode(), self.src_mode(), self.same_pan(), self.compression())
    }

    /// The lengths of the four addressing fields, if the addressing is valid.
    pub open spec fn lengths(&self) -> Option<(int, int, int, int)> {
        match self.pan_ids() {
            Some((dst_pan_id, src_pan_id)) => Some(
                (
                    pan_id_octets(dst_pan_id),
                    self.dst_mode().octets(),
                    pan_id_octets(src_pan_id),
                    self.src_mode().octets(),
                ),
            ),
            None => None,
        }
    }

    /// The length of the addressing fields altogether, if the addressing is
    /// valid.
    pub open spec fn total_length(&self) -> Option<int> {
        match self.lengths() {
            Some((a, b, c, d)) => Some(a + b + c + d),
            None => None,
        }
    }

    /// Creates an addressing representation.
    pub fn new(
        dst: AddressingMode,
        src: AddressingMode,
        pan_ids_equal: bool,
        pan_id_compression: PanIdCompressionRepr,
    ) -> (r: Self)
        requires
            dst != AddressingMode::Unknown,
            src != AddressingMode::Unknown,
        ensures
            r.known(),
            r.dst_mode() == dst,
            r.src_mode() == src,
            r.same_pan() == pan_ids_equal,
            r.compression() == pan_id_compression,
    {
        Self { dst, src, pan_ids_equal, pan_id_compression }
    }

    /// Creates an addressing representation with the addressing of the versions
    /// of the protocol up to 2006.
    pub fn new_legacy_addressing(
        dst: AddressingMode,
        src: AddressingMode,
        pan_ids_equal: bool,
    ) -> (r: Self)
        requires
            dst != AddressingMode::Unknown,
            src != AddressingMode::Unknown,
        ensures
            r.known(),
            r.dst_mode() == dst,
            r.src_mode() == src,
            r.same_pan() == pan_ids_equal,
            r.compression() == PanIdCompressionRepr::Legacy,
    {
        Self::new(dst, src, pan_ids_equal, PanIdCompressionRepr::Legacy)
    }

    /// Derives the addressing representation from a frame control field with
    /// known addressing modes.
    ///
    /// # Errors
    ///
    /// Fails if the frame version is unknown.
    pub fn from_frame_control<Bytes: Octets>(frame_control: FrameControl<Bytes>) -> (r: Result<
        Self,
        Error,
    >)
        requires
            frame_control@.len() >= 2,
            frame_control.fields().dst_addressing_mode != AddressingMode::Unknown,
            frame_control.fields().src_addressing_mode != AddressingMode::Unknown,
        ensures
            r is Ok <==> frame_control.fields().frame_version != FrameVersion::Unknown,
            r matches Ok(repr) ==> repr.known() && repr.describes(frame_control.fields()),
    {
        let dst = frame_control.dst_addressing_mode();
        let src = frame_control.src_addressing_mode();
        let compressed: bool = frame_control.pan_id_compression();
        match frame_control.frame_version() {
            FrameVersion::Ieee802154_2003 | FrameVersion::Ieee802154_2006 => {
                // If both addresses are present, then the PAN ID compression bit
                // tells whether their PAN IDs are identical. If only one address
                // is present, then its PAN ID is present, too.
                let pan_ids_equal: bool = if dst != AddressingMode::Absent && src
                    != AddressingMode::Absent {
                    compressed
                } else {
                    false
                };
                Ok(Self::new(dst, src, pan_ids_equal, PanIdCompressionRepr::Legacy))
            },
            FrameVersion::Ieee802154 => {
                let pan_id_compression = if compressed {
                    PanIdCompressionRepr::Yes
                } else {
                    PanIdCompressionRepr::No
                };
                let pan_ids_equal: bool = if dst == AddressingMode::Short || src
                    == AddressingMode::Short {
                    compressed
                } else {
                    false
                };
                Ok(Self::new(dst, src, pan_ids_equal, pan_id_compression))
            },
            FrameVersion::Unknown => Err(Error),
        }
    }

    /// Whether this is the addressing that a frame control field announces.
    pub open spec fn describes(&self, f: FrameControlFields) -> bool {
        &&& self.dst_mode() == f.dst_addressing_mode
        &&& self.src_mode() == f.src_addressing_mode
        &&& if f.frame_version == FrameVersion::Ieee802154 {
            &&& self.compression() == (if f.pan_id_compression {
                PanIdCompressionRepr::Yes
            } else {
                PanIdCompressionRepr::No
            })
            &&& self.same_pan() == (f.pan_id_compression && (f.dst_addressing_mode
                == AddressingMode::Short || f.src_addressing_mode == AddressingMode::Short))
        } else {
            &&& self.compression() == PanIdCompressionRepr::Legacy
            &&& self.same_pan() == (f.pan_id_compression && f.dst_addressing_mode
                != AddressingMode::Absent && f.src_addressing_mode != AddressingMode::Absent)
        }
    }

    /// Length of the addressing fields.
    ///
    /// # Errors
    ///
    /// Fails if the addressing is invalid.
    pub fn addressing_fields_length(&self) -> (r: Result<u16, Error>)
        ensures
            r is Ok <==> self.total_length() is Some,
            r matches Ok(length) ==> length == self.total_length()->0,
    {
        match self.addressing_fields_lengths() {
            Ok(lengths) => Ok((lengths[0] + lengths[1] + lengths[2] + lengths[3]) as u16),
            Err(_) => Err(Error),
        }
    }

    /// The PAN ID compression bit of a frame with this addressing. It is the one
    /// from which the same addressing fields are derived again.
    pub fn pan_id_compression(&self) -> (r: bool)
        ensures
            r == self.compression_bit(),
    {
        match self.pan_id_compression {
            PanIdCompressionRepr::Yes => true,
            PanIdCompressionRepr::No => false,
            PanIdCompressionRepr::Legacy => {
                (self.dst == AddressingMode::Short || self.dst == AddressingMode::Extended) && (
                self.src == AddressingMode::Short || self.src == AddressingMode::Extended)
                    && self.pan_ids_equal
            },
        }
    }

    /// The PAN ID compression bit of a frame with this addressing. Up to 2006 it
    /// is set if both addresses are present and their PAN IDs are equal.
    pub open spec fn compression_bit(&self) -> bool {
        match self.compression() {
            PanIdCompressionRepr::Yes => true,
            PanIdCompressionRepr::No => false,
            PanIdCompressionRepr::Legacy => present(self.dst_mode()) && present(self.src_mode())
                && self.same_pan(),
        }
    }

    /// Destination addressing mode.
    pub fn dst_addr_mode(&self) -> (r: AddressingMode)
        ensures
            r == self.dst_mode(),
            r != AddressingMode::Unknown,
    {
        proof {
            use_type_invariant(self);
        }
        self.dst
    }

    /// Source addressing mode.
    pub fn src_addr_mode(&self) -> (r: AddressingMode)
        ensures
            r == self.src_mode(),
            r != AddressingMode::Unknown,
    {
        proof {
            use_type_invariant(self);
        }
        self.src
    }

    /// Whether the destination PAN ID is present, the destination addressing
    /// mode, whether the source PAN ID is present and the source addressing
    /// mode.
    ///
    /// # Errors
    ///
    /// Fails if the addressing is invalid.
    pub fn address_present_flags(&self) -> (r: Result<
        (bool, AddressingMode, bool, AddressingMode),
        Error,
    >)
        ensures
            r is Ok <==> self.pan_ids() is Some,
            r matches Ok((dst_pan_id, dst, src_pan_id, src)) ==> {
                &&& self.pan_ids() == Some((dst_pan_id, src_pan_id))
                &&& dst == self.dst_mode()
                &&& src == self.src_mode()
            },
    {
        proof {
            use_type_invariant(self);
        }
        let compressed: bool = match self.pan_id_compression {
            PanIdCompressionRepr::Legacy => {
                return match (self.dst, self.src, self.pan_ids_equal) {
                    (AddressingMode::Absent, AddressingMode::Absent, _) => Err(Error),
                    // A single address comes with its PAN ID. The PAN ID
                    // compression bit must not be set then.
                    (AddressingMode::Absent, src, false) => {
                        Ok((false, AddressingMode::Absent, true, src))
                    },
                    (dst, AddressingMode::Absent, false) => {
                        Ok((true, dst, false, AddressingMode::Absent))
                    },
                    (AddressingMode::Absent, _, true) => Err(Error),
                    (_, AddressingMode::Absent, true) => Err(Error),
                    // The source PAN ID is omitted if it equals the destination
                    // PAN ID.
                    (dst, src, pan_ids_equal) => Ok((true, dst, !pan_ids_equal, src)),
                };
            },
            PanIdCompressionRepr::Yes => true,
            PanIdCompressionRepr::No => false,
        };
        match (self.dst, self.src) {
            (AddressingMode::Absent, AddressingMode::Absent) => {
                Ok((compressed, AddressingMode::Absent, false, AddressingMode::Absent))
            },
            (dst, AddressingMode::Absent) => Ok((!compressed, dst, false, AddressingMode::Absent)),
            (AddressingMode::Absent, src) => Ok((false, AddressingMode::Absent, !compressed, src)),
            (AddressingMode::Extended, AddressingMode::Extended) => {
                Ok((!compressed, AddressingMode::Extended, false, AddressingMode::Extended))
            },
            (dst, src) => Ok((true, dst, !compressed, src)),
        }
    }

    /// The lengths of the destination PAN ID, the destination address, the
    /// source PAN ID and the source address.
    ///
    /// # Errors
    ///
    /// Fails if the addressing is invalid.
    pub fn addressing_fields_lengths(&self) -> (r: Result<[u8; 4], Error>)
        ensures
            r is Ok <==> self.lengths() is Some,
            r matches Ok(l) ==> self.lengths() == Some(
                (l@[0] as int, l@[1] as int, l@[2] as int, l@[3] as int),
            ) && l@[0] <= 2 && l@[1] <= 8 && l@[2] <= 2 && l@[3] <= 8,
    {
        match self.address_present_flags() {
            Ok((dst_pan_id_present, dst_address_mode, src_pan_id_present, src_address_mode)) => {
                let dst_pan_id: u8 = if dst_pan_id_present {
                    2
                } else {
                    0
                };
                let src_pan_id: u8 = if src_pan_id_present {
                    2
                } else {
                    0
                };
                Ok(
                    [
                        dst_pan_id,
                        dst_address_mode.length() as u8,
                        src_pan_id,
                        src_address_mode.length() as u8,
                    ],
                )
            },
            Err(_) => Err(Error),
        }
    }
}

/// The addressing fields never take more than twenty octets.
pub proof fn lemma_total_length_bounded(repr: AddressingRepr)
    ensures
        repr.total_length() matches Some(length) ==> 0 <= length <= 20,
{
}

/// Since 2015 every combination of known addressing modes is valid.
pub proof fn lemma_modern_addressing_valid(repr: AddressingRepr)
    requires
        repr.compression() != PanIdCompressionRepr::Legacy,
    ensures
        repr.total_length() is Some,
{
}

/// The lengths of the four addressing fields that a frame control field
/// announces, if it announces a valid addressing.
pub open spec fn announced_lengths(f: FrameControlFields) -> Option<(int, int, int, int)> {
    let (dst, src) = (f.dst_addressing_mode, f.src_addressing_mode);
    let pan_ids = match f.frame_version {
        FrameVersion::Ieee802154 => pan_ids_present(
            dst,
            src,
            f.pan_id_compression && (dst == AddressingMode::Short || src == AddressingMode::Short),
            if f.pan_id_compression {
                PanIdCompressionRepr::Yes
            } else {
                PanIdCompressionRepr::No
            },
        ),
        FrameVersion::Unknown => None,
        _ => pan_ids_present(
            dst,
            src,
            f.pan_id_compression && dst != AddressingMode::Absent && src != AddressingMode::Absent,
            PanIdCompressionRepr::Legacy,
        ),
    };
    match pan_ids {
        Some((dst_pan_id, src_pan_id)) => Some(
            (pan_id_octets(dst_pan_id), dst.octets(), pan_id_octets(src_pan_id), src.octets()),
        ),
        None => None,
    }
}

/// The length of the addressing fields altogether that a frame control field
/// announces, if it announces a valid addressing.
pub open spec fn announced_length(f: FrameControlFields) -> Option<int> {
    match announced_lengths(f) {
        Some((a, b, c, d)) => Some(a + b + c + d),
        None => None,
    }
}

/// The addressing derived from a frame control field has the lengths that the
/// field announces.
pub proof fn lemma_announced(repr: AddressingRepr, f: FrameControlFields)
    requires
        repr.describes(f),
        f.frame_version != FrameVersion::Unknown,
    ensures
        repr.lengths() == announced_lengths(f),
        repr.total_length() == announced_length(f),
{
}

/// Whether a frame version encodes the addressing the way that it is represented.
pub open spec fn encodes(frame_version: FrameVersion, repr: AddressingRepr) -> bool {
    &&& frame_version != FrameVersion::Unknown
    &&& frame_version == FrameVersion::Ieee802154 <==> repr.compression()
        != PanIdCompressionRepr::Legacy
}

/// The addressing fields and the frame control field are in sync: a frame control
/// field that is written for a valid addressing announces fields of exactly the
/// lengths that the addressing has. So what is written to an addressing field is
/// found again.
pub proof fn lemma_addressing_in_sync(repr: AddressingRepr, f: FrameControlFields)
    requires
        encodes(f.frame_version, repr),
        f.dst_addressing_mode == repr.dst_mode(),
        f.src_addressing_mode == repr.src_mode(),
        f.pan_id_compression == repr.compression_bit(),
        repr.lengths() is Some,
    ensures
        announced_lengths(f) == repr.lengths(),
        announced_length(f) == repr.total_length(),
{
}

/// The PAN ID compression bit of a frame control field is reproduced by the
/// addressing that was derived from it. Up to 2006 the bit must not be set unless
/// both addresses are present.
pub proof fn lemma_compression_bit_round_trip(repr: AddressingRepr, f: FrameControlFields)
    requires
        repr.describes(f),
        f.frame_version != FrameVersion::Ieee802154 && f.pan_id_compression ==> present(
            f.dst_addressing_mode,
        ) && present(f.src_addressing_mode),
    ensures
        repr.compression_bit() == f.pan_id_compression,
{
}

} // verus!
