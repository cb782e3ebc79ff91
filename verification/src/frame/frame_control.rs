//! The frame control field.

use vstd::prelude::*;

use crate::frame::addressing::AddressingMode;
use crate::octets::{
    bits, get_u16_le, lemma_u16_round_trip, put_u16, set_u16_le, u16_at, with_bits, Octets,
    OctetsMut,
};
use crate::Error;

verus! {

/// Frame type.
#[derive(Clone, Copy, Debug, PartialEq, Eq, Structural)]
pub enum FrameType {
    Beacon,
    Data,
    Ack,
    MacCommand,
    /// The reserved frame type.
    Unknown,
    Multipurpose,
    FragmentOrFrak,
    Extended,
}

impl FrameType {
    /// The three bits that encode the frame type.
    pub open spec fn code(self) -> u16 {
        match self {
            FrameType::Beacon => 0,
            FrameType::Data => 1,
            FrameType::Ack => 2,
            FrameType::MacCommand => 3,
            FrameType::Unknown => 4,
            FrameType::Multipurpose => 5,
            FrameType::FragmentOrFrak => 6,
            FrameType::Extended => 7,
        }
    }

    /// The frame type that three bits encode.
    pub open spec fn of(code: u16) -> Self {
        if code == 0 {
            FrameType::Beacon
        } else if code == 1 {
            FrameType::Data
        } else if code == 2 {
            FrameType::Ack
        } else if code == 3 {
            FrameType::MacCommand
        } else if code == 4 {
            FrameType::Unknown
        } else if code == 5 {
            FrameType::Multipurpose
        } else if code == 6 {
            FrameType::FragmentOrFrak
        } else {
            FrameType::Extended
        }
    }

    /// Decodes a frame type.
    fn from_code(code: u16) -> (r: Self)
        ensures
            r == Self::of(code),
    {
        match code {
            0 => FrameType::Beacon,
            1 => FrameType::Data,
            2 => FrameType::Ack,
            3 => FrameType::MacCommand,
            4 => FrameType::Unknown,
            5 => FrameType::Multipurpose,
            6 => FrameType::FragmentOrFrak,
            _ => FrameType::Extended,
        }
    }

    /// Encodes the frame type.
    fn to_code(self) -> (r: u16)
        ensures
            r == self.code(),
    {
        match self {
            FrameType::Beacon => 0,
            FrameType::Data => 1,
            FrameType::Ack => 2,
            FrameType::MacCommand => 3,
            FrameType::Unknown => 4,
            FrameType::Multipurpose => 5,
            FrameType::FragmentOrFrak => 6,
            FrameType::Extended => 7,
        }
    }
}

/// Frame version.
#[derive(Clone, Copy, Debug, PartialEq, Eq, Structural)]
pub enum FrameVersion {
    Ieee802154_2003,
    Ieee802154_2006,
    Ieee802154,
    /// The reserved frame version.
    Unknown,
}

impl FrameVersion {
    /// The two bits that encode the frame version.
    pub open spec fn code(self) -> u16 {
        match self {
            FrameVersion::Ieee802154_2003 => 0,
            FrameVersion::Ieee802154_2006 => 1,
            FrameVersion::Ieee802154 => 2,
            FrameVersion::Unknown => 3,
        }
    }

    /// The frame version that two bits encode.
    pub open spec fn of(code: u16) -> Self {
        if code == 0 {
            FrameVersion::Ieee802154_2003
        } else if code == 1 {
            FrameVersion::Ieee802154_2006
        } else if code == 2 {
            FrameVersion::Ieee802154
        } else {
            FrameVersion::Unknown
        }
    }

    /// Decodes a frame version.
    fn from_code(code: u16) -> (r: Self)
        ensures
            r == Self::of(code),
    {
        match code {
            0 => FrameVersion::Ieee802154_2003,
            1 => FrameVersion::Ieee802154_2006,
            2 => FrameVersion::Ieee802154,
            _ => FrameVersion::Unknown,
        }
    }

    /// Encodes the frame version.
    fn to_code(self) -> (r: u16)
        ensures
            r == self.code(),
    {
        match self {
            FrameVersion::Ieee802154_2003 => 0,
            FrameVersion::Ieee802154_2006 => 1,
            FrameVersion::Ieee802154 => 2,
            FrameVersion::Unknown => 3,
        }
    }
}

/// The content of a frame control field.
pub struct FrameControlFields {
    pub frame_type: FrameType,
    pub security_enabled: bool,
    pub frame_pending: bool,
    pub ack_request: bool,
    pub pan_id_compression: bool,
    pub reserved: bool,
    pub sequence_number_suppression: bool,
    pub information_elements_present: bool,
    pub dst_addressing_mode: AddressingMode,
    pub frame_version: FrameVersion,
    pub src_addressing_mode: AddressingMode,
}

/// The content of a frame control word.
pub open spec fn fields_of(word: u16) -> FrameControlFields {
    FrameControlFields {
        frame_type: FrameType::of(bits(word, 0, 7)),
        security_enabled: bits(word, 3, 1) == 1,
        frame_pending: bits(word, 4, 1) == 1,
        ack_request: bits(word, 5, 1) == 1,
        pan_id_compression: bits(word, 6, 1) == 1,
        reserved: bits(word, 7, 1) == 1,
        sequence_number_suppression: bits(word, 8, 1) == 1,
        information_elements_present: bits(word, 9, 1) == 1,
        dst_addressing_mode: AddressingMode::of(bits(word, 10, 3)),
        frame_version: FrameVersion::of(bits(word, 12, 3)),
        src_addressing_mode: AddressingMode::of(bits(word, 14, 3)),
    }
}

/// Replacing one field of a frame control word changes that field only.
proof fn lemma_with_bits(word: u16, shift: u16, mask: u16, v: u16)
    by (bit_vector)
    requires
        v <= mask,
        (shift == 0 && mask == 7) || (3 <= shift <= 9 && mask == 1) || ((shift == 10 || shift == 12
            || shift == 14) && mask == 3),
    ensures
        bits(with_bits(word, shift, mask, v), 0, 7) == (if shift == 0 { v } else { bits(word, 0, 7) }),
        bits(with_bits(word, shift, mask, v), 3, 1) == (if shift == 3 { v } else { bits(word, 3, 1) }),
        bits(with_bits(word, shift, mask, v), 4, 1) == (if shift == 4 { v } else { bits(word, 4, 1) }),
        bits(with_bits(word, shift, mask, v), 5, 1) == (if shift == 5 { v } else { bits(word, 5, 1) }),
        bits(with_bits(word, shift, mask, v), 6, 1) == (if shift == 6 { v } else { bits(word, 6, 1) }),
        bits(with_bits(word, shift, mask, v), 7, 1) == (if shift == 7 { v } else { bits(word, 7, 1) }),
        bits(with_bits(word, shift, mask, v), 8, 1) == (if shift == 8 { v } else { bits(word, 8, 1) }),
        bits(with_bits(word, shift, mask, v), 9, 1) == (if shift == 9 { v } else { bits(word, 9, 1) }),
        bits(with_bits(word, shift, mask, v), 10, 3) == (if shift == 10 {
            v
        } else {
            bits(word, 10, 3)
        }),
        bits(with_bits(word, shift, mask, v), 12, 3) == (if shift == 12 {
            v
        } else {
            bits(word, 12, 3)
        }),
        bits(with_bits(word, shift, mask, v), 14, 3) == (if shift == 14 {
            v
        } else {
            bits(word, 14, 3)
        }),
{
}

/// The fields are no larger than the bits that hold them.
proof fn lemma_bits_bounded(word: u16)
    by (bit_vector)
    ensures
        bits(word, 0, 7) <= 7,
        bits(word, 3, 1) <= 1,
        bits(word, 4, 1) <= 1,
        bits(word, 5, 1) <= 1,
        bits(word, 6, 1) <= 1,
        bits(word, 7, 1) <= 1,
        bits(word, 8, 1) <= 1,
        bits(word, 9, 1) <= 1,
        bits(word, 10, 3) <= 3,
        bits(word, 12, 3) <= 3,
        bits(word, 14, 3) <= 3,
{
}

/// The fields cover all bits of a word.
proof fn lemma_bits_cover(a: u16, b: u16)
    by (bit_vector)
    requires
        bits(a, 0, 7) == bits(b, 0, 7),
        bits(a, 3, 1) == bits(b, 3, 1),
        bits(a, 4, 1) == bits(b, 4, 1),
        bits(a, 5, 1) == bits(b, 5, 1),
        bits(a, 6, 1) == bits(b, 6, 1),
        bits(a, 7, 1) == bits(b, 7, 1),
        bits(a, 8, 1) == bits(b, 8, 1),
        bits(a, 9, 1) == bits(b, 9, 1),
        bits(a, 10, 3) == bits(b, 10, 3),
        bits(a, 12, 3) == bits(b, 12, 3),
        bits(a, 14, 3) == bits(b, 14, 3),
    ensures
        a == b,
{
}

/// A frame control word is determined by its content.
pub proof fn lemma_fields_determine_word(a: u16, b: u16)
    requires
        fields_of(a) == fields_of(b),
    ensures
        a == b,
{
    lemma_bits_bounded(a);
    lemma_bits_bounded(b);
    let (fa, fb) = (fields_of(a), fields_of(b));
    assert(fa.frame_type.code() == bits(a, 0, 7) && fb.frame_type.code() == bits(b, 0, 7));
    assert(fa.dst_addressing_mode.code() == bits(a, 10, 3));
    assert(fb.dst_addressing_mode.code() == bits(b, 10, 3));
    assert(fa.frame_version.code() == bits(a, 12, 3) && fb.frame_version.code() == bits(b, 12, 3));
    assert(fa.src_addressing_mode.code() == bits(a, 14, 3));
    assert(fb.src_addressing_mode.code() == bits(b, 14, 3));
    lemma_bits_cover(a, b);
}

/// A frame control word of zero: a beacon frame of the first version without
/// any of the options.
pub proof fn lemma_zero_word()
    ensures
        fields_of(0) == (FrameControlFields {
            frame_type: FrameType::Beacon,
            security_enabled: false,
            frame_pending: false,
            ack_request: false,
            pan_id_compression: false,
            reserved: false,
            sequence_number_suppression: false,
            information_elements_present: false,
            dst_addressing_mode: AddressingMode::Absent,
            frame_version: FrameVersion::Ieee802154_2003,
            src_addressing_mode: AddressingMode::Absent,
        }),
{
    assert(forall|k: u16, m: u16| k < 16 ==> #[trigger] bits(0, k, m) == 0) by {
        assert forall|k: u16, m: u16| k < 16 implies #[trigger] bits(0, k, m) == 0 by {
            assert(bits(0, k, m) == 0) by (bit_vector)
                requires
                    k < 16,
            ;
        }
    }
}

/// The frame control words of acknowledgments with a sequence number and without
/// any address: an immediate one, and an enhanced one with information elements.
pub proof fn lemma_ack_words()
    ensures
        fields_of(0x1002) == (FrameControlFields {
            frame_type: FrameType::Ack,
            frame_version: FrameVersion::Ieee802154_2006,
            ..fields_of(0)
        }),
        fields_of(0x2202) == (FrameControlFields {
            frame_type: FrameType::Ack,
            frame_version: FrameVersion::Ieee802154,
            information_elements_present: true,
            ..fields_of(0)
        }),
{
    lemma_ack_bits();
    lemma_zero_word();
}

proof fn lemma_ack_bits()
    by (bit_vector)
    ensures
        bits(0x1002, 0, 7) == 2,
        bits(0x1002, 3, 1) == 0,
        bits(0x1002, 4, 1) == 0,
        bits(0x1002, 5, 1) == 0,
        bits(0x1002, 6, 1) == 0,
        bits(0x1002, 7, 1) == 0,
        bits(0x1002, 8, 1) == 0,
        bits(0x1002, 9, 1) == 0,
        bits(0x1002, 10, 3) == 0,
        bits(0x1002, 12, 3) == 1,
        bits(0x1002, 14, 3) == 0,
        bits(0x2202, 0, 7) == 2,
        bits(0x2202, 3, 1) == 0,
        bits(0x2202, 4, 1) == 0,
        bits(0x2202, 5, 1) == 0,
        bits(0x2202, 6, 1) == 0,
        bits(0x2202, 7, 1) == 0,
        bits(0x2202, 8, 1) == 0,
        bits(0x2202, 9, 1) == 1,
        bits(0x2202, 10, 3) == 0,
        bits(0x2202, 12, 3) == 2,
        bits(0x2202, 14, 3) == 0,
{
}

/// Reader and writer of a frame control field (2 octets).
///
/// Format (little-endian):
/// - Bits 0-2: frame type
/// - Bit 3: security enabled
/// - Bit 4: frame pending
/// - Bit 5: acknowledgment request
/// - Bit 6: PAN ID compression
/// - Bit 8: sequence number suppression
/// - Bit 9: information elements present
/// - Bits 10-11: destination addressing mode
/// - Bits 12-13: frame version
/// - Bits 14-15: source addressing mode
#[derive(Clone, Copy, Debug)]
pub struct FrameControl<Bytes> {
    bytes: Bytes,
}

impl<Bytes: Octets> View for FrameControl<Bytes> {
    type V = Seq<u8>;

    open spec fn view(&self) -> Seq<u8> {
        self.container().bytes()
    }
}

impl<Bytes> FrameControl<Bytes> {
    /// The container of the octets.
    pub closed spec fn container(&self) -> Bytes {
        self.bytes
    }

    /// Once nothing is written any more through the field, nothing is written any more
    /// to its container. If the container is borrowed, then what it was borrowed
    /// from holds what was written last.
    pub proof fn lemma_released(self)
        requires
            has_resolved(self),
        ensures
            has_resolved(self.container()),
    {
    }
}

impl<Bytes: Octets> FrameControl<Bytes> {
    pub const LENGTH: usize = 2;

    /// The content of the field.
    pub open spec fn fields(&self) -> FrameControlFields {
        fields_of(u16_at(self@, 0) as u16)
    }

    /// Interprets the leading octets as a frame control field without any check.
    pub fn new_unchecked(bytes: Bytes) -> (r: Self)
        ensures
            r.container() == bytes,
    {
        Self { bytes }
    }

    fn read(&self, shift: u16, mask: u16) -> (r: u16)
        requires
            self@.len() >= 2,
            shift < 16,
        ensures
            r == bits(u16_at(self@, 0) as u16, shift, mask),
    {
        (get_u16_le(self.bytes.octets(), 0) >> shift) & mask
    }

    /// Frame type.
    pub fn frame_type(&self) -> (r: FrameType)
        requires
            self@.len() >= 2,
        ensures
            r == self.fields().frame_type,
    {
        FrameType::from_code(self.read(0, 7))
    }

    /// Whether the frame is secured.
    pub fn security_enabled(&self) -> (r: bool)
        requires
            self@.len() >= 2,
        ensures
            r == self.fields().security_enabled,
    {
        self.read(3, 1) == 1
    }

    /// Whether the sender has more frames for the recipient.
    pub fn frame_pending(&self) -> (r: bool)
        requires
            self@.len() >= 2,
        ensures
            r == self.fields().frame_pending,
    {
        self.read(4, 1) == 1
    }

    /// Whether an acknowledgment is requested.
    pub fn ack_request(&self) -> (r: bool)
        requires
            self@.len() >= 2,
        ensures
            r == self.fields().ack_request,
    {
        self.read(5, 1) == 1
    }

    /// PAN ID compression bit.
    pub fn pan_id_compression(&self) -> (r: bool)
        requires
            self@.len() >= 2,
        ensures
            r == self.fields().pan_id_compression,
    {
        self.read(6, 1) == 1
    }

    /// Whether the sequence number is absent.
    pub fn sequence_number_suppression(&self) -> (r: bool)
        requires
            self@.len() >= 2,
        ensures
            r == self.fields().sequence_number_suppression,
    {
        self.read(8, 1) == 1
    }

    /// Whether information elements follow the addressing fields.
    pub fn information_elements_present(&self) -> (r: bool)
        requires
            self@.len() >= 2,
        ensures
            r == self.fields().information_elements_present,
    {
        self.read(9, 1) == 1
    }

    /// Destination addressing mode.
    pub fn dst_addressing_mode(&self) -> (r: AddressingMode)
        requires
            self@.len() >= 2,
        ensures
            r == self.fields().dst_addressing_mode,
    {
        AddressingMode::from_code(self.read(10, 3))
    }

    /// Frame version.
    pub fn frame_version(&self) -> (r: FrameVersion)
        requires
            self@.len() >= 2,
        ensures
            r == self.fields().frame_version,
    {
        FrameVersion::from_code(self.read(12, 3))
    }

    /// Source addressing mode.
    pub fn src_addressing_mode(&self) -> (r: AddressingMode)
        requires
            self@.len() >= 2,
        ensures
            r == self.fields().src_addressing_mode,
    {
        AddressingMode::from_code(self.read(14, 3))
    }

    /// Whether the frame type, the frame version and both addressing modes are
    /// known.
    pub fn is_valid(&self) -> (r: bool)
        requires
            self@.len() >= 2,
        ensures
            r <==> frame_control_valid(self.fields()),
    {
        self.frame_type() != FrameType::Unknown && self.frame_version() != FrameVersion::Unknown
            && self.dst_addressing_mode() != AddressingMode::Unknown && self.src_addressing_mode()
            != AddressingMode::Unknown
    }
}

impl FrameControl<[u8; 2]> {
    /// The octets of the field.
    pub fn to_octets(&self) -> (r: [u8; 2])
        ensures
            r@ == self@,
    {
        self.bytes
    }
}

impl<Bytes: Octets> FrameControl<Bytes> {
    /// Interprets the leading octets as a frame control field.
    ///
    /// # Errors
    ///
    /// Fails if there are fewer than two octets or something that the field holds
    /// is reserved by the protocol.
    pub fn new(bytes: Bytes) -> (r: Result<Self, Error>)
        ensures
            r is Ok <==> bytes.bytes().len() >= 2 && frame_control_valid(
                fields_of(u16_at(bytes.bytes(), 0) as u16),
            ),
            r matches Ok(fc) ==> fc.container() == bytes,
    {
        if bytes.octets().len() < 2 {
            return Err(Error);
        }
        let fc = Self::new_unchecked(bytes);
        if !fc.is_valid() {
            return Err(Error);
        }
        Ok(fc)
    }
}

/// Whether nothing that a frame control field holds is reserved by the protocol.
pub open spec fn frame_control_valid(f: FrameControlFields) -> bool {
    &&& f.frame_type != FrameType::Unknown
    &&& f.frame_version != FrameVersion::Unknown
    &&& f.dst_addressing_mode != AddressingMode::Unknown
    &&& f.src_addressing_mode != AddressingMode::Unknown
}

impl<Bytes: OctetsMut> FrameControl<Bytes> {
    fn write(&mut self, shift: u16, mask: u16, v: u16)
        requires
            old(self)@.len() >= 2,
            v <= mask,
            (shift == 0 && mask == 7) || (3 <= shift <= 9 && mask == 1) || ((shift == 10 || shift
                == 12 || shift == 14) && mask == 3),
        ensures
            final(self)@ == put_u16(
                old(self)@,
                0,
                with_bits(u16_at(old(self)@, 0) as u16, shift, mask, v) as int,
            ),
            u16_at(final(self)@, 0) == with_bits(u16_at(old(self)@, 0) as u16, shift, mask, v),
            exists|x: &mut Bytes, w: &mut [u8]|
                {
                    &&& #[trigger] call_ensures(Bytes::octets_mut, (x,), w)
                    &&& *x == old(self).container()
                    &&& *final(x) == final(self).container()
                },
    {
        let b = self.bytes.octets_mut();
        let word: u16 = get_u16_le(b, 0);
        set_u16_le(b, 0, (word & !(mask << shift)) | ((v & mask) << shift));
        proof {
            lemma_u16_round_trip(old(self)@, 0, with_bits(word, shift, mask, v) as int);
        }
    }

    /// Sets the frame type.
    pub fn set_frame_type(&mut self, value: FrameType)
        requires
            old(self)@.len() >= 2,
        ensures
            final(self).fields() == (FrameControlFields {
                frame_type: value,
                ..old(self).fields()
            }),
            final(self)@.len() == old(self)@.len(),
            final(self)@.skip(2) == old(self)@.skip(2),
            exists|x: &mut Bytes, w: &mut [u8]|
                {
                    &&& #[trigger] call_ensures(Bytes::octets_mut, (x,), w)
                    &&& *x == old(self).container()
                    &&& *final(x) == final(self).container()
                },
    {
        let v: u16 = value.to_code();
        proof {
            lemma_with_bits(u16_at(self@, 0) as u16, 0, 7, v);
        }
        self.write(0, 7, v);
    }

    /// Sets whether the frame is secured.
    pub fn set_security_enabled(&mut self, value: bool)
        requires
            old(self)@.len() >= 2,
        ensures
            final(self).fields() == (FrameControlFields {
                security_enabled: value,
                ..old(self).fields()
            }),
            final(self)@.len() == old(self)@.len(),
            final(self)@.skip(2) == old(self)@.skip(2),
            exists|x: &mut Bytes, w: &mut [u8]|
                {
                    &&& #[trigger] call_ensures(Bytes::octets_mut, (x,), w)
                    &&& *x == old(self).container()
                    &&& *final(x) == final(self).container()
                },
    {
        let v: u16 = if value { 1 } else { 0 };
        proof {
            lemma_with_bits(u16_at(self@, 0) as u16, 3, 1, v);
        }
        self.write(3, 1, v);
    }

    /// Sets whether the sender has more frames for the recipient.
    pub fn set_frame_pending(&mut self, value: bool)
        requires
            old(self)@.len() >= 2,
        ensures
            final(self).fields() == (FrameControlFields {
                frame_pending: value,
                ..old(self).fields()
            }),
            final(self)@.len() == old(self)@.len(),
            final(self)@.skip(2) == old(self)@.skip(2),
            exists|x: &mut Bytes, w: &mut [u8]|
                {
                    &&& #[trigger] call_ensures(Bytes::octets_mut, (x,), w)
                    &&& *x == old(self).container()
                    &&& *final(x) == final(self).container()
                },
    {
        let v: u16 = if value { 1 } else { 0 };
        proof {
            lemma_with_bits(u16_at(self@, 0) as u16, 4, 1, v);
        }
        self.write(4, 1, v);
    }

    /// Sets whether an acknowledgment is requested.
    pub fn set_ack_request(&mut self, value: bool)
        requires
            old(self)@.len() >= 2,
        ensures
            final(self).fields() == (FrameControlFields {
                ack_request: value,
                ..old(self).fields()
            }),
            final(self)@.len() == old(self)@.len(),
            final(self)@.skip(2) == old(self)@.skip(2),
            exists|x: &mut Bytes, w: &mut [u8]|
                {
                    &&& #[trigger] call_ensures(Bytes::octets_mut, (x,), w)
                    &&& *x == old(self).container()
                    &&& *final(x) == final(self).container()
                },
    {
        let v: u16 = if value { 1 } else { 0 };
        proof {
            lemma_with_bits(u16_at(self@, 0) as u16, 5, 1, v);
        }
        self.write(5, 1, v);
    }

    /// Sets the PAN ID compression bit.
    pub fn set_pan_id_compression(&mut self, value: bool)
        requires
            old(self)@.len() >= 2,
        ensures
            final(self).fields() == (FrameControlFields {
                pan_id_compression: value,
                ..old(self).fields()
            }),
            final(self)@.len() == old(self)@.len(),
            final(self)@.skip(2) == old(self)@.skip(2),
            exists|x: &mut Bytes, w: &mut [u8]|
                {
                    &&& #[trigger] call_ensures(Bytes::octets_mut, (x,), w)
                    &&& *x == old(self).container()
                    &&& *final(x) == final(self).container()
                },
    {
        let v: u16 = if value { 1 } else { 0 };
        proof {
            lemma_with_bits(u16_at(self@, 0) as u16, 6, 1, v);
        }
        self.write(6, 1, v);
    }

    /// Sets whether the sequence number is absent.
    pub fn set_sequence_number_suppression(&mut self, value: bool)
        requires
            old(self)@.len() >= 2,
        ensures
            final(self).fields() == (FrameControlFields {
                sequence_number_suppression: value,
                ..old(self).fields()
            }),
            final(self)@.len() == old(self)@.len(),
            final(self)@.skip(2) == old(self)@.skip(2),
            exists|x: &mut Bytes, w: &mut [u8]|
                {
                    &&& #[trigger] call_ensures(Bytes::octets_mut, (x,), w)
                    &&& *x == old(self).container()
                    &&& *final(x) == final(self).container()
                },
    {
        let v: u16 = if value { 1 } else { 0 };
        proof {
            lemma_with_bits(u16_at(self@, 0) as u16, 8, 1, v);
        }
        self.write(8, 1, v);
    }

    /// Sets whether information elements follow the addressing fields.
    pub fn set_information_elements_present(&mut self, value: bool)
        requires
            old(self)@.len() >= 2,
        ensures
            final(self).fields() == (FrameControlFields {
                information_elements_present: value,
                ..old(self).fields()
            }),
            final(self)@.len() == old(self)@.len(),
            final(self)@.skip(2) == old(self)@.skip(2),
            exists|x: &mut Bytes, w: &mut [u8]|
                {
                    &&& #[trigger] call_ensures(Bytes::octets_mut, (x,), w)
                    &&& *x == old(self).container()
                    &&& *final(x) == final(self).container()
                },
    {
        let v: u16 = if value { 1 } else { 0 };
        proof {
            lemma_with_bits(u16_at(self@, 0) as u16, 9, 1, v);
        }
        self.write(9, 1, v);
    }

    /// Sets the destination addressing mode.
    pub fn set_dst_addressing_mode(&mut self, value: AddressingMode)
        requires
            old(self)@.len() >= 2,
        ensures
            final(self).fields() == (FrameControlFields {
                dst_addressing_mode: value,
                ..old(self).fields()
            }),
            final(self)@.len() == old(self)@.len(),
            final(self)@.skip(2) == old(self)@.skip(2),
            exists|x: &mut Bytes, w: &mut [u8]|
                {
                    &&& #[trigger] call_ensures(Bytes::octets_mut, (x,), w)
                    &&& *x == old(self).container()
                    &&& *final(x) == final(self).container()
                },
    {
        let v: u16 = value.to_code();
        proof {
            lemma_with_bits(u16_at(self@, 0) as u16, 10, 3, v);
        }
        self.write(10, 3, v);
    }

    /// Sets the frame version.
    pub fn set_frame_version(&mut self, value: FrameVersion)
        requires
            old(self)@.len() >= 2,
        ensures
            final(self).fields() == (FrameControlFields {
                frame_version: value,
                ..old(self).fields()
            }),
            final(self)@.len() == old(self)@.len(),
            final(self)@.skip(2) == old(self)@.skip(2),
            exists|x: &mut Bytes, w: &mut [u8]|
                {
                    &&& #[trigger] call_ensures(Bytes::octets_mut, (x,), w)
                    &&& *x == old(self).container()
                    &&& *final(x) == final(self).container()
                },
    {
        let v: u16 = value.to_code();
        proof {
            lemma_with_bits(u16_at(self@, 0) as u16, 12, 3, v);
        }
        self.write(12, 3, v);
    }

    /// Sets the source addressing mode.
    pub fn set_src_addressing_mode(&mut self, value: AddressingMode)
        requires
            old(self)@.len() >= 2,
        ensures
            final(self).fields() == (FrameControlFields {
                src_addressing_mode: value,
                ..old(self).fields()
            }),
            final(self)@.len() == old(self)@.len(),
            final(self)@.skip(2) == old(self)@.skip(2),
            exists|x: &mut Bytes, w: &mut [u8]|
                {
                    &&& #[trigger] call_ensures(Bytes::octets_mut, (x,), w)
                    &&& *x == old(self).container()
                    &&& *final(x) == final(self).container()
                },
    {
        let v: u16 = value.to_code();
        proof {
            lemma_with_bits(u16_at(self@, 0) as u16, 14, 3, v);
        }
        self.write(14, 3, v);
    }
}

} // verus!
