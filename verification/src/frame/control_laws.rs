//! What the getters and setters of the frame control field are for.
//!
//! The laws speak of calls: each relates the arguments and the results of one or
//! more functions.

use vstd::prelude::*;

use crate::frame::addressing::AddressingMode;
use crate::frame::frame_control::{FrameControl, FrameControlFields, FrameType, FrameVersion};
use crate::octets::{bits, Octets, OctetsMut};
use crate::Error;

verus! {

/// The number of a frame type.
pub open spec fn type_number(value: FrameType) -> int {
    match value {
        FrameType::Beacon => 0,
        FrameType::Data => 1,
        FrameType::Ack => 2,
        FrameType::MacCommand => 3,
        FrameType::Unknown => 4,
        FrameType::Multipurpose => 5,
        FrameType::FragmentOrFrak => 6,
        FrameType::Extended => 7,
    }
}

/// The number of a frame version.
pub open spec fn version_number(value: FrameVersion) -> int {
    match value {
        FrameVersion::Ieee802154_2003 => 0,
        FrameVersion::Ieee802154_2006 => 1,
        FrameVersion::Ieee802154 => 2,
        FrameVersion::Unknown => 3,
    }
}

/// The number of an addressing mode.
pub open spec fn mode_number(value: AddressingMode) -> int {
    match value {
        AddressingMode::Absent => 0,
        AddressingMode::Unknown => 1,
        AddressingMode::Short => 2,
        AddressingMode::Extended => 3,
    }
}

/// The number of a flag.
pub open spec fn flag_number(value: bool) -> int {
    if value {
        1
    } else {
        0
    }
}

/// The bits of two octets, and those of the word that they make up.
pub proof fn lemma_word_bits(low: u8, high: u8)
    ensures
        ({
            let word = (low + 0x100 * high) as u16;
            let (l, h) = (low as int, high as int);
            &&& bits(word, 0, 7) == l % 8
            &&& bits(word, 3, 1) == l / 8 % 2
            &&& bits(word, 4, 1) == l / 16 % 2
            &&& bits(word, 5, 1) == l / 32 % 2
            &&& bits(word, 6, 1) == l / 64 % 2
            &&& bits(word, 7, 1) == l / 128
            &&& bits(word, 8, 1) == h % 2
            &&& bits(word, 9, 1) == h / 2 % 2
            &&& bits(word, 10, 3) == h / 4 % 4
            &&& bits(word, 12, 3) == h / 16 % 4
            &&& bits(word, 14, 3) == h / 64
        }),
{
    let word = (low + 0x100 * high) as u16;
    assert((word >> 0) & 7 == (low as u16) % 8 && (word >> 3) & 1 == (low as u16) / 8 % 2 && (word
        >> 4) & 1 == (low as u16) / 16 % 2 && (word >> 5) & 1 == (low as u16) / 32 % 2 && (word
        >> 6) & 1 == (low as u16) / 64 % 2 && (word >> 7) & 1 == (low as u16) / 128 && (word >> 8)
        & 1 == (high as u16) % 2 && (word >> 9) & 1 == (high as u16) / 2 % 2 && (word >> 10) & 3
        == (high as u16) / 4 % 4 && (word >> 12) & 3 == (high as u16) / 16 % 4 && (word >> 14) & 3
        == (high as u16) / 64) by (bit_vector)
        requires
            word == low + 0x100 * high,
    ;
}

/// What two octets tell as a frame control field. From the least significant bit of
/// the first octet on, these are the frame type in three bits, four flags and a
/// reserved bit; from that of the second octet on, two flags and then the
/// destination addressing mode, the frame version and the source addressing mode in
/// two bits each.
pub proof fn lemma_control_octets<Bytes: Octets>(fc: FrameControl<Bytes>)
    requires
        fc@.len() >= 2,
    ensures
        ({
            let (l, h) = (fc@[0] as int, fc@[1] as int);
            let f = fc.fields();
            &&& type_number(f.frame_type) == l % 8
            &&& flag_number(f.security_enabled) == l / 8 % 2
            &&& flag_number(f.frame_pending) == l / 16 % 2
            &&& flag_number(f.ack_request) == l / 32 % 2
            &&& flag_number(f.pan_id_compression) == l / 64 % 2
            &&& flag_number(f.reserved) == l / 128
            &&& flag_number(f.sequence_number_suppression) == h % 2
            &&& flag_number(f.information_elements_present) == h / 2 % 2
            &&& mode_number(f.dst_addressing_mode) == h / 4 % 4
            &&& version_number(f.frame_version) == h / 16 % 4
            &&& mode_number(f.src_addressing_mode) == h / 64
        }),
{
    lemma_word_bits(fc@[0], fc@[1]);
}

/// An octet is made up of its bits, in the groups of both octets of a frame control
/// field.
pub(crate) proof fn lemma_octet_groups(x: u8)
    ensures
        x == x as int % 8 + 8 * (x as int / 8 % 2) + 16 * (x as int / 16 % 2) + 32 * (x as int / 32
            % 2) + 64 * (x as int / 64 % 2) + 128 * (x as int / 128),
        x == x as int % 2 + 2 * (x as int / 2 % 2) + 4 * (x as int / 4 % 4) + 16 * (x as int / 16
            % 4) + 64 * (x as int / 64),
{
    assert(x == x % 8 + 8 * (x / 8 % 2) + 16 * (x / 16 % 2) + 32 * (x / 32 % 2) + 64 * (x / 64 % 2)
        + 128 * (x / 128)) by (bit_vector);
    assert(x == x % 2 + 2 * (x / 2 % 2) + 4 * (x / 4 % 4) + 16 * (x / 16 % 4) + 64 * (x / 64))
        by (bit_vector);
}

/// Equal fields have equal numbers.
proof fn lemma_same_groups(f: FrameControlFields, g: FrameControlFields)
    ensures
        f.frame_type == g.frame_type ==> type_number(f.frame_type) == type_number(g.frame_type),
        f.frame_version == g.frame_version ==> version_number(f.frame_version) == version_number(
            g.frame_version,
        ),
        f.dst_addressing_mode == g.dst_addressing_mode ==> mode_number(f.dst_addressing_mode)
            == mode_number(g.dst_addressing_mode),
        f.src_addressing_mode == g.src_addressing_mode ==> mode_number(f.src_addressing_mode)
            == mode_number(g.src_addressing_mode),
{
}

/// Each getter reads its bits of the two octets.
pub proof fn lemma_control_read<Bytes: Octets>(
    fc: FrameControl<Bytes>,
    frame_type: FrameType,
    security: bool,
    pending: bool,
    ack_request: bool,
    compression: bool,
    suppression: bool,
    ies: bool,
    dst: AddressingMode,
    version: FrameVersion,
    src: AddressingMode,
)
    requires
        fc@.len() >= 2,
        call_ensures(FrameControl::<Bytes>::frame_type, (&fc,), frame_type),
        call_ensures(FrameControl::<Bytes>::security_enabled, (&fc,), security),
        call_ensures(FrameControl::<Bytes>::frame_pending, (&fc,), pending),
        call_ensures(FrameControl::<Bytes>::ack_request, (&fc,), ack_request),
        call_ensures(FrameControl::<Bytes>::pan_id_compression, (&fc,), compression),
        call_ensures(FrameControl::<Bytes>::sequence_number_suppression, (&fc,), suppression),
        call_ensures(FrameControl::<Bytes>::information_elements_present, (&fc,), ies),
        call_ensures(FrameControl::<Bytes>::dst_addressing_mode, (&fc,), dst),
        call_ensures(FrameControl::<Bytes>::frame_version, (&fc,), version),
        call_ensures(FrameControl::<Bytes>::src_addressing_mode, (&fc,), src),
    ensures
        ({
            let (l, h) = (fc@[0] as int, fc@[1] as int);
            &&& type_number(frame_type) == l % 8
            &&& flag_number(security) == l / 8 % 2
            &&& flag_number(pending) == l / 16 % 2
            &&& flag_number(ack_request) == l / 32 % 2
            &&& flag_number(compression) == l / 64 % 2
            &&& flag_number(suppression) == h % 2
            &&& flag_number(ies) == h / 2 % 2
            &&& mode_number(dst) == h / 4 % 4
            &&& version_number(version) == h / 16 % 4
            &&& mode_number(src) == h / 64
        }),
{
    lemma_control_octets(fc);
}

/// A frame control field is valid unless its frame type, its version or one of its
/// addressing modes has a number that is not in use.
pub proof fn lemma_control_checked<Bytes: Octets>(
    bytes: Bytes,
    unchecked: FrameControl<Bytes>,
    valid: bool,
    checked: Result<FrameControl<Bytes>, Error>,
)
    requires
        bytes.bytes().len() >= 2,
        call_ensures(FrameControl::<Bytes>::new_unchecked, (bytes,), unchecked),
        call_ensures(FrameControl::<Bytes>::is_valid, (&unchecked,), valid),
        call_ensures(FrameControl::<Bytes>::new, (bytes,), checked),
    ensures
        unchecked@ == bytes.bytes(),
        ({
            let (l, h) = (bytes.bytes()[0] as int, bytes.bytes()[1] as int);
            valid <==> l % 8 != 4 && h / 16 % 4 != 3 && h / 4 % 4 != 1 && h / 64 != 1
        }),
        checked is Ok <==> valid,
        checked matches Ok(fc) ==> fc@ == bytes.bytes(),
{
    lemma_control_octets(unchecked);
}

/// Two octets are needed for a frame control field.
pub proof fn lemma_control_incomplete<Bytes: Octets>(
    bytes: Bytes,
    checked: Result<FrameControl<Bytes>, Error>,
)
    requires
        call_ensures(FrameControl::<Bytes>::new, (bytes,), checked),
        bytes.bytes().len() < 2,
    ensures
        checked is Err,
{
}

/// A frame control field is given back with the octets that it was read from.
pub proof fn lemma_control_given_back(fc: FrameControl<[u8; 2]>, octets: [u8; 2])
    requires
        call_ensures(FrameControl::<[u8; 2]>::to_octets, (&fc,), octets),
    ensures
        octets@ == fc@,
{
}

/// The frame type is read as it was set, in its bits and in no other.
#[verifier::spinoff_prover]
#[verifier::rlimit(30)]
pub proof fn lemma_set_frame_type<Bytes: OctetsMut>(
    fc: &mut FrameControl<Bytes>,
    value: FrameType,
    read: FrameType,
)
    requires
        fc@.len() >= 2,
        call_ensures(FrameControl::<Bytes>::set_frame_type, (fc, value), ()),
        call_ensures(FrameControl::<Bytes>::frame_type, (&*final(fc),), read),
    ensures
        read == value,
        final(fc)@[0] as int / 1 % 8 == type_number(value),
        final(fc)@[0] - 1 * (final(fc)@[0] as int / 1 % 8) == old(fc)@[0] - 1 * (
        old(fc)@[0] as int / 1 % 8),
        final(fc)@[1] == old(fc)@[1],
        final(fc)@.len() == old(fc)@.len(),
        forall|i: int| 2 <= i < old(fc)@.len() ==> final(fc)@[i] == old(fc)@[i],
{
    lemma_control_octets(*fc);
    lemma_control_octets(*final(fc));
    lemma_octet_groups(fc@[0]);
    lemma_octet_groups(fc@[1]);
    lemma_octet_groups(final(fc)@[0]);
    lemma_octet_groups(final(fc)@[1]);
    lemma_same_groups(fc.fields(), final(fc).fields());
    assert forall|i: int| 2 <= i < fc@.len() implies final(fc)@[i] == fc@[i] by {
        assert(final(fc)@.skip(2)[i - 2] == fc@.skip(2)[i - 2]);
    }
}

/// The flag that security is enabled is read as it was set, in its bits and in no other.
#[verifier::spinoff_prover]
#[verifier::rlimit(30)]
pub proof fn lemma_set_security_enabled<Bytes: OctetsMut>(
    fc: &mut FrameControl<Bytes>,
    value: bool,
    read: bool,
)
    requires
        fc@.len() >= 2,
        call_ensures(FrameControl::<Bytes>::set_security_enabled, (fc, value), ()),
        call_ensures(FrameControl::<Bytes>::security_enabled, (&*final(fc),), read),
    ensures
        read == value,
        final(fc)@[0] as int / 8 % 2 == flag_number(value),
        final(fc)@[0] - 8 * (final(fc)@[0] as int / 8 % 2) == old(fc)@[0] - 8 * (
        old(fc)@[0] as int / 8 % 2),
        final(fc)@[1] == old(fc)@[1],
        final(fc)@.len() == old(fc)@.len(),
        forall|i: int| 2 <= i < old(fc)@.len() ==> final(fc)@[i] == old(fc)@[i],
{
    lemma_control_octets(*fc);
    lemma_control_octets(*final(fc));
    lemma_octet_groups(fc@[0]);
    lemma_octet_groups(fc@[1]);
    lemma_octet_groups(final(fc)@[0]);
    lemma_octet_groups(final(fc)@[1]);
    lemma_same_groups(fc.fields(), final(fc).fields());
    assert forall|i: int| 2 <= i < fc@.len() implies final(fc)@[i] == fc@[i] by {
        assert(final(fc)@.skip(2)[i - 2] == fc@.skip(2)[i - 2]);
    }
}

/// The flag that a frame is pending is read as it was set, in its bits and in no other.
#[verifier::spinoff_prover]
#[verifier::rlimit(30)]
pub proof fn lemma_set_frame_pending<Bytes: OctetsMut>(
    fc: &mut FrameControl<Bytes>,
    value: bool,
    read: bool,
)
    requires
        fc@.len() >= 2,
        call_ensures(FrameControl::<Bytes>::set_frame_pending, (fc, value), ()),
        call_ensures(FrameControl::<Bytes>::frame_pending, (&*final(fc),), read),
    ensures
        read == value,
        final(fc)@[0] as int / 16 % 2 == flag_number(value),
        final(fc)@[0] - 16 * (final(fc)@[0] as int / 16 % 2) == old(fc)@[0] - 16 * (
        old(fc)@[0] as int / 16 % 2),
        final(fc)@[1] == old(fc)@[1],
        final(fc)@.len() == old(fc)@.len(),
        forall|i: int| 2 <= i < old(fc)@.len() ==> final(fc)@[i] == old(fc)@[i],
{
    lemma_control_octets(*fc);
    lemma_control_octets(*final(fc));
    lemma_octet_groups(fc@[0]);
    lemma_octet_groups(fc@[1]);
    lemma_octet_groups(final(fc)@[0]);
    lemma_octet_groups(final(fc)@[1]);
    lemma_same_groups(fc.fields(), final(fc).fields());
    assert forall|i: int| 2 <= i < fc@.len() implies final(fc)@[i] == fc@[i] by {
        assert(final(fc)@.skip(2)[i - 2] == fc@.skip(2)[i - 2]);
    }
}

/// The request of an acknowledgment is read as it was set, in its bits and in no other.
#[verifier::spinoff_prover]
#[verifier::rlimit(30)]
pub proof fn lemma_set_ack_request<Bytes: OctetsMut>(
    fc: &mut FrameControl<Bytes>,
    value: bool,
    read: bool,
)
    requires
        fc@.len() >= 2,
        call_ensures(FrameControl::<Bytes>::set_ack_request, (fc, value), ()),
        call_ensures(FrameControl::<Bytes>::ack_request, (&*final(fc),), read),
    ensures
        read == value,
        final(fc)@[0] as int / 32 % 2 == flag_number(value),
        final(fc)@[0] - 32 * (final(fc)@[0] as int / 32 % 2) == old(fc)@[0] - 32 * (
        old(fc)@[0] as int / 32 % 2),
        final(fc)@[1] == old(fc)@[1],
        final(fc)@.len() == old(fc)@.len(),
        forall|i: int| 2 <= i < old(fc)@.len() ==> final(fc)@[i] == old(fc)@[i],
{
    lemma_control_octets(*fc);
    lemma_control_octets(*final(fc));
    lemma_octet_groups(fc@[0]);
    lemma_octet_groups(fc@[1]);
    lemma_octet_groups(final(fc)@[0]);
    lemma_octet_groups(final(fc)@[1]);
    lemma_same_groups(fc.fields(), final(fc).fields());
    assert forall|i: int| 2 <= i < fc@.len() implies final(fc)@[i] == fc@[i] by {
        assert(final(fc)@.skip(2)[i - 2] == fc@.skip(2)[i - 2]);
    }
}

/// The compression of the PAN ID is read as it was set, in its bits and in no other.
#[verifier::spinoff_prover]
#[verifier::rlimit(30)]
pub proof fn lemma_set_pan_id_compression<Bytes: OctetsMut>(
    fc: &mut FrameControl<Bytes>,
    value: bool,
    read: bool,
)
    requires
        fc@.len() >= 2,
        call_ensures(FrameControl::<Bytes>::set_pan_id_compression, (fc, value), ()),
        call_ensures(FrameControl::<Bytes>::pan_id_compression, (&*final(fc),), read),
    ensures
        read == value,
        final(fc)@[0] as int / 64 % 2 == flag_number(value),
        final(fc)@[0] - 64 * (final(fc)@[0] as int / 64 % 2) == old(fc)@[0] - 64 * (
        old(fc)@[0] as int / 64 % 2),
        final(fc)@[1] == old(fc)@[1],
        final(fc)@.len() == old(fc)@.len(),
        forall|i: int| 2 <= i < old(fc)@.len() ==> final(fc)@[i] == old(fc)@[i],
{
    lemma_control_octets(*fc);
    lemma_control_octets(*final(fc));
    lemma_octet_groups(fc@[0]);
    lemma_octet_groups(fc@[1]);
    lemma_octet_groups(final(fc)@[0]);
    lemma_octet_groups(final(fc)@[1]);
    lemma_same_groups(fc.fields(), final(fc).fields());
    assert forall|i: int| 2 <= i < fc@.len() implies final(fc)@[i] == fc@[i] by {
        assert(final(fc)@.skip(2)[i - 2] == fc@.skip(2)[i - 2]);
    }
}

/// The suppression of the sequence number is read as it was set, in its bits and in no other.
#[verifier::spinoff_prover]
#[verifier::rlimit(30)]
pub proof fn lemma_set_sequence_number_suppression<Bytes: OctetsMut>(
    fc: &mut FrameControl<Bytes>,
    value: bool,
    read: bool,
)
    requires
        fc@.len() >= 2,
        call_ensures(FrameControl::<Bytes>::set_sequence_number_suppression, (fc, value), ()),
        call_ensures(FrameControl::<Bytes>::sequence_number_suppression, (&*final(fc),), read),
    ensures
        read == value,
        final(fc)@[1] as int / 1 % 2 == flag_number(value),
        final(fc)@[1] - 1 * (final(fc)@[1] as int / 1 % 2) == old(fc)@[1] - 1 * (
        old(fc)@[1] as int / 1 % 2),
        final(fc)@[0] == old(fc)@[0],
        final(fc)@.len() == old(fc)@.len(),
        forall|i: int| 2 <= i < old(fc)@.len() ==> final(fc)@[i] == old(fc)@[i],
{
    lemma_control_octets(*fc);
    lemma_control_octets(*final(fc));
    lemma_octet_groups(fc@[0]);
    lemma_octet_groups(fc@[1]);
    lemma_octet_groups(final(fc)@[0]);
    lemma_octet_groups(final(fc)@[1]);
    lemma_same_groups(fc.fields(), final(fc).fields());
    assert forall|i: int| 2 <= i < fc@.len() implies final(fc)@[i] == fc@[i] by {
        assert(final(fc)@.skip(2)[i - 2] == fc@.skip(2)[i - 2]);
    }
}

/// The presence of IEs is read as it was set, in its bits and in no other.
#[verifier::spinoff_prover]
#[verifier::rlimit(30)]
pub proof fn lemma_set_information_elements_present<Bytes: OctetsMut>(
    fc: &mut FrameControl<Bytes>,
    value: bool,
    read: bool,
)
    requires
        fc@.len() >= 2,
        call_ensures(FrameControl::<Bytes>::set_information_elements_present, (fc, value), ()),
        call_ensures(FrameControl::<Bytes>::information_elements_present, (&*final(fc),), read),
    ensures
        read == value,
        final(fc)@[1] as int / 2 % 2 == flag_number(value),
        final(fc)@[1] - 2 * (final(fc)@[1] as int / 2 % 2) == old(fc)@[1] - 2 * (
        old(fc)@[1] as int / 2 % 2),
        final(fc)@[0] == old(fc)@[0],
        final(fc)@.len() == old(fc)@.len(),
        forall|i: int| 2 <= i < old(fc)@.len() ==> final(fc)@[i] == old(fc)@[i],
{
    lemma_control_octets(*fc);
    lemma_control_octets(*final(fc));
    lemma_octet_groups(fc@[0]);
    lemma_octet_groups(fc@[1]);
    lemma_octet_groups(final(fc)@[0]);
    lemma_octet_groups(final(fc)@[1]);
    lemma_same_groups(fc.fields(), final(fc).fields());
    assert forall|i: int| 2 <= i < fc@.len() implies final(fc)@[i] == fc@[i] by {
        assert(final(fc)@.skip(2)[i - 2] == fc@.skip(2)[i - 2]);
    }
}

/// The destination addressing mode is read as it was set, in its bits and in no other.
#[verifier::spinoff_prover]
#[verifier::rlimit(30)]
pub proof fn lemma_set_dst_addressing_mode<Bytes: OctetsMut>(
    fc: &mut FrameControl<Bytes>,
    value: AddressingMode,
    read: AddressingMode,
)
    requires
        fc@.len() >= 2,
        call_ensures(FrameControl::<Bytes>::set_dst_addressing_mode, (fc, value), ()),
        call_ensures(FrameControl::<Bytes>::dst_addressing_mode, (&*final(fc),), read),
    ensures
        read == value,
        final(fc)@[1] as int / 4 % 4 == mode_number(value),
        final(fc)@[1] - 4 * (final(fc)@[1] as int / 4 % 4) == old(fc)@[1] - 4 * (
        old(fc)@[1] as int / 4 % 4),
        final(fc)@[0] == old(fc)@[0],
        final(fc)@.len() == old(fc)@.len(),
        forall|i: int| 2 <= i < old(fc)@.len() ==> final(fc)@[i] == old(fc)@[i],
{
    lemma_control_octets(*fc);
    lemma_control_octets(*final(fc));
    lemma_octet_groups(fc@[0]);
    lemma_octet_groups(fc@[1]);
    lemma_octet_groups(final(fc)@[0]);
    lemma_octet_groups(final(fc)@[1]);
    lemma_same_groups(fc.fields(), final(fc).fields());
    assert forall|i: int| 2 <= i < fc@.len() implies final(fc)@[i] == fc@[i] by {
        assert(final(fc)@.skip(2)[i - 2] == fc@.skip(2)[i - 2]);
    }
}

/// The frame version is read as it was set, in its bits and in no other.
#[verifier::spinoff_prover]
#[verifier::rlimit(30)]
pub proof fn lemma_set_frame_version<Bytes: OctetsMut>(
    fc: &mut FrameControl<Bytes>,
    value: FrameVersion,
    read: FrameVersion,
)
    requires
        fc@.len() >= 2,
        call_ensures(FrameControl::<Bytes>::set_frame_version, (fc, value), ()),
        call_ensures(FrameControl::<Bytes>::frame_version, (&*final(fc),), read),
    ensures
        read == value,
        final(fc)@[1] as int / 16 % 4 == version_number(value),
        final(fc)@[1] - 16 * (final(fc)@[1] as int / 16 % 4) == old(fc)@[1] - 16 * (
        old(fc)@[1] as int / 16 % 4),
        final(fc)@[0] == old(fc)@[0],
        final(fc)@.len() == old(fc)@.len(),
        forall|i: int| 2 <= i < old(fc)@.len() ==> final(fc)@[i] == old(fc)@[i],
{
    lemma_control_octets(*fc);
    lemma_control_octets(*final(fc));
    lemma_octet_groups(fc@[0]);
    lemma_octet_groups(fc@[1]);
    lemma_octet_groups(final(fc)@[0]);
    lemma_octet_groups(final(fc)@[1]);
    lemma_same_groups(fc.fields(), final(fc).fields());
    assert forall|i: int| 2 <= i < fc@.len() implies final(fc)@[i] == fc@[i] by {
        assert(final(fc)@.skip(2)[i - 2] == fc@.skip(2)[i - 2]);
    }
}

/// The source addressing mode is read as it was set, in its bits and in no other.
#[verifier::spinoff_prover]
#[verifier::rlimit(30)]
pub proof fn lemma_set_src_addressing_mode<Bytes: OctetsMut>(
    fc: &mut FrameControl<Bytes>,
    value: AddressingMode,
    read: AddressingMode,
)
    requires
        fc@.len() >= 2,
        call_ensures(FrameControl::<Bytes>::set_src_addressing_mode, (fc, value), ()),
        call_ensures(FrameControl::<Bytes>::src_addressing_mode, (&*final(fc),), read),
    ensures
        read == value,
        final(fc)@[1] as int / 64 % 4 == mode_number(value),
        final(fc)@[1] - 64 * (final(fc)@[1] as int / 64 % 4) == old(fc)@[1] - 64 * (
        old(fc)@[1] as int / 64 % 4),
        final(fc)@[0] == old(fc)@[0],
        final(fc)@.len() == old(fc)@.len(),
        forall|i: int| 2 <= i < old(fc)@.len() ==> final(fc)@[i] == old(fc)@[i],
{
    lemma_control_octets(*fc);
    lemma_control_octets(*final(fc));
    lemma_octet_groups(fc@[0]);
    lemma_octet_groups(fc@[1]);
    lemma_octet_groups(final(fc)@[0]);
    lemma_octet_groups(final(fc)@[1]);
    lemma_same_groups(fc.fields(), final(fc).fields());
    assert forall|i: int| 2 <= i < fc@.len() implies final(fc)@[i] == fc@[i] by {
        assert(final(fc)@.skip(2)[i - 2] == fc@.skip(2)[i - 2]);
    }
}

} // verus!
