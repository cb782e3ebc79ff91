//! What addresses and addressing fields are for.
//!
//! The laws speak of calls: each relates the arguments and the results of one or
//! more functions.

use vstd::prelude::*;

use crate::frame::addressing::{
    broadcast_octets, broadcast_pan_id, Address, AddressingMode, ExtendedAddress, PanId,
    ShortAddress,
};
use crate::frame::addressing_fields::AddressingFields;
use crate::frame::addressing_repr::{AddressingRepr, PanIdCompressionRepr};
use crate::frame::control_laws::lemma_control_octets;
use crate::frame::frame_control::FrameControl;
use crate::octets::{lemma_u16_round_trip, Octets, OctetsMut};
use crate::Error;

verus! {

/// An address takes no octets, two or eight. Modes are numbered in two bits.
pub proof fn lemma_mode_lengths(mode: AddressingMode, length: u16, code: u8, of: AddressingMode)
    requires
        call_ensures(AddressingMode::length, (&mode,), length),
        call_ensures(<AddressingMode as From<u8>>::from, (code,), of),
    ensures
        mode == AddressingMode::Absent ==> length == 0,
        mode == AddressingMode::Unknown ==> length == 0,
        mode == AddressingMode::Short ==> length == 2,
        mode == AddressingMode::Extended ==> length == 8,
        code == 0 ==> of == AddressingMode::Absent,
        code == 2 ==> of == AddressingMode::Short,
        code == 3 ==> of == AddressingMode::Extended,
        code == 1 || code > 3 ==> of == AddressingMode::Unknown,
{
}

/// Which PAN IDs are there in frames of the newer version. If none of both addresses
/// is there, then the destination PAN ID is if it is said to be compressed. If one of
/// both addresses is there or both are extended, then one PAN ID is unless it is
/// compressed: that of the destination, if there is one. If both addresses are there
/// and one is short, then the destination PAN ID is there, and that of the source is
/// unless it is compressed.
pub proof fn lemma_pan_ids(
    repr: AddressingRepr,
    lengths: Result<[u8; 4], Error>,
    flags: Result<(bool, AddressingMode, bool, AddressingMode), Error>,
)
    requires
        repr.known(),
        repr.compression() != PanIdCompressionRepr::Legacy,
        call_ensures(AddressingRepr::addressing_fields_lengths, (&repr,), lengths),
        call_ensures(AddressingRepr::address_present_flags, (&repr,), flags),
    ensures
        ({
            let (dst, src) = (repr.dst_mode(), repr.src_mode());
            let compressed = repr.compression() == PanIdCompressionRepr::Yes;
            let dst_there = dst != AddressingMode::Absent;
            let src_there = src != AddressingMode::Absent;
            let both_extended = dst == AddressingMode::Extended && src == AddressingMode::Extended;
            &&& lengths matches Ok(lengths)
            &&& flags matches Ok((dst_pan_id, dst_flag, src_pan_id, src_flag))
            &&& !dst_there && !src_there ==> dst_pan_id == compressed && !src_pan_id
            &&& dst_there && !src_there ==> dst_pan_id == !compressed && !src_pan_id
            &&& !dst_there && src_there ==> !dst_pan_id && src_pan_id == !compressed
            &&& both_extended ==> dst_pan_id == !compressed && !src_pan_id
            &&& dst_there && src_there && !both_extended ==> dst_pan_id && src_pan_id
                == !compressed
            &&& lengths@[0] == (if dst_pan_id {
                2int
            } else {
                0
            })
            &&& lengths@[2] == (if src_pan_id {
                2int
            } else {
                0
            })
            &&& dst_flag == dst && src_flag == src
        }),
{
}

/// Which PAN IDs are there in frames of the older versions: that of each address that
/// is there, but that of the source only if it differs from that of the destination.
/// Without any address, or with a single one that would share its PAN ID, the
/// addressing is invalid.
pub proof fn lemma_legacy_pan_ids(
    repr: AddressingRepr,
    lengths: Result<[u8; 4], Error>,
    flags: Result<(bool, AddressingMode, bool, AddressingMode), Error>,
)
    requires
        repr.known(),
        repr.compression() == PanIdCompressionRepr::Legacy,
        call_ensures(AddressingRepr::addressing_fields_lengths, (&repr,), lengths),
        call_ensures(AddressingRepr::address_present_flags, (&repr,), flags),
    ensures
        ({
            let dst_there = repr.dst_mode() != AddressingMode::Absent;
            let src_there = repr.src_mode() != AddressingMode::Absent;
            &&& lengths is Ok <==> flags is Ok
            &&& !dst_there && !src_there ==> flags is Err
            &&& dst_there != src_there ==> (flags is Err <==> repr.same_pan())
            &&& dst_there && src_there ==> flags is Ok
            &&& flags matches Ok((dst_pan_id, dst, src_pan_id, src)) ==> {
                &&& dst_pan_id == dst_there
                &&& src_pan_id == (src_there && !repr.same_pan())
                &&& dst == repr.dst_mode() && src == repr.src_mode()
                &&& lengths->Ok_0@[0] == (if dst_pan_id {
                    2int
                } else {
                    0
                })
                &&& lengths->Ok_0@[2] == (if src_pan_id {
                    2int
                } else {
                    0
                })
            }
        }),
{
}

/// The fields are as long as their addresses require, and the length of all of them
/// is the sum of the four.
pub proof fn lemma_address_lengths(
    repr: AddressingRepr,
    lengths: Result<[u8; 4], Error>,
    total: Result<u16, Error>,
    dst: AddressingMode,
    src: AddressingMode,
    dst_length: u16,
    src_length: u16,
)
    requires
        call_ensures(AddressingRepr::addressing_fields_lengths, (&repr,), lengths),
        call_ensures(AddressingRepr::addressing_fields_length, (&repr,), total),
        call_ensures(AddressingRepr::dst_addr_mode, (&repr,), dst),
        call_ensures(AddressingRepr::src_addr_mode, (&repr,), src),
        call_ensures(AddressingMode::length, (&dst,), dst_length),
        call_ensures(AddressingMode::length, (&src,), src_length),
    ensures
        total is Ok <==> lengths is Ok,
        lengths matches Ok(lengths) ==> {
            &&& lengths@[1] == dst_length
            &&& lengths@[3] == src_length
            &&& total->Ok_0 == lengths@[0] + lengths@[1] + lengths@[2] + lengths@[3]
        },
{
}

/// A structure has the parts that it was made of.
pub proof fn lemma_addressing_made(
    dst: AddressingMode,
    src: AddressingMode,
    same_pan: bool,
    compression: PanIdCompressionRepr,
    repr: AddressingRepr,
    legacy: AddressingRepr,
    dst_read: AddressingMode,
    src_read: AddressingMode,
)
    requires
        call_ensures(AddressingRepr::new, (dst, src, same_pan, compression), repr),
        call_ensures(AddressingRepr::new_legacy_addressing, (dst, src, same_pan), legacy),
        call_ensures(AddressingRepr::dst_addr_mode, (&repr,), dst_read),
        call_ensures(AddressingRepr::src_addr_mode, (&repr,), src_read),
    ensures
        dst_read == dst && src_read == src,
        repr.same_pan() == same_pan && repr.compression() == compression,
        legacy.dst_mode() == dst && legacy.src_mode() == src && legacy.same_pan() == same_pan,
        legacy.compression() == PanIdCompressionRepr::Legacy,
{
}

/// The compression bit tells what was asked for. In frames of the older versions it
/// is set if both addresses are there and share their PAN ID.
pub proof fn lemma_compression_bit(repr: AddressingRepr, bit: bool)
    requires
        repr.known(),
        call_ensures(AddressingRepr::pan_id_compression, (&repr,), bit),
    ensures
        repr.compression() == PanIdCompressionRepr::Yes ==> bit,
        repr.compression() == PanIdCompressionRepr::No ==> !bit,
        repr.compression() == PanIdCompressionRepr::Legacy ==> (bit <==> repr.dst_mode()
            != AddressingMode::Absent && repr.src_mode() != AddressingMode::Absent
            && repr.same_pan()),
{
}

/// The structure that a frame control field announces is valid unless the version is
/// unknown, and it has the addressing modes and, in frames of the newer version, the
/// compression of the field. PAN IDs can only be shared if they are compressed.
pub proof fn lemma_addressing_announced<Bytes: Octets>(
    fc: FrameControl<Bytes>,
    repr: Result<AddressingRepr, Error>,
)
    requires
        fc@.len() >= 2,
        fc@[1] as int / 4 % 4 != 1,
        fc@[1] as int / 64 != 1,
        call_ensures(AddressingRepr::from_frame_control::<Bytes>, (fc,), repr),
    ensures
        ({
            let compressed = fc@[0] as int / 64 % 2 == 1;
            let (dst, version, src) = (
                fc@[1] as int / 4 % 4,
                fc@[1] as int / 16 % 4,
                fc@[1] as int / 64,
            );
            &&& repr is Ok <==> version != 3
            &&& repr matches Ok(repr) ==> {
                &&& repr.dst_mode() == AddressingMode::Absent <==> dst == 0
                &&& repr.dst_mode() == AddressingMode::Short <==> dst == 2
                &&& repr.dst_mode() == AddressingMode::Extended <==> dst == 3
                &&& repr.src_mode() == AddressingMode::Absent <==> src == 0
                &&& repr.src_mode() == AddressingMode::Short <==> src == 2
                &&& repr.src_mode() == AddressingMode::Extended <==> src == 3
                &&& version < 2 ==> repr.compression() == PanIdCompressionRepr::Legacy
                    && repr.same_pan() == (compressed && dst != 0 && src != 0)
                &&& version == 2 ==> repr.compression() == (if compressed {
                    PanIdCompressionRepr::Yes
                } else {
                    PanIdCompressionRepr::No
                }) && repr.same_pan() == (compressed && (dst == 2 || src == 2))
            }
        }),
{
    lemma_control_octets(fc);
}

/// The addressing fields follow each other without a gap: first the destination PAN
/// ID, then the destination address, the source PAN ID and the source address. Each
/// is as long as the structure tells.
pub proof fn lemma_fields_in_order<Bytes: Octets>(
    bytes: Bytes,
    repr: AddressingRepr,
    lengths: Result<[u8; 4], Error>,
    checked: Result<AddressingFields<Bytes>, Error>,
    fields: AddressingFields<Bytes>,
    dst_pan_id: Option<PanId<&[u8]>>,
    dst: Option<Address<&[u8]>>,
    src_pan_id: Option<PanId<&[u8]>>,
    src: Option<Address<&[u8]>>,
)
    requires
        call_ensures(AddressingRepr::addressing_fields_lengths, (&repr,), lengths),
        call_ensures(AddressingFields::<Bytes>::new, (bytes, repr), checked),
        checked == Ok::<AddressingFields<Bytes>, Error>(fields),
        call_ensures(AddressingFields::<Bytes>::dst_pan_id, (&fields,), dst_pan_id),
        call_ensures(AddressingFields::<Bytes>::dst_address, (&fields,), dst),
        call_ensures(AddressingFields::<Bytes>::src_pan_id, (&fields,), src_pan_id),
        call_ensures(AddressingFields::<Bytes>::src_address, (&fields,), src),
    ensures
        lengths matches Ok(l) && {
            let (a, b, c, d) = (l@[0] as int, l@[1] as int, l@[2] as int, l@[3] as int);
            &&& bytes.bytes().len() == a + b + c + d
            &&& dst_pan_id is Some <==> a > 0
            &&& dst_pan_id matches Some(x) ==> x@ == bytes.bytes().subrange(0, a)
            &&& dst is Some <==> b > 0
            &&& dst matches Some(x) ==> x.le() == bytes.bytes().subrange(a, a + b)
            &&& src_pan_id is Some <==> c > 0
            &&& src_pan_id matches Some(x) ==> x@ == bytes.bytes().subrange(a + b, a + b + c)
            &&& src is Some <==> d > 0
            &&& src matches Some(x) ==> x.le() == bytes.bytes().subrange(
                a + b + c,
                a + b + c + d,
            )
        },
{
}

/// Addressing fields are only accepted with the length that the structure tells.
/// Unchecked, there may be further octets behind them.
pub proof fn lemma_fields_accepted<Bytes: Octets>(
    bytes: Bytes,
    repr: AddressingRepr,
    total: Result<u16, Error>,
    lengths: Result<[u8; 4], Error>,
    checked: Result<AddressingFields<Bytes>, Error>,
    unchecked: Result<AddressingFields<Bytes>, Error>,
)
    requires
        call_ensures(AddressingRepr::addressing_fields_length, (&repr,), total),
        call_ensures(AddressingRepr::addressing_fields_lengths, (&repr,), lengths),
        call_ensures(AddressingFields::<Bytes>::new, (bytes, repr), checked),
        call_ensures(AddressingFields::<Bytes>::new_unchecked, (bytes, repr), unchecked),
    ensures
        checked is Ok <==> (total matches Ok(total) && total == bytes.bytes().len()),
        unchecked is Ok <==> total is Ok,
        checked matches Ok(fields) ==> fields@ == bytes.bytes() && unchecked->Ok_0.offsets()
            == fields.offsets(),
        unchecked matches Ok(fields) ==> fields@ == bytes.bytes() && fields.offsets().end
            == total->Ok_0,
        unchecked matches Ok(fields) ==> lengths matches Ok(l) && fields.offsets().dst_addr
            == l@[0] && fields.offsets().src_pan_id == l@[0] + l@[1] && fields.offsets().src_addr
            == l@[0] + l@[1] + l@[2] && fields.offsets().end == l@[0] + l@[1] + l@[2] + l@[3],
{
}

/// Fields that are consumed give the same parts as fields that are borrowed, and the
/// length of the fields is that of their octets.
pub proof fn lemma_fields_consumed(
    fields: AddressingFields<&[u8]>,
    borrowed: (
        Option<PanId<&[u8]>>,
        Option<Address<&[u8]>>,
        Option<PanId<&[u8]>>,
        Option<Address<&[u8]>>,
    ),
    consumed: (
        Option<PanId<&[u8]>>,
        Option<Address<&[u8]>>,
        Option<PanId<&[u8]>>,
        Option<Address<&[u8]>>,
    ),
    length: usize,
)
    requires
        call_ensures(AddressingFields::<&[u8]>::dst_pan_id, (&fields,), borrowed.0),
        call_ensures(AddressingFields::<&[u8]>::dst_address, (&fields,), borrowed.1),
        call_ensures(AddressingFields::<&[u8]>::src_pan_id, (&fields,), borrowed.2),
        call_ensures(AddressingFields::<&[u8]>::src_address, (&fields,), borrowed.3),
        call_ensures(AddressingFields::<&[u8]>::into_dst_pan_id, (fields,), consumed.0),
        call_ensures(AddressingFields::<&[u8]>::into_dst_address, (fields,), consumed.1),
        call_ensures(AddressingFields::<&[u8]>::into_src_pan_id, (fields,), consumed.2),
        call_ensures(AddressingFields::<&[u8]>::into_src_address, (fields,), consumed.3),
        call_ensures(AddressingFields::<&[u8]>::length, (&fields,), length),
    ensures
        length == fields@.len(),
        borrowed.0 is Some <==> consumed.0 is Some,
        borrowed.1 is Some <==> consumed.1 is Some,
        borrowed.2 is Some <==> consumed.2 is Some,
        borrowed.3 is Some <==> consumed.3 is Some,
        borrowed.0 matches Some(x) ==> consumed.0->0@ == x@,
        borrowed.1 matches Some(x) ==> consumed.1->0.le() == x.le(),
        borrowed.2 matches Some(x) ==> consumed.2->0@ == x@,
        borrowed.3 matches Some(x) ==> consumed.3->0.le() == x.le(),
{
}

/// A part of the fields that is borrowed to be written holds what a reader sees. What
/// is written is read afterwards, and the other parts stay as they are.
pub proof fn lemma_dst_address_written<Bytes: OctetsMut>(
    fields: &mut AddressingFields<Bytes>,
    part: Option<Address<&mut [u8]>>,
)
    requires
        fields.wf(),
        call_ensures(AddressingFields::<Bytes>::dst_address_mut, (fields,), part),
        part matches Some(x) ==> (*final(x.container()))@.len() == x.le().len(),
    ensures
        part is Some <==> old(fields).dst_address_octets().len() > 0,
        part matches Some(x) ==> {
            &&& x.le() == old(fields).dst_address_octets()
            &&& final(fields).dst_address_octets() == (*final(x.container()))@
        },
        final(fields).dst_pan_id_octets() == old(fields).dst_pan_id_octets(),
        final(fields).src_pan_id_octets() == old(fields).src_pan_id_octets(),
        final(fields).src_address_octets() == old(fields).src_address_octets(),
        final(fields)@.len() == old(fields)@.len(),
{
}

/// The same holds of the source address.
pub proof fn lemma_src_address_written<Bytes: OctetsMut>(
    fields: &mut AddressingFields<Bytes>,
    part: Option<Address<&mut [u8]>>,
)
    requires
        fields.wf(),
        call_ensures(AddressingFields::<Bytes>::src_address_mut, (fields,), part),
        part matches Some(x) ==> (*final(x.container()))@.len() == x.le().len(),
    ensures
        part is Some <==> old(fields).src_address_octets().len() > 0,
        part matches Some(x) ==> {
            &&& x.le() == old(fields).src_address_octets()
            &&& final(fields).src_address_octets() == (*final(x.container()))@
        },
        final(fields).dst_pan_id_octets() == old(fields).dst_pan_id_octets(),
        final(fields).dst_address_octets() == old(fields).dst_address_octets(),
        final(fields).src_pan_id_octets() == old(fields).src_pan_id_octets(),
        final(fields)@.len() == old(fields)@.len(),
{
}

/// The same holds of the destination PAN ID.
pub proof fn lemma_dst_pan_id_written<Bytes: OctetsMut>(
    fields: &mut AddressingFields<Bytes>,
    part: Option<PanId<&mut [u8]>>,
)
    requires
        fields.wf(),
        call_ensures(AddressingFields::<Bytes>::dst_pan_id_mut, (fields,), part),
        part matches Some(x) ==> (*final(x.container()))@.len() == 2,
    ensures
        part is Some <==> old(fields).dst_pan_id_octets().len() > 0,
        part matches Some(x) ==> {
            &&& x@ == old(fields).dst_pan_id_octets()
            &&& final(fields).dst_pan_id_octets() == (*final(x.container()))@
        },
        final(fields).dst_address_octets() == old(fields).dst_address_octets(),
        final(fields).src_pan_id_octets() == old(fields).src_pan_id_octets(),
        final(fields).src_address_octets() == old(fields).src_address_octets(),
        final(fields)@.len() == old(fields)@.len(),
{
}

/// The same holds of the source PAN ID.
pub proof fn lemma_src_pan_id_written<Bytes: OctetsMut>(
    fields: &mut AddressingFields<Bytes>,
    part: Option<PanId<&mut [u8]>>,
)
    requires
        fields.wf(),
        call_ensures(AddressingFields::<Bytes>::src_pan_id_mut, (fields,), part),
        part matches Some(x) ==> (*final(x.container()))@.len() == 2,
    ensures
        part is Some <==> old(fields).src_pan_id_octets().len() > 0,
        part matches Some(x) ==> {
            &&& x@ == old(fields).src_pan_id_octets()
            &&& final(fields).src_pan_id_octets() == (*final(x.container()))@
        },
        final(fields).dst_pan_id_octets() == old(fields).dst_pan_id_octets(),
        final(fields).dst_address_octets() == old(fields).dst_address_octets(),
        final(fields).src_address_octets() == old(fields).src_address_octets(),
        final(fields)@.len() == old(fields)@.len(),
{
}

/// Short addresses and PAN IDs are numbers whose least significant octet comes first
/// in a frame and last as text. Both forms can be converted to each other.
pub proof fn lemma_short_address_forms(
    number: u16,
    be: [u8; 2],
    address: ShortAddress<[u8; 2]>,
    back: u16,
    from_be: ShortAddress<[u8; 2]>,
    into_be: [u8; 2],
    pan_id: PanId<[u8; 2]>,
    pan_id_back: u16,
    pan_id_from_be: PanId<[u8; 2]>,
    pan_id_into_be: [u8; 2],
)
    requires
        call_ensures(ShortAddress::<[u8; 2]>::from_u16, (number,), address),
        call_ensures(ShortAddress::<[u8; 2]>::into_u16, (&address,), back),
        call_ensures(ShortAddress::<[u8; 2]>::from_be_bytes, (be,), from_be),
        call_ensures(ShortAddress::<[u8; 2]>::into_be_bytes, (&from_be,), into_be),
        call_ensures(PanId::<[u8; 2]>::from_u16, (number,), pan_id),
        call_ensures(PanId::<[u8; 2]>::into_u16, (&pan_id,), pan_id_back),
        call_ensures(PanId::<[u8; 2]>::from_be_bytes, (be,), pan_id_from_be),
        call_ensures(PanId::<[u8; 2]>::into_be_bytes, (&pan_id_from_be,), pan_id_into_be),
    ensures
        back == number && pan_id_back == number,
        address@[0] == number as int % 0x100 && address@[1] == number as int / 0x100,
        pan_id@ == address@,
        into_be@ == be@ && pan_id_into_be@ == be@,
        from_be@[0] == be@[1] && from_be@[1] == be@[0],
        pan_id_from_be@ == from_be@,
{
    assert(be@.reverse().reverse() =~= be@);
    assert(pan_id@ =~= address@);
}

/// An extended address has its least significant octet first in a frame and last as
/// text.
pub proof fn lemma_extended_address_forms(
    be: [u8; 8],
    address: ExtendedAddress<[u8; 8]>,
    back: [u8; 8],
)
    requires
        call_ensures(ExtendedAddress::<[u8; 8]>::from_be_bytes, (be,), address),
        call_ensures(ExtendedAddress::<[u8; 8]>::into_be_bytes, (&address,), back),
    ensures
        back@ == be@,
        forall|i: int| 0 <= i < 8 ==> #[trigger] address@[i] == be@[7 - i],
{
    assert(be@.reverse().reverse() =~= be@);
}

/// An address or PAN ID has the octets that it was made of.
pub proof fn lemma_addresses_made(
    two: [u8; 2],
    eight: [u8; 8],
    short: ShortAddress<[u8; 2]>,
    extended: ExtendedAddress<[u8; 8]>,
    pan_id: PanId<[u8; 2]>,
    short_ref: &[u8],
    extended_ref: &[u8],
    pan_id_ref: &[u8],
)
    requires
        call_ensures(ShortAddress::<[u8; 2]>::new_owned, (two,), short),
        call_ensures(ExtendedAddress::<[u8; 8]>::new_owned, (eight,), extended),
        call_ensures(PanId::<[u8; 2]>::new_owned, (two,), pan_id),
        call_ensures(ShortAddress::<[u8; 2]>::as_ref, (&short,), short_ref),
        call_ensures(ExtendedAddress::<[u8; 8]>::as_ref, (&extended,), extended_ref),
        call_ensures(PanId::<[u8; 2]>::as_ref, (&pan_id,), pan_id_ref),
    ensures
        short_ref@ == two@ && extended_ref@ == eight@ && pan_id_ref@ == two@,
{
}

/// A short address is read as it was written, in each of its forms.
pub proof fn lemma_short_address_written<Bytes: OctetsMut, Src: Octets>(
    first: &mut ShortAddress<Bytes>,
    second: &mut ShortAddress<Bytes>,
    third: &mut ShortAddress<Bytes>,
    src: Src,
    number: u16,
    read: u16,
    be: [u8; 2],
)
    requires
        first@.len() == 2,
        second@.len() == 2,
        third@.len() == 2,
        src.bytes().len() == 2,
        call_ensures(ShortAddress::<Bytes>::set_le_bytes::<Src>, (first, src), ()),
        call_ensures(ShortAddress::<Bytes>::set_be_bytes::<Src>, (second, src), ()),
        call_ensures(ShortAddress::<Bytes>::set_u16, (third, number), ()),
        call_ensures(ShortAddress::<Bytes>::into_be_bytes, (&*final(second),), be),
        call_ensures(ShortAddress::<Bytes>::into_u16, (&*final(third),), read),
    ensures
        final(first)@ == src.bytes(),
        be@ == src.bytes(),
        read == number,
        final(third)@.len() == 2,
{
    assert(src.bytes().reverse().reverse() =~= src.bytes());
    lemma_u16_round_trip(third@, 0, number as int);
}

/// A PAN ID is read as it was written, in each of its forms.
pub proof fn lemma_pan_id_written<Bytes: OctetsMut, Src: Octets>(
    first: &mut PanId<Bytes>,
    second: &mut PanId<Bytes>,
    third: &mut PanId<Bytes>,
    src: Src,
    number: u16,
    read: u16,
    be: [u8; 2],
)
    requires
        first@.len() == 2,
        second@.len() == 2,
        third@.len() == 2,
        src.bytes().len() == 2,
        call_ensures(PanId::<Bytes>::set_le_bytes::<Src>, (first, src), ()),
        call_ensures(PanId::<Bytes>::set_be_bytes::<Src>, (second, src), ()),
        call_ensures(PanId::<Bytes>::set_u16, (third, number), ()),
        call_ensures(PanId::<Bytes>::into_be_bytes, (&*final(second),), be),
        call_ensures(PanId::<Bytes>::into_u16, (&*final(third),), read),
    ensures
        final(first)@ == src.bytes(),
        be@ == src.bytes(),
        read == number,
        final(third)@.len() == 2,
{
    assert(src.bytes().reverse().reverse() =~= src.bytes());
    lemma_u16_round_trip(third@, 0, number as int);
}

/// An extended address is read as it was written, in each of its forms.
pub proof fn lemma_extended_address_written<Bytes: OctetsMut, Src: Octets>(
    first: &mut ExtendedAddress<Bytes>,
    second: &mut ExtendedAddress<Bytes>,
    src: Src,
    be: [u8; 8],
)
    requires
        first@.len() == 8,
        second@.len() == 8,
        src.bytes().len() == 8,
        call_ensures(ExtendedAddress::<Bytes>::set_le_bytes::<Src>, (first, src), ()),
        call_ensures(ExtendedAddress::<Bytes>::set_be_bytes::<Src>, (second, src), ()),
        call_ensures(ExtendedAddress::<Bytes>::into_be_bytes, (&*final(second),), be),
    ensures
        final(first)@ == src.bytes(),
        be@ == src.bytes(),
{
    assert(src.bytes().reverse().reverse() =~= src.bytes());
}

/// The broadcast PAN ID and the broadcast address are 0xffff.
pub proof fn lemma_broadcast(
    pan_id: PanId<[u8; 2]>,
    number: u16,
    address: Address<&'static [u8]>,
    broadcast: bool,
    unicast: bool,
)
    requires
        call_ensures(broadcast_pan_id, (), pan_id),
        call_ensures(PanId::<[u8; 2]>::into_u16, (&pan_id,), number),
        call_ensures(Address::<&'static [u8]>::broadcast_addr, (), address),
        call_ensures(Address::<&'static [u8]>::is_broadcast, (&address,), broadcast),
        call_ensures(Address::<&'static [u8]>::is_unicast, (&address,), unicast),
    ensures
        number == 0xffff,
        address is Short && address.le() == pan_id@,
        broadcast && !unicast,
{
}

/// An address is either unicast or the short address 0xffff.
pub proof fn lemma_unicast_or_broadcast<Bytes: Octets>(
    address: Address<Bytes>,
    broadcast: bool,
    unicast: bool,
    length: usize,
)
    requires
        address.wf(),
        call_ensures(Address::<Bytes>::is_broadcast, (&address,), broadcast),
        call_ensures(Address::<Bytes>::is_unicast, (&address,), unicast),
        call_ensures(Address::<Bytes>::length, (&address,), length),
    ensures
        unicast == !broadcast,
        broadcast <==> length == 2 && address.le()[0] == 0xff && address.le()[1] == 0xff,
{
    if length == 2 && address.le()[0] == 0xff && address.le()[1] == 0xff {
        assert(address.le() =~= broadcast_octets());
    }
}

/// Each kind of address is told by its length.
pub proof fn lemma_address_kinds<Bytes: Octets>(
    address: Address<Bytes>,
    length: usize,
    absent: bool,
    short: bool,
    extended: bool,
    mode: AddressingMode,
    octets: &[u8],
)
    requires
        address.wf(),
        call_ensures(Address::<Bytes>::length, (&address,), length),
        call_ensures(Address::<Bytes>::is_absent, (&address,), absent),
        call_ensures(Address::<Bytes>::is_short, (&address,), short),
        call_ensures(Address::<Bytes>::is_extended, (&address,), extended),
        call_ensures(<AddressingMode as From<Address<Bytes>>>::from, (address,), mode),
        call_ensures(Address::<Bytes>::as_le_bytes, (&address,), octets),
    ensures
        octets@.len() == length,
        absent <==> length == 0,
        short <==> length == 2,
        extended <==> length == 8,
        absent <==> address is Absent,
        short <==> address is Short,
        extended <==> address is Extended,
        absent <==> mode == AddressingMode::Absent,
        short <==> mode == AddressingMode::Short,
        extended <==> mode == AddressingMode::Extended,
        address matches Address::Short(short) ==> octets@ == short@,
        address matches Address::Extended(extended) ==> octets@ == extended@,
{
}

/// The short address of an address that is not absent consists of its first two
/// octets.
pub proof fn lemma_shortened<Bytes: Octets>(
    address: Address<Bytes>,
    short: Option<Address<&[u8]>>,
)
    requires
        address.wf(),
        call_ensures(Address::<Bytes>::to_short, (&address,), short),
    ensures
        short is None <==> address is Absent,
        short matches Some(short) ==> short is Short && short.le().len() == 2 && short.le()[0]
            == address.le()[0] && short.le()[1] == address.le()[1],
{
}

/// An address that is read from octets gives them back.
pub proof fn lemma_address_from_octets(le: &[u8], address: Address<&[u8]>, back: &[u8])
    requires
        le@.len() == 0 || le@.len() == 2 || le@.len() == 8,
        call_ensures(Address::<&[u8]>::from_le_bytes, (le,), address),
        call_ensures(Address::<&[u8]>::as_le_bytes, (&address,), back),
    ensures
        back@ == le@,
        le@.len() == 0 ==> address is Absent,
        le@.len() == 2 ==> address is Short,
        le@.len() == 8 ==> address is Extended,
{
}

/// An address can only be set to one of its own length.
pub proof fn lemma_address_set<Bytes: OctetsMut, Src: Octets>(
    address: &mut Address<Bytes>,
    src: Address<Src>,
    r: Result<(), Error>,
    read: &[u8],
)
    requires
        address.wf(),
        src.wf(),
        call_ensures(Address::<Bytes>::set::<Src>, (address, &src), r),
        call_ensures(Address::<Bytes>::as_le_bytes, (&*final(address),), read),
    ensures
        r is Ok <==> ((*old(address)) is Absent && src is Absent) || ((*old(address)) is Short
            && src is Short) || ((*old(address)) is Extended && src is Extended),
        r is Ok ==> read@ == src.le(),
        r is Err ==> read@ == old(address).le(),
{
}

/// A part of an address that is borrowed to be written holds what a reader sees, and what
/// is written is read afterwards. The kind of the address stays.
pub proof fn lemma_octets_written<Bytes: OctetsMut>(
    short: &mut ShortAddress<Bytes>,
    extended: &mut ExtendedAddress<Bytes>,
    pan_id: &mut PanId<Bytes>,
    address: &mut Address<Bytes>,
    a: &mut [u8],
    b: &mut [u8],
    c: &mut [u8],
    d: &mut [u8],
)
    requires
        call_ensures(ShortAddress::<Bytes>::as_mut, (short,), a),
        call_ensures(ExtendedAddress::<Bytes>::as_mut, (extended,), b),
        call_ensures(PanId::<Bytes>::as_mut, (pan_id,), c),
        call_ensures(Address::<Bytes>::as_le_bytes_mut, (address,), d),
        (*final(d))@.len() == d@.len(),
    ensures
        old(a)@ == old(short)@ && final(short)@ == final(a)@,
        old(b)@ == old(extended)@ && final(extended)@ == final(b)@,
        old(c)@ == old(pan_id)@ && final(pan_id)@ == final(c)@,
        old(d)@ == old(address).le() && final(address).le() == final(d)@,
        final(address).mode() == old(address).mode(),
{
}

/// An address that is made of octets of the right number has these octets.
pub proof fn lemma_addresses_of_octets<Bytes: Octets>(
    two: Bytes,
    eight: Bytes,
    short: ShortAddress<Bytes>,
    extended: ExtendedAddress<Bytes>,
    pan_id: PanId<Bytes>,
)
    requires
        call_ensures(ShortAddress::<Bytes>::new, (two,), short),
        call_ensures(ExtendedAddress::<Bytes>::new, (eight,), extended),
        call_ensures(PanId::<Bytes>::new, (two,), pan_id),
    ensures
        short@ == two.bytes() && pan_id@ == two.bytes() && extended@ == eight.bytes(),
{
}

/// An address that is copied keeps its kind and its octets.
pub proof fn lemma_address_copied(address: Address<&[u8]>, copy: Address<Vec<u8>>)
    requires
        call_ensures(<Address<Vec<u8>> as From<Address<&[u8]>>>::from, (address,), copy),
    ensures
        copy.mode() == address.mode() && copy.le() == address.le(),
{
}

} // verus!
