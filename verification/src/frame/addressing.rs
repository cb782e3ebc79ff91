//! Addressing fields.

use vstd::prelude::*;
use vstd::std_specs::convert::FromSpecImpl;

use crate::octets::{
    copy_octets, copy_octets_reversed, get_u16_le, put_u16, set_u16_le, u16_at,
    FromOctets, Octets, OctetsMut,
};
use crate::Error;

verus! {

/// Addressing mode.
#[derive(Clone, Copy, Debug, PartialEq, Eq, Structural)]
pub enum AddressingMode {
    /// The address is absent.
    Absent,
    /// The reserved addressing mode.
    Unknown,
    /// The address is a short address.
    Short,
    /// The address is an extended address.
    Extended,
}

impl AddressingMode {
    /// The two bits that encode the addressing mode.
    pub open spec fn code(self) -> u16 {
        match self {
            AddressingMode::Absent => 0,
            AddressingMode::Unknown => 1,
            AddressingMode::Short => 2,
            AddressingMode::Extended => 3,
        }
    }

    /// The addressing mode that two bits encode.
    pub open spec fn of(code: u16) -> Self {
        if code == 0 {
            AddressingMode::Absent
        } else if code == 2 {
            AddressingMode::Short
        } else if code == 3 {
            AddressingMode::Extended
        } else {
            AddressingMode::Unknown
        }
    }

    /// Decodes an addressing mode.
    pub(crate) fn from_code(code: u16) -> (r: Self)
        ensures
            r == Self::of(code),
    {
        match code {
            0 => AddressingMode::Absent,
            2 => AddressingMode::Short,
            3 => AddressingMode::Extended,
            _ => AddressingMode::Unknown,
        }
    }

    /// Encodes the addressing mode.
    pub(crate) fn to_code(self) -> (r: u16)
        ensures
            r == self.code(),
    {
        match self {
            AddressingMode::Absent => 0,
            AddressingMode::Unknown => 1,
            AddressingMode::Short => 2,
            AddressingMode::Extended => 3,
        }
    }

    /// The number of octets that an address takes in this addressing mode.
    pub open spec fn octets(self) -> int {
        match self {
            AddressingMode::Absent => 0,
            AddressingMode::Short => 2,
            AddressingMode::Extended => 8,
            AddressingMode::Unknown => 0,
        }
    }

    /// Length of an address with the given addressing mode.
    pub fn length(&self) -> (r: u16)
        ensures
            r == self.octets(),
    {
        match self {
            AddressingMode::Absent => 0,
            AddressingMode::Short => 2,
            AddressingMode::Extended => 8,
            AddressingMode::Unknown => 0,
        }
    }
}

impl From<u8> for AddressingMode {
    fn from(value: u8) -> (r: Self) {
        AddressingMode::from_code(value as u16)
    }
}

impl FromSpecImpl<u8> for AddressingMode {
    open spec fn obeys_from_spec() -> bool {
        true
    }

    open spec fn from_spec(v: u8) -> Self {
        AddressingMode::of(v as u16)
    }
}

/// Short address field.
///
/// The octets are in little-endian order.
#[derive(Clone, Copy, Debug, PartialEq, Eq)]
pub struct ShortAddress<Bytes>(Bytes);

impl<Bytes: Octets> View for ShortAddress<Bytes> {
    type V = Seq<u8>;

    open spec fn view(&self) -> Seq<u8> {
        self.container().bytes()
    }
}

impl<Bytes> ShortAddress<Bytes> {
    /// The container of the octets.
    pub closed spec fn container(&self) -> Bytes {
        self.0
    }

    /// Once nothing is written any more through the field, nothing is written any more
    /// to its container. If the container is borrowed, then what it was borrowed
    /// from holds what was written last.
    pub proof fn lemma_released(self)
        requires
            has_resolved(self),
        ensures
            has_resolved(self.container()),
    {
    }
}

impl ShortAddress<[u8; 2]> {
    pub fn new_owned(le_bytes: [u8; 2]) -> (r: Self)
        ensures
            r.container() == le_bytes,
    {
        Self(le_bytes)
    }
}

impl<Bytes: Octets> ShortAddress<Bytes> {
    pub fn new(le_bytes: Bytes) -> (r: Self)
        requires
            le_bytes.bytes().len() == 2,
        ensures
            r.container() == le_bytes,
    {
        Self(le_bytes)
    }

    /// The octets in big-endian order.
    pub fn into_be_bytes(&self) -> (r: [u8; 2])
        requires
            self@.len() == 2,
        ensures
            r@ == self@.reverse(),
    {
        let mut be_bytes: [u8; 2] = [0u8; 2];
        copy_octets_reversed(&mut be_bytes, self.0.octets());
        be_bytes
    }

    /// Creates the field from octets in big-endian order.
    pub fn from_be_bytes(be_bytes: [u8; 2]) -> (r: ShortAddress<[u8; 2]>)
        ensures
            r@ == be_bytes@.reverse(),
    {
        let mut le_bytes: [u8; 2] = [0u8; 2];
        copy_octets_reversed(&mut le_bytes, &be_bytes);
        ShortAddress(le_bytes)
    }

    /// The field as an integer.
    pub fn into_u16(&self) -> (r: u16)
        requires
            self@.len() == 2,
        ensures
            r == u16_at(self@, 0),
    {
        get_u16_le(self.0.octets(), 0)
    }

    /// Creates the field from an integer.
    pub fn from_u16(short_addr: u16) -> (r: ShortAddress<[u8; 2]>)
        ensures
            r@.len() == 2,
            u16_at(r@, 0) == short_addr,
    {
        let mut le_bytes: [u8; 2] = [0u8; 2];
        set_u16_le(&mut le_bytes, 0, short_addr);
        ShortAddress(le_bytes)
    }

    /// The octets in little-endian order.
    pub fn as_ref(&self) -> (r: &[u8])
        ensures
            r@ == self@,
    {
        self.0.octets()
    }
}

impl<Bytes: OctetsMut> ShortAddress<Bytes> {
    /// Sets the field from octets in little-endian order.
    pub fn set_le_bytes<SrcBytes: Octets>(&mut self, le_bytes: SrcBytes)
        requires
            old(self)@.len() == 2,
            le_bytes.bytes().len() == 2,
        ensures
            final(self)@ == le_bytes.bytes(),
            exists|x: &mut Bytes, w: &mut [u8]|
                {
                    &&& #[trigger] call_ensures(Bytes::octets_mut, (x,), w)
                    &&& *x == old(self).container()
                    &&& *final(x) == final(self).container()
                },
    {
        copy_octets(self.0.octets_mut(), le_bytes.octets());
    }

    /// Sets the field from octets in big-endian order.
    pub fn set_be_bytes<SrcBytes: Octets>(&mut self, be_bytes: SrcBytes)
        requires
            old(self)@.len() == 2,
            be_bytes.bytes().len() == 2,
        ensures
            final(self)@ == be_bytes.bytes().reverse(),
            exists|x: &mut Bytes, w: &mut [u8]|
                {
                    &&& #[trigger] call_ensures(Bytes::octets_mut, (x,), w)
                    &&& *x == old(self).container()
                    &&& *final(x) == final(self).container()
                },
    {
        copy_octets_reversed(self.0.octets_mut(), be_bytes.octets());
    }

    /// Sets the field from an integer.
    pub fn set_u16(&mut self, short_addr: u16)
        requires
            old(self)@.len() == 2,
        ensures
            final(self)@ == put_u16(old(self)@, 0, short_addr as int),
            exists|x: &mut Bytes, w: &mut [u8]|
                {
                    &&& #[trigger] call_ensures(Bytes::octets_mut, (x,), w)
                    &&& *x == old(self).container()
                    &&& *final(x) == final(self).container()
                },
    {
        set_u16_le(self.0.octets_mut(), 0, short_addr);
    }

    /// The octets in little-endian order for writing.
    pub fn as_mut(&mut self) -> (r: &mut [u8])
        ensures
            r@ == old(self)@,
            final(self)@ == final(r)@,
            exists|x: &mut Bytes, w: &mut [u8]|
                {
                    &&& #[trigger] call_ensures(Bytes::octets_mut, (x,), w)
                    &&& *x == old(self).container()
                    &&& *final(x) == final(self).container()
                },
    {
        self.0.octets_mut()
    }
}

/// Extended address field.
///
/// The octets are in little-endian order.
#[derive(Clone, Copy, Debug, PartialEq, Eq)]
pub struct ExtendedAddress<Bytes>(Bytes);

impl<Bytes: Octets> View for ExtendedAddress<Bytes> {
    type V = Seq<u8>;

    open spec fn view(&self) -> Seq<u8> {
        self.container().bytes()
    }
}

impl<Bytes> ExtendedAddress<Bytes> {
    /// The container of the octets.
    pub closed spec fn container(&self) -> Bytes {
        self.0
    }

    /// Once nothing is written any more through the field, nothing is written any more
    /// to its container. If the container is borrowed, then what it was borrowed
    /// from holds what was written last.
    pub proof fn lemma_released(self)
        requires
            has_resolved(self),
        ensures
            has_resolved(self.container()),
    {
    }
}

impl ExtendedAddress<[u8; 8]> {
    pub fn new_owned(le_bytes: [u8; 8]) -> (r: Self)
        ensures
            r.container() == le_bytes,
    {
        Self(le_bytes)
    }
}

impl<Bytes: Octets> ExtendedAddress<Bytes> {
    pub fn new(le_bytes: Bytes) -> (r: Self)
        requires
            le_bytes.bytes().len() == 8,
        ensures
            r.container() == le_bytes,
    {
        Self(le_bytes)
    }

    /// The octets in big-endian order.
    pub fn into_be_bytes(&self) -> (r: [u8; 8])
        requires
            self@.len() == 8,
        ensures
            r@ == self@.reverse(),
    {
        let mut be_bytes: [u8; 8] = [0u8; 8];
        copy_octets_reversed(&mut be_bytes, self.0.octets());
        be_bytes
    }

    /// Creates the field from octets in big-endian order.
    pub fn from_be_bytes(be_bytes: [u8; 8]) -> (r: ExtendedAddress<[u8; 8]>)
        ensures
            r@ == be_bytes@.reverse(),
    {
        let mut le_bytes: [u8; 8] = [0u8; 8];
        copy_octets_reversed(&mut le_bytes, &be_bytes);
        ExtendedAddress(le_bytes)
    }

    /// The octets in little-endian order.
    pub fn as_ref(&self) -> (r: &[u8])
        ensures
            r@ == self@,
    {
        self.0.octets()
    }
}

impl<Bytes: OctetsMut> ExtendedAddress<Bytes> {
    /// Sets the field from octets in little-endian order.
    pub fn set_le_bytes<SrcBytes: Octets>(&mut self, le_bytes: SrcBytes)
        requires
            old(self)@.len() == 8,
            le_bytes.bytes().len() == 8,
        ensures
            final(self)@ == le_bytes.bytes(),
            exists|x: &mut Bytes, w: &mut [u8]|
                {
                    &&& #[trigger] call_ensures(Bytes::octets_mut, (x,), w)
                    &&& *x == old(self).container()
                    &&& *final(x) == final(self).container()
                },
    {
        copy_octets(self.0.octets_mut(), le_bytes.octets());
    }

    /// Sets the field from octets in big-endian order.
    pub fn set_be_bytes<SrcBytes: Octets>(&mut self, be_bytes: SrcBytes)
        requires
            old(self)@.len() == 8,
            be_bytes.bytes().len() == 8,
        ensures
            final(self)@ == be_bytes.bytes().reverse(),
            exists|x: &mut Bytes, w: &mut [u8]|
                {
                    &&& #[trigger] call_ensures(Bytes::octets_mut, (x,), w)
                    &&& *x == old(self).container()
                    &&& *final(x) == final(self).container()
                },
    {
        copy_octets_reversed(self.0.octets_mut(), be_bytes.octets());
    }

    /// The octets in little-endian order for writing.
    pub fn as_mut(&mut self) -> (r: &mut [u8])
        ensures
            r@ == old(self)@,
            final(self)@ == final(r)@,
            exists|x: &mut Bytes, w: &mut [u8]|
                {
                    &&& #[trigger] call_ensures(Bytes::octets_mut, (x,), w)
                    &&& *x == old(self).container()
                    &&& *final(x) == final(self).container()
                },
    {
        self.0.octets_mut()
    }
}

/// PAN ID field.
///
/// The octets are in little-endian order.
#[derive(Clone, Copy, Debug, PartialEq, Eq)]
pub struct PanId<Bytes>(Bytes);

impl<Bytes: Octets> View for PanId<Bytes> {
    type V = Seq<u8>;

    open spec fn view(&self) -> Seq<u8> {
        self.container().bytes()
    }
}

impl<Bytes> PanId<Bytes> {
    /// The container of the octets.
    pub closed spec fn container(&self) -> Bytes {
        self.0
    }

    /// Once nothing is written any more through the field, nothing is written any more
    /// to its container. If the container is borrowed, then what it was borrowed
    /// from holds what was written last.
    pub proof fn lemma_released(self)
        requires
            has_resolved(self),
        ensures
            has_resolved(self.container()),
    {
    }
}

impl PanId<[u8; 2]> {
    pub fn new_owned(le_bytes: [u8; 2]) -> (r: Self)
        ensures
            r.container() == le_bytes,
    {
        Self(le_bytes)
    }
}

impl<Bytes: Octets> PanId<Bytes> {
    pub fn new(le_bytes: Bytes) -> (r: Self)
        requires
            le_bytes.bytes().len() == 2,
        ensures
            r.container() == le_bytes,
    {
        Self(le_bytes)
    }

    /// The octets in big-endian order.
    pub fn into_be_bytes(&self) -> (r: [u8; 2])
        requires
            self@.len() == 2,
        ensures
            r@ == self@.reverse(),
    {
        let mut be_bytes: [u8; 2] = [0u8; 2];
        copy_octets_reversed(&mut be_bytes, self.0.octets());
        be_bytes
    }

    /// Creates the field from octets in big-endian order.
    pub fn from_be_bytes(be_bytes: [u8; 2]) -> (r: PanId<[u8; 2]>)
        ensures
            r@ == be_bytes@.reverse(),
    {
        let mut le_bytes: [u8; 2] = [0u8; 2];
        copy_octets_reversed(&mut le_bytes, &be_bytes);
        PanId(le_bytes)
    }

    /// The field as an integer.
    pub fn into_u16(&self) -> (r: u16)
        requires
            self@.len() == 2,
        ensures
            r == u16_at(self@, 0),
    {
        get_u16_le(self.0.octets(), 0)
    }

    /// Creates the field from an integer.
    pub fn from_u16(pan_id: u16) -> (r: PanId<[u8; 2]>)
        ensures
            r@.len() == 2,
            u16_at(r@, 0) == pan_id,
    {
        let mut le_bytes: [u8; 2] = [0u8; 2];
        set_u16_le(&mut le_bytes, 0, pan_id);
        PanId(le_bytes)
    }

    /// The octets in little-endian order.
    pub fn as_ref(&self) -> (r: &[u8])
        ensures
            r@ == self@,
    {
        self.0.octets()
    }
}

impl<Bytes: OctetsMut> PanId<Bytes> {
    /// Sets the field from octets in little-endian order.
    pub fn set_le_bytes<SrcBytes: Octets>(&mut self, le_bytes: SrcBytes)
        requires
            old(self)@.len() == 2,
            le_bytes.bytes().len() == 2,
        ensures
            final(self)@ == le_bytes.bytes(),
            exists|x: &mut Bytes, w: &mut [u8]|
                {
                    &&& #[trigger] call_ensures(Bytes::octets_mut, (x,), w)
                    &&& *x == old(self).container()
                    &&& *final(x) == final(self).container()
                },
    {
        copy_octets(self.0.octets_mut(), le_bytes.octets());
    }

    /// Sets the field from octets in big-endian order.
    pub fn set_be_bytes<SrcBytes: Octets>(&mut self, be_bytes: SrcBytes)
        requires
            old(self)@.len() == 2,
            be_bytes.bytes().len() == 2,
        ensures
            final(self)@ == be_bytes.bytes().reverse(),
            exists|x: &mut Bytes, w: &mut [u8]|
                {
                    &&& #[trigger] call_ensures(Bytes::octets_mut, (x,), w)
                    &&& *x == old(self).container()
                    &&& *final(x) == final(self).container()
                },
    {
        copy_octets_reversed(self.0.octets_mut(), be_bytes.octets());
    }

    /// Sets the field from an integer.
    pub fn set_u16(&mut self, pan_id: u16)
        requires
            old(self)@.len() == 2,
        ensures
            final(self)@ == put_u16(old(self)@, 0, pan_id as int),
            exists|x: &mut Bytes, w: &mut [u8]|
                {
                    &&& #[trigger] call_ensures(Bytes::octets_mut, (x,), w)
                    &&& *x == old(self).container()
                    &&& *final(x) == final(self).container()
                },
    {
        set_u16_le(self.0.octets_mut(), 0, pan_id);
    }

    /// The octets in little-endian order for writing.
    pub fn as_mut(&mut self) -> (r: &mut [u8])
        ensures
            r@ == old(self)@,
            final(self)@ == final(r)@,
            exists|x: &mut Bytes, w: &mut [u8]|
                {
                    &&& #[trigger] call_ensures(Bytes::octets_mut, (x,), w)
                    &&& *x == old(self).container()
                    &&& *final(x) == final(self).container()
                },
    {
        self.0.octets_mut()
    }
}

/// The octets of the broadcast PAN ID and of the broadcast address.
pub open spec fn broadcast_octets() -> Seq<u8> {
    seq![0xff, 0xff]
}

/// The broadcast PAN ID.
pub fn broadcast_pan_id() -> (r: PanId<[u8; 2]>)
    ensures
        r@ == broadcast_octets(),
{
    let data: [u8; 2] = [0xff, 0xff];
    assert(data@ =~= broadcast_octets());
    PanId::new_owned(data)
}

/// An address.
#[derive(Clone, Copy, Debug, PartialEq, Eq)]
pub enum Address<Bytes> {
    /// The address is absent.
    Absent,
    /// A short address.
    Short(ShortAddress<Bytes>),
    /// An extended address.
    Extended(ExtendedAddress<Bytes>),
}

impl<Bytes> Address<Bytes> {
    /// The container of the octets of an address that is not absent.
    pub open spec fn container(&self) -> Bytes {
        match self {
            Address::Absent => arbitrary(),
            Address::Short(short) => short.container(),
            Address::Extended(extended) => extended.container(),
        }
    }

    /// Once nothing is written any more through an address that is not absent,
    /// nothing is written any more to its container. If the container is borrowed,
    /// then what it was borrowed from holds what was written last.
    pub proof fn lemma_released(self)
        requires
            has_resolved(self),
            self.mode() != AddressingMode::Absent,
        ensures
            has_resolved(self.container()),
    {
        match self {
            Address::Absent => {},
            Address::Short(short) => short.lemma_released(),
            Address::Extended(extended) => extended.lemma_released(),
        }
    }

    /// The addressing mode of the address.
    pub open spec fn mode(&self) -> AddressingMode {
        match self {
            Address::Absent => AddressingMode::Absent,
            Address::Short(_) => AddressingMode::Short,
            Address::Extended(_) => AddressingMode::Extended,
        }
    }

    /// Length of the address in octets.
    pub fn length(&self) -> (r: usize)
        ensures
            r == self.mode().octets(),
    {
        match self {
            Address::Absent => 0,
            Address::Short(_) => 2,
            Address::Extended(_) => 8,
        }
    }

    /// Whether the address is absent.
    pub fn is_absent(&self) -> (r: bool)
        ensures
            r <==> self.mode() == AddressingMode::Absent,
    {
        matches!(self, Address::Absent)
    }

    /// Whether the address is short.
    pub fn is_short(&self) -> (r: bool)
        ensures
            r <==> self.mode() == AddressingMode::Short,
    {
        matches!(self, Address::Short(_))
    }

    /// Whether the address is extended.
    pub fn is_extended(&self) -> (r: bool)
        ensures
            r <==> self.mode() == AddressingMode::Extended,
    {
        matches!(self, Address::Extended(_))
    }
}

impl<Bytes: Octets> Address<Bytes> {
    /// The octets of the address in little-endian order.
    pub open spec fn le(&self) -> Seq<u8> {
        match self {
            Address::Absent => Seq::empty(),
            Address::Short(short) => short@,
            Address::Extended(extended) => extended@,
        }
    }

    /// Whether the address has as many octets as its mode asks for.
    pub open spec fn wf(&self) -> bool {
        self.le().len() == self.mode().octets()
    }

    /// Whether the address is a unicast address.
    pub fn is_unicast(&self) -> (r: bool)
        requires
            self.wf(),
        ensures
            r <==> self.le() != broadcast_octets(),
    {
        !self.is_broadcast()
    }

    /// Whether the address is the broadcast address.
    pub fn is_broadcast(&self) -> (r: bool)
        requires
            self.wf(),
        ensures
            r <==> self.le() == broadcast_octets(),
    {
        match self {
            Address::Absent => {
                assert(self.le().len() != broadcast_octets().len());
                false
            },
            Address::Short(short_address) => {
                let b = short_address.as_ref();
                let r: bool = b[0] == 0xff && b[1] == 0xff;
                assert(r ==> b@ =~= broadcast_octets());
                assert(b@ == broadcast_octets() ==> b@[0] == 0xff && b@[1] == 0xff);
                r
            },
            Address::Extended(_) => {
                assert(self.le().len() != broadcast_octets().len());
                false
            },
        }
    }

    /// Derives a short address from the first two octets of an extended address.
    /// A short address remains unchanged.
    ///
    /// This is not a feature of the protocol.
    pub fn to_short(&self) -> (r: Option<Address<&[u8]>>)
        requires
            self.wf(),
        ensures
            r is Some <==> self.mode() != AddressingMode::Absent,
            r matches Some(short) ==> short.mode() == AddressingMode::Short && short.le()
                == self.le().subrange(0, 2),
    {
        match self {
            Address::Short(short) => {
                assert(short@ =~= short@.subrange(0, 2));
                Some(Address::Short(ShortAddress::new(short.as_ref())))
            },
            Address::Extended(extended) => {
                let b = extended.as_ref();
                Some(Address::Short(ShortAddress::new(&b[0..2])))
            },
            Address::Absent => None,
        }
    }

    /// The address as a slice of octets in little-endian order.
    pub fn as_le_bytes(&self) -> (r: &[u8])
        ensures
            r@ == self.le(),
    {
        match self {
            Address::Absent => {
                let none: &[u8] = &[];
                none
            },
            Address::Short(short) => short.as_ref(),
            Address::Extended(extended) => extended.as_ref(),
        }
    }
}

impl<Bytes: OctetsMut> Address<Bytes> {
    /// The address as a slice of octets in little-endian order for writing.
    pub fn as_le_bytes_mut(&mut self) -> (r: &mut [u8])
        ensures
            r@ == old(self).le(),
            final(self).mode() == old(self).mode(),
            final(r)@.len() == r@.len() ==> final(self).le() == final(r)@,
            old(self).mode() == AddressingMode::Absent ==> *final(self) == *old(self),
            old(self).mode() != AddressingMode::Absent ==> exists|x: &mut Bytes, w: &mut [u8]|
                {
                    &&& #[trigger] call_ensures(Bytes::octets_mut, (x,), w)
                    &&& *x == old(self).container()
                    &&& *final(x) == final(self).container()
                },
    {
        match self {
            Address::Absent => &mut [],
            Address::Short(short) => short.as_mut(),
            Address::Extended(extended) => extended.as_mut(),
        }
    }

    /// Copies an address of the same length.
    ///
    /// # Errors
    ///
    /// Fails if the lengths of the addresses differ.
    pub fn set<Src: Octets>(&mut self, src: &Address<Src>) -> (r: Result<(), Error>)
        ensures
            r is Ok <==> src.le().len() == old(self).le().len(),
            r is Ok ==> final(self).le() == src.le(),
            r is Err ==> final(self).le() == old(self).le(),
            final(self).mode() == old(self).mode(),
            old(self).mode() == AddressingMode::Absent ==> *final(self) == *old(self),
            old(self).mode() != AddressingMode::Absent ==> exists|x: &mut Bytes, w: &mut [u8]|
                {
                    &&& #[trigger] call_ensures(Bytes::octets_mut, (x,), w)
                    &&& *x == old(self).container()
                    &&& *final(x) == final(self).container()
                },
    {
        let src = src.as_le_bytes();
        let dst = self.as_le_bytes_mut();
        if src.len() != dst.len() {
            return Err(Error);
        }
        copy_octets(dst, src);
        Ok(())
    }
}

impl<'bytes, Bytes: FromOctets<'bytes>> Address<Bytes> {
    /// Creates an address from octets in little-endian order. The addressing
    /// mode follows from their number.
    pub fn from_le_bytes(le_bytes: &'bytes [u8]) -> (r: Self)
        requires
            le_bytes@.len() == 0 || le_bytes@.len() == 2 || le_bytes@.len() == 8,
            le_bytes@.len() > 0 ==> Bytes::fits(le_bytes@),
        ensures
            r.wf(),
            r.le() == le_bytes@,
    {
        if le_bytes.len() == 0 {
            assert(le_bytes@ =~= Seq::empty());
            Address::Absent
        } else if le_bytes.len() == 2 {
            Address::Short(ShortAddress::new(Bytes::from_octets(le_bytes)))
        } else {
            Address::Extended(ExtendedAddress::new(Bytes::from_octets(le_bytes)))
        }
    }
}

impl<'bytes> Address<&'bytes [u8]> {
    /// The broadcast address.
    pub fn broadcast_addr() -> (r: Address<&'static [u8]>)
        ensures
            r.wf(),
            r.mode() == AddressingMode::Short,
            r.le() == broadcast_octets(),
    {
        let data: &'static [u8] = &[0xff, 0xff];
        assert(data@ =~= broadcast_octets());
        Address::Short(ShortAddress::new(data))
    }
}

impl<'a> From<Address<&'a [u8]>> for Address<Vec<u8>> {
    /// Copies the octets of an address.
    fn from(value: Address<&'a [u8]>) -> (r: Self)
        ensures
            r.mode() == value.mode(),
            r.le() == value.le(),
    {
        match value {
            Address::Absent => Address::Absent,
            Address::Short(short) => Address::Short(ShortAddress(Vec::from_octets(short.0))),
            Address::Extended(extended) => {
                Address::Extended(ExtendedAddress(Vec::from_octets(extended.0)))
            },
        }
    }
}

impl<'a> FromSpecImpl<Address<&'a [u8]>> for Address<Vec<u8>> {
    open spec fn obeys_from_spec() -> bool {
        false
    }

    open spec fn from_spec(v: Address<&'a [u8]>) -> Self {
        arbitrary()
    }
}

impl<Bytes> From<Address<Bytes>> for AddressingMode {
    fn from(value: Address<Bytes>) -> (r: Self) {
        match value {
            Address::Absent => AddressingMode::Absent,
            Address::Short(_) => AddressingMode::Short,
            Address::Extended(_) => AddressingMode::Extended,
        }
    }
}

impl<Bytes> FromSpecImpl<Address<Bytes>> for AddressingMode {
    open spec fn obeys_from_spec() -> bool {
        true
    }

    open spec fn from_spec(v: Address<Bytes>) -> Self {
        v.mode()
    }
}

} // verus!
