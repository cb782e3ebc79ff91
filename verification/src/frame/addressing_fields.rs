//! Access to the addressing fields.

use vstd::prelude::*;

use crate::frame::addressing::{Address, ExtendedAddress, PanId, ShortAddress};
use crate::frame::addressing_repr::AddressingRepr;
use crate::octets::{splice, subslice_mut, Octets, OctetsMut};
use crate::Error;

verus! {

/// Reader and writer of the addressing fields.
#[derive(Debug, PartialEq, Eq)]
pub struct AddressingFields<Bytes> {
    dst_addr_offset: u8,
    src_pan_id_offset: u8,
    src_addr_offset: u8,
    last_byte: u8,
    le_bytes: Bytes,
}

/// Offsets of the fields behind the destination PAN ID, and of the end.
pub struct AddressingOffsets {
    pub dst_addr: int,
    pub src_pan_id: int,
    pub src_addr: int,
    pub end: int,
}

/// Whether a number of octets is that of a PAN ID or of an elided one.
pub open spec fn is_pan_id_length(length: int) -> bool {
    length == 0 || length == 2
}

/// Whether a number of octets is that of an address or of an absent one.
pub open spec fn is_address_length(length: int) -> bool {
    length == 0 || length == 2 || length == 8
}

/// The offsets that follow from the lengths of the fields.
pub open spec fn offsets_from(lengths: (int, int, int, int)) -> AddressingOffsets {
    let (a, b, c, d) = lengths;
    AddressingOffsets { dst_addr: a, src_pan_id: a + b, src_addr: a + b + c, end: a + b + c + d }
}

/// The offsets of the fields of a valid addressing.
pub open spec fn offsets_of(repr: AddressingRepr) -> AddressingOffsets {
    offsets_from(repr.lengths()->0)
}

impl<Bytes> AddressingFields<Bytes> {
    /// The container of the octets.
    pub closed spec fn container(&self) -> Bytes {
        self.le_bytes
    }

    /// Once nothing is written any more through the fields, nothing is written any more
    /// to their container. If the container is borrowed, then what it was borrowed
    /// from holds what was written last.
    pub proof fn lemma_released(self)
        requires
            has_resolved(self),
        ensures
            has_resolved(self.container()),
    {
    }

    /// The offsets of the fields.
    pub closed spec fn offsets(&self) -> AddressingOffsets {
        AddressingOffsets {
            dst_addr: self.dst_addr_offset as int,
            src_pan_id: self.src_pan_id_offset as int,
            src_addr: self.src_addr_offset as int,
            end: self.last_byte as int,
        }
    }
}

impl<Bytes: Octets> View for AddressingFields<Bytes> {
    type V = Seq<u8>;

    open spec fn view(&self) -> Seq<u8> {
        self.container().bytes()
    }
}

impl<Bytes: Octets> AddressingFields<Bytes> {
    /// Whether the fields have lengths that the protocol allows and lie within
    /// the buffer.
    pub open spec fn wf(&self) -> bool {
        let o = self.offsets();
        &&& is_pan_id_length(o.dst_addr)
        &&& is_address_length(o.src_pan_id - o.dst_addr)
        &&& is_pan_id_length(o.src_addr - o.src_pan_id)
        &&& is_address_length(o.end - o.src_addr)
        &&& o.end <= self@.len()
    }

    /// The octets of the destination PAN ID.
    pub open spec fn dst_pan_id_octets(&self) -> Seq<u8> {
        self@.subrange(0, self.offsets().dst_addr)
    }

    /// The octets of the destination address.
    pub open spec fn dst_address_octets(&self) -> Seq<u8> {
        self@.subrange(self.offsets().dst_addr, self.offsets().src_pan_id)
    }

    /// The octets of the source PAN ID.
    pub open spec fn src_pan_id_octets(&self) -> Seq<u8> {
        self@.subrange(self.offsets().src_pan_id, self.offsets().src_addr)
    }

    /// The octets of the source address.
    pub open spec fn src_address_octets(&self) -> Seq<u8> {
        self@.subrange(self.offsets().src_addr, self.offsets().end)
    }

    /// Creates a reader or writer for octets in little-endian order.
    ///
    /// # Errors
    ///
    /// Fails if the addressing is invalid or the number of octets differs from
    /// the length of the addressing fields.
    pub fn new(le_bytes: Bytes, repr: AddressingRepr) -> (r: Result<Self, Error>)
        ensures
            r is Ok <==> repr.total_length() == Some(le_bytes.bytes().len() as int),
            r matches Ok(fields) ==> {
                &&& fields.wf()
                &&& fields.container() == le_bytes
                &&& fields.offsets() == offsets_of(repr)
            },
    {
        let expected_len: usize = match repr.addressing_fields_length() {
            Ok(length) => length as usize,
            Err(_) => return Err(Error),
        };
        if le_bytes.octets().len() != expected_len {
            return Err(Error);
        }
        Self::new_unchecked(le_bytes, repr)
    }

    /// Creates a reader or writer for octets in little-endian order that start
    /// with the addressing fields.
    ///
    /// # Errors
    ///
    /// Fails if the addressing is invalid.
    pub fn new_unchecked(le_bytes: Bytes, repr: AddressingRepr) -> (r: Result<Self, Error>)
        requires
            repr.total_length() matches Some(length) ==> length <= le_bytes.bytes().len(),
        ensures
            r is Ok <==> repr.total_length() is Some,
            r matches Ok(fields) ==> {
                &&& fields.wf()
                &&& fields.container() == le_bytes
                &&& fields.offsets() == offsets_of(repr)
            },
    {
        let lengths: [u8; 4] = match repr.addressing_fields_lengths() {
            Ok(lengths) => lengths,
            Err(_) => return Err(Error),
        };
        let dst_addr_offset: u8 = lengths[0];
        let src_pan_id_offset: u8 = dst_addr_offset + lengths[1];
        let src_addr_offset: u8 = src_pan_id_offset + lengths[2];
        let last_byte: u8 = src_addr_offset + lengths[3];
        Ok(Self { dst_addr_offset, src_pan_id_offset, src_addr_offset, last_byte, le_bytes })
    }

    /// Length of the buffer in octets.
    pub fn length(&self) -> (r: usize)
        ensures
            r == self@.len(),
    {
        self.le_bytes.octets().len()
    }

    /// The destination address if it is not absent.
    pub fn dst_address(&self) -> (r: Option<Address<&[u8]>>)
        requires
            self.wf(),
        ensures
            r is Some <==> self.dst_address_octets().len() > 0,
            r matches Some(address) ==> address.wf() && address.le() == self.dst_address_octets(),
    {
        let (start, end) = self.dst_addr_range();
        addr_from_range(self.le_bytes.octets(), start, end)
    }

    /// The source address if it is not absent.
    pub fn src_address(&self) -> (r: Option<Address<&[u8]>>)
        requires
            self.wf(),
        ensures
            r is Some <==> self.src_address_octets().len() > 0,
            r matches Some(address) ==> address.wf() && address.le() == self.src_address_octets(),
    {
        let (start, end) = self.src_addr_range();
        addr_from_range(self.le_bytes.octets(), start, end)
    }

    /// The destination PAN ID if it is not elided.
    pub fn dst_pan_id(&self) -> (r: Option<PanId<&[u8]>>)
        requires
            self.wf(),
        ensures
            r is Some <==> self.dst_pan_id_octets().len() > 0,
            r matches Some(pan_id) ==> pan_id@ == self.dst_pan_id_octets() && pan_id@.len() == 2,
    {
        let (start, end) = self.dst_pan_id_range();
        pan_id_from_range(self.le_bytes.octets(), start, end)
    }

    /// The source PAN ID if it is not elided.
    pub fn src_pan_id(&self) -> (r: Option<PanId<&[u8]>>)
        requires
            self.wf(),
        ensures
            r is Some <==> self.src_pan_id_octets().len() > 0,
            r matches Some(pan_id) ==> pan_id@ == self.src_pan_id_octets() && pan_id@.len() == 2,
    {
        let (start, end) = self.src_pan_id_range();
        pan_id_from_range(self.le_bytes.octets(), start, end)
    }

    fn dst_pan_id_range(&self) -> (r: (usize, usize))
        ensures
            r.0 == 0,
            r.1 == self.offsets().dst_addr,
    {
        (0, self.dst_addr_offset as usize)
    }

    fn dst_addr_range(&self) -> (r: (usize, usize))
        ensures
            r.0 == self.offsets().dst_addr,
            r.1 == self.offsets().src_pan_id,
    {
        (self.dst_addr_offset as usize, self.src_pan_id_offset as usize)
    }

    fn src_pan_id_range(&self) -> (r: (usize, usize))
        ensures
            r.0 == self.offsets().src_pan_id,
            r.1 == self.offsets().src_addr,
    {
        (self.src_pan_id_offset as usize, self.src_addr_offset as usize)
    }

    fn src_addr_range(&self) -> (r: (usize, usize))
        ensures
            r.0 == self.offsets().src_addr,
            r.1 == self.offsets().end,
    {
        (self.src_addr_offset as usize, self.last_byte as usize)
    }
}

fn addr_from_range(b: &[u8], start: usize, end: usize) -> (r: Option<Address<&[u8]>>)
    requires
        start <= end <= b@.len(),
        is_address_length(end - start),
    ensures
        r is Some <==> start < end,
        r matches Some(address) ==> address.wf() && address.le() == b@.subrange(
            start as int,
            end as int,
        ),
{
    if start == end {
        None
    } else if end - start == 2 {
        Some(Address::Short(ShortAddress::new(&b[start..end])))
    } else {
        Some(Address::Extended(ExtendedAddress::new(&b[start..end])))
    }
}

fn pan_id_from_range(b: &[u8], start: usize, end: usize) -> (r: Option<PanId<&[u8]>>)
    requires
        start <= end <= b@.len(),
        is_pan_id_length(end - start),
    ensures
        r is Some <==> start < end,
        r matches Some(pan_id) ==> pan_id@.len() == 2 && pan_id@ == b@.subrange(
            start as int,
            end as int,
        ),
{
    if start == end {
        None
    } else {
        Some(PanId::new(&b[start..end]))
    }
}

impl<'bytes> AddressingFields<&'bytes [u8]> {
    /// The destination address if it is not absent.
    pub fn into_dst_address(self) -> (r: Option<Address<&'bytes [u8]>>)
        requires
            self.wf(),
        ensures
            r is Some <==> self.dst_address_octets().len() > 0,
            r matches Some(address) ==> address.wf() && address.le() == self.dst_address_octets(),
    {
        let (start, end) = self.dst_addr_range();
        addr_from_range(self.le_bytes, start, end)
    }

    /// The source address if it is not absent.
    pub fn into_src_address(self) -> (r: Option<Address<&'bytes [u8]>>)
        requires
            self.wf(),
        ensures
            r is Some <==> self.src_address_octets().len() > 0,
            r matches Some(address) ==> address.wf() && address.le() == self.src_address_octets(),
    {
        let (start, end) = self.src_addr_range();
        addr_from_range(self.le_bytes, start, end)
    }

    /// The destination PAN ID if it is not elided.
    pub fn into_dst_pan_id(self) -> (r: Option<PanId<&'bytes [u8]>>)
        requires
            self.wf(),
        ensures
            r is Some <==> self.dst_pan_id_octets().len() > 0,
            r matches Some(pan_id) ==> pan_id@ == self.dst_pan_id_octets() && pan_id@.len() == 2,
    {
        let (start, end) = self.dst_pan_id_range();
        pan_id_from_range(self.le_bytes, start, end)
    }

    /// The source PAN ID if it is not elided.
    pub fn into_src_pan_id(self) -> (r: Option<PanId<&'bytes [u8]>>)
        requires
            self.wf(),
        ensures
            r is Some <==> self.src_pan_id_octets().len() > 0,
            r matches Some(pan_id) ==> pan_id@ == self.src_pan_id_octets() && pan_id@.len() == 2,
    {
        let (start, end) = self.src_pan_id_range();
        pan_id_from_range(self.le_bytes, start, end)
    }
}

impl<Bytes: OctetsMut> AddressingFields<Bytes> {
    /// The destination address for writing if it is not absent.
    pub fn dst_address_mut(&mut self) -> (r: Option<Address<&mut [u8]>>)
        requires
            old(self).wf(),
        ensures
            final(self).offsets() == old(self).offsets(),
            r is Some <==> old(self).dst_address_octets().len() > 0,
            r matches Some(address) ==> {
                &&& address.wf()
                &&& address.le() == old(self).dst_address_octets()
                &&& final(self)@ == splice(
                    old(self)@,
                    old(self).offsets().dst_addr,
                    old(self).offsets().src_pan_id,
                    (*final(address.container()))@,
                )
            },
            r is None ==> *final(self) == *old(self),
            r is Some ==> exists|x: &mut Bytes, w: &mut [u8]|
                {
                    &&& #[trigger] call_ensures(Bytes::octets_mut, (x,), w)
                    &&& *x == old(self).container()
                    &&& *final(x) == final(self).container()
                },
    {
        let (start, end) = self.dst_addr_range();
        if start == end {
            return None;
        }
        let addr = subslice_mut(self.le_bytes.octets_mut(), start, end);
        if end - start == 2 {
            Some(Address::Short(ShortAddress::new(addr)))
        } else {
            Some(Address::Extended(ExtendedAddress::new(addr)))
        }
    }

    /// The source address for writing if it is not absent.
    pub fn src_address_mut(&mut self) -> (r: Option<Address<&mut [u8]>>)
        requires
            old(self).wf(),
        ensures
            final(self).offsets() == old(self).offsets(),
            r is Some <==> old(self).src_address_octets().len() > 0,
            r matches Some(address) ==> {
                &&& address.wf()
                &&& address.le() == old(self).src_address_octets()
                &&& final(self)@ == splice(
                    old(self)@,
                    old(self).offsets().src_addr,
                    old(self).offsets().end,
                    (*final(address.container()))@,
                )
            },
            r is None ==> *final(self) == *old(self),
            r is Some ==> exists|x: &mut Bytes, w: &mut [u8]|
                {
                    &&& #[trigger] call_ensures(Bytes::octets_mut, (x,), w)
                    &&& *x == old(self).container()
                    &&& *final(x) == final(self).container()
                },
    {
        let (start, end) = self.src_addr_range();
        if start == end {
            return None;
        }
        let addr = subslice_mut(self.le_bytes.octets_mut(), start, end);
        if end - start == 2 {
            Some(Address::Short(ShortAddress::new(addr)))
        } else {
            Some(Address::Extended(ExtendedAddress::new(addr)))
        }
    }

    /// The destination PAN ID for writing if it is not elided.
    pub fn dst_pan_id_mut(&mut self) -> (r: Option<PanId<&mut [u8]>>)
        requires
            old(self).wf(),
        ensures
            final(self).offsets() == old(self).offsets(),
            r is Some <==> old(self).dst_pan_id_octets().len() > 0,
            r matches Some(pan_id) ==> {
                &&& pan_id@.len() == 2
                &&& pan_id@ == old(self).dst_pan_id_octets()
                &&& final(self)@ == splice(
                    old(self)@,
                    0,
                    old(self).offsets().dst_addr,
                    (*final(pan_id.container()))@,
                )
            },
            r is None ==> *final(self) == *old(self),
            r is Some ==> exists|x: &mut Bytes, w: &mut [u8]|
                {
                    &&& #[trigger] call_ensures(Bytes::octets_mut, (x,), w)
                    &&& *x == old(self).container()
                    &&& *final(x) == final(self).container()
                },
    {
        let (start, end) = self.dst_pan_id_range();
        if start == end {
            return None;
        }
        Some(PanId::new(subslice_mut(self.le_bytes.octets_mut(), start, end)))
    }

    /// The source PAN ID for writing if it is not elided.
    pub fn src_pan_id_mut(&mut self) -> (r: Option<PanId<&mut [u8]>>)
        requires
            old(self).wf(),
        ensures
            final(self).offsets() == old(self).offsets(),
            r is Some <==> old(self).src_pan_id_octets().len() > 0,
            r matches Some(pan_id) ==> {
                &&& pan_id@.len() == 2
                &&& pan_id@ == old(self).src_pan_id_octets()
                &&& final(self)@ == splice(
                    old(self)@,
                    old(self).offsets().src_pan_id,
                    old(self).offsets().src_addr,
                    (*final(pan_id.container()))@,
                )
            },
            r is None ==> *final(self) == *old(self),
            r is Some ==> exists|x: &mut Bytes, w: &mut [u8]|
                {
                    &&& #[trigger] call_ensures(Bytes::octets_mut, (x,), w)
                    &&& *x == old(self).container()
                    &&& *final(x) == final(self).container()
                },
    {
        let (start, end) = self.src_pan_id_range();
        if start == end {
            return None;
        }
        Some(PanId::new(subslice_mut(self.le_bytes.octets_mut(), start, end)))
    }
}

} // verus!
