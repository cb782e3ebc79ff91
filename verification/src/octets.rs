//! Byte containers and little-endian integers within them.

use vstd::prelude::*;

verus! {

/// A container of octets that can be read.
pub trait Octets {
    /// The octets held by the container.
    spec fn bytes(&self) -> Seq<u8>;

    /// The octets as a slice.
    fn octets(&self) -> (r: &[u8])
        ensures
            r@ == self.bytes(),
    ;
}

/// A container of octets that can be read and written in place.
///
/// What writes to a container states that the container is changed by nothing but
/// a call of [`OctetsMut::octets_mut`]. A borrowed container remains the same
/// borrow then: what it was borrowed from holds in the end what was written to the
/// container last.
pub trait OctetsMut: Octets {
    /// The octets as a writable slice.
    fn octets_mut(&mut self) -> (r: &mut [u8])
        ensures
            r@ == old(self).bytes(),
            final(self).bytes() == final(r)@,
    ;
}

impl<const N: usize> Octets for [u8; N] {
    open spec fn bytes(&self) -> Seq<u8> {
        self@
    }

    fn octets(&self) -> (r: &[u8]) {
        self.as_slice()
    }
}

impl<const N: usize> OctetsMut for [u8; N] {
    fn octets_mut(&mut self) -> (r: &mut [u8]) {
        self
    }
}

impl<const N: usize> Octets for &[u8; N] {
    open spec fn bytes(&self) -> Seq<u8> {
        (*self)@
    }

    fn octets(&self) -> (r: &[u8]) {
        self.as_slice()
    }
}

impl<const N: usize> Octets for &mut [u8; N] {
    open spec fn bytes(&self) -> Seq<u8> {
        (**self)@
    }

    fn octets(&self) -> (r: &[u8]) {
        (**self).as_slice()
    }
}

impl<const N: usize> OctetsMut for &mut [u8; N] {
    fn octets_mut(&mut self) -> (r: &mut [u8])
        ensures
            (*final(*final(self)))@ == (*final(*old(self)))@,
    {
        &mut **self
    }
}

impl Octets for &[u8] {
    open spec fn bytes(&self) -> Seq<u8> {
        (*self)@
    }

    fn octets(&self) -> (r: &[u8]) {
        *self
    }
}

impl Octets for &mut [u8] {
    open spec fn bytes(&self) -> Seq<u8> {
        (**self)@
    }

    fn octets(&self) -> (r: &[u8]) {
        &**self
    }
}

impl OctetsMut for &mut [u8] {
    fn octets_mut(&mut self) -> (r: &mut [u8])
        ensures
            (*final(*final(self)))@ == (*final(*old(self)))@,
    {
        &mut **self
    }
}

impl Octets for Vec<u8> {
    open spec fn bytes(&self) -> Seq<u8> {
        self@
    }

    fn octets(&self) -> (r: &[u8]) {
        self.as_slice()
    }
}

impl OctetsMut for Vec<u8> {
    fn octets_mut(&mut self) -> (r: &mut [u8]) {
        self.as_mut_slice()
    }
}

/// A container that can be made from a slice of octets.
pub trait FromOctets<'a>: Octets + Sized {
    /// Whether the container can hold the given octets.
    spec fn fits(s: Seq<u8>) -> bool;

    /// A container of the given octets.
    fn from_octets(s: &'a [u8]) -> (r: Self)
        requires
            Self::fits(s@),
        ensures
            r.bytes() == s@,
    ;
}

impl<'a> FromOctets<'a> for &'a [u8] {
    open spec fn fits(s: Seq<u8>) -> bool {
        true
    }

    fn from_octets(s: &'a [u8]) -> (r: Self) {
        s
    }
}

impl<'a> FromOctets<'a> for Vec<u8> {
    open spec fn fits(s: Seq<u8>) -> bool {
        true
    }

    fn from_octets(s: &'a [u8]) -> (r: Self) {
        vstd::slice::slice_to_vec(s)
    }
}

impl<'a, const N: usize> FromOctets<'a> for [u8; N] {
    open spec fn fits(s: Seq<u8>) -> bool {
        s.len() == N
    }

    fn from_octets(s: &'a [u8]) -> (r: Self) {
        let mut array: [u8; N] = [0u8; N];
        copy_octets(&mut array, s);
        array
    }
}

/// The unsigned integer stored in little-endian order in the two octets at
/// `at`.
pub open spec fn u16_at(s: Seq<u8>, at: int) -> int {
    s[at] + 0x100 * s[at + 1]
}

/// `s` with the 16-bit integer `v` stored in little-endian order at `at`.
pub open spec fn put_u16(s: Seq<u8>, at: int, v: int) -> Seq<u8> {
    s.update(at, (v % 0x100) as u8).update(at + 1, (v / 0x100) as u8)
}

/// The unsigned integer stored in little-endian order in the four octets at
/// `at`.
pub open spec fn u32_at(s: Seq<u8>, at: int) -> int {
    s[at] + 0x100 * s[at + 1] + 0x1_0000 * s[at + 2] + 0x100_0000 * s[at + 3]
}

/// `s` with the 32-bit integer `v` stored in little-endian order at `at`.
pub open spec fn put_u32(s: Seq<u8>, at: int, v: int) -> Seq<u8> {
    put_u16(put_u16(s, at, v % 0x1_0000), at + 2, v / 0x1_0000)
}

/// The unsigned integer stored in little-endian order in the five octets at
/// `at`.
pub open spec fn u40_at(s: Seq<u8>, at: int) -> int {
    u32_at(s, at) + 0x1_0000_0000 * s[at + 4]
}

/// `s` with the 40-bit integer `v` stored in little-endian order at `at`.
pub open spec fn put_u40(s: Seq<u8>, at: int, v: int) -> Seq<u8> {
    put_u32(s, at, v % 0x1_0000_0000).update(at + 4, (v / 0x1_0000_0000) as u8)
}

/// `s` with the octets between `start` and `end` replaced by `t`.
pub open spec fn splice(s: Seq<u8>, start: int, end: int, t: Seq<u8>) -> Seq<u8> {
    s.subrange(0, start) + t + s.subrange(end, s.len() as int)
}

/// Reading a 16-bit integer gives back what was stored.
pub proof fn lemma_u16_round_trip(s: Seq<u8>, at: int, v: int)
    requires
        0 <= at,
        at + 2 <= s.len(),
        0 <= v < 0x1_0000,
    ensures
        u16_at(put_u16(s, at, v), at) == v,
{
}

/// Storing the 16-bit integer that is already there changes nothing.
pub proof fn lemma_u16_put_same(s: Seq<u8>, at: int)
    requires
        0 <= at,
        at + 2 <= s.len(),
    ensures
        put_u16(s, at, u16_at(s, at)) == s,
{
    assert(put_u16(s, at, u16_at(s, at)) =~= s);
}

/// Of two integers stored at the same place the second one stays.
pub proof fn lemma_u16_put_twice(s: Seq<u8>, at: int, v: int, w: int)
    requires
        0 <= at,
        at + 2 <= s.len(),
    ensures
        put_u16(put_u16(s, at, v), at, w) == put_u16(s, at, w),
{
    assert(put_u16(put_u16(s, at, v), at, w) =~= put_u16(s, at, w));
}

/// Reading a 32-bit integer gives back what was stored.
pub proof fn lemma_u32_round_trip(s: Seq<u8>, at: int, v: int)
    requires
        0 <= at,
        at + 4 <= s.len(),
        0 <= v < 0x1_0000_0000,
    ensures
        u32_at(put_u32(s, at, v), at) == v,
{
    let low = v % 0x1_0000;
    let high = v / 0x1_0000;
    assert(v == low + 0x1_0000 * high);
}

/// Reading a 40-bit integer gives back what was stored.
pub proof fn lemma_u40_round_trip(s: Seq<u8>, at: int, v: int)
    requires
        0 <= at,
        at + 5 <= s.len(),
        0 <= v < 0x100_0000_0000,
    ensures
        u40_at(put_u40(s, at, v), at) == v,
{
    let low = v % 0x1_0000_0000;
    let high = v / 0x1_0000_0000;
    assert(v == low + 0x1_0000_0000 * high);
    lemma_u32_round_trip(s, at, low);
}

/// The bits of `word` that `mask`, shifted by `shift`, selects.
pub open spec fn bits(word: u16, shift: u16, mask: u16) -> u16 {
    (word >> shift) & mask
}

/// `word` with the bits that `mask`, shifted by `shift`, selects replaced by
/// `v`.
pub open spec fn with_bits(word: u16, shift: u16, mask: u16, v: u16) -> u16 {
    (word & !(mask << shift)) | ((v & mask) << shift)
}

/// Reads the 16-bit little-endian integer at `at`.
pub fn get_u16_le(s: &[u8], at: usize) -> (v: u16)
    requires
        at + 2 <= s@.len(),
    ensures
        v == u16_at(s@, at as int),
{
    s[at] as u16 + 0x100 * (s[at + 1] as u16)
}

/// Reads the 32-bit little-endian integer at `at`.
pub fn get_u32_le(s: &[u8], at: usize) -> (v: u32)
    requires
        at + 4 <= s@.len(),
    ensures
        v == u32_at(s@, at as int),
{
    assert(s.len() == s@.len());
    get_u16_le(s, at) as u32 + 0x1_0000 * (get_u16_le(s, at + 2) as u32)
}

/// Stores a 16-bit integer in little-endian order at `at`.
pub fn set_u16_le(s: &mut [u8], at: usize, v: u16)
    requires
        at + 2 <= old(s)@.len(),
    ensures
        final(s)@ == put_u16(old(s)@, at as int, v as int),
{
    s[at] = (v % 0x100) as u8;
    s[at + 1] = (v / 0x100) as u8;
}

/// Stores a 32-bit integer in little-endian order at `at`.
pub fn set_u32_le(s: &mut [u8], at: usize, v: u32)
    requires
        at + 4 <= old(s)@.len(),
    ensures
        final(s)@ == put_u32(old(s)@, at as int, v as int),
{
    assert(s.len() == s@.len());
    set_u16_le(s, at, (v % 0x1_0000) as u16);
    set_u16_le(s, at + 2, (v / 0x1_0000) as u16);
}

/// Copies all octets of `src` to `dst`.
pub fn copy_octets(dst: &mut [u8], src: &[u8])
    requires
        old(dst)@.len() == src@.len(),
    ensures
        final(dst)@ == src@,
{
    let mut i: usize = 0;
    while i < src.len()
        invariant
            i <= src@.len(),
            dst@.len() == src@.len(),
            forall|k: int| 0 <= k < i ==> dst@[k] == src@[k],
        decreases src@.len() - i,
    {
        dst[i] = src[i];
        i = i + 1;
    }
}

/// Copies all octets of `src` to `dst` in reverse order.
pub fn copy_octets_reversed(dst: &mut [u8], src: &[u8])
    requires
        old(dst)@.len() == src@.len(),
    ensures
        final(dst)@ == src@.reverse(),
{
    let mut i: usize = 0;
    while i < src.len()
        invariant
            i <= src@.len(),
            dst@.len() == src@.len(),
            forall|k: int| 0 <= k < i ==> dst@[k] == src@.reverse()[k],
        decreases src@.len() - i,
    {
        dst[i] = src[src.len() - 1 - i];
        i = i + 1;
    }
}

/// The octets of `s` between `start` and `end` as a writable slice.
pub fn subslice_mut(s: &mut [u8], start: usize, end: usize) -> (r: &mut [u8])
    requires
        start <= end <= old(s)@.len(),
    ensures
        r@ == old(s)@.subrange(start as int, end as int),
        final(s)@ == splice(old(s)@, start as int, end as int, final(r)@),
{
    let (_, tail) = s.split_at_mut(start);
    let (part, _) = tail.split_at_mut(end - start);
    part
}

} // verus!
