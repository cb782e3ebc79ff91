//! The descriptor format shared by payload IEs and long nested IEs.
//!
//! Format (2 octets, little-endian):
//! - Bits 0-10: length (0-2047)
//! - Bits 11-14: ID
//! - Bit 15: type

use vstd::prelude::*;

use crate::octets::{
    get_u16_le, lemma_u16_put_twice, lemma_u16_round_trip, put_u16, set_u16_le, u16_at,
};

verus! {

/// Content length given by a descriptor.
pub open spec fn long_ie_length(word: int) -> int {
    word % 0x800
}

/// ID given by a descriptor.
pub open spec fn long_ie_id(word: int) -> int {
    word / 0x800 % 0x10
}

/// Type bit of a descriptor.
pub open spec fn long_ie_type(word: int) -> int {
    word / 0x8000
}

/// The descriptor with the given fields.
pub open spec fn long_ie_word(ie_type: int, id: int, length: int) -> int {
    length + 0x800 * id + 0x8000 * ie_type
}

/// A descriptor holds its three fields without loss, and nothing else.
pub proof fn lemma_long_ie_word(ie_type: int, id: int, length: int, word: int)
    ensures
        0 <= ie_type < 2 && 0 <= id < 0x10 && 0 <= length < 0x800 ==> {
            let w = long_ie_word(ie_type, id, length);
            &&& 0 <= w < 0x1_0000
            &&& long_ie_type(w) == ie_type
            &&& long_ie_id(w) == id
            &&& long_ie_length(w) == length
        },
        0 <= word < 0x1_0000 ==> long_ie_word(
            long_ie_type(word),
            long_ie_id(word),
            long_ie_length(word),
        ) == word,
{
}

/// Reads the length field.
pub(crate) fn length(b: &[u8]) -> (r: u16)
    requires
        b@.len() >= 2,
    ensures
        r == long_ie_length(u16_at(b@, 0)),
{
    get_u16_le(b, 0) % 0x800
}

/// Reads the ID field.
pub(crate) fn id(b: &[u8]) -> (r: u8)
    requires
        b@.len() >= 2,
    ensures
        r == long_ie_id(u16_at(b@, 0)),
{
    (get_u16_le(b, 0) / 0x800 % 0x10) as u8
}

/// Reads the type bit.
pub(crate) fn ie_type(b: &[u8]) -> (r: u8)
    requires
        b@.len() >= 2,
    ensures
        r == long_ie_type(u16_at(b@, 0)),
{
    (get_u16_le(b, 0) / 0x8000) as u8
}

/// Writes the length field.
pub(crate) fn set_length(b: &mut [u8], length: u16)
    requires
        old(b)@.len() >= 2,
        length <= 2047,
    ensures
        final(b)@ == put_u16(
            old(b)@,
            0,
            long_ie_word(
                long_ie_type(u16_at(old(b)@, 0)),
                long_ie_id(u16_at(old(b)@, 0)),
                length as int,
            ),
        ),
{
    let word: u16 = get_u16_le(b, 0);
    proof {
        lemma_long_ie_word(0, 0, 0, word as int);
    }
    set_u16_le(b, 0, word - word % 0x800 + length);
}

/// Writes the ID field.
pub(crate) fn set_id(b: &mut [u8], id: u8)
    requires
        old(b)@.len() >= 2,
    ensures
        final(b)@ == put_u16(
            old(b)@,
            0,
            long_ie_word(
                long_ie_type(u16_at(old(b)@, 0)),
                id as int % 0x10,
                long_ie_length(u16_at(old(b)@, 0)),
            ),
        ),
{
    let word: u16 = get_u16_le(b, 0);
    let low: u16 = word % 0x800;
    let high: u16 = word / 0x8000;
    let middle: u16 = (id % 0x10) as u16;
    set_u16_le(b, 0, high * 0x8000 + 0x800 * middle + low);
}

/// Writes the type bit.
pub(crate) fn set_ie_type(b: &mut [u8], ie_type: u8)
    requires
        old(b)@.len() >= 2,
    ensures
        final(b)@ == put_u16(
            old(b)@,
            0,
            long_ie_word(
                ie_type as int % 2,
                long_ie_id(u16_at(old(b)@, 0)),
                long_ie_length(u16_at(old(b)@, 0)),
            ),
        ),
{
    let word: u16 = get_u16_le(b, 0);
    let bit: u16 = (ie_type % 2) as u16;
    proof {
        lemma_long_ie_word(0, 0, 0, word as int);
    }
    set_u16_le(b, 0, word - word / 0x8000 * 0x8000 + 0x8000 * bit);
}

/// Writes all fields of a descriptor with a type bit of one.
pub(crate) fn init(b: &mut [u8], id: u8, length: u16)
    requires
        old(b)@.len() >= 2,
        length <= 2047,
    ensures
        final(b)@ == put_u16(old(b)@, 0, long_ie_word(1, id as int % 0x10, length as int)),
{
    let ghost s = b@;
    let ghost word = u16_at(s, 0);
    let ghost word1 = long_ie_word(1, long_ie_id(word), long_ie_length(word));
    let ghost word2 = long_ie_word(1, id as int % 0x10, long_ie_length(word));
    set_ie_type(b, 1);
    proof {
        lemma_long_ie_word(1, long_ie_id(word), long_ie_length(word), word);
        lemma_u16_round_trip(s, 0, word1);
    }
    set_id(b, id);
    proof {
        lemma_long_ie_word(1, id as int % 0x10, long_ie_length(word), word);
        lemma_u16_put_twice(s, 0, word1, word2);
        lemma_u16_round_trip(s, 0, word2);
    }
    set_length(b, length);
    proof {
        lemma_u16_put_twice(s, 0, word2, long_ie_word(1, id as int % 0x10, length as int));
    }
}

} // verus!
