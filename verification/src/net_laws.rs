//! What preparing frames of a network stack, octets and text are for.
//!
//! The laws speak of calls: each relates the arguments and the results of one or
//! more functions.

use vstd::prelude::*;

use crate::frame::addressing_repr::AddressingRepr;
use crate::frame::control_laws::{flag_number, lemma_word_bits};
use crate::frame::frame_control::FrameControl;
use crate::ies::tsch_laws::same_outside;
use crate::mpdu::frame::MpduFrame;
use crate::net::{dst_pan_id_start, has_unicast_dst, prepare_data_request};
use crate::octets::{
    copy_octets, copy_octets_reversed, get_u16_le, get_u32_le, lemma_u32_round_trip, set_u16_le,
    set_u32_le, subslice_mut, OctetsMut,
};
use crate::Error;

verus! {

/// A frame of a network stack is sent to our PAN, and its acknowledgment is requested
/// exactly if it is sent to a single device. Its destination is the one that its frame
/// control field announces. Nothing else of it changes.
pub proof fn lemma_data_request_prepared<Buffer: OctetsMut>(
    mpdu: &mut MpduFrame<Buffer>,
    pan_id: u16,
    fc: FrameControl<&[u8]>,
    repr: Result<AddressingRepr, Error>,
    lengths: Result<[u8; 4], Error>,
)
    requires
        mpdu.parsable(),
        mpdu.start() >= 0,
        mpdu@[mpdu.start() + 1] as int / 4 % 4 != 1,
        mpdu@[mpdu.start() + 1] as int / 64 != 1,
        call_ensures(prepare_data_request::<Buffer>, (mpdu, pan_id), ()),
        call_ensures(MpduFrame::<Buffer>::frame_control, (&*old(mpdu),), fc),
        call_ensures(AddressingRepr::from_frame_control::<&[u8]>, (fc,), repr),
        repr matches Ok(repr) ==> call_ensures(
            AddressingRepr::addressing_fields_lengths,
            (&repr,),
            lengths,
        ),
        repr is Err ==> lengths is Err,
    ensures
        ({
            let (at, b, after) = (old(mpdu).start(), old(mpdu)@, final(mpdu)@);
            let start = at + 2 + (if b[at + 1] as int % 2 == 1 {
                0int
            } else {
                1
            });
            let l = lengths->Ok_0@;
            let complete = lengths is Ok && start + l[0] + l[1] + l[2] + l[3] <= b.len();
            let dst = start + l[0];
            let broadcast = l[1] == 2 && b[dst] == 0xff && b[dst + 1] == 0xff;
            &&& after.len() == b.len()
            &&& after[at] as int / 32 % 2 == flag_number(complete && l[1] > 0 && !broadcast)
            &&& after[at] as int % 32 == b[at] as int % 32 && after[at] as int / 64 == b[at] as int
                / 64
            &&& after[at + 1] == b[at + 1]
            &&& complete && l[0] == 2 ==> after[start] == pan_id as int % 0x100 && after[start + 1]
                == pan_id as int / 0x100 && forall|i: int|
                at + 2 <= i < b.len() && i != start && i != start + 1 ==> #[trigger] after[i]
                    == b[i]
            &&& !(complete && l[0] == 2) ==> forall|i: int|
                at + 2 <= i < b.len() ==> #[trigger] after[i] == b[i]
            &&& forall|i: int| 0 <= i < at ==> #[trigger] after[i] == b[i]
        }),
{
    let (at, b) = (mpdu.start(), mpdu@);
    reveal(dst_pan_id_start);
    reveal(has_unicast_dst);
    lemma_word_bits(b[at], b[at + 1]);
    crate::fields::parse_laws::lemma_control_flag(b, final(mpdu)@, at);
    if repr is Ok {
        crate::frame::addressing_repr::lemma_announced(repr->Ok_0, mpdu.control_fields());
    }
    if lengths is Ok {
        let l = lengths->Ok_0@;
        let start = crate::net::addressing_start(*mpdu) + l[0];
        if l[1] == 2 && start + 2 <= b.len() {
            assert(b.subrange(start, start + 2) =~= seq![b[start], b[start + 1]]);
        }
        if start + l[1] <= b.len() && l[1] != 2 {
            assert(b.subrange(start, start + l[1]).len() == l[1]);
        }
    }
}

/// Integers are stored with their least significant octet first and read as they were
/// stored.
pub proof fn lemma_integers_stored(
    first: &mut [u8],
    second: &mut [u8],
    at: usize,
    word: u16,
    long: u32,
    after_first: &[u8],
    after_second: &[u8],
    word_read: u16,
    long_read: u32,
)
    requires
        at + 2 <= first@.len(),
        at + 4 <= second@.len(),
        call_ensures(set_u16_le, (first, at, word), ()),
        call_ensures(set_u32_le, (second, at, long), ()),
        after_first@ == (*final(first))@,
        after_second@ == (*final(second))@,
        call_ensures(get_u16_le, (after_first, at), word_read),
        call_ensures(get_u32_le, (after_second, at), long_read),
    ensures
        word_read == word && long_read == long,
        final(first)@[at as int] == word as int % 0x100,
        final(first)@[at + 1] == word as int / 0x100,
        same_outside(final(first)@, old(first)@, at as int, at + 2),
        long == final(second)@[at as int] + 0x100 * (final(second)@[at + 1] + 0x100 * (final(
            second)@[at + 2] + 0x100 * final(second)@[at + 3])),
        same_outside(final(second)@, old(second)@, at as int, at + 4),
{
    lemma_u32_round_trip(second@, at as int, long as int);
}

/// Octets are copied in their order or in the opposite order.
pub proof fn lemma_octets_copied(first: &mut [u8], second: &mut [u8], src: &[u8])
    requires
        first@.len() == src@.len(),
        second@.len() == src@.len(),
        call_ensures(copy_octets, (first, src), ()),
        call_ensures(copy_octets_reversed, (second, src), ()),
    ensures
        final(first)@ == src@,
        final(second)@.len() == src@.len(),
        forall|i: int|
            0 <= i < src@.len() ==> #[trigger] final(second)@[i] == src@[src@.len() - 1 - i],
{
}

/// What is written to a part of some octets changes that part and nothing else.
pub proof fn lemma_part_written(octets: &mut [u8], start: usize, end: usize, part: &mut [u8])
    requires
        start <= end <= octets@.len(),
        call_ensures(subslice_mut, (octets, start, end), part),
        (*final(part))@.len() == part@.len(),
    ensures
        old(part)@ == old(octets)@.subrange(start as int, end as int),
        final(octets)@.subrange(start as int, end as int) == final(part)@,
        same_outside(final(octets)@, old(octets)@, start as int, end as int),
{
}

} // verus!
