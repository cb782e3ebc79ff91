//! What frame buffers, the filtering of frames and addresses as text are for.
//!
//! The laws speak of calls: each relates the arguments and the results of one or
//! more functions.

use vstd::prelude::*;

use core::ops::Range;

use crate::frame::address_text::{
    digits_value, hex_octets, lemma_hex_octets_parts, lemma_parts_push_two, octet_value, parts,
};
use crate::frame::addressing::Address;
use crate::frame::control_laws::{lemma_control_octets, lemma_word_bits};
use crate::frame::driver_config::{config_valid, DriverConfig, RadioFrameSized, RadioFrameUnsized};
use crate::frame::frame_control::FrameControl;
use crate::frame::incoming::{
    is_frame_valid_and_for, is_frame_valid_and_for_us, PreliminaryFrameInfo,
};
use crate::frame::radio_frame::RadioFrame;
use crate::frame::repr::RadioFrameRepr;
use crate::octets::{Octets, OctetsMut};
use crate::Error;

verus! {

/// The parts of a frame buffer follow each other without a gap: headroom, SDU without
/// its FCS, FCS and tailroom. Together they are as long as the PDU.
pub proof fn lemma_parts_adjacent<Config: DriverConfig>(
    length: u16,
    repr: RadioFrameRepr<Config, RadioFrameSized>,
    headroom: Range<usize>,
    sdu: Range<usize>,
    fcs: Option<Range<usize>>,
    tailroom: Range<usize>,
    pdu: Range<usize>,
)
    requires
        config_valid::<Config>(),
        0 < length,
        length + Config::FCS_LENGTH <= Config::MAX_SDU_LENGTH,
        call_ensures(RadioFrameRepr::<Config, RadioFrameSized>::new, (length,), repr),
        call_ensures(
            RadioFrameRepr::<Config, RadioFrameSized>::headroom_range,
            (&repr,),
            headroom,
        ),
        call_ensures(RadioFrameRepr::<Config, RadioFrameSized>::sdu_range_wo_fcs, (&repr,), sdu),
        call_ensures(RadioFrameRepr::<Config, RadioFrameSized>::fcs_range, (&repr,), fcs),
        call_ensures(
            RadioFrameRepr::<Config, RadioFrameSized>::tailroom_range,
            (&repr,),
            tailroom,
        ),
        call_ensures(RadioFrameRepr::<Config, RadioFrameSized>::pdu_range, (&repr,), pdu),
    ensures
        pdu.start == 0 && headroom.start == 0,
        headroom.end - headroom.start == Config::HEADROOM,
        sdu.start == headroom.end,
        sdu.end - sdu.start == length,
        Config::FCS_LENGTH == 0 ==> fcs is None && tailroom.start == sdu.end,
        Config::FCS_LENGTH > 0 ==> (fcs matches Some(fcs) && fcs.start == sdu.end && fcs.end
            - fcs.start == Config::FCS_LENGTH && tailroom.start == fcs.end),
        tailroom.end - tailroom.start == Config::TAILROOM,
        pdu.end == tailroom.end,
{
}

/// The offsets and lengths of a frame buffer are those of its parts.
pub proof fn lemma_buffer_lengths<Config: DriverConfig>(
    length: u16,
    unsized_repr: RadioFrameRepr<Config, RadioFrameUnsized>,
    repr: RadioFrameRepr<Config, RadioFrameSized>,
    other: RadioFrameRepr<Config, RadioFrameSized>,
    offset_sdu: u8,
    offset_fcs: u16,
    offset_tailroom: u16,
    pdu_length: u16,
    sdu_length: u16,
    sdu_length_wo_fcs: u16,
)
    requires
        config_valid::<Config>(),
        0 < length,
        length + Config::FCS_LENGTH <= Config::MAX_SDU_LENGTH,
        call_ensures(
            RadioFrameRepr::<Config, RadioFrameUnsized>::with_sdu,
            (&unsized_repr, length),
            repr,
        ),
        call_ensures(RadioFrameRepr::<Config, RadioFrameSized>::new, (length,), other),
        call_ensures(RadioFrameRepr::<Config, RadioFrameSized>::offset_sdu, (&repr,), offset_sdu),
        call_ensures(RadioFrameRepr::<Config, RadioFrameSized>::offset_fcs, (&repr,), offset_fcs),
        call_ensures(
            RadioFrameRepr::<Config, RadioFrameSized>::offset_tailroom,
            (&repr,),
            offset_tailroom,
        ),
        call_ensures(RadioFrameRepr::<Config, RadioFrameSized>::pdu_length, (&repr,), pdu_length),
        call_ensures(RadioFrameRepr::<Config, RadioFrameSized>::sdu_length, (&repr,), sdu_length),
        call_ensures(
            RadioFrameRepr::<Config, RadioFrameSized>::sdu_length_wo_fcs,
            (&repr,),
            sdu_length_wo_fcs,
        ),
    ensures
        repr.sdu() == other.sdu(),
        offset_sdu == Config::HEADROOM,
        sdu_length_wo_fcs == length,
        offset_fcs == offset_sdu + length,
        sdu_length == length + Config::FCS_LENGTH,
        offset_tailroom == offset_fcs + Config::FCS_LENGTH,
        pdu_length == offset_tailroom + Config::TAILROOM,
{
}

/// A buffer of the largest frame holds the longest SDU and what the driver adds.
pub proof fn lemma_buffer_limits<Config: DriverConfig, State>(
    repr: RadioFrameRepr<Config, State>,
    headroom: u8,
    tailroom: u8,
    overhead: u8,
    max_sdu: u16,
    max_sdu_wo_fcs: u16,
    fcs: u8,
    max_buffer: u16,
)
    requires
        config_valid::<Config>(),
        call_ensures(RadioFrameRepr::<Config, State>::headroom_length, (&repr,), headroom),
        call_ensures(RadioFrameRepr::<Config, State>::tailroom_length, (&repr,), tailroom),
        call_ensures(RadioFrameRepr::<Config, State>::driver_overhead, (&repr,), overhead),
        call_ensures(RadioFrameRepr::<Config, State>::max_sdu_length, (&repr,), max_sdu),
        call_ensures(
            RadioFrameRepr::<Config, State>::max_sdu_length_wo_fcs,
            (&repr,),
            max_sdu_wo_fcs,
        ),
        call_ensures(RadioFrameRepr::<Config, State>::fcs_length, (&repr,), fcs),
        call_ensures(RadioFrameRepr::<Config, State>::max_buffer_length, (&repr,), max_buffer),
    ensures
        headroom == Config::HEADROOM && tailroom == Config::TAILROOM,
        overhead == headroom + tailroom,
        fcs == Config::FCS_LENGTH && max_sdu == Config::MAX_SDU_LENGTH,
        max_sdu_wo_fcs + fcs == max_sdu,
        max_buffer == overhead + max_sdu,
{
}

/// A frame that has been sized has the SDU that was asked for, behind the headroom of
/// the driver and before its FCS. If its size is forgotten, then it can have any
/// size again.
pub proof fn lemma_frame_sized<Buffer: Octets, Config: DriverConfig>(
    buffer: Buffer,
    frame: RadioFrame<Buffer, RadioFrameUnsized>,
    length: u16,
    sized: RadioFrame<Buffer, RadioFrameSized>,
    wo_fcs: u16,
    with_fcs: u16,
    headroom: u8,
    max: u16,
    back: RadioFrame<Buffer, RadioFrameUnsized>,
)
    requires
        config_valid::<Config>(),
        call_ensures(RadioFrame::<Buffer, RadioFrameUnsized>::new::<Config>, (buffer,), frame),
        call_ensures(RadioFrame::<Buffer, RadioFrameUnsized>::with_size, (frame, length), sized),
        call_ensures(
            RadioFrame::<Buffer, RadioFrameSized>::sdu_wo_fcs_length,
            (&sized,),
            wo_fcs,
        ),
        call_ensures(RadioFrame::<Buffer, RadioFrameSized>::sdu_length, (&sized,), with_fcs),
        call_ensures(
            RadioFrame::<Buffer, RadioFrameSized>::headroom_length,
            (&sized,),
            headroom,
        ),
        call_ensures(
            RadioFrame::<Buffer, RadioFrameUnsized>::max_frame_length_wo_fcs,
            (&frame,),
            max,
        ),
        call_ensures(
            RadioFrame::<Buffer, RadioFrameSized>::forget_size::<Config>,
            (sized,),
            back,
        ),
    ensures
        wo_fcs == length,
        with_fcs == length + Config::FCS_LENGTH,
        headroom == Config::HEADROOM,
        max + Config::FCS_LENGTH == Config::MAX_SDU_LENGTH,
        sized.container() == buffer && back.container() == buffer,
        back.sdu_start() == frame.sdu_start() && back.sdu_end_wo_fcs() == frame.sdu_end_wo_fcs()
            && back.sdu_end() == frame.sdu_end(),
{
}

/// The parts of a sized frame follow each other without a gap up to the end of its
/// buffer.
pub proof fn lemma_frame_parts<Buffer: Octets>(
    frame: RadioFrame<Buffer, RadioFrameSized>,
    headroom: Option<Range<usize>>,
    sdu: Range<usize>,
    sdu_wo_fcs: Range<usize>,
    fcs: Option<Range<usize>>,
    tailroom: Option<Range<usize>>,
    octets: &[u8],
    all: &[u8],
    buffer: Buffer,
)
    requires
        frame.wf(),
        call_ensures(RadioFrame::<Buffer, RadioFrameSized>::headroom_range, (&frame,), headroom),
        call_ensures(RadioFrame::<Buffer, RadioFrameSized>::sdu_range, (&frame,), sdu),
        call_ensures(
            RadioFrame::<Buffer, RadioFrameSized>::sdu_range_wo_fcs,
            (&frame,),
            sdu_wo_fcs,
        ),
        call_ensures(RadioFrame::<Buffer, RadioFrameSized>::fcs_range, (&frame,), fcs),
        call_ensures(RadioFrame::<Buffer, RadioFrameSized>::tailroom_range, (&frame,), tailroom),
        call_ensures(RadioFrame::<Buffer, RadioFrameSized>::sdu_ref, (&frame,), octets),
        call_ensures(RadioFrame::<Buffer, RadioFrameSized>::pdu_ref, (&frame,), all),
        call_ensures(RadioFrame::<Buffer, RadioFrameSized>::into_buffer, (frame,), buffer),
    ensures
        headroom is None <==> sdu.start == 0,
        headroom matches Some(headroom) ==> headroom.start == 0 && headroom.end == sdu.start,
        sdu_wo_fcs.start == sdu.start,
        fcs is None ==> sdu_wo_fcs.end == sdu.end,
        fcs matches Some(fcs) ==> fcs.start == sdu_wo_fcs.end && fcs.end == sdu.end && fcs.start
            < fcs.end,
        tailroom is None ==> sdu.end >= frame@.len(),
        tailroom matches Some(tailroom) ==> tailroom.start == sdu.end && tailroom.end
            == frame@.len() && tailroom.start < tailroom.end,
        octets@ == frame@.subrange(sdu_wo_fcs.start as int, sdu_wo_fcs.end as int),
        all@ == frame@,
        buffer.bytes() == frame@,
{
}

/// What is written to the SDU changes the SDU and nothing else.
pub proof fn lemma_sdu_written<Buffer: OctetsMut>(
    frame: &mut RadioFrame<Buffer, RadioFrameSized>,
    octets: &mut [u8],
)
    requires
        frame.wf(),
        frame.sdu_end_wo_fcs() <= frame@.len(),
        call_ensures(RadioFrame::<Buffer, RadioFrameSized>::sdu_mut, (frame,), octets),
        (*final(octets))@.len() == octets@.len(),
    ensures
        old(octets)@ == old(frame)@.subrange(old(frame).sdu_start(), old(frame).sdu_end_wo_fcs()),
        final(frame)@.subrange(old(frame).sdu_start(), old(frame).sdu_end_wo_fcs())
            == final(octets)@,
        final(frame)@.len() == old(frame)@.len(),
        forall|i: int|
            0 <= i < old(frame)@.len() && !(old(frame).sdu_start() <= i
                < old(frame).sdu_end_wo_fcs()) ==> #[trigger] final(frame)@[i] == old(frame)@[i],
        final(frame).sdu_start() == old(frame).sdu_start(),
        final(frame).sdu_end_wo_fcs() == old(frame).sdu_end_wo_fcs(),
{
}

/// What is written to the PDU is what the frame then holds.
pub proof fn lemma_pdu_written<Buffer: OctetsMut, State>(
    frame: &mut RadioFrame<Buffer, State>,
    octets: &mut [u8],
)
    requires
        call_ensures(RadioFrame::<Buffer, State>::pdu_mut, (frame,), octets),
    ensures
        old(octets)@ == old(frame)@,
        final(frame)@ == final(octets)@,
        final(frame).sdu_start() == old(frame).sdu_start(),
        final(frame).sdu_end_wo_fcs() == old(frame).sdu_end_wo_fcs(),
        final(frame).sdu_end() == old(frame).sdu_end(),
{
}

/// The frame control field consists of the first two octets of the SDU, and the
/// sequence number follows it. It has to be acknowledged only if that is asked for
/// and there is one.
pub proof fn lemma_acknowledgment_asked_for<Buffer: Octets>(
    frame: RadioFrame<Buffer, RadioFrameSized>,
    fc: FrameControl<[u8; 2]>,
    same: FrameControl<[u8; 2]>,
    seq_nr: Option<u8>,
)
    requires
        frame.has_frame_control(),
        frame.sdu_start() >= 0,
        call_ensures(RadioFrame::<Buffer, RadioFrameSized>::fc, (&frame,), fc),
        call_ensures(RadioFrame::<Buffer, RadioFrameSized>::frame_control, (&frame,), same),
        call_ensures(RadioFrame::<Buffer, RadioFrameSized>::ack_seq_num, (&frame,), seq_nr),
    ensures
        ({
            let at = frame.sdu_start();
            &&& fc@ == seq![frame@[at], frame@[at + 1]]
            &&& same@ == fc@
            &&& seq_nr is Some <==> frame@[at] as int / 32 % 2 == 1 && frame@[at + 1] as int % 2
                == 0
            &&& seq_nr matches Some(seq_nr) ==> seq_nr == frame@[at + 2]
        }),
{
    lemma_word_bits(frame@[frame.sdu_start()], frame@[frame.sdu_start() + 1]);
    assert(fc@ =~= seq![frame@[frame.sdu_start()], frame@[frame.sdu_start() + 1]]);
}

/// A frame is for us if its frame control field is valid, and its destination is us or
/// everybody: its PAN ID is absent, ours or 0xffff, and its address is ours, 0xffff or,
/// if that is configured, absent. Our addresses are those of the hardware, whose octets
/// come in the opposite order.
pub proof fn lemma_frame_for_us(
    addr: [u8; 8],
    pan_id: [u8; 2],
    implicit_broadcast: bool,
    info: PreliminaryFrameInfo,
    accepted: bool,
)
    requires
        info.wf(),
        call_ensures(
            is_frame_valid_and_for,
            (&addr, &pan_id, implicit_broadcast, &info),
            accepted,
        ),
    ensures
        info.frame_control is None ==> !accepted,
        info.addressing_fields is None ==> !accepted,
        info.frame_control matches Some(fc) ==> info.addressing_fields matches Some(fields) ==> ({
            let (l, h) = (fc@[0] as int, fc@[1] as int);
            let valid = l % 8 != 4 && h / 16 % 4 != 3 && h / 4 % 4 != 1 && h / 64 != 1;
            let pan = fields.dst_pan_id_octets();
            let dst = fields.dst_address_octets();
            let our_pan = pan.len() == 0 || (pan[0] == pan_id@[0] && pan[1] == pan_id@[1]) || (
            pan[0] == 0xff && pan[1] == 0xff);
            let our_short = dst.len() == 2 && dst[0] == addr@[7] && dst[1] == addr@[6];
            let our_extended = dst.len() == 8 && forall|i: int|
                0 <= i < 8 ==> #[trigger] dst[i] == addr@[7 - i];
            let broadcast = dst.len() == 2 && dst[0] == 0xff && dst[1] == 0xff;
            accepted <==> valid && our_pan && (our_short || our_extended || broadcast || (
            dst.len() == 0 && implicit_broadcast))
        }),
{
    if info.frame_control is Some && info.addressing_fields is Some {
        let fc = info.frame_control->0;
        let fields = info.addressing_fields->0;
        lemma_control_octets(fc);
        let pan = fields.dst_pan_id_octets();
        let dst = fields.dst_address_octets();
        if pan.len() == 2 {
            assert(pan =~= seq![pan[0], pan[1]]);
            assert(pan_id@ =~= seq![pan_id@[0], pan_id@[1]]);
        }
        if dst.len() == 2 {
            assert(dst =~= seq![dst[0], dst[1]]);
            assert(addr@.subrange(6, 8).reverse() =~= seq![addr@[7], addr@[6]]);
        }
        if dst.len() == 8 {
            if forall|i: int| 0 <= i < 8 ==> #[trigger] dst[i] == addr@[7 - i] {
                assert(dst =~= addr@.reverse());
            }
        }
    }
}

/// By default, frames are for us if they have the PAN ID 0xfeed, and only if they have
/// a destination address.
pub proof fn lemma_default_filter(
    addr: [u8; 8],
    pan_id: [u8; 2],
    info: PreliminaryFrameInfo,
    accepted: bool,
    default: bool,
)
    requires
        info.wf(),
        pan_id@[0] == 0xed && pan_id@[1] == 0xfe,
        call_ensures(is_frame_valid_and_for, (&addr, &pan_id, false, &info), accepted),
        call_ensures(is_frame_valid_and_for_us, (&addr, &info), default),
    ensures
        accepted == default,
{
    assert(pan_id@ =~= seq![0xed, 0xfe]);
}

/// The character of a hexadecimal digit.
pub open spec fn hex_character(v: int) -> char {
    seq!['0', '1', '2', '3', '4', '5', '6', '7', '8', '9', 'a', 'b', 'c', 'd', 'e', 'f'][v]
}

/// Octets as text: two hexadecimal digits each, with colons between them.
proof fn lemma_hex_characters(s: Seq<u8>)
    requires
        s.len() > 0,
    ensures
        hex_octets(s).len() == 3 * s.len() - 1,
        forall|i: int|
            #![trigger s[i]]
            0 <= i < s.len() ==> hex_octets(s)[3 * i] == hex_character(s[i] as int / 16)
                && hex_octets(s)[3 * i + 1] == hex_character(s[i] as int % 16) && (i < s.len() - 1
                ==> hex_octets(s)[3 * i + 2] == ':'),
    decreases s.len(),
{
    if s.len() > 1 {
        let t = s.drop_last();
        lemma_hex_characters(t);
        assert forall|i: int| #![trigger s[i]] 0 <= i < s.len() implies hex_octets(s)[3 * i]
            == hex_character(s[i] as int / 16) && hex_octets(s)[3 * i + 1] == hex_character(
            s[i] as int % 16,
        ) && (i < s.len() - 1 ==> hex_octets(s)[3 * i + 2] == ':') by {
            if i < s.len() - 1 {
                assert(t[i] == s[i]);
            }
        }
    }
}

/// An address as text has two lower case hexadecimal digits for each octet in the
/// order of the frame, with colons between them.
pub proof fn lemma_address_as_text<Bytes: Octets>(address: Address<Bytes>, text: String)
    requires
        address.wf(),
        call_ensures(Address::<Bytes>::to_text, (&address,), text),
    ensures
        address is Absent ==> text@ == seq!['a', 'b', 's', 'e', 'n', 't'],
        !(address is Absent) ==> text@.len() == 3 * address.le().len() - 1,
        !(address is Absent) ==> forall|i: int|
            #![trigger address.le()[i]]
            0 <= i < address.le().len() ==> text@[3 * i] == hex_character(
                address.le()[i] as int / 16,
            ) && text@[3 * i + 1] == hex_character(address.le()[i] as int % 16) && (i
                < address.le().len() - 1 ==> text@[3 * i + 2] == ':'),
{
    reveal_strlit("absent");
    if address is Absent {
        assert(text@ =~= seq!['a', 'b', 's', 'e', 'n', 't']);
    } else {
        lemma_hex_characters(address.le());
    }
}

/// An address that is not absent is read from its own text.
pub proof fn lemma_address_text_read<Bytes: Octets>(
    address: Address<Bytes>,
    text: String,
    s: &str,
    read: Result<Address<Vec<u8>>, Error>,
)
    requires
        address.wf(),
        !(address is Absent),
        call_ensures(Address::<Bytes>::to_text, (&address,), text),
        s@ == text@,
        call_ensures(Address::<Vec<u8>>::parse, (s,), read),
    ensures
        read matches Ok(read) && read.le() == address.le() && read.mode() == address.mode(),
{
    lemma_hex_octets_parts(address.le());
}

/// No text is an absent address.
pub proof fn lemma_empty_address_text(s: &str, read: Result<Address<Vec<u8>>, Error>)
    requires
        s@.len() == 0,
        call_ensures(Address::<Vec<u8>>::parse, (s,), read),
    ensures
        read matches Ok(read) && read is Absent,
{
}

/// The value of a hexadecimal digit, in lower or upper case.
pub open spec fn hex_value(c: char) -> int {
    if '0' <= c <= '9' {
        c as int - 48
    } else if 'a' <= c <= 'f' {
        c as int - 87
    } else {
        c as int - 55
    }
}

/// Whether a character is a hexadecimal digit, in lower or upper case.
pub open spec fn is_hex(c: char) -> bool {
    '0' <= c <= '9' || 'a' <= c <= 'f' || 'A' <= c <= 'F'
}

/// Texts with colons between them.
pub open spec fn joined(texts: Seq<Seq<char>>) -> Seq<char>
    decreases texts.len(),
{
    if texts.len() == 0 {
        Seq::empty()
    } else if texts.len() == 1 {
        texts[0]
    } else {
        joined(texts.drop_last()).push(':') + texts.last()
    }
}

/// Whether a text has two hexadecimal digits.
pub open spec fn is_octet_text(text: Seq<char>) -> bool {
    text.len() == 2 && is_hex(text[0]) && is_hex(text[1])
}

proof fn lemma_octet_text(text: Seq<char>)
    requires
        is_octet_text(text),
    ensures
        octet_value(text) == Some((16 * hex_value(text[0]) + hex_value(text[1])) as u8),
        0 <= 16 * hex_value(text[0]) + hex_value(text[1]) < 256,
        text[0] != ':' && text[1] != ':' && text[0] != '+',
{
    reveal_with_fuel(digits_value, 3);
    assert(text.drop_last().drop_last().len() == 0);
    assert(text.drop_last().last() == text[0]);
}

proof fn lemma_parts_of_joined(texts: Seq<Seq<char>>)
    requires
        texts.len() > 0,
        forall|i: int| 0 <= i < texts.len() ==> is_octet_text(#[trigger] texts[i]),
    ensures
        parts(joined(texts)) == texts,
        joined(texts).len() > 0,
    decreases texts.len(),
{
    let last = texts.last();
    assert(is_octet_text(texts[texts.len() - 1]));
    lemma_octet_text(last);
    if texts.len() == 1 {
        lemma_parts_push_two(Seq::empty(), last);
        assert(Seq::<char>::empty() + last =~= last);
        assert(parts(Seq::empty()) =~= seq![Seq::<char>::empty()]);
        assert(parts(last) =~= seq![last]);
        assert(texts =~= seq![last]);
    } else {
        let before = texts.drop_last();
        assert forall|i: int| 0 <= i < before.len() implies is_octet_text(#[trigger] before[i]) by {
            assert(before[i] == texts[i]);
        }
        lemma_parts_of_joined(before);
        let head = joined(before).push(':');
        assert(head.drop_last() =~= joined(before));
        assert(parts(head) == before.push(Seq::empty()));
        lemma_parts_push_two(head, last);
        assert(Seq::<char>::empty() + last =~= last);
        assert(before.push(Seq::<char>::empty()).drop_last() =~= before);
        assert(before.push(last) =~= texts);
    }
}

/// A text of octets with two hexadecimal digits each, in lower or upper case and with
/// colons between them, is read as an address if there are two or eight of them. Any
/// other number of octets is refused.
pub proof fn lemma_address_read(
    texts: Seq<Seq<char>>,
    s: &str,
    read: Result<Address<Vec<u8>>, Error>,
)
    requires
        texts.len() > 0,
        forall|i: int| 0 <= i < texts.len() ==> is_octet_text(#[trigger] texts[i]),
        s@ == joined(texts),
        call_ensures(Address::<Vec<u8>>::parse, (s,), read),
    ensures
        read is Ok <==> texts.len() == 2 || texts.len() == 8,
        read matches Ok(read) ==> read.le().len() == texts.len() && forall|i: int|
            0 <= i < texts.len() ==> #[trigger] read.le()[i] == 16 * hex_value(texts[i][0])
                + hex_value(texts[i][1]),
        texts.len() == 2 ==> (read matches Ok(read) && read is Short),
        texts.len() == 8 ==> (read matches Ok(read) && read is Extended),
{
    lemma_parts_of_joined(texts);
    if read is Ok {
        let le = read->Ok_0.le();
        assert forall|i: int| 0 <= i < texts.len() implies #[trigger] le[i] == 16 * hex_value(
            texts[i][0],
        ) + hex_value(texts[i][1]) by {
            lemma_octet_text(texts[i]);
        }
    }
}

} // verus!
