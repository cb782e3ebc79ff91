//! Addresses as text.

use vstd::prelude::*;

use crate::frame::addressing::{Address, AddressingMode, ExtendedAddress, ShortAddress};
use crate::frame::addressing_fields::AddressingFields;
use crate::octets::{u16_at, Octets};
use crate::Error;

verus! {

/// The lower-case hexadecimal digit for a value below sixteen.
pub open spec fn hex_digit(v: int) -> char {
    if v < 10 {
        (('0' as int) + v) as char
    } else {
        (('a' as int) + v - 10) as char
    }
}

/// An octet as two hexadecimal digits.
pub open spec fn hex_octet(b: u8) -> Seq<char> {
    seq![hex_digit(b as int / 16), hex_digit(b as int % 16)]
}

/// Octets as hexadecimal digits separated by colons.
pub open spec fn hex_octets(s: Seq<u8>) -> Seq<char>
    decreases s.len(),
{
    if s.len() == 0 {
        Seq::empty()
    } else if s.len() == 1 {
        hex_octet(s[0])
    } else {
        hex_octets(s.drop_last()).push(':') + hex_octet(s.last())
    }
}

/// An address as text.
pub open spec fn address_text<Bytes: Octets>(address: Address<Bytes>) -> Seq<char> {
    if address.mode() == AddressingMode::Absent {
        "absent"@
    } else {
        hex_octets(address.le())
    }
}

/// An integer as hexadecimal digits without leading zeros.
pub open spec fn hex_number(v: nat) -> Seq<char>
    decreases v,
{
    if v < 16 {
        seq![hex_digit(v as int)]
    } else {
        hex_number(v / 16).push(hex_digit(v as int % 16))
    }
}

/// The value of a hexadecimal digit in lower or upper case.
pub open spec fn digit_value(c: char) -> Option<int> {
    if '0' <= c <= '9' {
        Some(c as int - '0' as int)
    } else if 'a' <= c <= 'f' {
        Some(c as int - 'a' as int + 10)
    } else if 'A' <= c <= 'F' {
        Some(c as int - 'A' as int + 10)
    } else {
        None
    }
}

/// The value of a sequence of hexadecimal digits.
pub open spec fn digits_value(s: Seq<char>) -> Option<int>
    decreases s.len(),
{
    if s.len() == 0 {
        Some(0)
    } else {
        match (digits_value(s.drop_last()), digit_value(s.last())) {
            (Some(high), Some(low)) => Some(high * 16 + low),
            _ => None,
        }
    }
}

/// The octet that a text denotes: at least one hexadecimal digit after an
/// optional plus sign, with a value below 256.
pub open spec fn octet_value(s: Seq<char>) -> Option<u8> {
    let digits = if s.len() > 0 && s[0] == '+' {
        s.skip(1)
    } else {
        s
    };
    match digits_value(digits) {
        Some(v) => if digits.len() > 0 && v < 256 {
            Some(v as u8)
        } else {
            None
        },
        None => None,
    }
}

/// The parts of a text between its colons.
pub open spec fn parts(s: Seq<char>) -> Seq<Seq<char>>
    decreases s.len(),
{
    if s.len() == 0 {
        seq![Seq::empty()]
    } else {
        let before = parts(s.drop_last());
        if s.last() == ':' {
            before.push(Seq::empty())
        } else {
            before.drop_last().push(before.last().push(s.last()))
        }
    }
}

/// The octets that the parts of a text denote.
pub open spec fn parts_octets(p: Seq<Seq<char>>) -> Seq<u8> {
    Seq::new(p.len(), |i: int| octet_value(p[i])->0)
}

/// Whether each part of a text denotes an octet.
pub open spec fn parts_valid(p: Seq<Seq<char>>) -> bool {
    forall|i: int| 0 <= i < p.len() ==> octet_value(#[trigger] p[i]) is Some
}

proof fn lemma_parts_not_empty(s: Seq<char>)
    ensures
        parts(s).len() >= 1,
    decreases s.len(),
{
    if s.len() > 0 {
        lemma_parts_not_empty(s.drop_last());
    }
}

proof fn lemma_hex_octet_value(b: u8)
    ensures
        octet_value(hex_octet(b)) == Some(b),
        hex_octet(b)[0] != ':',
        hex_octet(b)[1] != ':',
{
    let s = hex_octet(b);
    let h = b as int / 16;
    let l = b as int % 16;
    assert(digit_value(hex_digit(h)) == Some(h));
    assert(digit_value(hex_digit(l)) == Some(l));
    assert(s[0] != '+');
    assert(s.drop_last().drop_last() =~= Seq::empty());
    assert(s.drop_last().last() == s[0]);
    reveal_with_fuel(digits_value, 3);
    assert(h * 16 + l == b);
}

/// Appending two characters other than a colon extends the last part.
pub(crate) proof fn lemma_parts_push_two(s: Seq<char>, t: Seq<char>)
    requires
        t.len() == 2,
        t[0] != ':',
        t[1] != ':',
    ensures
        parts(s + t) == parts(s).drop_last().push(parts(s).last() + t),
{
    lemma_parts_not_empty(s);
    let s1 = s.push(t[0]);
    assert((s + t).drop_last() =~= s1);
    assert(s1.drop_last() =~= s);
    let p1 = parts(s).drop_last().push(parts(s).last().push(t[0]));
    assert(parts(s1) == p1);
    assert(p1.drop_last() =~= parts(s).drop_last());
    assert(parts(s).last() + t =~= parts(s).last().push(t[0]).push(t[1]));
}

/// The parts of an address as text denote the octets of the address.
pub proof fn lemma_hex_octets_parts(s: Seq<u8>)
    requires
        s.len() > 0,
    ensures
        parts(hex_octets(s)).len() == s.len(),
        parts_valid(parts(hex_octets(s))),
        parts_octets(parts(hex_octets(s))) == s,
        hex_octets(s).len() > 0,
    decreases s.len(),
{
    if s.len() == 1 {
        lemma_hex_octet_value(s[0]);
        let t = hex_octet(s[0]);
        lemma_parts_push_two(Seq::empty(), t);
        assert(Seq::<char>::empty() + t =~= t);
        let p = parts(t);
        assert(p =~= seq![t]);
        assert(parts_octets(p) =~= s);
    } else {
        let head = s.drop_last();
        lemma_hex_octets_parts(head);
        lemma_hex_octet_value(s.last());
        let h = hex_octets(head);
        let t = hex_octet(s.last());
        let hc = h.push(':');
        assert(hc.drop_last() =~= h);
        assert(parts(hc) == parts(h).push(Seq::empty()));
        lemma_parts_push_two(hc, t);
        let p = parts(hc + t);
        assert(parts(hc).drop_last() =~= parts(h));
        assert(Seq::<char>::empty() + t =~= t);
        assert(p =~= parts(h).push(t));
        assert forall|i: int| 0 <= i < p.len() implies octet_value(#[trigger] p[i]) is Some
            && octet_value(p[i])->0 == s[i] by {
            if i < parts(h).len() {
                assert(p[i] == parts(h)[i]);
                assert(parts_octets(parts(h))[i] == head[i]);
            }
        }
        assert(parts_octets(p) =~= s);
    }
}

/// Parsing the text of a present address gives back its octets.
pub proof fn lemma_parse_text_round_trip<Bytes: Octets>(address: Address<Bytes>)
    requires
        address.wf(),
        address.mode() != AddressingMode::Absent,
    ensures
        ({
            let p = parts(address_text(address));
            &&& address_text(address).len() > 0
            &&& p.len() == address.mode().octets()
            &&& parts_valid(p)
            &&& parts_octets(p) == address.le()
        }),
{
    lemma_hex_octets_parts(address.le());
}

/// The characters of a text.
fn chars_of(s: &str) -> (r: Vec<char>)
    ensures
        r@ == s@,
{
    let n: usize = s.unicode_len();
    let mut chars: Vec<char> = Vec::new();
    let mut i: usize = 0;
    while i < n
        invariant
            n == s@.len(),
            i <= n,
            chars@ == s@.subrange(0, i as int),
        decreases n - i,
    {
        chars.push(s.get_char(i));
        assert(s@.subrange(0, i + 1) =~= s@.subrange(0, i as int).push(s@[i as int]));
        i = i + 1;
    }
    assert(s@.subrange(0, n as int) =~= s@);
    chars
}

/// The views of the parts of a text.
spec fn part_views(p: Seq<Vec<char>>) -> Seq<Seq<char>> {
    Seq::new(p.len(), |i: int| p[i]@)
}

/// Splits a text at its colons.
fn split_parts(chars: &Vec<char>) -> (r: Vec<Vec<char>>)
    ensures
        part_views(r@) == parts(chars@),
{
    let mut done: Vec<Vec<char>> = Vec::new();
    let mut current: Vec<char> = Vec::new();
    let mut i: usize = 0;
    assert(chars@.subrange(0, 0) =~= Seq::empty());
    assert(part_views(done@).push(current@) =~= parts(chars@.subrange(0, 0)));
    while i < chars.len()
        invariant
            i <= chars@.len(),
            part_views(done@).push(current@) == parts(chars@.subrange(0, i as int)),
        decreases chars@.len() - i,
    {
        let ghost prefix = chars@.subrange(0, i as int);
        let ghost next = chars@.subrange(0, i + 1);
        assert(next.drop_last() =~= prefix);
        assert(next.last() == chars@[i as int]);
        let ghost before = part_views(done@);
        let ghost last = current@;
        assert(parts(prefix).drop_last() =~= before);
        let c: char = chars[i];
        if c == ':' {
            done.push(current);
            current = Vec::new();
            assert(part_views(done@) =~= before.push(last));
            assert(part_views(done@).push(current@) =~= parts(next));
        } else {
            current.push(c);
            assert(part_views(done@).push(current@) =~= parts(next));
        }
        i = i + 1;
    }
    assert(chars@.subrange(0, i as int) =~= chars@);
    let ghost before = part_views(done@);
    let ghost last = current@;
    done.push(current);
    assert(part_views(done@) =~= before.push(last));
    done
}

proof fn lemma_digits_value_prefix(s: Seq<char>, i: int)
    requires
        0 <= i <= s.len(),
        digits_value(s) is Some,
    ensures
        digits_value(s.subrange(0, i)) is Some,
        0 <= digits_value(s.subrange(0, i))->0 <= digits_value(s)->0,
    decreases s.len() - i,
{
    if i < s.len() {
        lemma_digits_value_prefix(s, i + 1);
        assert(s.subrange(0, i + 1).drop_last() =~= s.subrange(0, i));
        lemma_digits_value_nonnegative(s.subrange(0, i));
    } else {
        assert(s.subrange(0, i) =~= s);
        lemma_digits_value_nonnegative(s);
    }
}

proof fn lemma_digits_value_nonnegative(s: Seq<char>)
    ensures
        digits_value(s) matches Some(v) ==> v >= 0,
    decreases s.len(),
{
    if s.len() > 0 {
        lemma_digits_value_nonnegative(s.drop_last());
    }
}

/// The value of a hexadecimal digit.
fn parse_digit(c: char) -> (r: u16)
    requires
        digit_value(c) is Some,
    ensures
        r == digit_value(c)->0,
        r < 16,
{
    let code: u32 = c as u32;
    if c <= '9' {
        (code - '0' as u32) as u16
    } else if c >= 'a' {
        (code - 'a' as u32 + 10) as u16
    } else {
        (code - 'A' as u32 + 10) as u16
    }
}

/// The octet that a part of a text denotes.
fn parse_octet(part: &Vec<char>) -> (r: u8)
    requires
        octet_value(part@) is Some,
    ensures
        r == octet_value(part@)->0,
{
    let start: usize = if part[0] == '+' {
        1
    } else {
        0
    };
    let ghost digits = if part@[0] == '+' {
        part@.skip(1)
    } else {
        part@
    };
    let mut value: u16 = 0;
    let mut i: usize = start;
    assert(digits.subrange(0, 0) =~= Seq::empty());
    while i < part.len()
        invariant
            start <= i <= part@.len(),
            digits.len() == part@.len() - start,
            forall|k: int| 0 <= k < digits.len() ==> #[trigger] digits[k] == part@[k + start],
            digits_value(digits) matches Some(v) && v < 256,
            digits_value(digits.subrange(0, i - start)) == Some(value as int),
            value < 256,
        decreases part@.len() - i,
    {
        let ghost next = digits.subrange(0, i + 1 - start);
        proof {
            lemma_digits_value_prefix(digits, i + 1 - start);
            assert(next.drop_last() =~= digits.subrange(0, i - start));
            assert(next.last() == digits[i - start]);
        }
        value = value * 16 + parse_digit(part[i]);
        i = i + 1;
    }
    assert(digits.subrange(0, i - start) =~= digits);
    value as u8
}

/// The octets that the parts of a text denote.
fn parse_octets(p: &Vec<Vec<char>>) -> (r: Vec<u8>)
    requires
        parts_valid(part_views(p@)),
    ensures
        r@ == parts_octets(part_views(p@)),
{
    let mut octets: Vec<u8> = Vec::new();
    let mut i: usize = 0;
    while i < p.len()
        invariant
            i <= p@.len(),
            parts_valid(part_views(p@)),
            octets@.len() == i,
            forall|k: int| 0 <= k < i ==> octets@[k] == parts_octets(part_views(p@))[k],
        decreases p@.len() - i,
    {
        assert(part_views(p@)[i as int] == p@[i as int]@);
        octets.push(parse_octet(&p[i]));
        i = i + 1;
    }
    assert(octets@ =~= parts_octets(part_views(p@)));
    octets
}

impl Address<Vec<u8>> {
    /// Parses an address.
    ///
    /// The text gives the octets in little-endian order, in hexadecimal digits
    /// and separated by colons. The empty text denotes the absent address.
    ///
    /// # Errors
    ///
    /// Fails if the number of octets is not that of an address.
    pub fn parse(address: &str) -> (r: Result<Self, Error>)
        requires
            address@.len() > 0 && (parts(address@).len() == 2 || parts(address@).len() == 8)
                ==> parts_valid(parts(address@)),
        ensures
            r is Ok <==> address@.len() == 0 || parts(address@).len() == 2 || parts(address@).len()
                == 8,
            r matches Ok(a) ==> a.wf() && a.le() == (if address@.len() == 0 {
                Seq::empty()
            } else {
                parts_octets(parts(address@))
            }),
    {
        if address.is_empty() {
            return Ok(Address::Absent);
        }
        let chars: Vec<char> = chars_of(address);
        let p: Vec<Vec<char>> = split_parts(&chars);
        assert(p@.len() == parts(address@).len());
        match p.len() {
            2 => Ok(Address::Short(ShortAddress::new(parse_octets(&p)))),
            8 => Ok(Address::Extended(ExtendedAddress::new(parse_octets(&p)))),
            _ => Err(Error),
        }
    }
}

/// The lower-case hexadecimal digit for a value below sixteen.
fn digit_text(v: u16) -> (r: &'static str)
    requires
        v < 16,
    ensures
        r@ == seq![hex_digit(v as int)],
{
    proof {
        reveal_strlit("0");
        reveal_strlit("1");
        reveal_strlit("2");
        reveal_strlit("3");
        reveal_strlit("4");
        reveal_strlit("5");
        reveal_strlit("6");
        reveal_strlit("7");
        reveal_strlit("8");
        reveal_strlit("9");
        reveal_strlit("a");
        reveal_strlit("b");
        reveal_strlit("c");
        reveal_strlit("d");
        reveal_strlit("e");
        reveal_strlit("f");
    }
    match v {
        0 => "0",
        1 => "1",
        2 => "2",
        3 => "3",
        4 => "4",
        5 => "5",
        6 => "6",
        7 => "7",
        8 => "8",
        9 => "9",
        10 => "a",
        11 => "b",
        12 => "c",
        13 => "d",
        14 => "e",
        _ => "f",
    }
}

/// Appends octets as hexadecimal digits separated by colons.
fn append_octets(text: &mut String, b: &[u8])
    ensures
        final(text)@ == old(text)@ + hex_octets(b@),
{
    let ghost head = text@;
    let mut i: usize = 0;
    assert(b@.subrange(0, 0) =~= Seq::empty());
    assert(head + hex_octets(b@.subrange(0, 0)) =~= head);
    while i < b.len()
        invariant
            i <= b@.len(),
            text@ == head + hex_octets(b@.subrange(0, i as int)),
        decreases b@.len() - i,
    {
        let ghost before = text@;
        let ghost next = b@.subrange(0, i + 1);
        if i > 0 {
            proof {
                reveal_strlit(":");
            }
            text.append(":");
        }
        let octet: u8 = b[i];
        text.append(digit_text((octet / 16) as u16));
        text.append(digit_text((octet % 16) as u16));
        proof {
            assert(next.last() == octet);
            assert(next.drop_last() =~= b@.subrange(0, i as int));
            assert(text@ =~= head + hex_octets(next));
        }
        i = i + 1;
    }
    assert(b@.subrange(0, i as int) =~= b@);
}

/// Appends an integer as hexadecimal digits without leading zeros.
pub(crate) fn append_number(text: &mut String, v: u16)
    ensures
        final(text)@ == old(text)@ + hex_number(v as nat),
    decreases v,
{
    let ghost head = text@;
    if v >= 16 {
        append_number(text, v / 16);
    }
    text.append(digit_text(v % 16));
    assert(text@ =~= head + hex_number(v as nat));
}

impl<Bytes: Octets> Address<Bytes> {
    /// The address as text: its octets in little-endian order, in hexadecimal
    /// digits and separated by colons.
    pub fn to_text(&self) -> (r: String)
        ensures
            r@ == address_text(*self),
    {
        match self {
            Address::Absent => "absent".to_owned(),
            _ => {
                let mut text: String = String::new();
                append_octets(&mut text, self.as_le_bytes());
                assert(text@ =~= hex_octets(self.le()));
                text
            },
        }
    }
}

/// A line of text for a PAN ID, if it is not elided.
pub open spec fn pan_id_line(label: Seq<char>, octets: Seq<u8>) -> Seq<char> {
    if octets.len() == 0 {
        Seq::empty()
    } else {
        label + hex_number(u16_at(octets, 0) as nat) + "\n"@
    }
}

/// A line of text for an address, if it is not absent.
pub open spec fn address_line(label: Seq<char>, octets: Seq<u8>) -> Seq<char> {
    if octets.len() == 0 {
        Seq::empty()
    } else {
        label + hex_octets(octets) + "\n"@
    }
}

impl<Bytes: Octets> AddressingFields<Bytes> {
    /// The addressing fields as text, one line for each field that is present.
    pub fn to_text(&self) -> (r: String)
        requires
            self.wf(),
        ensures
            r@ == "Addressing Fields\n"@ + pan_id_line("  dst pan id: "@, self.dst_pan_id_octets())
                + address_line("  dst address: "@, self.dst_address_octets()) + pan_id_line(
                "  src pan id: "@,
                self.src_pan_id_octets(),
            ) + address_line("  src address: "@, self.src_address_octets()),
    {
        let mut text: String = "Addressing Fields\n".to_owned();
        let ghost t0 = text@;
        if let Some(pan_id) = self.dst_pan_id() {
            text.append("  dst pan id: ");
            append_number(&mut text, pan_id.into_u16());
            text.append("\n");
        }
        let ghost t1 = t0 + pan_id_line("  dst pan id: "@, self.dst_pan_id_octets());
        assert(text@ =~= t1);
        if let Some(address) = self.dst_address() {
            text.append("  dst address: ");
            append_octets(&mut text, address.as_le_bytes());
            text.append("\n");
        }
        let ghost t2 = t1 + address_line("  dst address: "@, self.dst_address_octets());
        assert(text@ =~= t2);
        if let Some(pan_id) = self.src_pan_id() {
            text.append("  src pan id: ");
            append_number(&mut text, pan_id.into_u16());
            text.append("\n");
        }
        let ghost t3 = t2 + pan_id_line("  src pan id: "@, self.src_pan_id_octets());
        assert(text@ =~= t3);
        if let Some(address) = self.src_address() {
            text.append("  src address: ");
            append_octets(&mut text, address.as_le_bytes());
            text.append("\n");
        }
        assert(text@ =~= t3 + address_line("  src address: "@, self.src_address_octets()));
        text
    }
}

} // verus!
