//! Link option bits.

use vstd::prelude::*;

use crate::frame::address_text::{append_number, hex_number};

verus! {

pub const TX: u8 = 0x01;

pub const RX: u8 = 0x02;

pub const SHARED: u8 = 0x04;

pub const TIMEKEEPING: u8 = 0x08;

pub const PRIORITY: u8 = 0x10;

/// A set of link options.
#[derive(Clone, Copy, Debug, PartialEq, Eq, Structural)]
pub struct TschLinkOption {
    pub bits: u8,
}

/// Whether a set of bits has an option.
pub open spec fn has_option(bits: u8, option: u8) -> bool {
    bits & option == option
}

/// A text followed by the name of an option, if the option is set. Names are
/// separated.
pub open spec fn with_name(text: Seq<char>, bits: u8, option: u8, name: Seq<char>) -> Seq<char> {
    if !has_option(bits, option) {
        text
    } else if text.len() == 0 {
        name
    } else {
        text + " | "@ + name
    }
}

/// The names of all options that are set.
pub open spec fn option_names(bits: u8) -> Seq<char> {
    let tx = with_name(Seq::empty(), bits, TX, "Tx"@);
    let rx = with_name(tx, bits, RX, "Rx"@);
    let shared = with_name(rx, bits, SHARED, "Shared"@);
    let time_keeping = with_name(shared, bits, TIMEKEEPING, "TimeKeeping"@);
    with_name(time_keeping, bits, PRIORITY, "Priority"@)
}

/// The names of all options that are set, followed by the reserved bits in
/// hexadecimal, if any of them is set.
pub open spec fn options_text(bits: u8) -> Seq<char> {
    let names = option_names(bits);
    let reserved = bits / 0x20;
    if reserved == 0 {
        names
    } else if names.len() == 0 {
        "0x"@ + hex_number(0x20 * reserved as nat)
    } else {
        names + " | "@ + "0x"@ + hex_number(0x20 * reserved as nat)
    }
}

impl TschLinkOption {
    /// The options that the bits stand for, unless reserved bits are set.
    pub fn from_bits(bits: u8) -> (r: Option<Self>)
        ensures
            r == (if bits < 0x20 {
                Some(TschLinkOption { bits })
            } else {
                None
            }),
    {
        if bits < 0x20 {
            Some(TschLinkOption { bits })
        } else {
            None
        }
    }

    /// The options that the bits stand for. Reserved bits are kept.
    pub fn from_bits_retain(bits: u8) -> (r: Self)
        ensures
            r.bits == bits,
    {
        TschLinkOption { bits }
    }

    /// The bits that stand for the options.
    pub fn bits(&self) -> (r: u8)
        ensures
            r == self.bits,
    {
        self.bits
    }

    /// Whether all of the other options are set.
    pub fn contains(&self, other: TschLinkOption) -> (r: bool)
        ensures
            r <==> has_option(self.bits, other.bits),
    {
        self.bits & other.bits == other.bits
    }

    /// The options as text.
    pub fn to_text(&self) -> (r: String)
        ensures
            r@ == options_text(self.bits),
    {
        let mut text = "".to_owned();
        proof {
            reveal_strlit("");
            reveal_strlit("Tx");
        }
        assert(text@ =~= Seq::empty());
        append_name(&mut text, self.bits, TX, "Tx");
        append_name(&mut text, self.bits, RX, "Rx");
        append_name(&mut text, self.bits, SHARED, "Shared");
        append_name(&mut text, self.bits, TIMEKEEPING, "TimeKeeping");
        append_name(&mut text, self.bits, PRIORITY, "Priority");
        let reserved: u8 = self.bits / 0x20;
        if reserved != 0 {
            if text.as_str().unicode_len() != 0 {
                text.append(" | ");
            }
            text.append("0x");
            append_number(&mut text, 0x20 * (reserved as u16));
        }
        assert(text@ =~= options_text(self.bits));
        text
    }
}

/// Appends the name of an option, if the option is set.
fn append_name(text: &mut String, bits: u8, option: u8, name: &str)
    ensures
        final(text)@ == with_name(old(text)@, bits, option, name@),
{
    if bits & option == option {
        let first: bool = text.as_str().unicode_len() == 0;
        if !first {
            text.append(" | ");
        }
        text.append(name);
        assert(text@ =~= with_name(old(text)@, bits, option, name@));
    }
}

} // verus!
