//! What values as text are for.
//!
//! The laws speak of calls: each relates the arguments and the results of one or
//! more functions.

use vstd::prelude::*;

use crate::frame::address_text::{hex_digit, hex_number};
use crate::frame::addressing::{Address, PanId};
use crate::frame::addressing_fields::AddressingFields;
use crate::frame::buffer_laws::hex_character;
use crate::ies::link_options::{option_names, TschLinkOption};
use crate::ies::timeslot_timings::TschTimeslotTimings;
use crate::octets::Octets;
use crate::text::decimal;

verus! {

/// The number that decimal digits stand for.
pub open spec fn number_of(digits: Seq<char>) -> int
    decreases digits.len(),
{
    if digits.len() == 0 {
        0
    } else {
        10 * number_of(digits.drop_last()) + (digits.last() as int - '0' as int)
    }
}

/// Decimal digits stand for the number that they were made of. They do not start with a
/// zero unless there is no other digit.
pub proof fn lemma_decimal_digits(v: nat)
    ensures
        number_of(decimal(v)) == v,
        decimal(v).len() > 0,
        forall|i: int| 0 <= i < decimal(v).len() ==> '0' <= #[trigger] decimal(v)[i] <= '9',
        decimal(v).len() > 1 ==> decimal(v)[0] != '0',
        v < 10 ==> decimal(v).len() == 1,
    decreases v,
{
    if v >= 10 {
        lemma_decimal_digits(v / 10);
        assert(decimal(v).drop_last() =~= decimal(v / 10));
        if v / 10 < 10 {
            assert(decimal(v / 10).len() == 1);
            assert(number_of(decimal(v / 10)) == v / 10);
            reveal_with_fuel(number_of, 2);
            assert(decimal(v)[0] == decimal(v / 10)[0]);
        } else {
            lemma_decimal_longer(v / 10);
            assert(decimal(v)[0] == decimal(v / 10)[0]);
        }
    } else {
        reveal_with_fuel(number_of, 2);
        assert(decimal(v).drop_last() =~= Seq::empty());
    }
}

proof fn lemma_decimal_longer(v: nat)
    requires
        v >= 10,
    ensures
        decimal(v).len() > 1,
{
    lemma_decimal_length(v / 10);
}

proof fn lemma_decimal_length(v: nat)
    ensures
        decimal(v).len() > 0,
    decreases v,
{
    if v >= 10 {
        lemma_decimal_length(v / 10);
    }
}

/// An octet or word in hexadecimal has as many digits as it needs.
pub proof fn lemma_hexadecimal_digits(v: nat)
    requires
        v < 0x1_0000,
    ensures
        v < 0x10 ==> hex_number(v) == seq![hex_character(v as int)],
        0x10 <= v < 0x100 ==> hex_number(v) == seq![
            hex_character(v as int / 0x10),
            hex_character(v as int % 0x10),
        ],
        0x100 <= v < 0x1000 ==> hex_number(v) == seq![
            hex_character(v as int / 0x100),
            hex_character(v as int / 0x10 % 0x10),
            hex_character(v as int % 0x10),
        ],
        0x1000 <= v ==> hex_number(v) == seq![
            hex_character(v as int / 0x1000),
            hex_character(v as int / 0x100 % 0x10),
            hex_character(v as int / 0x10 % 0x10),
            hex_character(v as int % 0x10),
        ],
    decreases v,
{
    lemma_hex_character(v as int % 0x10);
    if v >= 0x10 {
        lemma_hexadecimal_digits(v / 0x10);
        assert(v / 0x10 / 0x10 == v / 0x100 && v / 0x10 / 0x100 == v / 0x1000);
        let high = hex_number(v / 0x10);
        assert(hex_number(v) == high.push(hex_digit(v as int % 0x10)));
        if v < 0x100 {
            assert(hex_number(v) =~= seq![
                hex_character(v as int / 0x10),
                hex_character(v as int % 0x10),
            ]);
        } else if v < 0x1000 {
            assert(hex_number(v) =~= seq![
                hex_character(v as int / 0x100),
                hex_character(v as int / 0x10 % 0x10),
                hex_character(v as int % 0x10),
            ]);
        } else {
            assert(v as int / 0x10 / 0x10 % 0x10 == v as int / 0x100 % 0x10);
            assert(hex_number(v) =~= seq![
                hex_character(v as int / 0x1000),
                hex_character(v as int / 0x100 % 0x10),
                hex_character(v as int / 0x10 % 0x10),
                hex_character(v as int % 0x10),
            ]);
        }
    } else {
        assert(hex_number(v) =~= seq![hex_character(v as int)]);
    }
}

proof fn lemma_hex_character(v: int)
    requires
        0 <= v < 16,
    ensures
        hex_digit(v) == hex_character(v),
{
}

/// The name of the link option with a number, counted from the least significant bit.
pub open spec fn option_name(number: int) -> Seq<char> {
    if number == 0 {
        seq!['T', 'x']
    } else if number == 1 {
        seq!['R', 'x']
    } else if number == 2 {
        seq!['S', 'h', 'a', 'r', 'e', 'd']
    } else if number == 3 {
        seq!['T', 'i', 'm', 'e', 'K', 'e', 'e', 'p', 'i', 'n', 'g']
    } else {
        seq!['P', 'r', 'i', 'o', 'r', 'i', 't', 'y']
    }
}

/// The value of the link option with a number.
pub open spec fn option_value(number: int) -> int {
    if number == 0 {
        1
    } else if number == 1 {
        2
    } else if number == 2 {
        4
    } else if number == 3 {
        8
    } else {
        16
    }
}

proof fn lemma_option_names()
    ensures
        "Tx"@ == option_name(0),
        "Rx"@ == option_name(1),
        "Shared"@ == option_name(2),
        "TimeKeeping"@ == option_name(3),
        "Priority"@ == option_name(4),
        " | "@ == seq![' ', '|', ' '],
        "0x"@ == seq!['0', 'x'],
{
    reveal_strlit("Tx");
    reveal_strlit("Rx");
    reveal_strlit("Shared");
    reveal_strlit("TimeKeeping");
    reveal_strlit("Priority");
    reveal_strlit(" | ");
    reveal_strlit("0x");
    assert("Tx"@ =~= option_name(0));
    assert("Rx"@ =~= option_name(1));
    assert("Shared"@ =~= option_name(2));
    assert("TimeKeeping"@ =~= option_name(3));
    assert("Priority"@ =~= option_name(4));
    assert(" | "@ =~= seq![' ', '|', ' ']);
    assert("0x"@ =~= seq!['0', 'x']);
}

proof fn lemma_option_bits(bits: u8)
    ensures
        bits & 0x01 == 0x01 <==> bits as int % 2 == 1,
        bits & 0x02 == 0x02 <==> bits as int / 2 % 2 == 1,
        bits & 0x04 == 0x04 <==> bits as int / 4 % 2 == 1,
        bits & 0x08 == 0x08 <==> bits as int / 8 % 2 == 1,
        bits & 0x10 == 0x10 <==> bits as int / 16 % 2 == 1,
{
    assert((bits & 0x01 == 0x01) == (bits % 2 == 1) && (bits & 0x02 == 0x02) == (bits / 2 % 2 == 1)
        && (bits & 0x04 == 0x04) == (bits / 4 % 2 == 1) && (bits & 0x08 == 0x08) == (bits / 8 % 2
        == 1) && (bits & 0x10 == 0x10) == (bits / 16 % 2 == 1)) by (bit_vector);
}

/// Without any option there is no text. An option that is added to those before it is
/// named behind them.
pub proof fn lemma_options_named(
    lower: TschLinkOption,
    higher: TschLinkOption,
    number: int,
    before: String,
    after: String,
)
    requires
        0 <= number < 5,
        lower.bits < option_value(number),
        higher.bits == lower.bits + option_value(number),
        call_ensures(TschLinkOption::to_text, (&lower,), before),
        call_ensures(TschLinkOption::to_text, (&higher,), after),
    ensures
        lower.bits == 0 ==> before@.len() == 0 && after@ == option_name(number),
        lower.bits > 0 ==> after@ == before@ + seq![' ', '|', ' '] + option_name(number),
{
    lemma_option_names();
    lemma_option_bits(lower.bits);
    lemma_option_bits(higher.bits);
}

/// Reserved bits follow the names of the options in hexadecimal.
pub proof fn lemma_reserved_options_named(
    lower: TschLinkOption,
    options: TschLinkOption,
    before: String,
    after: String,
)
    requires
        options.bits >= 0x20,
        lower.bits == options.bits as int % 0x20,
        call_ensures(TschLinkOption::to_text, (&lower,), before),
        call_ensures(TschLinkOption::to_text, (&options,), after),
    ensures
        ({
            let reserved = options.bits as int / 0x20 * 0x20;
            after@ == (if lower.bits == 0 {
                Seq::empty()
            } else {
                before@ + seq![' ', '|', ' ']
            }) + seq![
                '0',
                'x',
                hex_character(reserved / 0x10),
                hex_character(reserved % 0x10),
            ]
        }),
{
    lemma_option_names();
    lemma_option_bits(lower.bits);
    lemma_option_bits(options.bits);
    let (a, b) = (lower.bits, options.bits);
    assert(a % 2 == b % 2 && a / 2 % 2 == b / 2 % 2 && a / 4 % 2 == b / 4 % 2 && a / 8 % 2 == b / 8
        % 2 && a / 16 % 2 == b / 16 % 2 && (a == 0 <==> a % 2 == 0 && a / 2 % 2 == 0 && a / 4 % 2
        == 0 && a / 8 % 2 == 0 && a / 16 % 2 == 0)) by (bit_vector)
        requires
            a == b % 0x20,
    ;
    assert(option_names(a) == option_names(b));
    assert(a == 0 <==> option_names(a).len() == 0);
    assert(before@ == option_names(a));
    let reserved = options.bits as int / 0x20 * 0x20;
    lemma_hexadecimal_digits(reserved as nat);
    assert(hex_number(reserved as nat) == seq![
        hex_character(reserved / 0x10),
        hex_character(reserved % 0x10),
    ]);
    assert(seq!['0', 'x'] + hex_number(reserved as nat) =~= seq![
        '0',
        'x',
        hex_character(reserved / 0x10),
        hex_character(reserved % 0x10),
    ]);
    assert(0x20 * (options.bits as nat / 0x20) == reserved);
}

/// A line with an indented label and a number.
pub open spec fn labelled(indent: nat, label: Seq<char>, value: u16) -> Seq<char> {
    Seq::new(indent, |i: int| ' ') + label + decimal(value as nat) + seq!['\n']
}

/// The timings of a timeslot are written line by line with their labels. All lines but
/// the first are indented.
pub proof fn lemma_timings_written(timings: TschTimeslotTimings, indent: usize, text: String)
    requires
        call_ensures(TschTimeslotTimings::to_text, (&timings, indent), text),
    ensures
        text@ == labelled(0, "cca_offset: "@, timings.cca_offset) + labelled(
            indent as nat,
            "cca: "@,
            timings.cca,
        ) + labelled(indent as nat, "tx offset: "@, timings.tx_offset) + labelled(
            indent as nat,
            "rx offset: "@,
            timings.rx_offset,
        ) + labelled(indent as nat, "tx ack delay: "@, timings.tx_ack_delay) + labelled(
            indent as nat,
            "rx ack delay: "@,
            timings.rx_ack_delay,
        ) + labelled(indent as nat, "rx wait: "@, timings.rx_wait) + labelled(
            indent as nat,
            "ack wait: "@,
            timings.ack_wait,
        ) + labelled(indent as nat, "rx/tx: "@, timings.rx_tx) + labelled(
            indent as nat,
            "max ack: "@,
            timings.max_ack,
        ) + labelled(indent as nat, "max tx: "@, timings.max_tx) + labelled(
            indent as nat,
            "timeslot length: "@,
            timings.timeslot_length,
        ),
{
}

/// The addressing fields are written line by line with their labels, those that are
/// there: PAN IDs as hexadecimal numbers, and addresses as their own text.
pub proof fn lemma_addressing_written<Bytes: Octets>(
    fields: AddressingFields<Bytes>,
    text: String,
    dst_pan_id: Option<PanId<&[u8]>>,
    dst: Option<Address<&[u8]>>,
    src_pan_id: Option<PanId<&[u8]>>,
    src: Option<Address<&[u8]>>,
    dst_number: u16,
    src_number: u16,
    dst_text: String,
    src_text: String,
)
    requires
        fields.wf(),
        call_ensures(AddressingFields::<Bytes>::to_text, (&fields,), text),
        call_ensures(AddressingFields::<Bytes>::dst_pan_id, (&fields,), dst_pan_id),
        call_ensures(AddressingFields::<Bytes>::dst_address, (&fields,), dst),
        call_ensures(AddressingFields::<Bytes>::src_pan_id, (&fields,), src_pan_id),
        call_ensures(AddressingFields::<Bytes>::src_address, (&fields,), src),
        dst_pan_id matches Some(x) ==> call_ensures(PanId::<&[u8]>::into_u16, (&x,), dst_number),
        src_pan_id matches Some(x) ==> call_ensures(PanId::<&[u8]>::into_u16, (&x,), src_number),
        dst matches Some(x) ==> call_ensures(Address::<&[u8]>::to_text, (&x,), dst_text),
        src matches Some(x) ==> call_ensures(Address::<&[u8]>::to_text, (&x,), src_text),
    ensures
        ({
            let none = Seq::<char>::empty();
            let end = "\n"@;
            text@ == "Addressing Fields\n"@ + (if dst_pan_id is Some {
                "  dst pan id: "@ + hex_number(dst_number as nat) + end
            } else {
                none
            }) + (if dst is Some {
                "  dst address: "@ + dst_text@ + end
            } else {
                none
            }) + (if src_pan_id is Some {
                "  src pan id: "@ + hex_number(src_number as nat) + end
            } else {
                none
            }) + (if src is Some {
                "  src address: "@ + src_text@ + end
            } else {
                none
            })
        }),
{
    let o = fields.offsets();
    if dst is Some {
        assert(dst->0.le().len() > 0);
    }
    if src is Some {
        assert(src->0.le().len() > 0);
    }
}

} // verus!
