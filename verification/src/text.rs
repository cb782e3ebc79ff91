//! Text made of numbers.

use vstd::prelude::*;

verus! {

/// The decimal digit for a value below ten.
pub open spec fn decimal_digit(v: int) -> char {
    (('0' as int) + v) as char
}

/// An integer as decimal digits without leading zeros.
pub open spec fn decimal(v: nat) -> Seq<char>
    decreases v,
{
    if v < 10 {
        seq![decimal_digit(v as int)]
    } else {
        decimal(v / 10).push(decimal_digit(v as int % 10))
    }
}

/// A number of spaces.
pub open spec fn spaces(n: nat) -> Seq<char> {
    Seq::new(n, |i: int| ' ')
}

fn digit_text(v: u16) -> (r: &'static str)
    requires
        v < 10,
    ensures
        r@ == seq![decimal_digit(v as int)],
{
    proof {
        reveal_strlit("0");
        reveal_strlit("1");
        reveal_strlit("2");
        reveal_strlit("3");
        reveal_strlit("4");
        reveal_strlit("5");
        reveal_strlit("6");
        reveal_strlit("7");
        reveal_strlit("8");
        reveal_strlit("9");
    }
    let text = match v {
        0 => "0",
        1 => "1",
        2 => "2",
        3 => "3",
        4 => "4",
        5 => "5",
        6 => "6",
        7 => "7",
        8 => "8",
        _ => "9",
    };
    assert(text@ =~= seq![decimal_digit(v as int)]);
    text
}

/// Appends an integer as decimal digits.
pub(crate) fn append_decimal(text: &mut String, v: u16)
    ensures
        final(text)@ == old(text)@ + decimal(v as nat),
    decreases v,
{
    if v >= 10 {
        append_decimal(text, v / 10);
    }
    text.append(digit_text(v % 10));
    assert(text@ =~= old(text)@ + decimal(v as nat));
}

/// Appends a number of spaces.
pub(crate) fn append_spaces(text: &mut String, n: usize)
    ensures
        final(text)@ == old(text)@ + spaces(n as nat),
{
    let mut i: usize = 0;
    proof {
        reveal_strlit(" ");
    }
    assert(text@ =~= old(text)@ + spaces(0));
    while i < n
        invariant
            i <= n,
            text@ == old(text)@ + spaces(i as nat),
            " "@ == seq![' '],
        decreases n - i,
    {
        text.append(" ");
        i = i + 1;
        assert(text@ =~= old(text)@ + spaces(i as nat));
    }
}

} // verus!
