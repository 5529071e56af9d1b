//! Numbers and padding as text.

use vstd::prelude::*;
use vstd::string::*;

verus! {

/// The character of a decimal digit.
pub open spec fn digit_char(digit: nat) -> char {
    if digit == 0 {
        '0'
    } else if digit == 1 {
        '1'
    } else if digit == 2 {
        '2'
    } else if digit == 3 {
        '3'
    } else if digit == 4 {
        '4'
    } else if digit == 5 {
        '5'
    } else if digit == 6 {
        '6'
    } else if digit == 7 {
        '7'
    } else if digit == 8 {
        '8'
    } else {
        '9'
    }
}

/// A number in decimal, without sign or leading zeros.
pub open spec fn decimal_text(number: nat) -> Seq<char>
    decreases number,
{
    if number < 10 {
        seq![digit_char(number)]
    } else {
        decimal_text(number / 10).push(digit_char(number % 10))
    }
}

/// `text`, then as many spaces as bring it to `width` characters.
pub open spec fn padded_text(text: Seq<char>, width: nat) -> Seq<char> {
    if text.len() >= width {
        text
    } else {
        text + Seq::new((width - text.len()) as nat, |i: int| ' ')
    }
}

fn digit_str(digit: u8) -> (text: &'static str)
    requires
        digit < 10,
    ensures
        text@ == seq![digit_char(digit as nat)],
{
    proof {
        reveal_strlit("0");
        reveal_strlit("1");
        reveal_strlit("2");
        reveal_strlit("3");
        reveal_strlit("4");
        reveal_strlit("5");
        reveal_strlit("6");
        reveal_strlit("7");
        reveal_strlit("8");
        reveal_strlit("9");
    }
    let text = match digit {
        0 => "0",
        1 => "1",
        2 => "2",
        3 => "3",
        4 => "4",
        5 => "5",
        6 => "6",
        7 => "7",
        8 => "8",
        _ => "9",
    };
    assert(text@ =~= seq![digit_char(digit as nat)]);
    text
}

/// Writes a number in decimal.
pub fn decimal(number: u128) -> (text: String)
    ensures
        text@ == decimal_text(number as nat),
    decreases number,
{
    if number < 10 {
        String::from_str(digit_str(number as u8))
    } else {
        let mut text = decimal(number / 10);
        text.append(digit_str((number % 10) as u8));
        assert(text@ =~= decimal_text(number as nat));
        text
    }
}

/// Pads a text with spaces on the right to `width` characters.
pub fn pad_right(text: &str, width: usize) -> (padded: String)
    ensures
        padded@ == padded_text(text@, width as nat),
{
    let mut padded = String::from_str(text);
    let mut length: usize = text.unicode_len();
    let ghost start = length;
    while length < width
        invariant
            start == text@.len(),
            start <= length,
            length <= width || length == start,
            padded@ == text@ + Seq::new((length - start) as nat, |i: int| ' '),
        decreases width - length,
    {
        proof {
            reveal_strlit(" ");
        }
        let ghost before = padded@;
        padded.append(" ");
        length += 1;
        assert(padded@ == before.push(' ')) by {
            assert(" "@ =~= seq![' ']);
            assert(before + seq![' '] =~= before.push(' '));
        }
        assert(padded@ =~= text@ + Seq::new((length - start) as nat, |i: int| ' '));
    }
    assert(padded@ =~= padded_text(text@, width as nat));
    padded
}

} // verus!
