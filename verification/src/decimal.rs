//! Integers as decimal text.

use vstd::prelude::*;
use vstd::string::*;

verus! {

/// The character of one decimal digit.
pub open spec fn digit(d: int) -> char {
    if d == 0 {
        '0'
    } else if d == 1 {
        '1'
    } else if d == 2 {
        '2'
    } else if d == 3 {
        '3'
    } else if d == 4 {
        '4'
    } else if d == 5 {
        '5'
    } else if d == 6 {
        '6'
    } else if d == 7 {
        '7'
    } else if d == 8 {
        '8'
    } else {
        '9'
    }
}

/// The decimal digits of a natural number, without leading zeros.
pub open spec fn digits(n: nat) -> Seq<char>
    decreases n,
{
    if n < 10 {
        seq![digit(n as int)]
    } else {
        digits(n / 10).push(digit((n % 10) as int))
    }
}

/// The decimal text of an integer: a minus sign for a negative one, then the
/// digits of its magnitude.
pub open spec fn decimal(value: int) -> Seq<char> {
    if value < 0 {
        seq!['-'] + digits((-value) as nat)
    } else {
        digits(value as nat)
    }
}

/// The text of one decimal digit.
fn digit_text(d: u32) -> (text: &'static str)
    requires
        d < 10,
    ensures
        text@ == seq![digit(d as int)],
{
    proof {
        reveal_strlit("0");
        reveal_strlit("1");
        reveal_strlit("2");
        reveal_strlit("3");
        reveal_strlit("4");
        reveal_strlit("5");
        reveal_strlit("6");
        reveal_strlit("7");
        reveal_strlit("8");
        reveal_strlit("9");
    }
    let text = match d {
        0 => "0",
        1 => "1",
        2 => "2",
        3 => "3",
        4 => "4",
        5 => "5",
        6 => "6",
        7 => "7",
        8 => "8",
        _ => "9",
    };
    assert(text@ =~= seq![digit(d as int)]);
    text
}

/// Appends the decimal digits of `n`.
pub fn push_digits(output: &mut String, n: u32)
    ensures
        final(output)@ == old(output)@ + digits(n as nat),
    decreases n,
{
    if n >= 10 {
        push_digits(output, n / 10);
    }
    output.append(digit_text(n % 10));
    assert(output@ =~= old(output)@ + digits(n as nat));
}

/// Appends the decimal text of `value`.
pub fn push_decimal(output: &mut String, value: i32)
    ensures
        final(output)@ == old(output)@ + decimal(value as int),
{
    if value < 0 {
        let magnitude: u32 = (-(value as i64)) as u32;
        proof {
            reveal_strlit("-");
        }
        output.append("-");
        assert(output@ =~= old(output)@ + seq!['-']);
        push_digits(output, magnitude);
        assert(output@ =~= old(output)@ + decimal(value as int));
    } else {
        push_digits(output, value as u32);
    }
}

} // verus!
