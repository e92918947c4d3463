//! The text that a display shows for the remaining time.

use crate::units::{MILLIS_PER_HOUR, MILLIS_PER_MINUTE, MILLIS_PER_SECOND};
use vstd::prelude::*;

verus! {

/// The character for the decimal digit `d`.
pub open spec fn digit(d: nat) -> char
    recommends
        d < 10,
{
    if d == 0 {
        '0'
    } else if d == 1 {
        '1'
    } else if d == 2 {
        '2'
    } else if d == 3 {
        '3'
    } else if d == 4 {
        '4'
    } else if d == 5 {
        '5'
    } else if d == 6 {
        '6'
    } else if d == 7 {
        '7'
    } else if d == 8 {
        '8'
    } else {
        '9'
    }
}

/// `n` in decimal, with as many digits as it takes and at least one.
pub open spec fn decimal(n: nat) -> Seq<char>
    decreases n,
{
    if n < 10 {
        seq![digit(n)]
    } else {
        decimal(n / 10).push(digit(n % 10))
    }
}

/// The last two decimal digits of `n`, zeros included.
pub open spec fn two_digits(n: nat) -> Seq<char> {
    seq![digit(n / 10 % 10), digit(n % 10)]
}

/// The last three decimal digits of `n`, zeros included.
pub open spec fn three_digits(n: nat) -> Seq<char> {
    seq![digit(n / 100 % 10), digit(n / 10 % 10), digit(n % 10)]
}

/// `millis` as hours, minutes, seconds and milliseconds: the hours with as
/// many digits as they take, a colon, two digits of minutes, a colon, two
/// digits of seconds, a full stop, three digits of milliseconds.
pub open spec fn clock_text(millis: nat) -> Seq<char> {
    decimal(millis / (MILLIS_PER_HOUR as nat)) + seq![':'] + two_digits(
        millis % (MILLIS_PER_HOUR as nat) / (MILLIS_PER_MINUTE as nat),
    ) + seq![':'] + two_digits(millis % (MILLIS_PER_MINUTE as nat) / (MILLIS_PER_SECOND as nat))
        + seq!['.'] + three_digits(millis % (MILLIS_PER_SECOND as nat))
}

/// The text of one decimal digit.
fn digit_text(d: usize) -> (text: &'static str)
    requires
        d < 10,
    ensures
        text@ == seq![digit(d as nat)],
{
    proof {
        reveal_strlit("0");
        reveal_strlit("1");
        reveal_strlit("2");
        reveal_strlit("3");
        reveal_strlit("4");
        reveal_strlit("5");
        reveal_strlit("6");
        reveal_strlit("7");
        reveal_strlit("8");
        reveal_strlit("9");
    }
    if d == 0 {
        "0"
    } else if d == 1 {
        "1"
    } else if d == 2 {
        "2"
    } else if d == 3 {
        "3"
    } else if d == 4 {
        "4"
    } else if d == 5 {
        "5"
    } else if d == 6 {
        "6"
    } else if d == 7 {
        "7"
    } else if d == 8 {
        "8"
    } else {
        "9"
    }
}

/// Appends `n` in decimal to `text`.
fn append_decimal(text: &mut String, n: usize)
    ensures
        final(text)@ == old(text)@ + decimal(n as nat),
    decreases n,
{
    if n >= 10 {
        append_decimal(text, n / 10);
    }
    text.append(digit_text(n % 10));
}

/// Appends the last two decimal digits of `n` to `text`.
fn append_two_digits(text: &mut String, n: usize)
    ensures
        final(text)@ == old(text)@ + two_digits(n as nat),
{
    text.append(digit_text(n / 10 % 10));
    text.append(digit_text(n % 10));
}

/// Appends the last three decimal digits of `n` to `text`.
fn append_three_digits(text: &mut String, n: usize)
    ensures
        final(text)@ == old(text)@ + three_digits(n as nat),
{
    text.append(digit_text(n / 100 % 10));
    text.append(digit_text(n / 10 % 10));
    text.append(digit_text(n % 10));
}

/// The remaining time as a display shows it: `H:MM:SS.mmm`, the hours with
/// more digits where they need them.
pub fn format_millis(millis: usize) -> (text: String)
    ensures
        text@ == clock_text(millis as nat),
{
    proof {
        reveal_strlit(":");
        reveal_strlit(".");
    }
    let hours: usize = millis / MILLIS_PER_HOUR;
    let minutes: usize = (millis % MILLIS_PER_HOUR) / MILLIS_PER_MINUTE;
    let seconds: usize = (millis % MILLIS_PER_MINUTE) / MILLIS_PER_SECOND;
    let milliseconds: usize = millis % MILLIS_PER_SECOND;
    let mut text = String::new();
    append_decimal(&mut text, hours);
    text.append(":");
    append_two_digits(&mut text, minutes);
    text.append(":");
    append_two_digits(&mut text, seconds);
    text.append(".");
    append_three_digits(&mut text, milliseconds);
    text
}

} // verus!
