//! Dates and their parts as text.
//!
//! A number is written in decimal, with a minus sign where it is negative and
//! without padding. A date is written as year, month and day of the month with
//! a slash between them.

use crate::date::Date;
use crate::month_day::{day_of_ordinal, month_of_ordinal, MonthDay};
use crate::primitive::{Month, Ordinal, Year};
use vstd::prelude::*;

verus! {

/// The character that stands for the digit `digit`.
pub open spec fn digit_char(digit: int) -> char {
    if digit == 0 {
        '0'
    } else if digit == 1 {
        '1'
    } else if digit == 2 {
        '2'
    } else if digit == 3 {
        '3'
    } else if digit == 4 {
        '4'
    } else if digit == 5 {
        '5'
    } else if digit == 6 {
        '6'
    } else if digit == 7 {
        '7'
    } else if digit == 8 {
        '8'
    } else {
        '9'
    }
}

/// The decimal digits of `value`, the most significant first.
pub open spec fn digits(value: nat) -> Seq<char>
    decreases value,
{
    if value < 10 {
        seq![digit_char(value as int)]
    } else {
        digits(value / 10).push(digit_char((value % 10) as int))
    }
}

/// `value` in decimal, with a minus sign in front where it is negative.
pub open spec fn decimal(value: int) -> Seq<char> {
    if value < 0 {
        seq!['-'] + digits((-value) as nat)
    } else {
        digits(value as nat)
    }
}

/// The date `date` as text: its year, its month and its day of the month, with
/// a slash between them.
pub open spec fn date_text(date: (int, int)) -> Seq<char> {
    decimal(date.0) + seq!['/'] + decimal(month_of_ordinal(date.1)) + seq!['/'] + decimal(
        day_of_ordinal(date.1),
    )
}

/// `String::push` of the standard library: the text with `letter` added at its
/// end.
#[verifier::external_body]
fn push_char(text: &mut String, letter: char)
    ensures
        final(text)@ == old(text)@.push(letter),
{
    text.push(letter)
}

/// The character that stands for the digit `digit`.
fn digit_letter(digit: u32) -> (r: char)
    requires
        digit < 10,
    ensures
        r == digit_char(digit as int),
{
    match digit {
        0 => '0',
        1 => '1',
        2 => '2',
        3 => '3',
        4 => '4',
        5 => '5',
        6 => '6',
        7 => '7',
        8 => '8',
        _ => '9',
    }
}

/// Adds the decimal digits of `value` to the end of `text`.
fn push_digits(text: &mut String, value: u32)
    ensures
        final(text)@ == old(text)@ + digits(value as nat),
    decreases value,
{
    if value >= 10 {
        push_digits(text, value / 10);
    }
    push_char(text, digit_letter(value % 10));
    proof {
        if value >= 10 {
            assert(old(text)@ + digits(value as nat) =~= (old(text)@ + digits(
                (value / 10) as nat,
            )).push(digit_char((value % 10) as int)));
        } else {
            assert(old(text)@ + digits(value as nat) =~= old(text)@.push(
                digit_char(value as int),
            ));
        }
    }
}

/// Adds `value` in decimal to the end of `text`.
fn push_decimal(text: &mut String, value: i32)
    ensures
        final(text)@ == old(text)@ + decimal(value as int),
{
    if value < 0 {
        push_char(text, '-');
        // The negation of the least value does not fit, so negate one more.
        let size: u32 = (-(value + 1)) as u32 + 1;
        push_digits(text, size);
        proof {
            assert(old(text)@ + decimal(value as int) =~= old(text)@.push('-') + digits(
                size as nat,
            ));
        }
    } else {
        push_digits(text, value as u32);
    }
}

/// `value` in decimal.
fn decimal_text(value: i32) -> (r: String)
    ensures
        r@ == decimal(value as int),
{
    let mut text = String::new();
    push_decimal(&mut text, value);
    proof {
        assert(Seq::<char>::empty() + decimal(value as int) =~= decimal(value as int));
    }
    text
}

impl Month {
    /// The month's number in decimal.
    pub fn to_string(&self) -> (r: String)
        ensures
            r@ == decimal(self@),
    {
        decimal_text(self.get() as i32)
    }
}

impl Ordinal {
    /// The number of the day within its year in decimal.
    pub fn to_string(&self) -> (r: String)
        ensures
            r@ == decimal(self@),
    {
        decimal_text(self.get() as i32)
    }
}

impl Year {
    /// The year's number in decimal.
    pub fn to_string(&self) -> (r: String)
        ensures
            r@ == decimal(self@),
    {
        decimal_text(self.get())
    }
}

impl Date {
    /// The date as text: year, month and day of the month with a slash between
    /// them, as in `1348/10/11`.
    pub fn to_string(&self) -> (r: String)
        ensures
            r@ == date_text(self@),
    {
        let month_day = MonthDay::from_ordinal(self.ordinal());
        let mut text = String::new();
        push_decimal(&mut text, self.year().get());
        push_char(&mut text, '/');
        push_decimal(&mut text, month_day.month().get() as i32);
        push_char(&mut text, '/');
        push_decimal(&mut text, month_day.day() as i32);
        proof {
            assert(text@ =~= date_text(self@));
        }
        text
    }
}

} // verus!
