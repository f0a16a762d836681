//! The calendar as a line of days.
//!
//! A day is a pair of a year and a day of that year. The functions here say
//! which day follows which, number the days along the line, and relate the two.
//! They speak of all integers: which years a date can hold is said elsewhere.

use crate::leap::year_length;
use vstd::prelude::*;

verus! {

/// Whether `date` names a day: its year is not 0 and has a day of that number.
pub open spec fn is_date(date: (int, int)) -> bool {
    date.0 != 0 && 1 <= date.1 <= year_length(date.0)
}

/// The year after `year`. Year 1 follows year -1.
pub open spec fn year_after(year: int) -> int {
    if year == -1 {
        1
    } else {
        year + 1
    }
}

/// The year before `year`. Year -1 comes before year 1.
pub open spec fn year_before(year: int) -> int {
    if year == 1 {
        -1
    } else {
        year - 1
    }
}

/// The day after `date`.
pub open spec fn day_after(date: (int, int)) -> (int, int) {
    if date.1 < year_length(date.0) {
        (date.0, date.1 + 1)
    } else {
        (year_after(date.0), 1)
    }
}

/// The day before `date`.
pub open spec fn day_before(date: (int, int)) -> (int, int) {
    if date.1 > 1 {
        (date.0, date.1 - 1)
    } else {
        (year_before(date.0), year_length(year_before(date.0)))
    }
}

/// The day that lies `days` days after `date`, or before it where `days` is
/// negative.
pub open spec fn days_later(date: (int, int), days: int) -> (int, int)
    decreases
            if days >= 0 {
                days
            } else {
                -days
            },
{
    if days == 0 {
        date
    } else if days > 0 {
        day_after(days_later(date, days - 1))
    } else {
        day_before(days_later(date, days + 1))
    }
}

/// The place of `year` among the years, counted without a gap: 0 for year 1 and
/// -1 for year -1.
pub open spec fn year_index(year: int) -> int {
    if year > 0 {
        year - 1
    } else {
        year
    }
}

/// The year at place `index`: the inverse of [`year_index`].
pub open spec fn year_at(index: int) -> int {
    if index >= 0 {
        index + 1
    } else {
        index
    }
}

/// The number of days from the first day of year 1 to the first day of the year
/// at place `index`, negative for the years before year 1.
pub open spec fn days_before_year(index: int) -> int
    decreases
            if index >= 0 {
                index
            } else {
                -index
            },
{
    if index == 0 {
        0
    } else if index > 0 {
        days_before_year(index - 1) + year_length(year_at(index - 1))
    } else {
        days_before_year(index + 1) - year_length(year_at(index))
    }
}

/// The number of `date` on the line of days. The first day of year 1 has number
/// 1, and a day's successor has the next number.
pub open spec fn day_number(date: (int, int)) -> int {
    days_before_year(year_index(date.0)) + date.1
}

/// The number of days from `from` to `to`, negative where `to` is the earlier.
pub open spec fn days_between(from: (int, int), to: (int, int)) -> int {
    day_number(to) - day_number(from)
}

/// A year starts as many days after the year before as that year has days.
pub proof fn lemma_days_before_next_year(index: int)
    ensures
        days_before_year(index + 1) == days_before_year(index) + year_length(year_at(index)),
{
    if index >= 0 {
        assert(days_before_year(index + 1) == days_before_year(index) + year_length(
            year_at(index),
        ));
    } else if index == -1 {
        assert(days_before_year(-1) == days_before_year(0) - year_length(year_at(-1)));
    } else {
        assert(days_before_year(index) == days_before_year(index + 1) - year_length(
            year_at(index),
        ));
    }
}

/// Between two years lie at least 365 and at most 366 days for each year passed.
pub proof fn lemma_days_before_year_grows(low: int, high: int)
    requires
        low <= high,
    ensures
        365 * (high - low) <= days_before_year(high) - days_before_year(low) <= 366 * (high
            - low),
    decreases high - low,
{
    if low < high {
        lemma_days_before_year_grows(low, high - 1);
        lemma_days_before_next_year(high - 1);
    }
}

/// The day after a day is a day, and has the next number.
pub proof fn lemma_day_after(date: (int, int))
    requires
        is_date(date),
    ensures
        is_date(day_after(date)),
        day_number(day_after(date)) == day_number(date) + 1,
{
    lemma_days_before_next_year(year_index(date.0));
}

/// The day before a day is a day, and has the number before.
pub proof fn lemma_day_before(date: (int, int))
    requires
        is_date(date),
    ensures
        is_date(day_before(date)),
        day_number(day_before(date)) == day_number(date) - 1,
{
    lemma_days_before_next_year(year_index(date.0) - 1);
}

/// Moving by a number of days moves the day number by as much.
pub proof fn lemma_days_later(date: (int, int), days: int)
    requires
        is_date(date),
    ensures
        is_date(days_later(date, days)),
        day_number(days_later(date, days)) == day_number(date) + days,
    decreases
            if days >= 0 {
                days
            } else {
                -days
            },
{
    if days > 0 {
        lemma_days_later(date, days - 1);
        lemma_day_after(days_later(date, days - 1));
    } else if days < 0 {
        lemma_days_later(date, days + 1);
        lemma_day_before(days_later(date, days + 1));
    }
}

/// A day of an earlier year has a smaller number than any day of a later year.
pub proof fn lemma_earlier_year_earlier_day(early: (int, int), late: (int, int))
    requires
        is_date(early),
        is_date(late),
        early.0 < late.0,
    ensures
        day_number(early) < day_number(late),
{
    let low = year_index(early.0);
    let high = year_index(late.0);
    lemma_days_before_next_year(low);
    lemma_days_before_year_grows(low + 1, high);
}

/// No two days share a number.
pub proof fn lemma_day_number_injective(left: (int, int), right: (int, int))
    requires
        is_date(left),
        is_date(right),
        day_number(left) == day_number(right),
    ensures
        left == right,
{
    if left.0 < right.0 {
        lemma_earlier_year_earlier_day(left, right);
    } else if right.0 < left.0 {
        lemma_earlier_year_earlier_day(right, left);
    }
}

/// The day that lies a given number of days after a day is the only day whose
/// number is greater by that much.
pub proof fn lemma_days_later_unique(date: (int, int), days: int, found: (int, int))
    requires
        is_date(date),
        is_date(found),
        day_number(found) == day_number(date) + days,
    ensures
        found == days_later(date, days),
{
    lemma_days_later(date, days);
    lemma_day_number_injective(found, days_later(date, days));
}

/// Going a number of days on from a day, and then counting the days back to it,
/// gives that number.
pub proof fn lemma_days_between_days_later(date: (int, int), days: int)
    requires
        is_date(date),
    ensures
        days_between(date, days_later(date, days)) == days,
        days_later(days_later(date, days), -days) == date,
{
    lemma_days_later(date, days);
    lemma_days_later_unique(days_later(date, days), -days, date);
}

/// The day that lies as many days after `from` as there are from `from` to `to`
/// is `to`.
pub proof fn lemma_days_later_days_between(from: (int, int), to: (int, int))
    requires
        is_date(from),
        is_date(to),
    ensures
        days_later(from, days_between(from, to)) == to,
{
    lemma_days_later_unique(from, days_between(from, to), to);
}

/// The order of the days by year and day is the order of their numbers.
pub proof fn lemma_day_number_order(left: (int, int), right: (int, int))
    requires
        is_date(left),
        is_date(right),
    ensures
        day_number(left) < day_number(right) <==> left.0 < right.0 || (left.0 == right.0 && left.1
            < right.1),
{
    if left.0 < right.0 {
        lemma_earlier_year_earlier_day(left, right);
    } else if right.0 < left.0 {
        lemma_earlier_year_earlier_day(right, left);
    }
}

} // verus!
