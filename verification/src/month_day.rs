//! A month together with a day of that month, and how the pair maps to the day
//! of the year.

use crate::primitive::{
    clamp, days_before_month, IMonth, IMonthDay, Month, Ordinal, UMonth, UMonthDay, UOrdinal,
};
use crate::utility::DidSaturate;
use vstd::prelude::*;

verus! {

/// The number of days of `month` in a leap year: 31 in the first six months, 30
/// in the others.
pub open spec fn max_day_of_month(month: int) -> int {
    if month <= 6 {
        31
    } else {
        30
    }
}

/// The day of the year of day `day` of month `month`.
pub open spec fn ordinal_of(month: int, day: int) -> int {
    days_before_month(month) + day
}

/// The month in which day `ordinal` of the year lies.
pub open spec fn month_of_ordinal(ordinal: int) -> int {
    if ordinal <= 186 {
        (ordinal - 1) / 31 + 1
    } else {
        (ordinal - 187) / 30 + 7
    }
}

/// The day of its month that day `ordinal` of the year is.
pub open spec fn day_of_ordinal(ordinal: int) -> int {
    if ordinal <= 186 {
        (ordinal - 1) % 31 + 1
    } else {
        (ordinal - 187) % 30 + 1
    }
}

/// Whether `month` and `day` name a day of a leap year.
pub open spec fn is_month_day(month: int, day: int) -> bool {
    1 <= month <= 12 && 1 <= day <= max_day_of_month(month)
}

/// Every day of a leap year, split into month and day, maps back to itself.
pub proof fn lemma_ordinal_round_trip(ordinal: int)
    requires
        1 <= ordinal <= 366,
    ensures
        is_month_day(month_of_ordinal(ordinal), day_of_ordinal(ordinal)),
        ordinal_of(month_of_ordinal(ordinal), day_of_ordinal(ordinal)) == ordinal,
{
}

/// Every month and day of a leap year, mapped to the day of the year, splits
/// back into the same month and day.
pub proof fn lemma_month_day_round_trip(month: int, day: int)
    requires
        is_month_day(month, day),
    ensures
        1 <= ordinal_of(month, day) <= 366,
        month_of_ordinal(ordinal_of(month, day)) == month,
        day_of_ordinal(ordinal_of(month, day)) == day,
{
}

/// Splits a count of days into months of `days_in_a_month` days each.
///
/// Returns the month, counted from 1, in which day number `days` lies, and the
/// day of that month. A count that fills its month gives a remainder of zero:
/// it is the last day of the month before, not day 0 of the next.
fn same_length_month_counter(days: UOrdinal, days_in_a_month: UOrdinal) -> (r: (UMonth, UMonthDay))
    requires
        1 <= days <= 366,
        30 <= days_in_a_month <= 31,
    ensures
        r.0 == (days - 1) / (days_in_a_month as int) + 1,
        r.1 == (days - 1) % (days_in_a_month as int) + 1,
{
    // With one of the two month lengths in hand the divisions are by a constant.
    assert(days_in_a_month == 30 || days_in_a_month == 31);
    let quotient: UOrdinal = 1 + days / days_in_a_month;
    let remainder: UOrdinal = days % days_in_a_month;
    if remainder == 0 {
        ((quotient - 1) as UMonth, days_in_a_month as UMonthDay)
    } else {
        (quotient as UMonth, remainder as UMonthDay)
    }
}

/// A month and a day of that month, as they occur in a leap year.
#[derive(Debug, Clone, Copy, PartialEq, Eq, Structural, Ord)]
pub struct MonthDay {
    /// The month of the year.
    pub(crate) month: Month,
    /// The day of that month.
    pub(crate) day: UMonthDay,
}

impl View for MonthDay {
    type V = (int, int);

    /// The month's number, then the day's.
    open(crate) spec fn view(&self) -> (int, int) {
        (self.month@, self.day as int)
    }
}

impl MonthDay {
    /// The first day of every month.
    pub const MIN_DAY: UMonthDay = 1;

    /// The last day of a month of the first half of the year.
    pub const MAX_DAY: UMonthDay = 31;

    /// The last day of a month of the second half of the year.
    pub const POST_MID_MAX_DAY: UMonthDay = 30;

    /// The last day of the last month in a year that is not leap.
    pub const NON_LEAP_LAST_MAX_DAY: UMonthDay = 29;

    /// The last day of the last month in a leap year.
    pub const LEAP_LAST_MAX_DAY: UMonthDay = 30;

    /// The day of the month of the Unix epoch.
    pub const EPOCH_DAY: UMonthDay = 11;

    /// The month is a month and the day is one of its days in a leap year.
    #[verifier::type_invariant]
    pub open spec fn is_valid(self) -> bool {
        is_month_day(self@.0, self@.1)
    }

    /// Two values with the same month and day are the same.
    pub proof fn lemma_view_injective(self, other: MonthDay)
        ensures
            self@ == other@ <==> self == other,
    {
        self.month.lemma_view_injective(other.month);
    }

    /// The first day of the year.
    pub fn min_value() -> (r: MonthDay)
        ensures
            r@ == (1int, 1int),
    {
        MonthDay { month: Month::min_value(), day: 1 }
    }

    /// The last day of a leap year.
    pub fn max_value() -> (r: MonthDay)
        ensures
            r@ == (12int, 30int),
    {
        MonthDay { month: Month::max_value(), day: 30 }
    }

    /// The month and day of the Unix epoch.
    pub fn epoch() -> (r: MonthDay)
        ensures
            r@ == (10int, 11int),
    {
        MonthDay { month: Month::epoch(), day: 11 }
    }

    /// Day `day` of `month`, or the nearest day of that month if it has no such day.
    pub fn new(month: Month, day: UMonthDay) -> (r: MonthDay)
        ensures
            r@ == (month@, clamp(day as int, 1, max_day_of_month(month@))),
    {
        let number: UMonth = month.get();
        let day: UMonthDay = if day < 1 {
            1
        } else if number < 7 && day > 31 {
            31
        } else if number >= 7 && day > 30 {
            30
        } else {
            day
        };
        MonthDay { month, day }
    }

    /// The day of the year that this month and day are.
    pub fn to_ordinal(&self) -> (r: Ordinal)
        ensures
            r@ == ordinal_of(self@.0, self@.1),
            month_of_ordinal(r@) == self@.0,
            day_of_ordinal(r@) == self@.1,
    {
        proof {
            use_type_invariant(self);
            lemma_month_day_round_trip(self@.0, self@.1);
        }
        let before: UOrdinal = self.month.to_ordinal_assume_zero();
        let day: UOrdinal = self.day as UOrdinal;
        Ordinal::new(before + day)
    }

    /// The month and day that day `value` of the year is.
    pub fn from_ordinal(value: Ordinal) -> (r: MonthDay)
        ensures
            r@ == (month_of_ordinal(value@), day_of_ordinal(value@)),
            ordinal_of(r@.0, r@.1) == value@,
    {
        let ordinal: UOrdinal = value.get();
        proof {
            lemma_ordinal_round_trip(ordinal as int);
        }
        let (month, day): (UMonth, UMonthDay) = if ordinal < 187 {
            same_length_month_counter(ordinal, 31)
        } else {
            let (half_month, half_day): (UMonth, UMonthDay) = same_length_month_counter(
                ordinal - 186,
                30,
            );
            (half_month + 6, half_day)
        };
        MonthDay { month: Month::new(month), day }
    }

    /// This day in the month `month` months later, clamped to the year and to the
    /// length of the month reached.
    ///
    /// The flag is set exactly when the month asked for lies outside the year or
    /// the month reached has no such day.
    pub fn add_month_strict(self, month: IMonth) -> (r: DidSaturate<MonthDay>)
        ensures
            r.result@.0 == clamp(self@.0 + month, 1, 12),
            r.result@.1 == clamp(self@.1, 1, max_day_of_month(r.result@.0)),
            r.did_saturate <==> !(1 <= self@.0 + month <= 12) || self@.1 > max_day_of_month(
                r.result@.0,
            ),
    {
        proof {
            use_type_invariant(self);
        }
        let moved = self.month.add_strict(month);
        let result = MonthDay::new(moved.result, self.day);
        DidSaturate::new(moved.did_saturate || result.day != self.day, result)
    }

    /// The day `day` days later in this month, clamped to the month.
    ///
    /// The flag is set exactly when the day asked for lies outside the month.
    pub fn add_day_strict(self, day: IMonthDay) -> (r: DidSaturate<MonthDay>)
        ensures
            r.result@.0 == self@.0,
            r.result@.1 == clamp(self@.1 + day, 1, max_day_of_month(self@.0)),
            r.did_saturate <==> !(1 <= self@.1 + day <= max_day_of_month(self@.0)),
    {
        proof {
            use_type_invariant(self);
        }
        match self.day.checked_add_signed(day) {
            Some(raw) => {
                let result = MonthDay::new(self.month, raw);
                DidSaturate::new(result.day != raw, result)
            },
            None => {
                let bound: UMonthDay = if day < 0 {
                    1
                } else {
                    31
                };
                DidSaturate::saturated(MonthDay::new(self.month, bound))
            },
        }
    }

    /// As [`MonthDay::add_month_strict`], without the flag.
    pub fn add_month(self, month: IMonth) -> (r: MonthDay)
        ensures
            r@.0 == clamp(self@.0 + month, 1, 12),
            r@.1 == clamp(self@.1, 1, max_day_of_month(r@.0)),
    {
        self.add_month_strict(month).result
    }

    /// As [`MonthDay::add_day_strict`], without the flag.
    pub fn add_day(self, day: IMonthDay) -> (r: MonthDay)
        ensures
            r@.0 == self@.0,
            r@.1 == clamp(self@.1 + day, 1, max_day_of_month(self@.0)),
    {
        self.add_day_strict(day).result
    }

    /// The month and the day.
    pub fn get(&self) -> (r: (Month, UMonthDay))
        ensures
            r.0@ == self@.0,
            r.1 == self@.1,
            is_month_day(r.0@, r.1 as int),
    {
        proof {
            use_type_invariant(self);
        }
        (self.month, self.day)
    }

    /// The month.
    pub fn month(&self) -> (r: Month)
        ensures
            r@ == self@.0,
    {
        self.month
    }

    /// The day of the month.
    pub fn day(&self) -> (r: UMonthDay)
        ensures
            r == self@.1,
            1 <= r <= max_day_of_month(self@.0),
    {
        proof {
            use_type_invariant(self);
        }
        self.day
    }
}

} // verus!
