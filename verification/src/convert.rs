//! Conversions between dates, their parts and plain integers.
//!
//! A conversion into a part of a date never fails: what is out of range is moved
//! to the nearest value that there is. Into a date there are only the
//! conversions that every input has a date for; the others are the functions of
//! [`Date`] that can refuse.

use crate::date::Date;
use crate::month_day::{day_of_ordinal, max_day_of_month, month_of_ordinal, ordinal_of, MonthDay};
use crate::primitive::{
    clamp, year_sum, IMonth, IMonthDay, IOrdinal, IYear, IntYmd, Month, Ordinal, UMonth,
    UMonthDay, UOrdinal, Year, Ymd,
};
use vstd::math::abs;
use vstd::prelude::*;
use vstd::std_specs::convert::FromSpecImpl;

verus! {

/// The month and day nearest to the numbers `month` and `day`: the month is
/// moved into the year, then the day into that month.
pub open spec fn nearest_month_day(month: int, day: int) -> (int, int) {
    (clamp(month, 1, 12), clamp(day, 1, max_day_of_month(clamp(month, 1, 12))))
}

impl From<UMonth> for Month {
    /// The month with number `value`, or the nearest month.
    fn from(value: UMonth) -> (r: Month)
        ensures
            r@ == clamp(value as int, 1, 12),
    {
        Month::new(value)
    }
}

impl FromSpecImpl<UMonth> for Month {
    open spec fn obeys_from_spec() -> bool {
        true
    }

    closed spec fn from_spec(value: UMonth) -> Month {
        Month(clamp(value as int, 1, 12) as UMonth)
    }
}

impl From<IMonth> for Month {
    /// The month with number `value`, or the nearest month.
    fn from(value: IMonth) -> (r: Month)
        ensures
            r@ == clamp(value as int, 1, 12),
    {
        if value < 0 {
            Month::min_value()
        } else {
            Month::new(value as UMonth)
        }
    }
}

impl FromSpecImpl<IMonth> for Month {
    open spec fn obeys_from_spec() -> bool {
        true
    }

    closed spec fn from_spec(value: IMonth) -> Month {
        Month(clamp(value as int, 1, 12) as UMonth)
    }
}

impl From<i32> for Month {
    /// The month whose number is `value` without its sign, or the nearest month.
    fn from(value: i32) -> (r: Month)
        ensures
            r@ == clamp(abs(value as int) as int, 1, 12),
    {
        if value > 12 || value < -12 {
            Month::max_value()
        } else if value < 0 {
            Month::new((-value) as UMonth)
        } else {
            Month::new(value as UMonth)
        }
    }
}

impl FromSpecImpl<i32> for Month {
    open spec fn obeys_from_spec() -> bool {
        true
    }

    closed spec fn from_spec(value: i32) -> Month {
        Month(clamp(abs(value as int) as int, 1, 12) as UMonth)
    }
}

impl From<Month> for UMonth {
    /// The month's number.
    fn from(value: Month) -> (r: UMonth)
        ensures
            r == value@,
    {
        value.get()
    }
}

impl FromSpecImpl<Month> for UMonth {
    open spec fn obeys_from_spec() -> bool {
        true
    }

    closed spec fn from_spec(value: Month) -> UMonth {
        value.0
    }
}

impl From<Month> for IMonth {
    /// The month's number.
    fn from(value: Month) -> (r: IMonth)
        ensures
            r == value@,
    {
        value.get() as IMonth
    }
}

impl FromSpecImpl<Month> for IMonth {
    open spec fn obeys_from_spec() -> bool {
        true
    }

    closed spec fn from_spec(value: Month) -> IMonth {
        value.0 as IMonth
    }
}

impl From<UOrdinal> for Ordinal {
    /// The day of the year with number `value`, or the nearest.
    fn from(value: UOrdinal) -> (r: Ordinal)
        ensures
            r@ == clamp(value as int, 1, 366),
    {
        Ordinal::new(value)
    }
}

impl FromSpecImpl<UOrdinal> for Ordinal {
    open spec fn obeys_from_spec() -> bool {
        true
    }

    closed spec fn from_spec(value: UOrdinal) -> Ordinal {
        Ordinal(clamp(value as int, 1, 366) as UOrdinal)
    }
}

impl From<IOrdinal> for Ordinal {
    /// The day of the year with number `value`, or the nearest.
    fn from(value: IOrdinal) -> (r: Ordinal)
        ensures
            r@ == clamp(value as int, 1, 366),
    {
        if value < 0 {
            Ordinal::min_value()
        } else {
            Ordinal::new(value as UOrdinal)
        }
    }
}

impl FromSpecImpl<IOrdinal> for Ordinal {
    open spec fn obeys_from_spec() -> bool {
        true
    }

    closed spec fn from_spec(value: IOrdinal) -> Ordinal {
        Ordinal(clamp(value as int, 1, 366) as UOrdinal)
    }
}

impl From<i32> for Ordinal {
    /// The day of the year whose number is `value` without its sign, or the nearest.
    fn from(value: i32) -> (r: Ordinal)
        ensures
            r@ == clamp(abs(value as int) as int, 1, 366),
    {
        if value > 366 || value < -366 {
            Ordinal::max_value()
        } else if value < 0 {
            Ordinal::new((-value) as UOrdinal)
        } else {
            Ordinal::new(value as UOrdinal)
        }
    }
}

impl FromSpecImpl<i32> for Ordinal {
    open spec fn obeys_from_spec() -> bool {
        true
    }

    closed spec fn from_spec(value: i32) -> Ordinal {
        Ordinal(clamp(abs(value as int) as int, 1, 366) as UOrdinal)
    }
}

impl From<Ordinal> for UOrdinal {
    /// The day's number within its year.
    fn from(value: Ordinal) -> (r: UOrdinal)
        ensures
            r == value@,
    {
        value.get()
    }
}

impl FromSpecImpl<Ordinal> for UOrdinal {
    open spec fn obeys_from_spec() -> bool {
        true
    }

    closed spec fn from_spec(value: Ordinal) -> UOrdinal {
        value.0
    }
}

impl From<Ordinal> for IOrdinal {
    /// The day's number within its year.
    fn from(value: Ordinal) -> (r: IOrdinal)
        ensures
            r == value@,
    {
        value.get() as IOrdinal
    }
}

impl FromSpecImpl<Ordinal> for IOrdinal {
    open spec fn obeys_from_spec() -> bool {
        true
    }

    closed spec fn from_spec(value: Ordinal) -> IOrdinal {
        value.0 as IOrdinal
    }
}

impl From<MonthDay> for Ordinal {
    /// The day of the year that `value` is.
    fn from(value: MonthDay) -> (r: Ordinal)
        ensures
            r@ == ordinal_of(value@.0, value@.1),
    {
        proof {
            use_type_invariant(value);
        }
        value.to_ordinal()
    }
}

impl FromSpecImpl<MonthDay> for Ordinal {
    open spec fn obeys_from_spec() -> bool {
        true
    }

    closed spec fn from_spec(value: MonthDay) -> Ordinal {
        Ordinal(ordinal_of(value@.0, value@.1) as UOrdinal)
    }
}

impl From<Date> for Ordinal {
    /// The day of the year of `value`.
    fn from(value: Date) -> (r: Ordinal)
        ensures
            r@ == value@.1,
    {
        value.ordinal()
    }
}

impl FromSpecImpl<Date> for Ordinal {
    open spec fn obeys_from_spec() -> bool {
        true
    }

    closed spec fn from_spec(value: Date) -> Ordinal {
        value.ordinal
    }
}

impl From<IYear> for Year {
    /// The year with number `value`; year -1 where `value` is 0.
    fn from(value: IYear) -> (r: Year)
        ensures
            r@ == year_sum(value as int),
    {
        Year::new(value)
    }
}

impl FromSpecImpl<IYear> for Year {
    open spec fn obeys_from_spec() -> bool {
        true
    }

    closed spec fn from_spec(value: IYear) -> Year {
        Year(year_sum(value as int) as IYear)
    }
}

impl From<Year> for IYear {
    /// The year's number.
    fn from(value: Year) -> (r: IYear)
        ensures
            r == value@,
    {
        value.get()
    }
}

impl FromSpecImpl<Year> for IYear {
    open spec fn obeys_from_spec() -> bool {
        true
    }

    closed spec fn from_spec(value: Year) -> IYear {
        value.0
    }
}

impl From<Date> for Year {
    /// The year of `value`.
    fn from(value: Date) -> (r: Year)
        ensures
            r@ == value@.0,
    {
        value.year()
    }
}

impl FromSpecImpl<Date> for Year {
    open spec fn obeys_from_spec() -> bool {
        true
    }

    closed spec fn from_spec(value: Date) -> Year {
        value.year
    }
}

impl From<Ordinal> for MonthDay {
    /// The month and day that day `value` of the year is.
    fn from(value: Ordinal) -> (r: MonthDay)
        ensures
            r@ == (month_of_ordinal(value@), day_of_ordinal(value@)),
    {
        proof {
            use_type_invariant(value);
        }
        MonthDay::from_ordinal(value)
    }
}

impl FromSpecImpl<Ordinal> for MonthDay {
    open spec fn obeys_from_spec() -> bool {
        true
    }

    closed spec fn from_spec(value: Ordinal) -> MonthDay {
        MonthDay { month: Month(month_of_ordinal(value@) as UMonth), day: day_of_ordinal(value@) as UMonthDay }
    }
}

impl From<Date> for MonthDay {
    /// The month and day of the month of `value`.
    fn from(value: Date) -> (r: MonthDay)
        ensures
            r@ == (month_of_ordinal(value@.1), day_of_ordinal(value@.1)),
    {
        proof {
            use_type_invariant(value);
        }
        MonthDay::from_ordinal(value.ordinal())
    }
}

impl FromSpecImpl<Date> for MonthDay {
    open spec fn obeys_from_spec() -> bool {
        true
    }

    closed spec fn from_spec(value: Date) -> MonthDay {
        MonthDay { month: Month(month_of_ordinal(value@.1) as UMonth), day: day_of_ordinal(value@.1) as UMonthDay }
    }
}

impl From<(Month, UMonthDay)> for MonthDay {
    /// Day `value.1` of the month `value.0`, or the nearest day of that month.
    fn from(value: (Month, UMonthDay)) -> (r: MonthDay)
        ensures
            r@ == (value.0@, clamp(value.1 as int, 1, max_day_of_month(value.0@))),
    {
        proof {
            use_type_invariant(value.0);
        }
        MonthDay::new(value.0, value.1)
    }
}

impl FromSpecImpl<(Month, UMonthDay)> for MonthDay {
    open spec fn obeys_from_spec() -> bool {
        true
    }

    closed spec fn from_spec(value: (Month, UMonthDay)) -> MonthDay {
        MonthDay {
            month: value.0,
            day: clamp(value.1 as int, 1, max_day_of_month(value.0@)) as UMonthDay,
        }
    }
}

impl From<(UMonth, UMonthDay)> for MonthDay {
    /// The day numbered `value.1` of the month numbered `value.0`, each moved to the nearest
    /// that there is.
    fn from(value: (UMonth, UMonthDay)) -> (r: MonthDay)
        ensures
            r@ == nearest_month_day(value.0 as int, value.1 as int),
    {
        MonthDay::new(Month::new(value.0), value.1)
    }
}

impl FromSpecImpl<(UMonth, UMonthDay)> for MonthDay {
    open spec fn obeys_from_spec() -> bool {
        true
    }

    closed spec fn from_spec(value: (UMonth, UMonthDay)) -> MonthDay {
        MonthDay {
            month: Month(nearest_month_day(value.0 as int, value.1 as int).0 as UMonth),
            day: nearest_month_day(value.0 as int, value.1 as int).1 as UMonthDay,
        }
    }
}

impl From<MonthDay> for UMonthDay {
    /// The day of the month of `value`.
    fn from(value: MonthDay) -> (r: UMonthDay)
        ensures
            r == value@.1,
    {
        value.day()
    }
}

impl FromSpecImpl<MonthDay> for UMonthDay {
    open spec fn obeys_from_spec() -> bool {
        true
    }

    closed spec fn from_spec(value: MonthDay) -> UMonthDay {
        value.day
    }
}

impl From<MonthDay> for IMonthDay {
    /// The day of the month of `value`.
    fn from(value: MonthDay) -> (r: IMonthDay)
        ensures
            r == value@.1,
    {
        value.day() as IMonthDay
    }
}

impl FromSpecImpl<MonthDay> for IMonthDay {
    open spec fn obeys_from_spec() -> bool {
        true
    }

    closed spec fn from_spec(value: MonthDay) -> IMonthDay {
        value.day as IMonthDay
    }
}

impl From<MonthDay> for Month {
    /// The month of `value`.
    fn from(value: MonthDay) -> (r: Month)
        ensures
            r@ == value@.0,
    {
        value.month()
    }
}

impl FromSpecImpl<MonthDay> for Month {
    open spec fn obeys_from_spec() -> bool {
        true
    }

    closed spec fn from_spec(value: MonthDay) -> Month {
        value.month
    }
}

impl From<MonthDay> for (Month, UMonthDay) {
    /// The month and the day of `value`.
    fn from(value: MonthDay) -> (r: (Month, UMonthDay))
        ensures
            r.0@ == value@.0,
            r.1 == value@.1,
    {
        value.get()
    }
}

impl FromSpecImpl<MonthDay> for (Month, UMonthDay) {
    open spec fn obeys_from_spec() -> bool {
        true
    }

    closed spec fn from_spec(value: MonthDay) -> (Month, UMonthDay) {
        (value.month, value.day)
    }
}

impl From<Year> for Date {
    /// The first day of `value`.
    fn from(value: Year) -> (r: Date)
        ensures
            r@ == (value@, 1int),
    {
        Date::from_year(value)
    }
}

impl FromSpecImpl<Year> for Date {
    open spec fn obeys_from_spec() -> bool {
        true
    }

    closed spec fn from_spec(value: Year) -> Date {
        Date { year: value, ordinal: Ordinal(1) }
    }
}

impl From<IYear> for Date {
    /// The first day of the year numbered `value`, or of year -1 where `value` is 0.
    fn from(value: IYear) -> (r: Date)
        ensures
            r@ == (year_sum(value as int), 1int),
    {
        Date::from_year(Year::new(value))
    }
}

impl FromSpecImpl<IYear> for Date {
    open spec fn obeys_from_spec() -> bool {
        true
    }

    closed spec fn from_spec(value: IYear) -> Date {
        Date { year: Year(year_sum(value as int) as IYear), ordinal: Ordinal(1) }
    }
}

impl From<Date> for (Year, Ordinal) {
    /// The year and the day of the year of `value`.
    fn from(value: Date) -> (r: (Year, Ordinal))
        ensures
            r.0@ == value@.0,
            r.1@ == value@.1,
    {
        value.get()
    }
}

impl FromSpecImpl<Date> for (Year, Ordinal) {
    open spec fn obeys_from_spec() -> bool {
        true
    }

    closed spec fn from_spec(value: Date) -> (Year, Ordinal) {
        (value.year, value.ordinal)
    }
}

impl From<Date> for Ymd {
    /// The year, the month and the day of the month of `value`.
    fn from(value: Date) -> (r: Ymd)
        ensures
            r.0@ == value@.0,
            r.1@ == month_of_ordinal(value@.1),
            r.2 == day_of_ordinal(value@.1),
    {
        proof {
            use_type_invariant(value);
        }
        let month_day = MonthDay::from_ordinal(value.ordinal());
        (value.year(), month_day.month(), month_day.day())
    }
}

impl FromSpecImpl<Date> for Ymd {
    open spec fn obeys_from_spec() -> bool {
        true
    }

    closed spec fn from_spec(value: Date) -> Ymd {
        (
            value.year,
            Month(month_of_ordinal(value@.1) as UMonth),
            day_of_ordinal(value@.1) as UMonthDay,
        )
    }
}

impl From<Date> for IntYmd {
    /// The numbers of the year, the month and the day of the month of `value`.
    fn from(value: Date) -> (r: IntYmd)
        ensures
            r.0 == value@.0,
            r.1 == month_of_ordinal(value@.1),
            r.2 == day_of_ordinal(value@.1),
    {
        proof {
            use_type_invariant(value);
        }
        let month_day = MonthDay::from_ordinal(value.ordinal());
        (value.year().get(), month_day.month().get(), month_day.day())
    }
}

impl FromSpecImpl<Date> for IntYmd {
    open spec fn obeys_from_spec() -> bool {
        true
    }

    closed spec fn from_spec(value: Date) -> IntYmd {
        (
            value.year.0,
            month_of_ordinal(value@.1) as UMonth,
            day_of_ordinal(value@.1) as UMonthDay,
        )
    }
}

} // verus!
