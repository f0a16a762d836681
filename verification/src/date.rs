//! Dates: a year and a day of that year, with saturating arithmetic.

use crate::calendar::{
    day_number, days_before_year, days_between, days_later, is_date, lemma_day_number_order,
    lemma_days_before_next_year, lemma_days_before_year_grows, lemma_days_later,
    lemma_days_later_unique, year_after, year_before, year_index,
};
use crate::leap::{lemma_last_year_is_leap, lemma_leap_outside_table, year_length};
use crate::month_day::{
    day_of_ordinal, max_day_of_month, month_of_ordinal, ordinal_of, MonthDay,
};
use crate::primitive::{
    clamp, year_sum, Day, IDayDiff, IMonth, IOrdinal, IYear, IntYmd, Month, Ordinal, UMonth,
    UMonthDay, UOrdinal, Year,
};
use crate::utility::DidSaturate;
use vstd::prelude::*;

verus! {

/// Whether a date can hold the year `year`.
pub open spec fn is_year_in_range(year: int) -> bool {
    i32::MIN <= year <= i32::MAX
}

/// The earliest date that can be held: the first day of the earliest year.
pub open spec fn first_date() -> (int, int) {
    (i32::MIN as int, 1)
}

/// The latest date that can be held: the last day of the latest year.
pub open spec fn last_date() -> (int, int) {
    (i32::MAX as int, 366)
}

/// Day `ordinal` of `year`, or the last day of `year` where it has fewer days.
pub open spec fn fit_to_year(year: int, ordinal: int) -> (int, int) {
    (year, clamp(ordinal, 1, year_length(year)))
}

/// The date `years` years after `date`, as [`Date::add_year_strict`] gives it.
///
/// The year is summed as [`year_sum`] says, and a day 366 carried into a year
/// of 365 days becomes day 365.
pub open spec fn years_later(date: (int, int), years: int) -> (int, int) {
    fit_to_year(year_sum(date.0 + years), date.1)
}

/// Whether [`years_later`] had to clamp the year or the day.
pub open spec fn years_later_saturates(date: (int, int), years: int) -> bool {
    year_sum(date.0 + years) != date.0 + years || date.1 > year_length(year_sum(date.0 + years))
}

/// The date `ordinals` days after `date` within the year of `date`: the year's
/// first or last day where the move would leave the year.
pub open spec fn ordinals_later(date: (int, int), ordinals: int) -> (int, int) {
    fit_to_year(date.0, date.1 + ordinals)
}

/// Whether [`ordinals_later`] had to clamp.
pub open spec fn ordinals_later_saturates(date: (int, int), ordinals: int) -> bool {
    !(1 <= date.1 + ordinals <= year_length(date.0))
}

/// The day of the year reached from day `ordinal` by moving `months` months
/// within the year, before it is fitted to a year's length.
///
/// The month is clamped to the year, and the day to the length of the month
/// reached.
pub open spec fn month_moved(ordinal: int, months: int) -> int {
    let month = clamp(month_of_ordinal(ordinal) + months, 1, 12);
    ordinal_of(month, clamp(day_of_ordinal(ordinal), 1, max_day_of_month(month)))
}

/// The date `months` months after `date` within the year of `date`, as
/// [`Date::add_month_strict`] gives it.
pub open spec fn month_later(date: (int, int), months: int) -> (int, int) {
    fit_to_year(date.0, month_moved(date.1, months))
}

/// Whether [`month_later`] had to clamp the month, the day of the month or the
/// day of the year.
pub open spec fn month_later_saturates(date: (int, int), months: int) -> bool {
    let asked = month_of_ordinal(date.1) + months;
    ||| !(1 <= asked <= 12)
    ||| day_of_ordinal(date.1) > max_day_of_month(clamp(asked, 1, 12))
    ||| month_moved(date.1, months) > year_length(date.0)
}

/// The number of years that `months` months after month `month` lie ahead.
pub open spec fn months_year_shift(month: int, months: int) -> int {
    (month - 1 + months) / 12
}

/// The month that lies `months` months after month `month`.
pub open spec fn months_month(month: int, months: int) -> int {
    (month - 1 + months) % 12 + 1
}

/// The day of the year reached from day `ordinal` by moving `months` months on
/// through the years, before it is fitted to a year's length.
///
/// It lies as many days after the first of the month reached as `ordinal` lies
/// after the first of its month.
pub open spec fn months_moved(ordinal: int, months: int) -> int {
    ordinal_of(months_month(month_of_ordinal(ordinal), months), day_of_ordinal(ordinal))
}

/// The year reached from `date` by moving `months` months on through the years.
pub open spec fn months_year(date: (int, int), months: int) -> int {
    year_sum(date.0 + months_year_shift(month_of_ordinal(date.1), months))
}

/// The date `months` months after `date`, as [`Date::add_months_strict`] gives
/// it.
pub open spec fn months_later(date: (int, int), months: int) -> (int, int) {
    fit_to_year(months_year(date, months), months_moved(date.1, months))
}

/// Whether [`months_later`] had to clamp the year or the day of the year.
pub open spec fn months_later_saturates(date: (int, int), months: int) -> bool {
    ||| months_year(date, months) != date.0 + months_year_shift(month_of_ordinal(date.1), months)
    ||| months_moved(date.1, months) > year_length(months_year(date, months))
}

/// The number of days of month `month` in `year`: the last month has 30 days in
/// a leap year and 29 in any other.
pub open spec fn month_length(year: int, month: int) -> int {
    if month <= 6 {
        31
    } else if month <= 11 || year_length(year) == 366 {
        30
    } else {
        29
    }
}

/// Whether `year` has a day `day` in its month `month`.
pub open spec fn is_year_month_day(year: int, month: int, day: int) -> bool {
    1 <= month <= 12 && 1 <= day <= month_length(year, month)
}

/// A day lies within its month's length in a year exactly when it is a day of a
/// leap year's month and the year is long enough for it.
pub proof fn lemma_month_length(year: int, month: int, day: int)
    requires
        1 <= month <= 12,
    ensures
        is_year_month_day(year, month, day) <==> 1 <= day <= max_day_of_month(month) && ordinal_of(
            month,
            day,
        ) <= year_length(year),
{
}

/// The date `months` months after `date` on the same day of the month, going on
/// into other years, whether or not there is such a date.
pub open spec fn exact_months_later(date: (int, int), months: int) -> (int, int) {
    let month = month_of_ordinal(date.1);
    (
        date.0 + months_year_shift(month, months),
        ordinal_of(months_month(month, months), day_of_ordinal(date.1)),
    )
}

/// Whether [`exact_months_later`] names a date that can be held: the year is in
/// range and not 0, and its month has the day.
pub open spec fn is_months_later(date: (int, int), months: int) -> bool {
    let month = month_of_ordinal(date.1);
    let year = date.0 + months_year_shift(month, months);
    &&& year != 0
    &&& is_year_in_range(year)
    &&& is_year_month_day(year, months_month(month, months), day_of_ordinal(date.1))
}

/// The date `days` days after `date`, or the first or last date that can be held
/// where that day lies beyond it.
pub open spec fn saturating_days_later(date: (int, int), days: int) -> (int, int) {
    let exact = days_later(date, days);
    if exact.0 < i32::MIN {
        first_date()
    } else if exact.0 > i32::MAX {
        last_date()
    } else {
        exact
    }
}

/// Whether the date `days` days after `date` lies beyond what can be held.
pub open spec fn days_later_saturates(date: (int, int), days: int) -> bool {
    !is_year_in_range(days_later(date, days).0)
}

/// The Unix epoch: day 287 of 1348.
pub open spec fn epoch_date() -> (int, int) {
    (1348, 287)
}

/// The date `days` days after the Unix epoch.
pub open spec fn days_past_epoch(days: int) -> (int, int) {
    days_later(epoch_date(), days)
}

/// The date `days` days before the Unix epoch.
pub open spec fn days_before_epoch(days: int) -> (int, int) {
    days_later(epoch_date(), -days)
}

/// A day within 2^32 days of the Unix epoch lies in a year that can be held.
pub proof fn lemma_days_from_epoch_in_range(days: int)
    requires
        -0x1_0000_0000 <= days <= 0x1_0000_0000,
    ensures
        is_year_in_range(days_later(epoch_date(), days).0),
{
    let epoch = (1348int, 287int);
    let found = days_later(epoch, days);
    lemma_leap_outside_table(1348);
    lemma_days_later(epoch, days);
    let low = year_index(found.0);
    if found.0 > i32::MAX {
        lemma_days_before_year_grows(1347, low);
    } else if found.0 < i32::MIN {
        lemma_days_before_year_grows(low + 1, 1347);
        lemma_days_before_next_year(low);
    }
}

/// Adding days to a date and then taking the difference from the date reached
/// back to the first gives the days added, whenever the addition did not
/// saturate.
///
/// In terms of the results of [`Date::add_days_strict`] and
/// [`Date::diff_as_days_strict`]: the second, given what the first returns and
/// the date it started from, returns `days` and does not saturate.
pub proof fn lemma_add_days_then_diff(date: Date, days: int)
    requires
        date.is_valid(),
        i32::MIN <= days <= i32::MAX,
        !days_later_saturates(date@, days),
    ensures
        is_date(saturating_days_later(date@, days)),
        days_between(date@, saturating_days_later(date@, days)) == days,
        clamp(
            days_between(date@, saturating_days_later(date@, days)),
            i32::MIN as int,
            i32::MAX as int,
        ) == days,
{
    lemma_days_later(date@, days);
}

/// Taking the difference between two dates and adding it to the earlier operand
/// gives the other, whenever the difference did not saturate.
pub proof fn lemma_diff_then_add_days(from: Date, to: Date)
    requires
        from.is_valid(),
        to.is_valid(),
        i32::MIN <= days_between(from@, to@) <= i32::MAX,
    ensures
        saturating_days_later(from@, days_between(from@, to@)) == to@,
        !days_later_saturates(from@, days_between(from@, to@)),
{
    lemma_days_later_unique(from@, days_between(from@, to@), to@);
}

/// The Unix epoch is the eleventh day of the tenth month of 1348, and the date
/// no days away from it.
pub proof fn lemma_epoch_fixed_point()
    ensures
        is_date(epoch_date()),
        epoch_date() == (1348int, ordinal_of(10, 11)),
        month_of_ordinal(epoch_date().1) == 10,
        day_of_ordinal(epoch_date().1) == 11,
        days_past_epoch(0) == epoch_date(),
        days_before_epoch(0) == epoch_date(),
{
}

/// A Jalali date: a year, and a day that this year has.
#[derive(Debug, Clone, Copy, PartialEq, Eq, Structural, Ord)]
pub struct Date {
    /// The year.
    pub(crate) year: Year,
    /// The day of the year, counted from 1.
    pub(crate) ordinal: Ordinal,
}

impl View for Date {
    type V = (int, int);

    /// The year's number, then the number of the day within the year.
    open(crate) spec fn view(&self) -> (int, int) {
        (self.year@, self.ordinal@)
    }
}

/// The year after `year`, stepping over the missing year 0.
fn next_year(year: Year) -> (r: Year)
    requires
        year@ < i32::MAX,
    ensures
        r@ == year_after(year@),
{
    let number: IYear = year.get();
    if number == -1 {
        Year::new(1)
    } else {
        Year::new(number + 1)
    }
}

/// The year before `year`, stepping over the missing year 0.
fn previous_year(year: Year) -> (r: Year)
    requires
        year@ > i32::MIN,
    ensures
        r@ == year_before(year@),
{
    let number: IYear = year.get();
    if number == 1 {
        Year::new(-1)
    } else {
        Year::new(number - 1)
    }
}

/// Splits the place of a month counted on from month `month` by `months` months
/// into the number of years passed and the month of the year reached.
fn month_place(month: UMonth, months: i64) -> (r: (IYear, Month))
    requires
        1 <= month <= 12,
        -0x8000_0000 <= months <= 0x8000_0000,
    ensures
        r.0 == months_year_shift(month as int, months as int),
        r.1@ == months_month(month as int, months as int),
{
    let place: i64 = month as i64 - 1 + months;
    match (place.checked_div_euclid(12), place.checked_rem_euclid(12)) {
        (Some(years), Some(rest)) => (years as IYear, Month::new((rest + 1) as UMonth)),
        // Division by twelve always has a result.
        _ => (0, Month::new(month)),
    }
}

impl Date {
    /// The year is a year that has this day.
    #[verifier::type_invariant]
    pub open spec fn is_valid(self) -> bool {
        is_date(self@) && is_year_in_range(self@.0)
    }

    /// Two dates with the same year and day are the same date.
    pub proof fn lemma_view_injective(self, other: Date)
        ensures
            self@ == other@ <==> self == other,
    {
        self.year.lemma_view_injective(other.year);
        self.ordinal.lemma_view_injective(other.ordinal);
    }

    /// The earliest date that can be held.
    pub fn min_value() -> (r: Date)
        ensures
            r@ == first_date(),
    {
        Date { year: Year::min_value(), ordinal: Ordinal::min_value() }
    }

    /// The latest date that can be held.
    pub fn max_value() -> (r: Date)
        ensures
            r@ == last_date(),
    {
        proof {
            lemma_last_year_is_leap();
        }
        Date { year: Year::max_value(), ordinal: Ordinal::max_value() }
    }

    /// The Unix epoch, the Gregorian first of January 1970: day 287 of 1348,
    /// the eleventh of the tenth month.
    pub fn epoch() -> (r: Date)
        ensures
            r@ == epoch_date(),
            r@.1 == ordinal_of(10, 11),
    {
        Date { year: Year::epoch(), ordinal: Ordinal::epoch() }
    }

    /// Day `ordinal` of `year`, or nothing where `year` has no such day.
    ///
    /// Only day 366 of a year that is not leap is refused.
    pub fn new(year: Year, ordinal: Ordinal) -> (r: Option<Date>)
        ensures
            r.is_some() <==> ordinal@ <= year_length(year@),
            r matches Some(date) ==> date@ == (year@, ordinal@),
    {
        if year.is_valid_ordinal(ordinal) {
            Some(Date::new_unchecked(year, ordinal))
        } else {
            None
        }
    }

    /// Day `ordinal` of `year`, or the last day of `year` where it has no day
    /// 366: what the saturating moves make of a day carried into another year.
    fn fitted(year: Year, ordinal: Ordinal) -> (r: Date)
        ensures
            r@ == fit_to_year(year@, ordinal@),
    {
        proof {
            use_type_invariant(year);
            use_type_invariant(ordinal);
        }
        if year.max_ordinal().get() < ordinal.get() {
            Date { year, ordinal: Ordinal::max_non_leap() }
        } else {
            Date { year, ordinal }
        }
    }

    /// Day `ordinal` of `year`, for a caller that knows `year` to have that day.
    pub fn new_unchecked(year: Year, ordinal: Ordinal) -> (r: Date)
        requires
            ordinal@ <= year_length(year@),
        ensures
            r@ == (year@, ordinal@),
    {
        proof {
            use_type_invariant(year);
            use_type_invariant(ordinal);
        }
        Date { year, ordinal }
    }

    /// The year and the day of the year.
    pub fn get(&self) -> (r: (Year, Ordinal))
        ensures
            r.0@ == self@.0,
            r.1@ == self@.1,
            is_date(self@),
    {
        proof {
            use_type_invariant(self);
        }
        (self.year, self.ordinal)
    }

    /// The year.
    pub fn year(&self) -> (r: Year)
        ensures
            r@ == self@.0,
    {
        self.year
    }

    /// The day of the year.
    pub fn ordinal(&self) -> (r: Ordinal)
        ensures
            r@ == self@.1,
            r@ <= year_length(self@.0),
    {
        proof {
            use_type_invariant(self);
        }
        self.ordinal
    }

    /// This date `year` years later, clamped to the years that can be held and
    /// to the length of the year reached.
    pub fn add_year_strict(self, year: IYear) -> (r: DidSaturate<Date>)
        ensures
            r.result@ == years_later(self@, year as int),
            r.did_saturate == years_later_saturates(self@, year as int),
    {
        proof {
            use_type_invariant(self);
        }
        let moved = self.year.add_strict(year);
        let result = Date::fitted(moved.result, self.ordinal);
        DidSaturate::new(moved.did_saturate || result.ordinal.get() != self.ordinal.get(), result)
    }

    /// This date `ordinal` days later, clamped to its year.
    ///
    /// The year never changes: see [`Date::add_days_strict`] for a move that
    /// goes on into other years.
    pub fn add_ordinal_strict(self, ordinal: IOrdinal) -> (r: DidSaturate<Date>)
        ensures
            r.result@ == ordinals_later(self@, ordinal as int),
            r.did_saturate == ordinals_later_saturates(self@, ordinal as int),
    {
        proof {
            use_type_invariant(self);
        }
        let moved = self.ordinal.add_strict(ordinal);
        let result = Date::fitted(self.year, moved.result);
        DidSaturate::new(
            moved.did_saturate || result.ordinal.get() != moved.result.get(),
            result,
        )
    }

    /// This date `month` months later, clamped to its year.
    ///
    /// The year never changes: see [`Date::add_months_strict`] for a move that
    /// goes on into other years.
    pub fn add_month_strict(self, month: IMonth) -> (r: DidSaturate<Date>)
        ensures
            r.result@ == month_later(self@, month as int),
            r.did_saturate == month_later_saturates(self@, month as int),
    {
        proof {
            use_type_invariant(self);
        }
        let moved = MonthDay::from_ordinal(self.ordinal).add_month_strict(month);
        let target = moved.result.to_ordinal();
        let result = Date::fitted(self.year, target);
        DidSaturate::new(moved.did_saturate || result.ordinal.get() != target.get(), result)
    }

    /// This date `months` months later, going on into other years.
    ///
    /// The date reached lies as many days after the first of its month as this
    /// date lies after the first of its own, so a day 31 carried into a month of
    /// 30 days is the first of the month after. The result is clamped to the
    /// years that can be held and to the length of the year reached.
    pub fn add_months_strict(self, months: IDayDiff) -> (r: DidSaturate<Date>)
        ensures
            r.result@ == months_later(self@, months as int),
            r.did_saturate == months_later_saturates(self@, months as int),
    {
        proof {
            use_type_invariant(self);
        }
        let month_day = MonthDay::from_ordinal(self.ordinal);
        let month: UMonth = month_day.month().get();
        let day: UMonthDay = month_day.day();
        let start = self.add_months_assume_new_year(month, months);
        let moved = start.result.add_ordinal_strict((day - 1) as IOrdinal);
        DidSaturate::new(start.did_saturate || moved.did_saturate, moved.result)
    }

    /// The first day of the month that lies `months` months after month `month`
    /// of this date's year, with the year clamped to the years that can be held.
    fn add_months_assume_new_year(self, month: UMonth, months: IDayDiff) -> (r: DidSaturate<Date>)
        requires
            1 <= month <= 12,
        ensures
            r.result@ == (
                year_sum(self@.0 + months_year_shift(month as int, months as int)),
                ordinal_of(months_month(month as int, months as int), 1),
            ),
            r.did_saturate <==> r.result@.0 != self@.0 + months_year_shift(
                month as int,
                months as int,
            ),
    {
        let (shift, reached): (IYear, Month) = month_place(month, months as i64);
        let year = self.year.add_strict(shift);
        let first = MonthDay::new(reached, 1).to_ordinal();
        DidSaturate::new(year.did_saturate, Date::fitted(year.result, first))
    }

    /// The date that lies `offset - 1` days after the first day of `year`, or
    /// the nearest date that can be held.
    ///
    /// Walks from year to year, taking each year's length off the offset or
    /// adding it, until the offset is a day of the year reached.
    fn add_days_assume_new_year(year: Year, offset: i64) -> (r: DidSaturate<Date>)
        requires
            -0x4_0000_0000 <= offset <= 0x4_0000_0000,
        ensures
            r.result@ == saturating_days_later((year@, 1), offset - 1),
            r.did_saturate == days_later_saturates((year@, 1), offset - 1),
    {
        let ghost start = (year@, 1int);
        let ghost target = day_number(start) + offset - 1;
        let ghost exact = days_later(start, offset - 1);
        proof {
            use_type_invariant(year);
            lemma_days_later(start, offset - 1);
            lemma_last_year_is_leap();
        }
        let mut current = year;
        let mut rest: i64 = offset;
        if rest >= 1 {
            loop
                invariant
                    current@ != 0,
                    is_year_in_range(current@),
                    1 <= rest <= 0x4_0000_0000,
                    days_before_year(year_index(current@)) + rest == target,
                    start == (year@, 1int),
                    target == day_number(start) + offset - 1,
                    is_date(start),
                    is_date(exact),
                    day_number(exact) == target,
                    exact == days_later(start, offset - 1),
                    year_length(i32::MAX as int) == 366,
                decreases rest,
            {
                let last = current.max_ordinal();
                let length: i64 = last.get() as i64;
                if rest <= length {
                    proof {
                        lemma_days_later_unique(start, offset - 1, (current@, rest as int));
                    }
                    return DidSaturate::not_saturated(
                        Date { year: current, ordinal: Ordinal::new(rest as UOrdinal) },
                    );
                }
                if current.get() == i32::MAX {
                    proof {
                        // The day asked for lies after the last day of the last year.
                        lemma_day_number_order((current@, length as int), exact);
                    }
                    return DidSaturate::saturated(Date { year: current, ordinal: last });
                }
                proof {
                    lemma_days_before_next_year(year_index(current@));
                }
                rest = rest - length;
                current = next_year(current);
            }
        } else {
            loop
                invariant
                    current@ != 0,
                    is_year_in_range(current@),
                    -0x4_0000_0000 <= rest <= 0,
                    days_before_year(year_index(current@)) + rest == target,
                    start == (year@, 1int),
                    target == day_number(start) + offset - 1,
                    is_date(start),
                    is_date(exact),
                    day_number(exact) == target,
                    exact == days_later(start, offset - 1),
                decreases -rest,
            {
                if current.get() == i32::MIN {
                    proof {
                        // The day asked for lies before the first day of the first year.
                        lemma_day_number_order(exact, (current@, 1int));
                    }
                    return DidSaturate::saturated(
                        Date { year: current, ordinal: Ordinal::min_value() },
                    );
                }
                proof {
                    lemma_days_before_next_year(year_index(current@) - 1);
                }
                current = previous_year(current);
                let length: i64 = current.max_ordinal().get() as i64;
                rest = rest + length;
                if rest >= 1 {
                    proof {
                        lemma_days_later_unique(start, offset - 1, (current@, rest as int));
                    }
                    return DidSaturate::not_saturated(
                        Date { year: current, ordinal: Ordinal::new(rest as UOrdinal) },
                    );
                }
            }
        }
    }

    /// This date `days` days later, going on into other years, or the nearest
    /// date that can be held.
    ///
    /// The flag is set exactly when the day asked for lies before the first or
    /// after the last year that can be held.
    pub fn add_days_strict(self, days: IDayDiff) -> (r: DidSaturate<Date>)
        ensures
            r.result@ == saturating_days_later(self@, days as int),
            r.did_saturate == days_later_saturates(self@, days as int),
    {
        proof {
            use_type_invariant(self);
        }
        let offset: i64 = self.ordinal.get() as i64 + days as i64;
        proof {
            let start = (self@.0, 1int);
            lemma_days_later(self@, days as int);
            lemma_days_later_unique(start, offset - 1, days_later(self@, days as int));
        }
        Date::add_days_assume_new_year(self.year, offset)
    }

    /// The date `days` days after the Unix epoch.
    pub fn from_d_past_epoch(days: Day) -> (r: Date)
        ensures
            r@ == days_past_epoch(days as int),
    {
        let epoch = Date::epoch();
        let offset: i64 = epoch.ordinal.get() as i64 + days as i64;
        proof {
            lemma_days_from_epoch_in_range(days as int);
            let start = (1348int, 1int);
            lemma_days_later(epoch@, days as int);
            lemma_days_later_unique(start, offset - 1, days_later(epoch@, days as int));
        }
        Date::add_days_assume_new_year(epoch.year, offset).result
    }

    /// The date `days` days before the Unix epoch.
    pub fn from_d_before_epoch(days: Day) -> (r: Date)
        ensures
            r@ == days_before_epoch(days as int),
    {
        let epoch = Date::epoch();
        let offset: i64 = epoch.ordinal.get() as i64 - days as i64;
        proof {
            lemma_days_from_epoch_in_range(-(days as int));
            let start = (1348int, 1int);
            lemma_days_later(epoch@, -(days as int));
            lemma_days_later_unique(start, offset - 1, days_later(epoch@, -(days as int)));
        }
        Date::add_days_assume_new_year(epoch.year, offset).result
    }

    /// The number of days from `other` to this date, negative where this date is
    /// the earlier, clamped to a 32-bit count.
    ///
    /// The flag is set exactly when the number of days does not fit.
    pub fn diff_as_days_strict(&self, other: Date) -> (r: DidSaturate<IDayDiff>)
        ensures
            r.result == clamp(days_between(other@, self@), i32::MIN as int, i32::MAX as int),
            r.did_saturate <==> !(i32::MIN <= days_between(other@, self@) <= i32::MAX),
    {
        proof {
            use_type_invariant(self);
            use_type_invariant(other);
        }
        let goal: IYear = self.year.get();
        let start: IYear = other.year.get();
        let mut year = other.year;
        let mut passed: i64 = 0;
        let ghost from = year_index(start as int);
        let ghost to = year_index(goal as int);
        if start < goal {
            while year.get() != goal
                invariant
                    year@ != 0,
                    goal != 0,
                    start <= year@ <= goal,
                    from == year_index(start as int),
                    to == year_index(goal as int),
                    passed == days_before_year(year_index(year@)) - days_before_year(from),
                    0 <= passed <= 0x1_0000_0000,
                    self@.0 == goal,
                    other@.0 == start,
                    is_date(self@),
                    is_date(other@),
                decreases goal - year@,
            {
                proof {
                    lemma_days_before_next_year(year_index(year@));
                }
                passed = passed + year.max_ordinal().get() as i64;
                year = next_year(year);
                if passed > 0x1_0000_0000 - 366 {
                    proof {
                        // Later years only add to the days passed.
                        lemma_days_before_year_grows(year_index(year@), to);
                    }
                    return DidSaturate::saturated(i32::MAX);
                }
            }
        } else {
            while year.get() != goal
                invariant
                    year@ != 0,
                    goal != 0,
                    start >= year@ >= goal,
                    from == year_index(start as int),
                    to == year_index(goal as int),
                    passed == days_before_year(year_index(year@)) - days_before_year(from),
                    -0x1_0000_0000 <= passed <= 0,
                    self@.0 == goal,
                    other@.0 == start,
                    is_date(self@),
                    is_date(other@),
                decreases year@ - goal,
            {
                proof {
                    lemma_days_before_next_year(year_index(year@) - 1);
                }
                year = previous_year(year);
                passed = passed - year.max_ordinal().get() as i64;
                if passed < -0x1_0000_0000 + 366 {
                    proof {
                        // Earlier years only take from the days passed.
                        lemma_days_before_year_grows(to, year_index(year@));
                    }
                    return DidSaturate::saturated(i32::MIN);
                }
            }
        }
        let exact: i64 = passed + self.ordinal.get() as i64 - other.ordinal.get() as i64;
        if exact > i32::MAX as i64 {
            DidSaturate::saturated(i32::MAX)
        } else if exact < i32::MIN as i64 {
            DidSaturate::saturated(i32::MIN)
        } else {
            DidSaturate::not_saturated(exact as IDayDiff)
        }
    }

    /// The number of days from the Unix epoch to this date, negative where this
    /// date is the earlier, clamped to a 32-bit count.
    pub fn diff_epoch_strict(&self) -> (r: DidSaturate<IDayDiff>)
        ensures
            r.result == clamp(days_between(epoch_date(), self@), i32::MIN as int, i32::MAX as int),
            r.did_saturate <==> !(i32::MIN <= days_between(epoch_date(), self@) <= i32::MAX),
    {
        self.diff_as_days_strict(Date::epoch())
    }

    /// As [`Date::add_months_strict`], without the flag.
    pub fn add_months(self, months: IDayDiff) -> (r: Date)
        ensures
            r@ == months_later(self@, months as int),
    {
        self.add_months_strict(months).result
    }

    /// As [`Date::add_days_strict`], without the flag.
    pub fn add_days(self, days: IDayDiff) -> (r: Date)
        ensures
            r@ == saturating_days_later(self@, days as int),
    {
        self.add_days_strict(days).result
    }

    /// As [`Date::diff_as_days_strict`], without the flag.
    pub fn diff_as_days(&self, other: Date) -> (r: IDayDiff)
        ensures
            r == clamp(days_between(other@, self@), i32::MIN as int, i32::MAX as int),
    {
        self.diff_as_days_strict(other).result
    }

    /// As [`Date::diff_epoch_strict`], without the flag.
    pub fn diff_epoch(&self) -> (r: IDayDiff)
        ensures
            r == clamp(days_between(epoch_date(), self@), i32::MIN as int, i32::MAX as int),
    {
        self.diff_epoch_strict().result
    }

    /// As [`Date::add_year_strict`], without the flag.
    pub fn add_year(self, year: IYear) -> (r: Date)
        ensures
            r@ == years_later(self@, year as int),
    {
        self.add_year_strict(year).result
    }

    /// As [`Date::add_ordinal_strict`], without the flag.
    pub fn add_ordinal(self, ordinal: IOrdinal) -> (r: Date)
        ensures
            r@ == ordinals_later(self@, ordinal as int),
    {
        self.add_ordinal_strict(ordinal).result
    }

    /// As [`Date::add_month_strict`], without the flag.
    pub fn add_month(self, month: IMonth) -> (r: Date)
        ensures
            r@ == month_later(self@, month as int),
    {
        self.add_month_strict(month).result
    }
    /// The first day of `year`.
    pub fn from_year(year: Year) -> (r: Date)
        ensures
            r@ == (year@, 1int),
    {
        proof {
            use_type_invariant(year);
        }
        Date { year, ordinal: Ordinal::min_value() }
    }

    /// As [`Date::new`]: day `ordinal` of `year`, or nothing where `year` has no
    /// such day.
    pub fn from_year_ordinal(year: Year, ordinal: Ordinal) -> (r: Option<Date>)
        ensures
            r.is_some() <==> ordinal@ <= year_length(year@),
            r matches Some(date) ==> date@ == (year@, ordinal@),
    {
        Date::new(year, ordinal)
    }

    /// The day numbered `ordinal` of the year numbered `year`, or nothing where
    /// there is no such year or the year has no such day.
    pub fn from_int_ordinal(year: IYear, ordinal: UOrdinal) -> (r: Option<Date>)
        ensures
            r.is_some() <==> year != 0 && 1 <= ordinal <= year_length(year as int),
            r matches Some(date) ==> date@ == (year as int, ordinal as int),
    {
        if year == 0 || ordinal < 1 || ordinal > 366 {
            return None;
        }
        Date::new(Year::new(year), Ordinal::new(ordinal))
    }

    /// The day numbered `value.2` of the month numbered `value.1` of the year
    /// numbered `value.0`, or nothing where there is no such year or month, or
    /// the month has no such day in that year.
    pub fn from_int_ymd(value: IntYmd) -> (r: Option<Date>)
        ensures
            r.is_some() <==> value.0 != 0 && is_year_month_day(
                value.0 as int,
                value.1 as int,
                value.2 as int,
            ),
            r matches Some(date) ==> date@ == (
                value.0 as int,
                ordinal_of(value.1 as int, value.2 as int),
            ),
    {
        if value.0 == 0 || value.1 < 1 || value.1 > 12 {
            return None;
        }
        Date::from_year_month_day(Year::new(value.0), Month::new(value.1), value.2)
    }

    /// Day `day` of month `month` of `year`, or nothing where that month has no
    /// such day in that year.
    pub fn from_year_month_day(year: Year, month: Month, day: UMonthDay) -> (r: Option<Date>)
        ensures
            r.is_some() <==> is_year_month_day(year@, month@, day as int),
            r matches Some(date) ==> date@ == (year@, ordinal_of(month@, day as int)),
    {
        proof {
            use_type_invariant(month);
            lemma_month_length(year@, month@, day as int);
        }
        let month_day = MonthDay::new(month, day);
        if month_day.day() != day {
            return None;
        }
        Date::from_year_ordinal(year, month_day.to_ordinal())
    }

    /// Moves this date to the same day of `year`.
    ///
    /// Fails, and leaves the date as it is, where `year` has no such day.
    pub fn set_year(&mut self, year: Year) -> (r: bool)
        ensures
            r <==> old(self)@.1 <= year_length(year@),
            r ==> final(self)@ == (year@, old(self)@.1),
            !r ==> *final(self) == *old(self),
    {
        match Date::from_year_ordinal(year, self.ordinal) {
            Some(date) => {
                *self = date;
                true
            },
            None => false,
        }
    }

    /// Moves this date to day `ordinal` of its year.
    ///
    /// Fails, and leaves the date as it is, where its year has no such day.
    pub fn set_ordinal(&mut self, ordinal: Ordinal) -> (r: bool)
        ensures
            r <==> ordinal@ <= year_length(old(self)@.0),
            r ==> final(self)@ == (old(self)@.0, ordinal@),
            !r ==> *final(self) == *old(self),
    {
        match Date::from_year_ordinal(self.year, ordinal) {
            Some(date) => {
                *self = date;
                true
            },
            None => false,
        }
    }

    /// Moves this date to day `day` of month `month` of its year.
    ///
    /// Fails, and leaves the date as it is, where that month has no such day in
    /// its year.
    pub fn set_month_day(&mut self, month: Month, day: UMonthDay) -> (r: bool)
        ensures
            r <==> is_year_month_day(old(self)@.0, month@, day as int),
            r ==> final(self)@ == (old(self)@.0, ordinal_of(month@, day as int)),
            !r ==> *final(self) == *old(self),
    {
        match Date::from_year_month_day(self.year, month, day) {
            Some(date) => {
                *self = date;
                true
            },
            None => false,
        }
    }

    /// Moves this date to the same day of the year numbered `target`.
    ///
    /// Fails, and leaves the date as it is, where no year that can be held has
    /// that number or the year has no such day.
    fn set_year_number(&mut self, target: i64) -> (r: bool)
        ensures
            r <==> target != 0 && is_year_in_range(target as int) && old(self)@.1 <= year_length(
                target as int,
            ),
            r ==> final(self)@ == (target as int, old(self)@.1),
            !r ==> *final(self) == *old(self),
    {
        if target == 0 || target < i32::MIN as i64 || target > i32::MAX as i64 {
            return false;
        }
        self.set_year(Year::new(target as IYear))
    }

    /// Moves this date `years` years on, to the same day of the year.
    ///
    /// Fails, and leaves the date as it is, where [`Date::add_year_strict`]
    /// would have to clamp: where the year reached cannot be held, would be
    /// year 0, or has no such day.
    pub fn try_add_years(&mut self, years: IYear) -> (r: bool)
        ensures
            r <==> !years_later_saturates(old(self)@, years as int),
            r ==> final(self)@ == (old(self)@.0 + years, old(self)@.1),
            !r ==> *final(self) == *old(self),
    {
        proof {
            use_type_invariant(&*self);
        }
        let target: i64 = self.year.get() as i64 + years as i64;
        self.set_year_number(target)
    }

    /// Moves this date `years` years back, to the same day of the year.
    ///
    /// Fails, and leaves the date as it is, on the same grounds as
    /// [`Date::try_add_years`].
    pub fn try_sub_years(&mut self, years: IYear) -> (r: bool)
        ensures
            r <==> !years_later_saturates(old(self)@, -(years as int)),
            r ==> final(self)@ == (old(self)@.0 - years, old(self)@.1),
            !r ==> *final(self) == *old(self),
    {
        proof {
            use_type_invariant(&*self);
        }
        let target: i64 = self.year.get() as i64 - years as i64;
        self.set_year_number(target)
    }

    /// Moves this date by `months` months to the same day of the month reached,
    /// going on into other years.
    ///
    /// Fails, and leaves the date as it is, where the year reached cannot be
    /// held or would be year 0, or the month reached has no such day.
    fn set_months_later(&mut self, months: i64) -> (r: bool)
        requires
            -0x8000_0000 <= months <= 0x8000_0000,
        ensures
            r <==> is_months_later(old(self)@, months as int),
            r ==> final(self)@ == exact_months_later(old(self)@, months as int),
            !r ==> *final(self) == *old(self),
    {
        proof {
            use_type_invariant(&*self);
        }
        let month_day = MonthDay::from_ordinal(self.ordinal);
        let (shift, reached): (IYear, Month) = month_place(month_day.month().get(), months);
        let target: i64 = self.year.get() as i64 + shift as i64;
        if target == 0 || target < i32::MIN as i64 || target > i32::MAX as i64 {
            return false;
        }
        match Date::from_year_month_day(Year::new(target as IYear), reached, month_day.day()) {
            Some(date) => {
                *self = date;
                true
            },
            None => false,
        }
    }

    /// Moves this date `months` months on, to the same day of the month
    /// reached, going on into other years.
    ///
    /// Either the whole move is made or none of it. It fails, and leaves the
    /// date as it is, where the year reached cannot be held or would be year 0,
    /// or the month reached has no such day.
    pub fn try_add_months(&mut self, months: IDayDiff) -> (r: bool)
        ensures
            r <==> is_months_later(old(self)@, months as int),
            r ==> final(self)@ == exact_months_later(old(self)@, months as int),
            !r ==> *final(self) == *old(self),
    {
        self.set_months_later(months as i64)
    }

    /// Moves this date `months` months back, to the same day of the month
    /// reached, going on into other years.
    ///
    /// Fails, and leaves the date as it is, on the same grounds as
    /// [`Date::try_add_months`].
    pub fn try_sub_months(&mut self, months: IDayDiff) -> (r: bool)
        ensures
            r <==> is_months_later(old(self)@, -(months as int)),
            r ==> final(self)@ == exact_months_later(old(self)@, -(months as int)),
            !r ==> *final(self) == *old(self),
    {
        self.set_months_later(-(months as i64))
    }

    /// This date `days` days earlier, going on into other years, or the nearest
    /// date that can be held.
    pub fn sub_days_strict(self, days: IDayDiff) -> (r: DidSaturate<Date>)
        ensures
            r.result@ == saturating_days_later(self@, -(days as int)),
            r.did_saturate == days_later_saturates(self@, -(days as int)),
    {
        proof {
            use_type_invariant(self);
        }
        let offset: i64 = self.ordinal.get() as i64 - days as i64;
        proof {
            let start = (self@.0, 1int);
            lemma_days_later(self@, -(days as int));
            lemma_days_later_unique(start, offset - 1, days_later(self@, -(days as int)));
        }
        Date::add_days_assume_new_year(self.year, offset)
    }

    /// As [`Date::sub_days_strict`], without the flag.
    pub fn sub_days(self, days: IDayDiff) -> (r: Date)
        ensures
            r@ == saturating_days_later(self@, -(days as int)),
    {
        self.sub_days_strict(days).result
    }
}

} // verus!
