//! The bounded integers a date is made of: month, day of the year and year.

use crate::leap::{
    is_correction, is_correction_year, is_leap_year, lemma_correction_range, year_length,
};
use crate::utility::DidSaturate;
use vstd::prelude::*;

verus! {

/// Counts consecutive days in additions and differences.
pub type IDayDiff = i32;

/// The unsigned counterpart of [`IDayDiff`].
pub type UDayDiff = u32;

/// A number of whole days, as an outside clock hands it over.
pub type Day = u32;

/// Counts the days of a month.
pub type UMonthDay = u8;

/// The signed counterpart of [`UMonthDay`].
pub type IMonthDay = i8;

/// A date as year, month and day of the month.
pub type Ymd = (Year, Month, UMonthDay);

/// [`Ymd`] in plain integers.
pub type IntYmd = (IYear, UMonth, UMonthDay);

/// Holds every month number.
pub type UMonth = u8;

/// The signed counterpart of [`UMonth`].
pub type IMonth = i8;

/// Holds every day of the year.
pub type UOrdinal = u16;

/// The signed counterpart of [`UOrdinal`].
pub type IOrdinal = i16;

/// Holds every year. Years have no unsigned counterpart.
pub type IYear = i32;

/// `value` moved into `low..=high`.
pub open spec fn clamp(value: int, low: int, high: int) -> int {
    if value < low {
        low
    } else if value > high {
        high
    } else {
        value
    }
}

/// The number of days of the year that lie before the first day of `month`.
///
/// The first six months have 31 days, the others 30.
pub open spec fn days_before_month(month: int) -> int {
    if month <= 6 {
        (month - 1) * 31
    } else {
        (month - 7) * 30 + 186
    }
}

/// A month of the year, 1 (Farvardin) to 12 (Esfand).
#[derive(Debug, Clone, Copy, PartialEq, Eq, Structural, Ord)]
pub struct Month(pub(crate) UMonth);

impl View for Month {
    type V = int;

    /// The month's number.
    open(crate) spec fn view(&self) -> int {
        self.0 as int
    }
}

impl Month {
    /// Every month lies within 1..=12.
    #[verifier::type_invariant]
    pub open spec fn is_valid(self) -> bool {
        1 <= self@ <= 12
    }

    /// Two months with the same number are the same month.
    pub proof fn lemma_view_injective(self, other: Month)
        ensures
            self@ == other@ <==> self == other,
    {
    }

    /// The first month of the year.
    pub fn min_value() -> (r: Month)
        ensures
            r@ == 1,
    {
        Month(1)
    }

    /// The first month of the second half of the year, where months have 30 days.
    pub fn mid() -> (r: Month)
        ensures
            r@ == 7,
    {
        Month(7)
    }

    /// The last month of the year.
    pub fn max_value() -> (r: Month)
        ensures
            r@ == 12,
    {
        Month(12)
    }

    /// The month of the Unix epoch.
    pub fn epoch() -> (r: Month)
        ensures
            r@ == 10,
    {
        Month(10)
    }

    /// The month with number `value`, or the nearest month if there is none.
    pub fn new(value: UMonth) -> (r: Month)
        ensures
            r@ == clamp(value as int, 1, 12),
    {
        if value < 1 {
            Month(1)
        } else if value > 12 {
            Month(12)
        } else {
            Month(value)
        }
    }

    /// The month's number.
    pub fn get(&self) -> (r: UMonth)
        ensures
            r == self@,
            1 <= r <= 12,
    {
        proof {
            use_type_invariant(self);
        }
        self.0
    }

    /// The number of days of the year that lie before this month.
    pub fn to_ordinal_assume_zero(&self) -> (r: UOrdinal)
        ensures
            r == days_before_month(self@),
            0 <= r <= 336,
    {
        proof {
            use_type_invariant(self);
        }
        let zero_based: UOrdinal = self.0 as UOrdinal - 1;
        if zero_based <= 6 {
            zero_based * 31
        } else {
            (zero_based - 6) * 30 + 186
        }
    }

    /// This month moved by `rhs` months, clamped to the year.
    ///
    /// The flag is set exactly when the month asked for lies outside the year.
    #[must_use]
    pub fn add_strict(self, rhs: IMonth) -> (r: DidSaturate<Month>)
        ensures
            r.result@ == clamp(self@ + rhs, 1, 12),
            r.did_saturate <==> !(1 <= self@ + rhs <= 12),
    {
        proof {
            use_type_invariant(self);
        }
        match self.0.checked_add_signed(rhs) {
            Some(raw) => {
                let result = Month::new(raw);
                DidSaturate::new(result.0 != raw, result)
            },
            None => {
                if rhs < 0 {
                    DidSaturate::saturated(Month(1))
                } else {
                    DidSaturate::saturated(Month(12))
                }
            },
        }
    }
}

/// A day of the year, 1 to 366.
#[derive(Debug, Clone, Copy, PartialEq, Eq, Structural, Ord)]
pub struct Ordinal(pub(crate) UOrdinal);

impl View for Ordinal {
    type V = int;

    /// The day's number within its year.
    open(crate) spec fn view(&self) -> int {
        self.0 as int
    }
}

impl Ordinal {
    /// Every day of the year lies within 1..=366.
    #[verifier::type_invariant]
    pub open spec fn is_valid(self) -> bool {
        1 <= self@ <= 366
    }

    /// Two days of the year with the same number are the same.
    pub proof fn lemma_view_injective(self, other: Ordinal)
        ensures
            self@ == other@ <==> self == other,
    {
    }

    /// The first day of a year.
    pub fn min_value() -> (r: Ordinal)
        ensures
            r@ == 1,
    {
        Ordinal(1)
    }

    /// The first day of the second half of a year, the first of month 7.
    pub fn mid() -> (r: Ordinal)
        ensures
            r@ == 187,
    {
        Ordinal(187)
    }

    /// The last day of a leap year.
    pub fn max_value() -> (r: Ordinal)
        ensures
            r@ == 366,
    {
        Ordinal(366)
    }

    /// The last day of a year that is not leap.
    pub fn max_non_leap() -> (r: Ordinal)
        ensures
            r@ == 365,
    {
        Ordinal(365)
    }

    /// The day of the year of the Unix epoch.
    pub fn epoch() -> (r: Ordinal)
        ensures
            r@ == 287,
    {
        Ordinal(287)
    }

    /// The day of the year with number `value`, or the nearest if there is none.
    pub fn new(value: UOrdinal) -> (r: Ordinal)
        ensures
            r@ == clamp(value as int, 1, 366),
    {
        if value < 1 {
            Ordinal(1)
        } else if value > 366 {
            Ordinal(366)
        } else {
            Ordinal(value)
        }
    }

    /// The day's number within its year.
    pub fn get(&self) -> (r: UOrdinal)
        ensures
            r == self@,
            1 <= r <= 366,
    {
        proof {
            use_type_invariant(self);
        }
        self.0
    }

    /// This day moved by `rhs` days, clamped to a leap year.
    ///
    /// The flag is set exactly when the day asked for lies outside 1..=366.
    #[must_use]
    pub fn add_strict(self, rhs: IOrdinal) -> (r: DidSaturate<Ordinal>)
        ensures
            r.result@ == clamp(self@ + rhs, 1, 366),
            r.did_saturate <==> !(1 <= self@ + rhs <= 366),
    {
        proof {
            use_type_invariant(self);
        }
        match self.0.checked_add_signed(rhs) {
            Some(raw) => {
                let result = Ordinal::new(raw);
                DidSaturate::new(result.0 != raw, result)
            },
            None => {
                if rhs < 0 {
                    DidSaturate::saturated(Ordinal(1))
                } else {
                    DidSaturate::saturated(Ordinal(366))
                }
            },
        }
    }
}

/// What [`Year::add_strict`] makes of the exact sum `sum`.
///
/// A sum beyond the 32-bit range becomes the nearest bound, and 0, which names
/// no year, becomes -1.
pub open spec fn year_sum(sum: int) -> int {
    if sum < i32::MIN {
        i32::MIN as int
    } else if sum > i32::MAX {
        i32::MAX as int
    } else if sum == 0 {
        -1
    } else {
        sum
    }
}

/// A year of the Jalali calendar. There is no year 0: year -1 comes before year 1.
#[derive(Debug, Clone, Copy, PartialEq, Eq, Structural, Ord)]
pub struct Year(pub(crate) IYear);

impl View for Year {
    type V = int;

    /// The year's number.
    open(crate) spec fn view(&self) -> int {
        self.0 as int
    }
}

impl Year {
    /// No year has the number 0.
    #[verifier::type_invariant]
    pub open spec fn is_valid(self) -> bool {
        self@ != 0 && i32::MIN <= self@ <= i32::MAX
    }

    /// Two years with the same number are the same year.
    pub proof fn lemma_view_injective(self, other: Year)
        ensures
            self@ == other@ <==> self == other,
    {
    }

    /// The year of the Unix epoch.
    pub fn epoch() -> (r: Year)
        ensures
            r@ == 1348,
    {
        Year(1348)
    }

    /// The earliest year that can be named.
    pub fn min_value() -> (r: Year)
        ensures
            r@ == i32::MIN,
    {
        Year(i32::MIN)
    }

    /// The latest year that can be named.
    pub fn max_value() -> (r: Year)
        ensures
            r@ == i32::MAX,
    {
        Year(i32::MAX)
    }

    /// The year that stands in wherever year 0 is asked for.
    pub fn zero_replacement() -> (r: Year)
        ensures
            r@ == -1,
    {
        Year(-1)
    }

    /// The numbers of the years that are not leap although the 33-year rule says
    /// they are, ascending.
    pub const NON_LEAP_CORRECTION: [IYear; 78] = crate::leap::NON_LEAP_CORRECTION;

    /// The numbers of the leap years from 1210 to 1500 as published, ascending.
    pub const LEAPS_1210_TO_1500: [IYear; 71] = crate::leap::LEAPS_1210_TO_1500;

    /// The year with number `value`; year -1 where `value` is 0.
    pub fn new(value: IYear) -> (r: Year)
        ensures
            r@ == if value == 0 { -1 } else { value as int },
    {
        if value == 0 {
            Year(-1)
        } else {
            Year(value)
        }
    }

    /// The year with number `value`, for a caller that knows `value` not to be 0.
    pub fn new_unchecked(value: IYear) -> (r: Year)
        requires
            value != 0,
        ensures
            r@ == value,
    {
        Year(value)
    }

    /// The year's number.
    pub fn get(&self) -> (r: IYear)
        ensures
            r == self@,
            r != 0,
    {
        proof {
            use_type_invariant(self);
        }
        self.0
    }

    /// Whether this year is an entry of the correction table.
    pub fn is_no_leap_correction(&self) -> (r: bool)
        ensures
            r == is_correction_year(self@),
    {
        is_correction(self.0)
    }

    /// Whether this year has 366 days.
    pub fn is_leap(&self) -> (r: bool)
        ensures
            r == is_leap_year(self@),
    {
        proof {
            use_type_invariant(self);
        }
        if self.is_no_leap_correction() {
            return false;
        }
        // The number before that of the first year does not fit, and is no entry
        // of the table.
        if self.0 > i32::MIN && is_correction(self.0 - 1) {
            return true;
        }
        proof {
            if is_correction_year(self@ - 1) {
                lemma_correction_range(self@ - 1);
            }
        }
        let scaled: i64 = 25 * (self.0 as i64) + 11;
        match scaled.checked_rem_euclid(33) {
            Some(place) => place < 8,
            None => false,
        }
    }

    /// The last day of this year: 366 in a leap year, else 365.
    pub fn max_ordinal(&self) -> (r: Ordinal)
        ensures
            r@ == year_length(self@),
    {
        if self.is_leap() {
            Ordinal(366)
        } else {
            Ordinal(365)
        }
    }

    /// Whether this year has a day with the number of `ordinal`.
    ///
    /// Every year has the days 1 to 365. Only a leap year has day 366.
    pub fn is_valid_ordinal(&self, ordinal: Ordinal) -> (r: bool)
        ensures
            r == (ordinal@ <= year_length(self@)),
            r == (ordinal@ < 366 || is_leap_year(self@)),
    {
        proof {
            use_type_invariant(ordinal);
        }
        ordinal.0 < 366 || self.is_leap()
    }

    /// This year's number plus `rhs`, clamped to the years that can be named.
    ///
    /// The sum is taken on the plain numbers and does not step over the missing
    /// year 0. The flag is set exactly when the sum names no year: when it leaves
    /// the 32-bit range or is 0.
    #[must_use]
    pub fn add_strict(self, rhs: IYear) -> (r: DidSaturate<Year>)
        ensures
            r.result@ == year_sum(self@ + rhs),
            r.did_saturate <==> r.result@ != self@ + rhs,
    {
        proof {
            use_type_invariant(self);
        }
        match self.0.checked_add(rhs) {
            Some(raw) => {
                let result = Year::new(raw);
                DidSaturate::new(result.0 != raw, result)
            },
            None => {
                if rhs < 0 {
                    DidSaturate::saturated(Year(i32::MIN))
                } else {
                    DidSaturate::saturated(Year(i32::MAX))
                }
            },
        }
    }
}

} // verus!
