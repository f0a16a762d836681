//! `+` and `-` on months, days of the year and years.
//!
//! Both clamp as the `add_strict` of their type does, and drop the flag. A value
//! also stands in for its number wherever a reference to the number is asked.

use crate::primitive::{
    clamp, year_sum, IMonth, IOrdinal, IYear, Month, Ordinal, UMonth, UOrdinal, Year,
};
use core::ops::{Add, AddAssign, Deref, Sub, SubAssign};
use vstd::prelude::*;
use vstd::std_specs::ops::{AddSpecImpl, SubSpecImpl};

verus! {

impl Add<IMonth> for Month {
    type Output = Month;

    /// This month moved on by `rhs` months, clamped to the year.
    fn add(self, rhs: IMonth) -> (r: Month)
        ensures
            r@ == clamp(self@ + rhs, 1, 12),
    {
        self.add_strict(rhs).result
    }
}

impl AddSpecImpl<IMonth> for Month {
    open spec fn obeys_add_spec() -> bool {
        true
    }

    open spec fn add_req(self, rhs: IMonth) -> bool {
        true
    }

    closed spec fn add_spec(self, rhs: IMonth) -> Month {
        Month(clamp(self@ + rhs, 1, 12) as UMonth)
    }
}

impl Sub<IMonth> for Month {
    type Output = Month;

    /// This month moved back by `rhs` months, clamped to the year.
    fn sub(self, rhs: IMonth) -> (r: Month)
        ensures
            r@ == clamp(self@ - rhs, 1, 12),
    {
        let target: i16 = self.get() as i16 - rhs as i16;
        if target < 1 {
            Month::min_value()
        } else if target > 12 {
            Month::max_value()
        } else {
            Month::new(target as UMonth)
        }
    }
}

impl SubSpecImpl<IMonth> for Month {
    open spec fn obeys_sub_spec() -> bool {
        true
    }

    open spec fn sub_req(self, rhs: IMonth) -> bool {
        true
    }

    closed spec fn sub_spec(self, rhs: IMonth) -> Month {
        Month(clamp(self@ - rhs, 1, 12) as UMonth)
    }
}

impl Add<IOrdinal> for Ordinal {
    type Output = Ordinal;

    /// This day moved on by `rhs` days, clamped to a leap year.
    fn add(self, rhs: IOrdinal) -> (r: Ordinal)
        ensures
            r@ == clamp(self@ + rhs, 1, 366),
    {
        self.add_strict(rhs).result
    }
}

impl AddSpecImpl<IOrdinal> for Ordinal {
    open spec fn obeys_add_spec() -> bool {
        true
    }

    open spec fn add_req(self, rhs: IOrdinal) -> bool {
        true
    }

    closed spec fn add_spec(self, rhs: IOrdinal) -> Ordinal {
        Ordinal(clamp(self@ + rhs, 1, 366) as UOrdinal)
    }
}

impl Sub<IOrdinal> for Ordinal {
    type Output = Ordinal;

    /// This day moved back by `rhs` days, clamped to a leap year.
    fn sub(self, rhs: IOrdinal) -> (r: Ordinal)
        ensures
            r@ == clamp(self@ - rhs, 1, 366),
    {
        let target: i32 = self.get() as i32 - rhs as i32;
        if target < 1 {
            Ordinal::min_value()
        } else if target > 366 {
            Ordinal::max_value()
        } else {
            Ordinal::new(target as UOrdinal)
        }
    }
}

impl SubSpecImpl<IOrdinal> for Ordinal {
    open spec fn obeys_sub_spec() -> bool {
        true
    }

    open spec fn sub_req(self, rhs: IOrdinal) -> bool {
        true
    }

    closed spec fn sub_spec(self, rhs: IOrdinal) -> Ordinal {
        Ordinal(clamp(self@ - rhs, 1, 366) as UOrdinal)
    }
}

impl Add<IYear> for Year {
    type Output = Year;

    /// The year whose number is this year's plus `rhs`, clamped as
    /// [`Year::add_strict`] clamps it.
    fn add(self, rhs: IYear) -> (r: Year)
        ensures
            r@ == year_sum(self@ + rhs),
    {
        self.add_strict(rhs).result
    }
}

impl AddSpecImpl<IYear> for Year {
    open spec fn obeys_add_spec() -> bool {
        true
    }

    open spec fn add_req(self, rhs: IYear) -> bool {
        true
    }

    closed spec fn add_spec(self, rhs: IYear) -> Year {
        Year(year_sum(self@ + rhs) as IYear)
    }
}

impl Sub<IYear> for Year {
    type Output = Year;

    /// The year whose number is this year's minus `rhs`, clamped as
    /// [`Year::add_strict`] clamps it.
    fn sub(self, rhs: IYear) -> (r: Year)
        ensures
            r@ == year_sum(self@ - rhs),
    {
        let target: i64 = self.get() as i64 - rhs as i64;
        if target < i32::MIN as i64 {
            Year::min_value()
        } else if target > i32::MAX as i64 {
            Year::max_value()
        } else {
            Year::new(target as IYear)
        }
    }
}

impl SubSpecImpl<IYear> for Year {
    open spec fn obeys_sub_spec() -> bool {
        true
    }

    open spec fn sub_req(self, rhs: IYear) -> bool {
        true
    }

    closed spec fn sub_spec(self, rhs: IYear) -> Year {
        Year(year_sum(self@ - rhs) as IYear)
    }
}

impl AddAssign<IMonth> for Month {
    /// Moves this month on by `rhs` months, clamped to the year.
    fn add_assign(&mut self, rhs: IMonth)
        ensures
            final(self)@ == clamp(old(self)@ + rhs, 1, 12),
    {
        *self = *self + rhs;
    }
}

impl SubAssign<IMonth> for Month {
    /// Moves this month back by `rhs` months, clamped to the year.
    fn sub_assign(&mut self, rhs: IMonth)
        ensures
            final(self)@ == clamp(old(self)@ - rhs, 1, 12),
    {
        *self = *self - rhs;
    }
}

impl Deref for Month {
    type Target = UMonth;

    /// The number of this month.
    fn deref(&self) -> (r: &UMonth)
        ensures
            *r == self@,
    {
        &self.0
    }
}

impl AddAssign<IOrdinal> for Ordinal {
    /// Moves this day on by `rhs` days, clamped to a leap year.
    fn add_assign(&mut self, rhs: IOrdinal)
        ensures
            final(self)@ == clamp(old(self)@ + rhs, 1, 366),
    {
        *self = *self + rhs;
    }
}

impl SubAssign<IOrdinal> for Ordinal {
    /// Moves this day back by `rhs` days, clamped to a leap year.
    fn sub_assign(&mut self, rhs: IOrdinal)
        ensures
            final(self)@ == clamp(old(self)@ - rhs, 1, 366),
    {
        *self = *self - rhs;
    }
}

impl Deref for Ordinal {
    type Target = UOrdinal;

    /// The number of this day.
    fn deref(&self) -> (r: &UOrdinal)
        ensures
            *r == self@,
    {
        &self.0
    }
}

impl AddAssign<IYear> for Year {
    /// Moves this year on by `rhs` years, clamped as [`Year::add_strict`] clamps it.
    fn add_assign(&mut self, rhs: IYear)
        ensures
            final(self)@ == year_sum(old(self)@ + rhs),
    {
        *self = *self + rhs;
    }
}

impl SubAssign<IYear> for Year {
    /// Moves this year back by `rhs` years, clamped as [`Year::add_strict`] clamps it.
    fn sub_assign(&mut self, rhs: IYear)
        ensures
            final(self)@ == year_sum(old(self)@ - rhs),
    {
        *self = *self - rhs;
    }
}

impl Deref for Year {
    type Target = IYear;

    /// The number of this year.
    fn deref(&self) -> (r: &IYear)
        ensures
            *r == self@,
    {
        &self.0
    }
}

} // verus!
