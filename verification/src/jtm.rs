//! A date in the fields of C's `struct tm`.

use crate::date::Date;
use crate::month_day::{day_of_ordinal, month_of_ordinal, MonthDay};
use vstd::prelude::*;

verus! {

/// The numbers of C's `struct tm`, as a Jalali date fills them.
///
/// The fields are read as in C, but for the year, which is the Jalali year
/// itself and not a count from 1900. A date sets [`tm::tm_mday`],
/// [`tm::tm_mon`], [`tm::tm_year`] and [`tm::tm_yday`]; nothing sets the others.
#[allow(non_camel_case_types)]
#[derive(Debug, Clone, Copy, PartialEq, Eq, Structural)]
pub struct tm {
    /// Seconds; never set.
    pub tm_sec: i32,
    /// Minutes; never set.
    pub tm_min: i32,
    /// Hours; never set.
    pub tm_hour: i32,
    /// The day of the month, counted from 1.
    pub tm_mday: i32,
    /// The month, counted from 0.
    pub tm_mon: i32,
    /// The year's number.
    pub tm_year: i32,
    /// The day of the week; never set.
    pub tm_wday: i32,
    /// The day of the year, counted from 0.
    pub tm_yday: i32,
    /// The daylight saving flag; never set.
    pub tm_isdst: i32,
    /// The offset from UTC in seconds; never set.
    pub tm_gmtoff: i64,
}

/// The value with 0 in every field.
pub open spec fn zero_jtm() -> tm {
    tm {
        tm_sec: 0,
        tm_min: 0,
        tm_hour: 0,
        tm_mday: 0,
        tm_mon: 0,
        tm_year: 0,
        tm_wday: 0,
        tm_yday: 0,
        tm_isdst: 0,
        tm_gmtoff: 0,
    }
}

impl tm {
    /// A value with 0 in every field. It names no date.
    pub fn new_zero() -> (r: tm)
        ensures
            r == zero_jtm(),
    {
        tm {
            tm_sec: 0,
            tm_min: 0,
            tm_hour: 0,
            tm_mday: 0,
            tm_mon: 0,
            tm_year: 0,
            tm_wday: 0,
            tm_yday: 0,
            tm_isdst: 0,
            tm_gmtoff: 0,
        }
    }
}

/// `jtm` with its four date fields set to the date `date`.
pub open spec fn jtm_of(date: (int, int), jtm: tm) -> tm {
    tm {
        tm_mday: day_of_ordinal(date.1) as i32,
        tm_mon: (month_of_ordinal(date.1) - 1) as i32,
        tm_year: date.0 as i32,
        tm_yday: (date.1 - 1) as i32,
        ..jtm
    }
}

impl Date {
    /// Sets the date fields of `jtm` to this date and leaves its other fields as
    /// they are.
    pub fn update_jtm(&self, jtm: &mut tm)
        ensures
            *final(jtm) == jtm_of(self@, *old(jtm)),
    {
        let month_day = MonthDay::from_ordinal(self.ordinal());
        jtm.tm_mday = month_day.day() as i32;
        jtm.tm_mon = month_day.month().get() as i32 - 1;
        jtm.tm_year = self.year().get();
        jtm.tm_yday = self.ordinal().get() as i32 - 1;
    }

    /// This date in the fields of a `struct tm`, with 0 in the fields that a
    /// date does not set.
    pub fn to_jtm(&self) -> (r: tm)
        ensures
            r == jtm_of(self@, zero_jtm()),
    {
        let mut jtm = tm::new_zero();
        self.update_jtm(&mut jtm);
        jtm
    }
}

} // verus!
