//! The Jalali (Solar Hijri) calendar: leap years, days of the year as months
//! and days, and dates with saturating arithmetic.
//!
//! A [`Date`] is a [`Year`] and an [`Ordinal`], a day that this year has. The
//! parts of a date are always in range: a number that is out of range becomes
//! the nearest part that there is. A date is made only of a day that its year
//! has: the constructors and setters refuse any other, by an `Option` or a
//! `bool`, and leave a date as it was. Arithmetic never fails: what would
//! leave the range is clamped, and a [`DidSaturate`] tells the caller that it
//! was.
//!
//! Every function states what it returns over the view of its arguments: the
//! number of a month, day or year, and the pair of year and day of a date. The
//! arithmetic of days is stated over a model of the calendar as a line of days,
//! in [`calendar`].

pub mod calendar;
pub mod convert;
pub mod date;
pub mod jtm;
pub mod leap;
pub mod month_day;
pub mod ops;
pub mod order;
pub mod primitive;
pub mod text;
pub mod traits;
pub mod utility;

pub use date::Date;
pub use jtm::tm;
pub use month_day::MonthDay;
pub use primitive::{
    Day, IDayDiff, IMonth, IMonthDay, IOrdinal, IYear, IntYmd, Month, Ordinal, UDayDiff, UMonth,
    UMonthDay, UOrdinal, Year, Ymd,
};
pub use traits::FromEpochDelta;
pub use utility::DidSaturate;
