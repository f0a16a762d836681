//! Dates from the clocks and calendars of other libraries.
//!
//! Whatever a clock counts in, all that a date needs of it is its distance from
//! the Unix epoch in whole days, and on which side of the epoch it lies.

use crate::date::{days_before_epoch, days_past_epoch, Date};
use crate::primitive::Day;
use vstd::math::abs;
use vstd::prelude::*;

verus! {

/// The number of seconds in a day.
pub const SECONDS_PER_DAY: u64 = 86400;

/// The whole days in `count` seconds, or the largest [`Day`] where they are more.
pub open spec fn whole_days_in(count: int) -> int {
    if count / 86400 > Day::MAX {
        Day::MAX as int
    } else {
        count / 86400
    }
}

/// `value` without its sign.
fn magnitude(value: i64) -> (r: u64)
    ensures
        r == abs(value as int),
{
    if value < 0 {
        // The negation of the least value does not fit, so negate one more.
        (-(value + 1)) as u64 + 1
    } else {
        value as u64
    }
}

/// The whole days in `seconds` seconds, saturating.
pub fn days_of_seconds(seconds: u64) -> (r: Day)
    ensures
        r == whole_days_in(seconds as int),
{
    let days: u64 = seconds / SECONDS_PER_DAY;
    if days > Day::MAX as u64 {
        Day::MAX
    } else {
        days as Day
    }
}

/// The whole days that the Unix timestamp `seconds` lies from the epoch, to
/// either side, saturating.
pub fn days_of_timestamp(seconds: i64) -> (r: Day)
    ensures
        r == whole_days_in(abs(seconds as int) as int),
{
    days_of_seconds(magnitude(seconds))
}

/// The size of the count of days `days`, to either side, saturating.
pub fn days_of_whole_days(days: i64) -> (r: Day)
    ensures
        r == day_count(abs(days as int) as int),
{
    let size: u64 = magnitude(days);
    if size > Day::MAX as u64 {
        Day::MAX
    } else {
        size as Day
    }
}

/// The date on which the Unix timestamp `seconds` lies, taken by whole days to
/// either side of the epoch: as many before it as a negative timestamp holds
/// whole days, as many after it as any other does.
pub fn date_of_timestamp(seconds: i64) -> (r: Date)
    ensures
        r@ == if seconds < 0 {
            days_before_epoch(whole_days_in(abs(seconds as int) as int))
        } else {
            days_past_epoch(whole_days_in(seconds as int))
        },
{
    let days = days_of_timestamp(seconds);
    if seconds < 0 {
        Date::from_d_before_epoch(days)
    } else {
        Date::from_d_past_epoch(days)
    }
}

/// A value that lies a number of days from the Unix epoch.
///
/// The value says how far from the epoch it lies, never on which side: the
/// caller picks the side by calling [`FromEpochDelta::before_epoch`] or
/// [`FromEpochDelta::past_epoch`]. A time zone that the value may carry is not
/// looked at.
pub trait FromEpochDelta {
    /// This value's distance from the epoch in whole days of 86400 seconds, or
    /// the largest [`Day`] where it lies further away.
    fn saturating_d_diff(&self) -> Day;

    /// The date that lies as many days before the epoch as this value says:
    /// as many as [`FromEpochDelta::saturating_d_diff`] can return for it.
    fn before_epoch(&self) -> (r: Date)
        ensures
            exists|days: Day| #[trigger]
                call_ensures(Self::saturating_d_diff, (self,), days) && r@ == days_before_epoch(
                    days as int,
                ),
    {
        Date::from_d_before_epoch(self.saturating_d_diff())
    }

    /// The date that lies as many days after the epoch as this value says:
    /// as many as [`FromEpochDelta::saturating_d_diff`] can return for it.
    fn past_epoch(&self) -> (r: Date)
        ensures
            exists|days: Day| #[trigger]
                call_ensures(Self::saturating_d_diff, (self,), days) && r@ == days_past_epoch(
                    days as int,
                ),
    {
        Date::from_d_past_epoch(self.saturating_d_diff())
    }
}

/// The count of days of size `days`, or the largest [`Day`] where it is more.
pub open spec fn day_count(days: int) -> int {
    if days > Day::MAX {
        Day::MAX as int
    } else {
        days
    }
}

/// What `core::time::Duration::as_secs` returns for `duration`: its whole
/// seconds.
pub uninterp spec fn duration_seconds(duration: core::time::Duration) -> u64;

/// `core::time::Duration::as_secs`: the whole seconds of a duration. The
/// number depends on the duration alone.
pub assume_specification[ core::time::Duration::as_secs ](duration: &core::time::Duration) -> (r:
    u64)
    ensures
        r == duration_seconds(*duration),
;

impl FromEpochDelta for core::time::Duration {
    /// The whole days in the seconds of this duration, saturating.
    fn saturating_d_diff(&self) -> (r: Day)
        ensures
            r == whole_days_in(duration_seconds(*self) as int),
    {
        days_of_seconds(self.as_secs())
    }
}

/// `std::time::SystemTime`, a reading of the system clock.
#[verifier::external_type_specification]
#[verifier::external_body]
pub struct ExSystemTime(std::time::SystemTime);

/// `std::time::SystemTimeError`, what the clock's `duration_since` fails with
/// where the second reading is the later one.
#[verifier::external_type_specification]
#[verifier::external_body]
pub struct ExSystemTimeError(std::time::SystemTimeError);

/// What `std::time::SystemTime::duration_since` returns for `moment` and
/// `std::time::UNIX_EPOCH`: the time from the epoch to the moment, or an error
/// that holds the time from the moment to the epoch.
pub uninterp spec fn since_epoch(moment: std::time::SystemTime) -> Result<
    core::time::Duration,
    std::time::SystemTimeError,
>;

/// `std::time::SystemTime::duration_since`, asked for the time since
/// `std::time::UNIX_EPOCH`. The outcome depends on the moment alone.
#[verifier::external_body]
fn since_unix_epoch(moment: &std::time::SystemTime) -> (r: Result<
    core::time::Duration,
    std::time::SystemTimeError,
>)
    ensures
        r == since_epoch(*moment),
{
    moment.duration_since(std::time::UNIX_EPOCH)
}

/// What `std::time::SystemTimeError::duration` returns for `error`: how far the
/// second reading lay after the first.
pub uninterp spec fn error_duration(error: std::time::SystemTimeError) -> core::time::Duration;

/// `std::time::SystemTimeError::duration`: how far the second reading lay after
/// the first. The duration depends on the error alone.
pub assume_specification[ std::time::SystemTimeError::duration ](
    error: &std::time::SystemTimeError,
) -> (r: core::time::Duration)
    ensures
        r == error_duration(*error),
;

/// The time between `moment` and the Unix epoch, whichever is the later.
pub open spec fn epoch_distance(moment: std::time::SystemTime) -> core::time::Duration {
    match since_epoch(moment) {
        Ok(after) => after,
        Err(error) => error_duration(error),
    }
}

impl FromEpochDelta for std::time::SystemTime {
    /// The whole days between this moment and the epoch, to either side,
    /// saturating.
    fn saturating_d_diff(&self) -> (r: Day)
        ensures
            r == whole_days_in(duration_seconds(epoch_distance(*self)) as int),
    {
        match since_unix_epoch(self) {
            Ok(after) => after.saturating_d_diff(),
            Err(error) => error.duration().saturating_d_diff(),
        }
    }
}

/// `time::SignedDuration`, a span of time with a sign. `time::Duration` names
/// the same type.
#[verifier::external_type_specification]
#[verifier::external_body]
pub struct ExSignedDuration(time::SignedDuration);

/// What `time::SignedDuration::whole_days` returns for `duration`: its whole
/// days, negative for a negative span.
pub uninterp spec fn signed_whole_days(duration: time::SignedDuration) -> i64;

/// `time::SignedDuration::whole_days`: the whole days of a span, negative for a
/// negative span. The number depends on the span alone.
pub assume_specification[ time::SignedDuration::whole_days ](duration: time::SignedDuration) -> (r:
    i64)
    ensures
        r == signed_whole_days(duration),
;

impl FromEpochDelta for time::SignedDuration {
    /// The whole days of this span without their sign, saturating.
    fn saturating_d_diff(&self) -> (r: Day)
        ensures
            r == day_count(abs(signed_whole_days(*self) as int) as int),
    {
        days_of_whole_days(self.whole_days())
    }
}

/// `time::OffsetDateTime`, a moment with its offset from UTC.
#[verifier::external_type_specification]
#[verifier::external_body]
pub struct ExOffsetDateTime(time::OffsetDateTime);

/// What `time::OffsetDateTime::unix_timestamp` returns for `moment`: the
/// seconds from the Unix epoch to it, negative before the epoch.
pub uninterp spec fn offset_timestamp(moment: time::OffsetDateTime) -> i64;

/// `time::OffsetDateTime::unix_timestamp`: the seconds from the Unix epoch to a
/// moment, negative before the epoch. The number depends on the moment alone.
pub assume_specification[ time::OffsetDateTime::unix_timestamp ](
    moment: time::OffsetDateTime,
) -> (r: i64)
    ensures
        r == offset_timestamp(moment),
;

impl FromEpochDelta for time::OffsetDateTime {
    /// The whole days in the seconds between this moment and the epoch, to
    /// either side, saturating.
    fn saturating_d_diff(&self) -> (r: Day)
        ensures
            r == whole_days_in(abs(offset_timestamp(*self) as int) as int),
    {
        days_of_timestamp(self.unix_timestamp())
    }
}

/// `time::UtcDateTime`, a moment in UTC.
#[verifier::external_type_specification]
#[verifier::external_body]
pub struct ExUtcDateTime(time::UtcDateTime);

/// What `time::UtcDateTime::unix_timestamp` returns for `moment`: the seconds
/// from the Unix epoch to it, negative before the epoch.
pub uninterp spec fn utc_timestamp(moment: time::UtcDateTime) -> i64;

/// `time::UtcDateTime::unix_timestamp`: the seconds from the Unix epoch to a
/// moment, negative before the epoch. The number depends on the moment alone.
pub assume_specification[ time::UtcDateTime::unix_timestamp ](moment: time::UtcDateTime) -> (r:
    i64)
    ensures
        r == utc_timestamp(moment),
;

impl FromEpochDelta for time::UtcDateTime {
    /// The whole days in the seconds between this moment and the epoch, to
    /// either side, saturating.
    fn saturating_d_diff(&self) -> (r: Day)
        ensures
            r == whole_days_in(abs(utc_timestamp(*self) as int) as int),
    {
        days_of_timestamp(self.unix_timestamp())
    }
}

/// `time::PlainDateTime`, a date and time of day without an offset.
/// `time::PrimitiveDateTime` names the same type.
#[verifier::external_type_specification]
#[verifier::external_body]
pub struct ExPlainDateTime(time::PlainDateTime);

/// What `time::PlainDateTime::as_utc` returns for `moment`: the same date and
/// time of day, taken as UTC.
pub uninterp spec fn plain_as_utc(moment: time::PlainDateTime) -> time::UtcDateTime;

/// `time::PlainDateTime::as_utc`: the same date and time of day, taken as UTC.
/// The moment depends on the date and time of day alone.
pub assume_specification[ time::PlainDateTime::as_utc ](moment: time::PlainDateTime) -> (r:
    time::UtcDateTime)
    ensures
        r == plain_as_utc(moment),
;

impl FromEpochDelta for time::PlainDateTime {
    /// The whole days in the seconds between this date and time of day, taken
    /// as UTC, and the epoch, to either side, saturating.
    fn saturating_d_diff(&self) -> (r: Day)
        ensures
            r == whole_days_in(abs(utc_timestamp(plain_as_utc(*self)) as int) as int),
    {
        self.as_utc().saturating_d_diff()
    }
}

} // verus!
