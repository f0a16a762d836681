use jelal::traits::{date_of_timestamp, days_of_seconds, days_of_timestamp, days_of_whole_days};
use jelal::{Date, Day, FromEpochDelta, IntYmd};
use std::time::{Duration, SystemTime, UNIX_EPOCH};

fn ymd(value: IntYmd) -> Date {
    Date::from_int_ymd(value).unwrap()
}

#[test]
fn seconds_become_whole_days() {
    assert_eq!(days_of_seconds(0), 0);
    assert_eq!(days_of_seconds(86399), 0);
    assert_eq!(days_of_seconds(86400), 1);
    assert_eq!(days_of_seconds(86400 * 20000 + 5), 20000);
    assert_eq!(days_of_seconds(86400 * (Day::MAX as u64)), Day::MAX);
    assert_eq!(days_of_seconds(86400 * (Day::MAX as u64 + 1)), Day::MAX);
    assert_eq!(days_of_seconds(u64::MAX), Day::MAX);
    assert_eq!(days_of_timestamp(-86400), 1);
    assert_eq!(days_of_timestamp(-86399), 0);
    assert_eq!(days_of_timestamp(172800), 2);
    assert_eq!(days_of_timestamp(i64::MIN), Day::MAX);
    assert_eq!(days_of_timestamp(i64::MAX), Day::MAX);
    assert_eq!(days_of_whole_days(-7), 7);
    assert_eq!(days_of_whole_days(7), 7);
    assert_eq!(days_of_whole_days(0), 0);
    assert_eq!(days_of_whole_days(Day::MAX as i64), Day::MAX);
    assert_eq!(days_of_whole_days(Day::MAX as i64 + 1), Day::MAX);
    assert_eq!(days_of_whole_days(i64::MIN), Day::MAX);
}

#[test]
fn days_from_the_epoch_become_dates() {
    assert_eq!(Date::from_d_past_epoch(1), ymd((1348, 10, 12)));
    assert_eq!(Date::from_d_before_epoch(1), ymd((1348, 10, 10)));
    assert_eq!(Date::from_d_past_epoch(78), ymd((1348, 12, 29)));
    assert_eq!(Date::from_d_past_epoch(79), ymd((1349, 1, 1)));
    assert_eq!(Date::from_d_before_epoch(286), ymd((1348, 1, 1)));
    assert_eq!(Date::from_d_before_epoch(287), ymd((1347, 12, 29)));
    // The third of May 2025 is the thirteenth of the second month of 1404.
    assert_eq!(Date::from_d_past_epoch(20211), ymd((1404, 2, 13)));
    let far = Date::from_d_past_epoch(Day::MAX);
    assert_eq!(far, Date::epoch().add_days(i32::MAX).add_days(i32::MAX).add_days(1));
    let back = Date::from_d_before_epoch(Day::MAX);
    assert_eq!(back, Date::epoch().add_days(i32::MIN).add_days(-i32::MAX));
    assert_eq!(far.diff_as_days(Date::epoch().add_days(i32::MAX)), i32::MAX);
}

#[test]
fn std_durations_count_their_days() {
    assert_eq!(Duration::from_secs(86400 * 3 + 100).saturating_d_diff(), 3);
    assert_eq!(Duration::from_secs(86399).saturating_d_diff(), 0);
    assert_eq!(Duration::MAX.saturating_d_diff(), Day::MAX);
    assert_eq!(
        Duration::from_secs(86400 * 20211).past_epoch(),
        ymd((1404, 2, 13))
    );
    assert_eq!(
        Duration::from_secs(86400 * 11).before_epoch(),
        ymd((1348, 9, 30))
    );
}

#[test]
fn system_times_count_their_days_on_either_side() {
    let after = UNIX_EPOCH + Duration::from_secs(86400 * 20211 + 3600);
    assert_eq!(after.saturating_d_diff(), 20211);
    assert_eq!(after.past_epoch(), ymd((1404, 2, 13)));
    let before = UNIX_EPOCH - Duration::from_secs(86400 * 11 + 3600);
    assert_eq!(before.saturating_d_diff(), 11);
    assert_eq!(before.before_epoch(), ymd((1348, 9, 30)));
    let at: SystemTime = UNIX_EPOCH;
    assert_eq!(at.saturating_d_diff(), 0);
    assert_eq!(at.past_epoch(), Date::epoch());
}

#[test]
fn time_durations_count_their_days() {
    assert_eq!(time::Duration::days(5).saturating_d_diff(), 5);
    assert_eq!(time::Duration::days(-5).saturating_d_diff(), 5);
    assert_eq!(time::Duration::hours(49).saturating_d_diff(), 2);
    assert_eq!(time::Duration::hours(-49).saturating_d_diff(), 2);
    assert_eq!(time::Duration::seconds(86399).saturating_d_diff(), 0);
    assert_eq!(time::Duration::MAX.saturating_d_diff(), Day::MAX);
    assert_eq!(time::Duration::MIN.saturating_d_diff(), Day::MAX);
    assert_eq!(
        time::Duration::days(20211).past_epoch(),
        ymd((1404, 2, 13))
    );
    assert_eq!(
        time::Duration::days(-11).before_epoch(),
        ymd((1348, 9, 30))
    );
}

#[test]
fn time_moments_count_their_days() {
    let moment = time::OffsetDateTime::from_unix_timestamp(86400 * 20211 + 7).unwrap();
    assert_eq!(moment.saturating_d_diff(), 20211);
    assert_eq!(moment.past_epoch(), ymd((1404, 2, 13)));
    let moment = time::OffsetDateTime::from_unix_timestamp(-86400 * 11 - 7).unwrap();
    assert_eq!(moment.saturating_d_diff(), 11);
    assert_eq!(moment.before_epoch(), ymd((1348, 9, 30)));
    assert_eq!(time::OffsetDateTime::UNIX_EPOCH.past_epoch(), Date::epoch());

    let moment = time::UtcDateTime::from_unix_timestamp(86400 * 20211 + 7).unwrap();
    assert_eq!(moment.saturating_d_diff(), 20211);
    assert_eq!(moment.past_epoch(), ymd((1404, 2, 13)));
    assert_eq!(time::UtcDateTime::UNIX_EPOCH.past_epoch(), Date::epoch());

    let third_of_may = time::Date::from_calendar_date(2025, time::Month::May, 3).unwrap();
    let plain = time::PrimitiveDateTime::new(third_of_may, time::Time::MIDNIGHT);
    assert_eq!(plain.saturating_d_diff(), 20211);
    assert_eq!(plain.past_epoch(), ymd((1404, 2, 13)));
    let first_of_1970 = time::Date::from_calendar_date(1970, time::Month::January, 1).unwrap();
    let plain = time::PrimitiveDateTime::new(first_of_1970, time::Time::MIDNIGHT);
    assert_eq!(plain.past_epoch(), Date::epoch());
}

#[test]
fn timestamps_become_dates_on_their_side_of_the_epoch() {
    assert_eq!(date_of_timestamp(0), Date::epoch());
    assert_eq!(date_of_timestamp(86399), Date::epoch());
    assert_eq!(date_of_timestamp(86400), ymd((1348, 10, 12)));
    assert_eq!(date_of_timestamp(-86399), Date::epoch());
    assert_eq!(date_of_timestamp(-86400), ymd((1348, 10, 10)));
    assert_eq!(date_of_timestamp(86400 * 20211 + 7), ymd((1404, 2, 13)));
    assert_eq!(date_of_timestamp(-86400 * 11 - 7), ymd((1348, 9, 30)));
    assert_eq!(date_of_timestamp(i64::MAX), Date::from_d_past_epoch(Day::MAX));
    assert_eq!(date_of_timestamp(i64::MIN), Date::from_d_before_epoch(Day::MAX));
}
