use jelal::{Date, IDayDiff, IOrdinal, IntYmd, Month, MonthDay, Ordinal, Year};

fn ymd(value: IntYmd) -> Date {
    Date::from_int_ymd(value).unwrap()
}

fn year_day(year: i32, ordinal: u16) -> Date {
    Date::from_int_ordinal(year, ordinal).unwrap()
}

#[test]
fn test_month_day_max() {
    let from_ordinal: MonthDay = Ordinal::max_value().into();
    assert_eq!(from_ordinal.day(), MonthDay::LEAP_LAST_MAX_DAY);
    assert_eq!(from_ordinal.month(), Month::max_value());
    assert_eq!(from_ordinal, MonthDay::max_value());
}

#[test]
fn test_month_day_min() {
    let from_ordinal: MonthDay = Ordinal::min_value().into();
    assert_eq!(from_ordinal.day(), MonthDay::MIN_DAY);
    assert_eq!(from_ordinal.month(), Month::min_value());
    assert_eq!(from_ordinal, MonthDay::min_value());
}

#[test]
fn test_leap_aligns_with_wikipedia_list_of_33() {
    for i in 1210..=1500 {
        let year = Year::from(i);
        let is_leap = year.is_leap();
        let in_list = Year::LEAPS_1210_TO_1500.binary_search(&year.get()).is_ok();
        assert!(
            if is_leap { in_list } else { !in_list },
            "year {} is miscalculated (guessed as leap: {}, is actually leap: {})",
            i,
            is_leap,
            in_list
        );
    }
}

#[test]
fn test_ordinal_first_day_of_calendar() {
    assert_eq!(ymd((1, 1, 1)).ordinal(), Ordinal::min_value());
}

#[test]
fn test_ordinal_365_day_of_first_year() {
    assert_eq!(ymd((1, 12, 29)).ordinal(), Ordinal::max_non_leap());
}

#[test]
fn test_ordinal_from_unsuffixed_int() {
    assert_eq!(Ordinal::from(1).get(), 1);
}

#[test]
fn test_month_day_from_ordinal() {
    for m in 1..=6 {
        for d in 1..=31 {
            assert_eq!(
                Ordinal::from(MonthDay::from((m as u8, d))),
                Ordinal::from((m - 1) * 31 + d as i32),
            );
        }
    }

    for m in 7..=12 {
        for d in 1..=30 {
            assert_eq!(
                Ordinal::from(MonthDay::from((m as u8, d))),
                Ordinal::from((Ordinal::mid() - 1i16) + (m - 7) as i16 * 30 + d as i16),
            );
        }
    }
}

#[test]
fn test_add_doy_epoch_1348() {
    let test = |offset: IDayDiff, (y, m, d): IntYmd| {
        let v = Date::epoch().add_days_strict(offset).result;
        assert_eq!(v.ordinal().get() as IDayDiff, (287 + offset));
        assert_eq!(v, ymd((y, m, d)));
    };

    test(0, (1348, 10, 11));
    test(1, (1348, 10, 12));
    test(2, (1348, 10, 13));
    test(4, (1348, 10, 15));
    test(7, (1348, 10, 18));
    test(8, (1348, 10, 19));
    test(9, (1348, 10, 20));
    test(12, (1348, 10, 23));
    test(32, (1348, 11, 13));
    test(62, (1348, 12, 13));
    test(78, (1348, 12, 29));
}

#[test]
fn test_add_doy_epoch_1349() {
    let test = |offset: IDayDiff, (y, m, d): IntYmd| {
        let v = Date::epoch().add_days_strict(78 + offset).result;
        assert_eq!(v.ordinal().get() as IDayDiff, offset);
        assert_eq!(v, ymd((y, m, d)));
    };

    test(1, (1349, 1, 1));
    test(2, (1349, 1, 2));
    test(30, (1349, 1, 30));
    test(31, (1349, 1, 31));
    test(32, (1349, 2, 1));
    test(33, (1349, 2, 2));
    test(43, (1349, 2, 12));
    test(53, (1349, 2, 22));
    test(60, (1349, 2, 29));
    test(61, (1349, 2, 30));
    test(62, (1349, 2, 31));
    test(63, (1349, 3, 1));
    test(64, (1349, 3, 2));
    test(93, (1349, 3, 31));
    test(124, (1349, 4, 31));
    test(155, (1349, 5, 31));
    test(186, (1349, 6, 31));
    test(216, (1349, 7, 30));
    test(246, (1349, 8, 30));
    test(276, (1349, 9, 30));
    test(306, (1349, 10, 30));
    test(336, (1349, 11, 30));
    test(365, (1349, 12, 29));
}

#[test]
fn test_add_ordinal_saturates_while_days_doesnt() {
    let year = Year::from(1350);
    let v = Date::from(year);
    for i in 0..year.max_ordinal().get() {
        assert_eq!(
            v.clone().add_ordinal_strict(i as IOrdinal).result,
            v.clone().add_days_strict(i as IDayDiff).result,
        );
    }

    // stays in this very year
    assert_eq!(
        v.clone().add_ordinal_strict(366).result,
        Date::new(Year::from(1350), year.max_ordinal()).unwrap(),
    );

    // goes to the next year
    assert_eq!(
        v.clone().add_days_strict(366).result,
        year_day(1351, 366 - (year.max_ordinal().get() - 1)),
    );
}

#[test]
fn test_add_186_new_year() {
    let v = Date::from(1350);
    assert_eq!(v.ordinal().get(), 1);
    assert_eq!(v.year().get(), 1350);
    assert_eq!(v, ymd((1350, 1, 1)));

    let v = v.add_ordinal_strict(184).result;
    assert_eq!(v.ordinal().get(), 185);
    assert_eq!(v, year_day(1350, 185).into());
    assert_eq!(v, ymd((1350, 6, 30)));
    assert_eq!(MonthDay::from(v.clone()).day(), 30);
    assert_eq!(MonthDay::from(v.clone()).month().get(), 6);

    let v = v.add_ordinal_strict(1).result;
    assert_eq!(v.ordinal().get(), 186);
    assert_eq!(v, year_day(1350, 186));
    assert_eq!(v, year_day(1350, 186).into());
    assert_eq!(v, ymd((1350, 6, 31)));
    assert_eq!(MonthDay::from(v.clone()).day(), 31);
    assert_eq!(MonthDay::from(v.clone()).month().get(), 6);

    let v = v.add_ordinal_strict(1).result;
    assert_eq!(v.ordinal().get(), 187);
    assert_eq!(v, year_day(1350, 187));
    assert_eq!(v, year_day(1350, 187).into());
    assert_eq!(v, ymd((1350, 7, 1)));
    assert_eq!(MonthDay::from(v.clone()).day(), 1);
    assert_eq!(MonthDay::from(v.clone()).month().get(), 7);
}

#[test]
fn test_set_doy_leap_for_leap() {
    assert!(year_day(1403, 366).year().is_leap());
    assert_eq!(
        year_day(1403, 365)
            .add_ordinal_strict(1)
            .result
            .ordinal()
            .get(),
        366
    );
    assert_eq!(year_day(1403, 366).ordinal().get(), 366);
}

#[test]
fn test_set_doy_leap_for_non_leap() {
    assert!(!Year::from(1404).is_leap());
    assert_eq!(
        year_day(1404, 365)
            .add_ordinal_strict(1)
            .result
            .ordinal()
            .get(),
        365
    );
    // A year that is not leap has no day 366: nothing is made of it.
    assert_eq!(Date::from_int_ordinal(1404, 366), None);
    assert_eq!(Date::new(Year::from(1404), Ordinal::from(366)), None);
}

#[test]
fn test_add_12_month_leap_invalid() {
    let d = ymd((1403, 12, 30));
    assert_eq!(d.year().get(), 1403);
    assert_eq!(MonthDay::from(d.clone()), MonthDay::from((12, 30)));
    assert_eq!(d.ordinal().get(), 366);

    // keeps at 12 months but the day count is the same
    assert_eq!(
        IntYmd::from(d.add_month_strict(12).result),
        (1403, 12, 30).into()
    );
}

#[test]
fn test_add_12_concecutive_month_leap_invalid() {
    let d = ymd((1403, 12, 30));

    // `months` variant pushes to the next year but with correct day count.
    assert_eq!(
        IntYmd::from(d.clone().add_months_strict(12).result),
        (1404, 12, 29).into()
    );
    assert_eq!(
        IntYmd::from(d.clone().add_months_strict(13).result),
        (1405, 1, 30).into()
    );
}

#[test]
fn test_readme() {
    let fixed_point = ymd((1404, 2, 13)); // 2025, 5 (May), 3
    assert_eq!(fixed_point.add_days(11), ymd((1404, 2, 24)));
}

#[test]
fn test_is_leap_year_min_i32() {
    assert!(!Year::from(i32::MIN).is_leap());
}

#[test]
fn test_is_leap_year_1348_pre_and_post_epoch() {
    // this effects the diff epoch tests
    assert!(!(Year::epoch() - 1).is_leap());
    assert!(!Year::epoch().is_leap());
    assert!(!(Year::epoch() + 1).is_leap());
}

#[test]
fn test_year_zero_and_ones_are_not_leap() {
    assert!(!Year::from(-1).is_leap());
    // The rule decides year 1: 25 + 11 leaves 3 over a cycle of 33.
    assert!(Year::from(1).is_leap());
}

#[test]
fn test_d_past_epoch() {
    // past
    assert_eq!(
        Date::from_year_month_day(
            Year::epoch(),
            MonthDay::epoch().month(),
            MonthDay::EPOCH_DAY - 1,
        )
        .unwrap()
        .diff_epoch_strict(),
        -1,
    );
    assert_eq!(
        Date::from_year_month_day(
            Year::epoch(),
            MonthDay::epoch().month() - 1,
            MonthDay::EPOCH_DAY,
        )
        .unwrap()
        .diff_epoch_strict(),
        -30
    );
    assert_eq!(
        Date::from_year_month_day(
            Year::epoch() - 1,
            MonthDay::epoch().month(),
            MonthDay::EPOCH_DAY,
        )
        .unwrap()
        .diff_epoch_strict(),
        -365
    );
    assert_eq!(
        Date::from_year_month_day(
            Year::epoch() - 1,
            MonthDay::epoch().month() - 1,
            MonthDay::EPOCH_DAY - 1,
        )
        .unwrap()
        .diff_epoch_strict(),
        -365 - 30 - 1
    );
    // same
    assert_eq!(Date::epoch().diff_epoch_strict(), 0);

    // future
    assert_eq!(
        Date::from_year_month_day(
            Year::epoch(),
            MonthDay::epoch().month(),
            MonthDay::EPOCH_DAY + 1,
        )
        .unwrap()
        .diff_epoch_strict(),
        1,
    );
    assert_eq!(
        Date::from_year_month_day(
            Year::epoch(),
            MonthDay::epoch().month() + 1,
            MonthDay::EPOCH_DAY,
        )
        .unwrap()
        .diff_epoch_strict(),
        30
    );
    assert_eq!(
        Date::from_year_month_day(
            Year::epoch() + 1,
            MonthDay::epoch().month(),
            MonthDay::EPOCH_DAY,
        )
        .unwrap()
        .diff_epoch_strict(),
        365
    );
    assert_eq!(
        Date::from_year_month_day(
            Year::epoch() + 1,
            MonthDay::epoch().month() + 1,
            MonthDay::EPOCH_DAY + 1,
        )
        .unwrap()
        .diff_epoch_strict(),
        365 + 30 + 1
    );
}
