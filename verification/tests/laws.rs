use jelal::{Date, DidSaturate, Month, MonthDay, Ordinal, Year};
use std::cmp::Ordering;

fn date(year: i32, month: u8, day: u8) -> Date {
    Date::from_year_month_day(Year::new(year), Month::new(month), day).unwrap()
}

#[test]
fn ordinal_splits_and_joins_back() {
    for number in 1..=366u16 {
        let ordinal = Ordinal::new(number);
        assert_eq!(MonthDay::from_ordinal(ordinal).to_ordinal(), ordinal);
    }
}

#[test]
fn month_day_joins_and_splits_back() {
    for month in 1..=12u8 {
        let last = if month <= 6 { 31 } else { 30 };
        for day in 1..=last {
            let month_day = MonthDay::new(Month::new(month), day);
            assert_eq!(month_day.get(), (Month::new(month), day));
            assert_eq!(MonthDay::from_ordinal(month_day.to_ordinal()), month_day);
        }
    }
}

#[test]
fn month_boundaries_split_exactly() {
    let split = |number: u16| {
        let month_day = MonthDay::from_ordinal(Ordinal::new(number));
        (month_day.month().get(), month_day.day())
    };
    assert_eq!(split(1), (1, 1));
    assert_eq!(split(31), (1, 31));
    assert_eq!(split(32), (2, 1));
    assert_eq!(split(186), (6, 31));
    assert_eq!(split(187), (7, 1));
    assert_eq!(split(216), (7, 30));
    assert_eq!(split(217), (8, 1));
    assert_eq!(split(336), (11, 30));
    assert_eq!(split(337), (12, 1));
    assert_eq!(split(365), (12, 29));
    assert_eq!(split(366), (12, 30));
}

#[test]
fn epoch_is_the_eleventh_of_the_tenth_month_of_1348() {
    assert_eq!(Date::epoch(), date(1348, 10, 11));
    assert_eq!(Date::epoch().year(), Year::epoch());
    assert_eq!(Date::epoch().ordinal(), Ordinal::epoch());
    assert_eq!(Date::epoch().ordinal().get(), 287);
    assert_eq!(MonthDay::from(Date::epoch()), MonthDay::epoch());
    assert_eq!(Date::from_d_past_epoch(0), Date::epoch());
    assert_eq!(Date::from_d_before_epoch(0), Date::epoch());
    assert_eq!(Date::epoch().diff_epoch(), 0);
}

#[test]
fn difference_gives_back_the_days_added() {
    let starts = [
        date(1348, 10, 11),
        date(1403, 12, 30),
        date(1404, 1, 1),
        date(1, 1, 1),
        date(-1, 12, 29),
        date(1502, 6, 31),
        date(-4000, 7, 1),
    ];
    let moves = [
        0, 1, -1, 11, -11, 78, 79, 365, 366, -365, -366, 1000, -1000, 12053, -12053, 500_000,
        -500_000, 3_000_000, -3_000_000,
    ];
    for start in starts {
        for days in moves {
            let reached = start.add_days_strict(days);
            assert!(!reached.did_saturate);
            let back = reached.result.diff_as_days_strict(start);
            assert!(!back.did_saturate);
            assert_eq!(back.result, days);
            assert_eq!(start.diff_as_days(reached.result), -days);
            assert_eq!(start.add_days(days).sub_days(days), start);
        }
    }
}

#[test]
fn days_step_over_the_missing_year_zero() {
    let last_before = Date::from_year_ordinal(Year::new(-1), Ordinal::new(365)).unwrap();
    let first_after = date(1, 1, 1);
    assert_eq!(last_before.add_days(1), first_after);
    assert_eq!(first_after.add_days(-1), last_before);
    assert_eq!(first_after.sub_days(1), last_before);
    assert_eq!(first_after.diff_as_days(last_before), 1);
    assert_eq!(last_before.diff_as_days(first_after), -1);
    assert_eq!(date(1, 1, 1).add_days(-365), date(-1, 1, 1));
    // Year -1 has 365 days and year 1, a leap year, 366.
    assert_eq!(date(2, 1, 1).diff_as_days(date(-1, 1, 1)), 731);
    assert_eq!(date(2, 1, 1).add_days(-731), date(-1, 1, 1));
}

#[test]
fn days_backwards_reach_the_year_before() {
    assert_eq!(date(1349, 1, 10).add_days(-20), date(1348, 12, 19));
    assert_eq!(date(1349, 1, 5).add_days(-5), date(1348, 12, 29));
    assert_eq!(date(1404, 1, 1).add_days(-1), date(1403, 12, 30));
    assert_eq!(date(1404, 1, 1).diff_as_days(date(1403, 1, 1)), 366);
    assert_eq!(date(1403, 1, 1).diff_as_days(date(1404, 1, 1)), -366);
    assert_eq!(date(1403, 1, 1).diff_as_days(date(1402, 1, 1)), 365);
    assert_eq!(date(1402, 1, 1).diff_as_days(date(1403, 1, 1)), -365);
}

#[test]
fn order_is_transitive_and_antisymmetric() {
    let dates = [
        Date::min_value(),
        date(-1, 12, 29),
        date(1, 1, 1),
        date(1348, 10, 11),
        date(1403, 12, 29),
        date(1403, 12, 30),
        date(1404, 1, 1),
        Date::max_value(),
    ];
    for (i, a) in dates.iter().enumerate() {
        for (j, b) in dates.iter().enumerate() {
            assert_eq!(a.cmp(b), i.cmp(&j));
            assert_eq!(a.cmp(b), b.cmp(a).reverse());
            assert_eq!(a < b, i < j);
            assert_eq!(a <= b, i <= j);
            assert_eq!(a > b, i > j);
            assert_eq!(a >= b, i >= j);
            assert_eq!(a == b, i == j);
            assert_eq!(a.partial_cmp(b), Some(i.cmp(&j)));
            assert_eq!(Ord::cmp(a, b), i.cmp(&j));
            let by_fields = (a.year().get(), a.ordinal().get())
                .cmp(&(b.year().get(), b.ordinal().get()));
            assert_eq!(a.cmp(b), by_fields);
            for c in dates.iter() {
                if a < b && b < c {
                    assert!(a < c);
                }
            }
        }
    }
}

#[test]
fn parts_compare_by_their_numbers() {
    assert_eq!(Month::new(3).cmp(&Month::new(7)), Ordering::Less);
    assert_eq!(Month::new(7).cmp(&Month::new(7)), Ordering::Equal);
    assert_eq!(Ordinal::new(300).cmp(&Ordinal::new(7)), Ordering::Greater);
    assert_eq!(Year::new(-5).cmp(&Year::new(5)), Ordering::Less);
    assert!(Year::new(-5) < Year::new(5));
    assert!(Month::new(12) > Month::new(11));
    assert!(Ordinal::new(1) <= Ordinal::new(1));
    let early = MonthDay::new(Month::new(2), 31);
    let late = MonthDay::new(Month::new(3), 1);
    assert_eq!(early.cmp(&late), Ordering::Less);
    assert_eq!(late.cmp(&early), Ordering::Greater);
    assert_eq!(early.cmp(&early), Ordering::Equal);
    assert!(early < late);
    assert_eq!(
        MonthDay::new(Month::new(3), 2).cmp(&late),
        Ordering::Greater
    );
}

#[test]
fn year_saturates_at_its_bounds() {
    let over = Year::max_value().add_strict(1);
    assert!(over.did_saturate);
    assert_eq!(over.result, Year::max_value());
    let under = Year::min_value().add_strict(-1);
    assert!(under.did_saturate);
    assert_eq!(under.result, Year::min_value());
    assert_eq!(Year::max_value().get(), i32::MAX);
    assert_eq!(Year::min_value().get(), i32::MIN);
}

#[test]
fn leap_day_is_refused_in_other_years() {
    let leap_day = Ordinal::new(366);
    for number in 1390..=1420 {
        let year = Year::new(number);
        let made = Date::from_year_ordinal(year, leap_day);
        assert_eq!(made.is_some(), year.is_leap());
        assert_eq!(year.is_valid_ordinal(leap_day), year.is_leap());
        assert!(year.is_valid_ordinal(Ordinal::new(365)));
        assert!(Date::from_year_ordinal(year, Ordinal::new(365)).is_some());
    }
    assert!(Date::from_year_ordinal(Year::new(1404), leap_day).is_none());
    assert_eq!(
        Date::from_year_ordinal(Year::new(1403), leap_day).map(|d| d.ordinal().get()),
        Some(366)
    );
    assert!(Date::from_year_month_day(Year::new(1404), Month::new(12), 30).is_none());
    assert!(Date::from_year_month_day(Year::new(1403), Month::new(12), 30).is_some());
}

#[test]
fn month_moves_within_and_across_years() {
    let leap_day = date(1403, 12, 30);
    let within = leap_day.add_month_strict(12);
    assert!(within.did_saturate);
    assert_eq!(within.result, leap_day);
    assert_eq!(leap_day.add_month(12), leap_day);

    let across = leap_day.add_months_strict(12);
    assert!(across.did_saturate);
    assert_eq!(across.result, date(1404, 12, 29));
    assert_eq!(leap_day.add_months(12), date(1404, 12, 29));

    let mut moved = leap_day;
    assert!(!moved.try_add_months(12));
    assert_eq!(moved, leap_day);
    assert!(moved.try_add_months(13));
    assert_eq!(moved, date(1405, 1, 30));
    assert!(moved.try_sub_months(13));
    assert_eq!(moved, leap_day);
}

#[test]
fn saturation_flag_tells_exact_results_apart() {
    let exact: DidSaturate<Date> = date(1350, 1, 1).add_year_strict(1);
    assert!(!exact.did_saturate);
    assert_eq!(exact.result, date(1351, 1, 1));
    let exact = date(1350, 1, 1).add_ordinal_strict(5);
    assert!(!exact.did_saturate);
    assert_eq!(exact.result, date(1350, 1, 6));
    let exact = date(1350, 1, 1).add_month_strict(3);
    assert!(!exact.did_saturate);
    assert_eq!(exact.result, date(1350, 4, 1));
    let exact = date(1350, 1, 1).add_months_strict(-1);
    assert!(!exact.did_saturate);
    assert_eq!(exact.result, date(1349, 12, 1));
    let exact = date(1350, 1, 1).add_days_strict(-1);
    assert!(!exact.did_saturate);
    assert_eq!(exact.result, date(1349, 12, 29));
}
