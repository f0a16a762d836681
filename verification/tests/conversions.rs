use jelal::{Date, IntYmd, Month, MonthDay, Ordinal, Year, Ymd};

#[test]
fn parts_come_from_integers() {
    assert_eq!(Month::from(5u8).get(), 5);
    assert_eq!(Month::from(0u8).get(), 1);
    assert_eq!(Month::from(200u8).get(), 12);
    assert_eq!(Month::from(-3i8).get(), 1);
    assert_eq!(Month::from(3i8).get(), 3);
    assert_eq!(Month::from(100i8).get(), 12);
    assert_eq!(Month::from(-3).get(), 3);
    assert_eq!(Month::from(0).get(), 1);
    assert_eq!(Month::from(12).get(), 12);
    assert_eq!(Month::from(13).get(), 12);
    assert_eq!(Month::from(-13).get(), 12);
    assert_eq!(Month::from(65537).get(), 12);
    assert_eq!(Month::from(i32::MIN).get(), 12);
    assert_eq!(Ordinal::from(200u16).get(), 200);
    assert_eq!(Ordinal::from(0u16).get(), 1);
    assert_eq!(Ordinal::from(-5i16).get(), 1);
    assert_eq!(Ordinal::from(500i16).get(), 366);
    assert_eq!(Ordinal::from(-200).get(), 200);
    assert_eq!(Ordinal::from(366).get(), 366);
    assert_eq!(Ordinal::from(-367).get(), 366);
    assert_eq!(Ordinal::from(65537).get(), 366);
    assert_eq!(Ordinal::from(i32::MIN).get(), 366);
    assert_eq!(Year::from(0).get(), -1);
    assert_eq!(Year::from(-1348).get(), -1348);
}

#[test]
fn parts_go_to_integers() {
    assert_eq!(u8::from(Month::new(9)), 9);
    assert_eq!(i8::from(Month::new(9)), 9);
    assert_eq!(u16::from(Ordinal::new(300)), 300);
    assert_eq!(i16::from(Ordinal::new(300)), 300);
    assert_eq!(i32::from(Year::new(-300)), -300);
}

#[test]
fn month_day_converts() {
    let month_day = MonthDay::from((Month::new(7), 31));
    assert_eq!(month_day.get(), (Month::new(7), 30));
    assert_eq!(MonthDay::from((13u8, 0u8)).get(), (Month::new(12), 1));
    assert_eq!(MonthDay::from((0u8, 40u8)).get(), (Month::new(1), 31));
    assert_eq!(Ordinal::from(month_day).get(), 216);
    assert_eq!(MonthDay::from(Ordinal::new(216)), month_day);
    assert_eq!(Month::from(month_day), Month::new(7));
    let (month, day): (Month, u8) = month_day.into();
    assert_eq!((month.get(), day), (7, 30));
}

#[test]
fn date_converts() {
    let made = Date::from_int_ymd((1404, 2, 13)).unwrap();
    assert_eq!(
        Some(made),
        Date::from_year_month_day(Year::new(1404), Month::new(2), 13)
    );
    assert_eq!(Date::from_int_ordinal(1404, 44), Some(made));
    assert_eq!(Date::new(Year::new(1404), Ordinal::new(44)), Some(made));
    assert_eq!(Date::from_year_ordinal(Year::new(1404), Ordinal::new(44)), Some(made));
    assert_eq!(IntYmd::from(made), (1404, 2, 13));
    assert_eq!(Ymd::from(made), (Year::new(1404), Month::new(2), 13));
    assert_eq!(<(Year, Ordinal)>::from(made), (Year::new(1404), Ordinal::new(44)));
    assert_eq!(Year::from(made), Year::new(1404));
    assert_eq!(Ordinal::from(made), Ordinal::new(44));
    assert_eq!(MonthDay::from(made), MonthDay::new(Month::new(2), 13));
    assert_eq!(Some(Date::from(Year::new(1404))), Date::from_int_ymd((1404, 1, 1)));
    assert_eq!(Some(Date::from(0)), Date::from_int_ymd((-1, 1, 1)));
}

#[test]
fn numbers_that_name_no_date_are_refused() {
    assert_eq!(Date::from_int_ymd((0, 1, 1)), None);
    assert_eq!(Date::from_int_ymd((1403, 0, 1)), None);
    assert_eq!(Date::from_int_ymd((1403, 13, 1)), None);
    assert_eq!(Date::from_int_ymd((1403, 1, 0)), None);
    assert_eq!(Date::from_int_ymd((1403, 1, 32)), None);
    assert_eq!(Date::from_int_ymd((1403, 7, 31)), None);
    assert_eq!(Date::from_int_ymd((1404, 12, 30)), None);
    assert_eq!(Date::from_int_ymd((1403, 12, 31)), None);
    assert_eq!(
        Date::from_int_ymd((1403, 12, 30)).map(IntYmd::from),
        Some((1403, 12, 30))
    );
    assert_eq!(
        Date::from_int_ymd((1404, 12, 29)).map(IntYmd::from),
        Some((1404, 12, 29))
    );
    assert_eq!(Date::from_int_ordinal(0, 1), None);
    assert_eq!(Date::from_int_ordinal(1404, 0), None);
    assert_eq!(Date::from_int_ordinal(1404, 366), None);
    assert_eq!(Date::from_int_ordinal(1404, 999), None);
    assert_eq!(Date::from_int_ordinal(1403, 367), None);
    assert_eq!(
        Date::from_int_ordinal(1403, 366).map(|date| date.ordinal().get()),
        Some(366)
    );
    assert_eq!(
        Date::from_int_ordinal(1404, 365).map(|date| date.ordinal().get()),
        Some(365)
    );
    assert_eq!(Date::new(Year::new(1404), Ordinal::new(366)), None);
    assert_eq!(
        Date::new(Year::new(1403), Ordinal::new(366)).map(|date| date.get()),
        Some((Year::new(1403), Ordinal::new(366)))
    );
}
