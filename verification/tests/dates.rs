use cal::date::Date;
use cal::datetime::DateTime;

#[test]
fn from_ymd_opt_accepts_the_days_that_exist() {
    assert_eq!(
        Date::from_ymd_opt(2015, 3, 14),
        Some(Date { year: 2015, month: 3, day: 14 })
    );
    assert_eq!(Date::from_ymd_opt(2015, 0, 14), None);
    assert_eq!(Date::from_ymd_opt(2015, 13, 14), None);
    assert_eq!(Date::from_ymd_opt(2015, 2, 29), None);
    assert_eq!(Date::from_ymd_opt(2015, 2, 0), None);
    assert_eq!(Date::from_ymd_opt(2023, 4, 31), None);
    assert!(Date::from_ymd_opt(-4, 2, 29).is_some());
    assert!(Date::from_ymd_opt(2000, 2, 29).is_some());
    assert_eq!(Date::from_ymd_opt(1900, 2, 29), None);
}

#[test]
fn from_ymd_opt_stops_at_the_first_and_last_year() {
    assert!(Date::from_ymd_opt(262142, 12, 31).is_some());
    assert_eq!(Date::from_ymd_opt(262143, 1, 1), None);
    assert!(Date::from_ymd_opt(-262143, 1, 1).is_some());
    assert_eq!(Date::from_ymd_opt(-262144, 12, 31), None);
    assert_eq!(Date::from_ymd_opt(400000, 1, 1), None);
    assert_eq!(Date::from_ymd_opt(-400000, 1, 1), None);
}

#[test]
fn with_day_changes_the_day_only() {
    let date = Date::from_ymd_opt(2021, 2, 10).unwrap();
    assert_eq!(date.with_day(28), Some(Date { year: 2021, month: 2, day: 28 }));
    assert_eq!(date.with_day(29), None);
    assert_eq!(date.with_day(0), None);
}

#[test]
fn weekday_counts_from_sunday() {
    let weekday = |y, m, d| Date::from_ymd_opt(y, m, d).unwrap().weekday();
    assert_eq!(weekday(2021, 10, 10), 0);
    assert_eq!(weekday(2021, 10, 1), 5);
    assert_eq!(weekday(1970, 1, 1), 4);
    assert_eq!(weekday(1, 1, 1), 1);
    assert_eq!(weekday(2015, 9, 8), 2);
    assert_eq!(weekday(-308, 3, 14), 5);
    assert_eq!(weekday(2000, 2, 29), 2);
    assert_eq!(weekday(0, 1, 1), 6);
}

#[test]
fn days_until_counts_the_days_between() {
    let date = |y, m, d| Date::from_ymd_opt(y, m, d).unwrap();
    assert_eq!(date(2014, 1, 1).days_until(date(2014, 1, 1)), 0);
    assert_eq!(date(2013, 12, 31).days_until(date(2014, 1, 1)), 1);
    assert_eq!(date(2014, 1, 2).days_until(date(2014, 1, 1)), -1);
    assert_eq!(date(2013, 1, 1).days_until(date(2014, 1, 1)), 365);
    assert_eq!(date(2010, 1, 1).days_until(date(2014, 1, 1)), 365 * 4 + 1);
    assert_eq!(date(1614, 1, 1).days_until(date(2014, 1, 1)), 365 * 400 + 97);
    assert_eq!(date(1, 1, 1).days_until(date(1970, 1, 1)), 719_162);
    assert_eq!(date(0, 1, 1).days_until(date(1, 1, 1)), 366);
    assert_eq!(date(2024, 2, 1).days_until(date(2024, 3, 1)), 29);
}

#[test]
fn date_time_new_checks_the_clock() {
    let date = Date::from_ymd_opt(2021, 10, 10).unwrap();
    assert_eq!(
        DateTime::new(date, 10, 30, 15),
        Some(DateTime { date, secs: 37815, nanos: 0 })
    );
    assert_eq!(DateTime::new(date, 0, 0, 0), Some(DateTime { date, secs: 0, nanos: 0 }));
    assert_eq!(
        DateTime::new(date, 23, 59, 59),
        Some(DateTime { date, secs: 86399, nanos: 0 })
    );
    assert_eq!(DateTime::new(date, 24, 0, 0), None);
    assert_eq!(DateTime::new(date, 0, 60, 0), None);
    assert_eq!(DateTime::new(date, 0, 0, 60), None);
}

#[test]
fn is_before_orders_by_day_then_time() {
    let day = Date::from_ymd_opt(2021, 10, 10).unwrap();
    let next = Date::from_ymd_opt(2021, 10, 11).unwrap();
    let next_month = Date::from_ymd_opt(2021, 11, 1).unwrap();
    let next_year = Date::from_ymd_opt(2022, 1, 1).unwrap();
    let nine = DateTime::new(day, 9, 0, 0).unwrap();
    let ten = DateTime::new(day, 10, 0, 0).unwrap();
    assert!(nine.is_before(&ten));
    assert!(!ten.is_before(&nine));
    assert!(!ten.is_before(&ten));
    assert!(ten.is_before(&DateTime::new(next, 0, 0, 0).unwrap()));
    assert!(!DateTime::new(next, 0, 0, 0).unwrap().is_before(&ten));
    assert!(DateTime::new(next, 23, 0, 0).unwrap().is_before(&DateTime::new(next_month, 0, 0, 0).unwrap()));
    assert!(DateTime::new(next_month, 23, 0, 0).unwrap().is_before(&DateTime::new(next_year, 0, 0, 0).unwrap()));
    let early = DateTime { date: day, secs: 5, nanos: 1 };
    let late = DateTime { date: day, secs: 5, nanos: 2 };
    assert!(early.is_before(&late));
    assert!(!late.is_before(&early));
}

#[test]
fn one_hour_later_passes_midnight_and_new_year() {
    let at = |y, m, d, h, min| DateTime::new(Date::from_ymd_opt(y, m, d).unwrap(), h, min, 0).unwrap();
    assert_eq!(at(2021, 10, 10, 10, 0).one_hour_later(), Some(at(2021, 10, 10, 11, 0)));
    assert_eq!(at(2021, 10, 10, 22, 59).one_hour_later(), Some(at(2021, 10, 10, 23, 59)));
    assert_eq!(at(2021, 10, 10, 23, 0).one_hour_later(), Some(at(2021, 10, 11, 0, 0)));
    assert_eq!(at(2021, 10, 31, 23, 30).one_hour_later(), Some(at(2021, 11, 1, 0, 30)));
    assert_eq!(at(2021, 12, 31, 23, 30).one_hour_later(), Some(at(2022, 1, 1, 0, 30)));
    assert_eq!(at(2024, 2, 28, 23, 30).one_hour_later(), Some(at(2024, 2, 29, 0, 30)));
    assert_eq!(at(2023, 2, 28, 23, 30).one_hour_later(), Some(at(2023, 3, 1, 0, 30)));
    assert_eq!(at(262142, 12, 31, 22, 30).one_hour_later(), Some(at(262142, 12, 31, 23, 30)));
    assert_eq!(at(262142, 12, 31, 23, 0).one_hour_later(), None);
    let with_nanos = DateTime { date: Date::from_ymd_opt(2021, 1, 1).unwrap(), secs: 86399, nanos: 999_999_999 };
    assert_eq!(
        with_nanos.one_hour_later(),
        Some(DateTime { date: Date::from_ymd_opt(2021, 1, 2).unwrap(), secs: 3599, nanos: 999_999_999 })
    );
}
