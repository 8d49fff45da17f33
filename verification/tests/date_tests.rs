use invoice::date::Date;

#[test]
fn valid_dates_are_accepted() {
    let d = Date::from_ymd(2022, 11, 22).unwrap();
    assert_eq!(d.year, 2022);
    assert_eq!(d.month, 11);
    assert_eq!(d.day, 22);
    assert!(Date::from_ymd(2022, 12, 6).is_some());
    assert!(Date::from_ymd(1, 1, 1).is_some());
    assert!(Date::from_ymd(9999, 12, 31).is_some());
}

#[test]
fn month_bounds_are_checked() {
    assert!(Date::from_ymd(2022, 0, 1).is_none());
    assert!(Date::from_ymd(2022, 13, 1).is_none());
}

#[test]
fn day_bounds_are_checked() {
    assert!(Date::from_ymd(2022, 11, 0).is_none());
    assert!(Date::from_ymd(2022, 11, 30).is_some());
    assert!(Date::from_ymd(2022, 11, 31).is_none());
    assert!(Date::from_ymd(2022, 12, 31).is_some());
    assert!(Date::from_ymd(2022, 4, 31).is_none());
}

#[test]
fn leap_years_have_a_29th_of_february() {
    assert!(Date::from_ymd(2020, 2, 29).is_some());
    assert!(Date::from_ymd(2021, 2, 29).is_none());
    assert!(Date::from_ymd(2000, 2, 29).is_some());
    assert!(Date::from_ymd(1900, 2, 29).is_none());
    assert!(Date::from_ymd(2020, 2, 30).is_none());
}

#[test]
fn year_bounds_are_checked() {
    assert!(Date::from_ymd(0, 6, 15).is_none());
    assert!(Date::from_ymd(-5, 6, 15).is_none());
    assert!(Date::from_ymd(10000, 6, 15).is_none());
}

#[test]
fn equal_dates_compare_equal() {
    assert_eq!(Date::from_ymd(2022, 11, 22), Date::from_ymd(2022, 11, 22));
    assert_ne!(Date::from_ymd(2022, 11, 22), Date::from_ymd(2022, 12, 6));
}
