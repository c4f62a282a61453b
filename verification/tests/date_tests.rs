use pessoas_api::date::Date;

#[test]
fn reads_a_plain_date() {
    let d = Date::parse("1999-06-01").unwrap();
    assert_eq!(d.year(), 1999);
    assert_eq!(d.month(), 6);
    assert_eq!(d.day(), 1);
    assert_eq!(Some(d), Date::from_ymd_opt(1999, 6, 1));
}

#[test]
fn writes_a_date_with_zero_padding() {
    assert_eq!(Date::from_ymd_opt(1999, 6, 1).unwrap().to_text(), "1999-06-01");
    assert_eq!(Date::from_ymd_opt(2000, 1, 10).unwrap().to_text(), "2000-01-10");
    assert_eq!(Date::from_ymd_opt(7, 12, 31).unwrap().to_text(), "0007-12-31");
    assert_eq!(Date::from_ymd_opt(0, 1, 1).unwrap().to_text(), "0000-01-01");
    assert_eq!(Date::from_ymd_opt(9999, 12, 31).unwrap().to_text(), "9999-12-31");
}

#[test]
fn text_of_a_date_reads_back() {
    let dates: [(i32, u32, u32); 6] =
        [(0, 1, 1), (1, 2, 3), (1900, 2, 28), (2000, 2, 29), (2024, 2, 29), (9999, 12, 31)];
    for (y, m, d) in dates {
        let date = Date::from_ymd_opt(y, m, d).unwrap();
        assert_eq!(Date::parse(&date.to_text()), Some(date));
    }
}

#[test]
fn leap_years_follow_the_gregorian_rule() {
    assert!(Date::parse("2000-02-29").is_some());
    assert!(Date::parse("2024-02-29").is_some());
    assert!(Date::parse("1900-02-29").is_none());
    assert!(Date::parse("1999-02-29").is_none());
    assert!(Date::parse("2100-02-29").is_none());
    assert!(Date::parse("0000-02-29").is_some());
}

#[test]
fn days_that_do_not_exist_are_no_dates() {
    assert!(Date::parse("2023-04-31").is_none());
    assert!(Date::parse("2023-04-30").is_some());
    assert!(Date::parse("2023-01-32").is_none());
    assert!(Date::parse("2023-01-31").is_some());
    assert!(Date::parse("2023-00-10").is_none());
    assert!(Date::parse("2023-13-10").is_none());
    assert!(Date::parse("2023-10-00").is_none());
    assert!(Date::from_ymd_opt(2015, 0, 14).is_none());
    assert!(Date::from_ymd_opt(2015, 2, 29).is_none());
    assert!(Date::from_ymd_opt(2015, 3, 14).is_some());
}

#[test]
fn years_outside_four_digits_are_no_dates() {
    assert!(Date::from_ymd_opt(-1, 1, 1).is_none());
    assert!(Date::from_ymd_opt(10000, 1, 1).is_none());
    assert!(Date::from_ymd_opt(400000, 1, 1).is_none());
    assert!(Date::from_ymd_opt(-400000, 1, 1).is_none());
    assert!(Date::parse("10000-01-01").is_none());
    assert!(Date::parse("+1999-06-01").is_none());
    assert!(Date::parse("-001-06-01").is_none());
}

#[test]
fn other_shapes_are_no_dates() {
    assert!(Date::parse("").is_none());
    assert!(Date::parse("foo").is_none());
    assert!(Date::parse("1999-6-1").is_none());
    assert!(Date::parse("1999-06-1").is_none());
    assert!(Date::parse("1999/06/01").is_none());
    assert!(Date::parse("01-06-1999").is_none());
    assert!(Date::parse("1999-06-01 ").is_none());
    assert!(Date::parse(" 1999-06-01").is_none());
    assert!(Date::parse("1999-06-01T00:00:00").is_none());
    assert!(Date::parse("19a9-06-01").is_none());
    assert!(Date::parse("1999-0b-01").is_none());
    assert!(Date::parse("1999-06-0c").is_none());
    assert!(Date::parse("１９９９-06-01").is_none());
    assert!(Date::parse("1999\u{2010}06\u{2010}01").is_none());
}
