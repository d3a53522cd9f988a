use chrono::{DateTime, Datelike, Local, NaiveDate, NaiveDateTime, TimeZone, Timelike};
use eventkit_core::clock::{
    choose_moment, choose_wall, parse_datetime, parse_datetime_or_stamp, parse_datetime_or_time, has_stamp_form, read_local,
    read_wall, settle, settle_stamp, wall_today, DateRead, LocalDateTime, DATE, DATE_TIME, DATE_TIME_SECONDS,
    EARLIEST, EPOCH_DAY, FIRST_DAY, LAST_DAY, LATEST, LONG_DATE, SECS_PER_DAY, TIME,
};
use eventkit_core::dates::{
    drop_empty, given_date, given_patch, opt_patch, read_date, read_opt, read_patch, Reading,
};

const BAD: &str = "Invalid date format. Use 'YYYY-MM-DD' or 'YYYY-MM-DD HH:MM'";
const BAD_OR_TIME: &str =
    "Invalid date format. Use 'YYYY-MM-DD', 'YYYY-MM-DD HH:MM', or 'HH:MM' (uses today)";

fn at(y: i32, m: u32, d: u32, h: u32, min: u32) -> DateTime<Local> {
    let wall = NaiveDate::from_ymd_opt(y, m, d).unwrap().and_hms_opt(h, min, 0).unwrap();
    Local.from_local_datetime(&wall).single().unwrap()
}

#[test]
fn limits_are_those_of_chrono() {
    assert_eq!(NaiveDateTime::MIN.and_utc().timestamp(), EARLIEST);
    assert_eq!(NaiveDateTime::MAX.and_utc().timestamp(), LATEST);
    assert_eq!(NaiveDate::MIN.num_days_from_ce(), FIRST_DAY);
    assert_eq!(NaiveDate::MAX.num_days_from_ce(), LAST_DAY);
    let epoch = NaiveDate::from_ymd_opt(1970, 1, 1).unwrap();
    assert_eq!(i64::from(epoch.num_days_from_ce()), EPOCH_DAY);
    assert_eq!(SECS_PER_DAY, 24 * 60 * 60);
}

#[test]
fn points_are_checked() {
    assert!(LocalDateTime::new(EARLIEST, 0, 0).is_some());
    assert!(LocalDateTime::new(LATEST, 999_999_999, 86_399).is_some());
    assert!(LocalDateTime::new(EARLIEST - 1, 0, 0).is_none());
    assert!(LocalDateTime::new(LATEST + 1, 0, 0).is_none());
    assert!(LocalDateTime::new(0, 1_000_000_000, 0).is_none());
    assert!(LocalDateTime::new(0, 0, 86_400).is_none());
    assert!(LocalDateTime::new(0, 0, -86_400).is_none());
    let p = LocalDateTime::new(12, 34, -56).unwrap();
    assert_eq!(p.timestamp(), 12);
    assert_eq!(p.timestamp_subsec_nanos(), 34);
    assert_eq!(p.offset_seconds(), -56);
}

#[test]
fn dates_are_read_on_the_local_clock() {
    let p = parse_datetime("2026-03-22 14:05").unwrap();
    let expected = at(2026, 3, 22, 14, 5);
    assert_eq!(p.timestamp(), expected.timestamp());
    assert_eq!(p.timestamp_subsec_nanos(), 0);
    assert_eq!(p.offset_seconds(), expected.offset().local_minus_utc());
    let p = parse_datetime("2026-03-22").unwrap();
    assert_eq!(p.timestamp(), at(2026, 3, 22, 0, 0).timestamp());
}

#[test]
fn a_date_alone_is_its_midnight() {
    for date in [
        "2026-03-22", "2026-3-2", " 2026-03-22", "0001-01-01", "-0044-03-15", "+262142-12-31",
        "2024-02-29",
    ] {
        let with_time = format!("{date} 00:00");
        let wall = read_wall(date).unwrap();
        assert_eq!(wall.rem_euclid(SECS_PER_DAY), 0);
        assert_eq!(read_wall(&with_time), Some(wall));
        assert_eq!(parse_datetime(date), parse_datetime(&with_time));
        // what is read as a date is no date and time
        assert!(NaiveDateTime::parse_from_str(date, DATE_TIME).is_err());
    }
    for text in ["2026-03-22 ", "2026-03-220", "2026-02-30"] {
        assert!(NaiveDate::parse_from_str(text, DATE).is_err());
    }
}

#[test]
fn texts_that_are_no_dates_are_refused() {
    for text in ["", "tomorrow", "2026-13-01", "2026-02-30", "14:05", "2026-03-22 25:00"] {
        assert_eq!(parse_datetime(text).unwrap_err(), BAD);
        assert_eq!(read_local(text), DateRead::NotADate);
        assert_eq!(read_wall(text), None);
    }
}

#[test]
fn wall_readings_are_seconds() {
    assert_eq!(read_wall("1970-01-02"), Some(86_400));
    assert_eq!(read_wall("1970-01-01 00:01"), Some(60));
    assert_eq!(read_wall("1969-12-31"), Some(-86_400));
}

#[test]
fn times_are_read_on_todays_date() {
    let before = Local::now();
    let p = parse_datetime_or_time("13:37").unwrap();
    let after = Local::now();
    let same_day = |n: DateTime<Local>| at(n.year(), n.month(), n.day(), 13, 37).timestamp();
    assert!(p.timestamp() == same_day(before) || p.timestamp() == same_day(after));
    let p = parse_datetime_or_time("2026-03-22 14:05").unwrap();
    assert_eq!(p.timestamp(), at(2026, 3, 22, 14, 5).timestamp());
    for text in ["", "noon", "24:00", "2026-02-30"] {
        assert_eq!(parse_datetime_or_time(text).unwrap_err(), BAD_OR_TIME);
    }
}

#[test]
fn timestamps_are_read_where_dates_are_not() {
    let p = parse_datetime_or_stamp("2026-05-20T10:00:00+02:00").unwrap();
    assert_eq!(
        p.timestamp(),
        DateTime::parse_from_rfc3339("2026-05-20T10:00:00+02:00").unwrap().timestamp()
    );
    let local = Local.timestamp_opt(p.timestamp(), 0).unwrap();
    assert_eq!(p.offset_seconds(), local.offset().local_minus_utc());
    let p = parse_datetime_or_stamp("2026-05-20").unwrap();
    assert_eq!(p.timestamp(), at(2026, 5, 20, 0, 0).timestamp());
    let p = parse_datetime_or_stamp("2026-05-20 10:00").unwrap();
    assert_eq!(p.timestamp(), at(2026, 5, 20, 10, 0).timestamp());
    for text in [
        "", "10:00", "2026-05-20T10:00:00", "2016-12-31T23:59:60+00:00", "2026-02-30T10:00:00+00:00",
        "2026-05-20T10:00:00Z", "2026-05-20T10:00:00.5+02:00", "2026-05-20t10:00:00+02:00",
        "2026-05-20 10:00:00+02:00", "2026-05-20T10:00:00\u{2212}02:00", "2026-05-20T10:00:00+24:00",
    ] {
        assert_eq!(parse_datetime_or_stamp(text).unwrap_err(), BAD);
    }
}

#[test]
fn timestamps_have_one_form() {
    for text in ["2026-05-20T10:00:00+02:00", "0000-99-99T99:99:99-99:99"] {
        assert!(has_stamp_form(text));
    }
    for text in [
        "", "2026-05-20T10:00:00Z", "2026-05-20T10:00:00+02:0", "2026-05-20T10:00:00+02:000",
        "2026/05-20T10:00:00+02:00", "2026-05-20t10:00:00+02:00", "2026-05-20T10.00:00+02:00",
        "2026-05-20T10:00:00 02:00", "2026-05-20T1x:00:00+02:00",
    ] {
        assert!(!has_stamp_form(text));
    }
}

#[test]
fn a_shown_point_can_be_read_back() {
    let p = LocalDateTime::new(1_779_264_000, 0, -7_200).unwrap();
    let q = parse_datetime_or_stamp(&p.to_rfc3339()).unwrap();
    assert_eq!(q.timestamp(), p.timestamp());
    assert_eq!(q.timestamp_subsec_nanos(), p.timestamp_subsec_nanos());
}

#[test]
fn points_are_shown_at_their_offset() {
    let p = LocalDateTime::new(0, 0, 3_600).unwrap();
    assert_eq!(p.to_rfc3339(), "1970-01-01T01:00:00+01:00");
    assert_eq!(p.format(DATE_TIME), "1970-01-01 01:00");
    assert_eq!(p.format(DATE), "1970-01-01");
    assert_eq!(p.format(TIME), "01:00");
    assert_eq!(p.format(DATE_TIME_SECONDS), "1970-01-01 01:00:00");
    assert_eq!(p.format(LONG_DATE), "Thursday, January 01, 1970");
    let p = LocalDateTime::new(0, 500_000_000, -5_400).unwrap();
    assert_eq!(p.to_rfc3339(), "1969-12-31T22:30:00.500-01:30");
}

#[test]
fn the_ends_of_the_range_are_shown() {
    let first = LocalDateTime::new(EARLIEST, 0, -86_399).unwrap();
    assert!(!first.to_rfc3339().is_empty());
    assert!(!first.format(DATE_TIME).is_empty());
    let last = LocalDateTime::new(LATEST, 999_999_999, 86_399).unwrap();
    assert!(!last.to_rfc3339().is_empty());
    assert!(!last.format(LONG_DATE).is_empty());
}

#[test]
fn points_move_by_minutes_and_days() {
    let p = parse_datetime("2026-03-22 14:05").unwrap();
    assert_eq!(p.plus_minutes(90).unwrap().timestamp(), p.timestamp() + 5_400);
    assert_eq!(p.plus_minutes(-1).unwrap().timestamp(), p.timestamp() - 60);
    assert_eq!(p.plus_days(2).unwrap().timestamp(), p.timestamp() + 172_800);
    assert_eq!(p.plus_seconds(1).timestamp(), p.timestamp() + 1);
    assert!(p.plus_minutes(i64::MAX).is_none());
    assert!(p.plus_minutes(i64::MIN).is_none());
    assert!(p.plus_days(i64::MAX).is_none());
    assert!(p.plus_days(i64::MIN).is_none());
    assert!(p.plus_days(200_000_000).is_none());
    let later = p.plus_days(100).unwrap();
    let expected = Local.timestamp_opt(later.timestamp(), 0).unwrap();
    assert_eq!(later.offset_seconds(), expected.offset().local_minus_utc());
}

#[test]
fn today_is_the_date_on_the_wall() {
    // one second before midnight at an hour ahead of UTC
    let p = LocalDateTime::new(82_799, 0, 3_600).unwrap();
    assert_eq!(wall_today(&p, 60), 60);
    let p = LocalDateTime::new(82_800, 0, 3_600).unwrap();
    assert_eq!(wall_today(&p, 60), 86_460);
    let p = LocalDateTime::new(-1, 0, 0).unwrap();
    assert_eq!(wall_today(&p, 0), -86_400);
}

#[test]
fn a_reading_without_a_single_point_is_told() {
    assert_eq!(settle(None).unwrap_err(), "Invalid local datetime");
    let p = LocalDateTime::new(0, 0, 0).unwrap();
    assert_eq!(settle(Some(p)).unwrap(), p);
    assert_eq!(choose_moment(Ok(p), None).unwrap(), p);
    assert_eq!(choose_moment(Err("x".to_string()), None).unwrap_err(), BAD_OR_TIME);
    assert_eq!(choose_moment(Err("x".to_string()), Some(Ok(p))).unwrap(), p);
    assert_eq!(
        choose_moment(Err("x".to_string()), Some(Err("y".to_string()))).unwrap_err(),
        "y"
    );
}

#[test]
fn a_date_and_time_goes_before_a_date() {
    assert_eq!(choose_wall(Some(7), Some(719_163)), Some(7));
    assert_eq!(choose_wall(None, Some(719_164)), Some(86_400));
    assert_eq!(choose_wall(None, Some(FIRST_DAY)), Some(EARLIEST));
    assert_eq!(choose_wall(None, None), None);
}

#[test]
fn a_second_of_sixty_is_not_taken() {
    let p = settle_stamp(Some((60, 999_999_999))).unwrap();
    assert_eq!((p.timestamp(), p.timestamp_subsec_nanos()), (60, 999_999_999));
    assert_eq!(settle_stamp(Some((59, 1_000_000_000))).unwrap_err(), BAD);
    assert_eq!(settle_stamp(Some((LATEST + 1, 0))).unwrap_err(), BAD);
    assert_eq!(settle_stamp(None).unwrap_err(), BAD);
}

#[test]
fn empty_texts_clear() {
    assert_eq!(opt_patch(None), None);
    assert_eq!(opt_patch(Some(String::new())), Some(None));
    assert_eq!(opt_patch(Some("x".to_string())), Some(Some("x".to_string())));
    assert_eq!(drop_empty(None), None);
    assert_eq!(drop_empty(Some(String::new())), None);
    assert_eq!(drop_empty(Some("x".to_string())), Some("x".to_string()));
}

#[test]
fn empty_dates_clear() {
    assert_eq!(read_patch(Reading::Date, &None), None);
    assert_eq!(read_patch(Reading::Date, &Some(String::new())), Some(None));
    let read = read_patch(Reading::Date, &Some("2026-03-22".to_string()));
    let p = parse_datetime("2026-03-22").unwrap();
    assert_eq!(read, Some(Some(Ok(p))));
    assert_eq!(given_patch("", None).unwrap(), None);
    assert_eq!(given_patch("", Some(None)).unwrap(), Some(None));
    assert_eq!(given_patch("", Some(Some(Ok(p)))).unwrap(), Some(Some(p)));
    let err = given_patch("Error: ", Some(Some(Err("no".to_string())))).unwrap_err();
    assert_eq!(err.message, "Error: no");
}

#[test]
fn absent_dates_are_absent() {
    assert_eq!(read_opt(Reading::Moment, &None), None);
    let read = read_opt(Reading::Stamp, &Some("nothing".to_string()));
    assert_eq!(read, Some(Err(BAD.to_string())));
    assert_eq!(read_date(Reading::Date, "12:00").unwrap_err(), BAD);
    assert!(read_date(Reading::Moment, "12:00").is_ok());
    assert_eq!(given_date("", None).unwrap(), None);
    let err = given_date("Error parsing due_date: ", Some(Err(BAD.to_string()))).unwrap_err();
    assert_eq!(err.message, format!("Error parsing due_date: {BAD}"));
}

#[test]
fn minutes_are_kept() {
    let p = parse_datetime("2026-03-22 14:05").unwrap();
    let shown = Local.timestamp_opt(p.timestamp(), 0).unwrap();
    assert_eq!((shown.hour(), shown.minute(), shown.second()), (14, 5, 0));
}
