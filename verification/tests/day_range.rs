//! Tests of the time-range encoder: the concrete day-range cases, edge
//! dates, and a cross-check against an independent calendar implementation.

use chrono::TimeZone;
use chrono::offset::FixedOffset;
use siostail::ZonedDate;
use siostail::day_range_rfc3339;

fn zoned(year: u32, month: u32, day: u32, offset_seconds: i32) -> ZonedDate {
    ZonedDate::new(year, month, day, offset_seconds).unwrap()
}

#[test]
fn day_range_rfc3339_cest() {
    let date = zoned(2014, 04, 01, 3600 * 2);
    let (start_time, end_time) = day_range_rfc3339(&date);
    assert_eq!(&start_time, "2014-04-01T00:00:00+02:00");
    assert_eq!(&end_time, "2014-04-01T23:00:00+02:00");
}

#[test]
fn day_range_rfc3339_clt() {
    // The timezone was picked arbitrarily to be any but CET/CEST, in order
    // to test conformance with the API quirks¹ for such cases.
    //
    // ¹An apparent lack of timezone conversion functionality.
    let date = zoned(2014, 04, 01, -(3600 * 4));
    let (start_time, end_time) = day_range_rfc3339(&date);
    assert_eq!(&start_time, "2014-04-01T06:00:00+02:00");
    assert_eq!(&end_time, "2014-04-02T05:00:00+02:00");
}

#[test]
fn day_range_leap_day() {
    let date = zoned(2024, 2, 29, 0);
    let (start_time, end_time) = day_range_rfc3339(&date);
    assert_eq!(&start_time, "2024-02-29T02:00:00+02:00");
    assert_eq!(&end_time, "2024-03-01T01:00:00+02:00");
}

#[test]
fn day_range_crosses_year_boundary() {
    // A far-western offset pushes the end of New Year's Eve into the next
    // year at the reference offset.
    let date = zoned(2023, 12, 31, -(3600 * 11));
    let (start_time, end_time) = day_range_rfc3339(&date);
    assert_eq!(&start_time, "2023-12-31T13:00:00+02:00");
    assert_eq!(&end_time, "2024-01-01T12:00:00+02:00");
}

#[test]
fn day_range_start_in_previous_day() {
    // A far-eastern offset pulls local midnight before midnight at the
    // reference offset.
    let date = zoned(2014, 4, 1, 3600 * 12);
    let (start_time, end_time) = day_range_rfc3339(&date);
    assert_eq!(&start_time, "2014-03-31T14:00:00+02:00");
    assert_eq!(&end_time, "2014-04-01T13:00:00+02:00");
}

#[test]
fn day_range_agrees_with_chrono() {
    // Cross-check the calendar arithmetic against an independent
    // implementation on a spread of dates and offsets, including leap years
    // and both signs of offset.
    let cases: [(u32, u32, u32, i32); 8] = [
        (2014, 4, 1, 7200),
        (2014, 4, 1, -14400),
        (2000, 2, 29, 3600),
        (1900, 3, 1, -3600),
        (2021, 12, 31, 49500),
        (2022, 1, 1, -43200),
        (1970, 1, 1, 0),
        (2400, 2, 29, 1800),
    ];
    let reference = FixedOffset::east_opt(7200).unwrap();
    for (y, m, d, off) in cases {
        let date = zoned(y, m, d, off);
        let (start_time, end_time) = day_range_rfc3339(&date);
        let zone = FixedOffset::east_opt(off).unwrap();
        let start_chrono = zone
            .with_ymd_and_hms(y as i32, m, d, 0, 0, 0)
            .unwrap()
            .with_timezone(&reference)
            .to_rfc3339();
        let end_chrono = zone
            .with_ymd_and_hms(y as i32, m, d, 23, 0, 0)
            .unwrap()
            .with_timezone(&reference)
            .to_rfc3339();
        assert_eq!(start_time, start_chrono);
        assert_eq!(end_time, end_chrono);
    }
}

#[test]
fn zoned_date_rejects_invalid_dates() {
    assert!(ZonedDate::new(2014, 2, 30, 0).is_none());
    assert!(ZonedDate::new(2014, 13, 1, 0).is_none());
    assert!(ZonedDate::new(2014, 0, 1, 0).is_none());
    assert!(ZonedDate::new(2014, 1, 0, 0).is_none());
    assert!(ZonedDate::new(2100, 2, 29, 0).is_none());
    assert!(ZonedDate::new(0, 1, 1, 0).is_none());
    assert!(ZonedDate::new(9999, 1, 1, 0).is_none());
    assert!(ZonedDate::new(2014, 1, 1, 86400).is_none());
    assert!(ZonedDate::new(2014, 1, 1, -86400).is_none());
}

#[test]
fn zoned_date_accepts_valid_dates() {
    assert!(ZonedDate::new(2024, 2, 29, 0).is_some());
    assert!(ZonedDate::new(1, 1, 1, -86399).is_some());
    assert!(ZonedDate::new(9998, 12, 31, 86399).is_some());
    let date = ZonedDate::new(2014, 4, 1, 7200).unwrap();
    assert_eq!(date.year, 2014);
    assert_eq!(date.month, 4);
    assert_eq!(date.day, 1);
    assert_eq!(date.offset_seconds, 7200);
}
