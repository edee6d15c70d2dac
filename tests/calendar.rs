use santral_core::calendar::{
    normalize_range, parse_range_request, range_from_parsed, Day, DayRange, RangeError, SapmaQuery,
};

const JULY_1: i32 = 739433;

#[test]
fn parse_reads_iso_dates() {
    assert_eq!(Day::parse("2025-07-01"), Some(Day { n: JULY_1 }));
    assert_eq!(Day::parse("1970-01-01"), Some(Day { n: 719163 }));
    assert_eq!(Day::parse("2025-13-01"), None);
    assert_eq!(Day::parse("yesterday"), None);
}

#[test]
fn day_start_is_utc_midnight() {
    let d = Day { n: JULY_1 };
    assert_eq!(d.start_timestamp(), 1751328000);
    assert_eq!(d.hour_start(23), 1751328000 + 23 * 3600);
    assert_eq!(Day { n: 719163 }.start_timestamp(), 0);
}

#[test]
fn single_day_request_normalizes_to_one_day() {
    let r = parse_range_request(Some("2025-07-01"), Some("2025-07-01"), Day { n: 1 });
    assert_eq!(
        r,
        Ok(DayRange { start: Day { n: JULY_1 }, end: Day { n: JULY_1 + 1 } })
    );
    assert_eq!(r.unwrap().days(), 1);
}

#[test]
fn end_before_start_normalizes_to_one_day() {
    let r = normalize_range(Day { n: JULY_1 }, Day { n: JULY_1 - 5 });
    assert_eq!(r, Ok(DayRange { start: Day { n: JULY_1 }, end: Day { n: JULY_1 + 1 } }));
}

#[test]
fn forty_day_range_is_rejected() {
    let r = parse_range_request(Some("2025-07-01"), Some("2025-08-10"), Day { n: 1 });
    assert_eq!(r, Err(RangeError::TooLong));
}

#[test]
fn thirty_one_days_pass_and_thirty_two_do_not() {
    assert_eq!(
        normalize_range(Day { n: 100 }, Day { n: 131 }),
        Ok(DayRange { start: Day { n: 100 }, end: Day { n: 131 } })
    );
    assert_eq!(normalize_range(Day { n: 100 }, Day { n: 132 }), Err(RangeError::TooLong));
}

#[test]
fn malformed_dates_are_reported() {
    assert_eq!(
        parse_range_request(Some("07/01/2025"), Some("2025-07-02"), Day { n: 1 }),
        Err(RangeError::InvalidStart)
    );
    assert_eq!(
        parse_range_request(Some("2025-07-01"), Some("2025-7-x"), Day { n: 1 }),
        Err(RangeError::InvalidEnd)
    );
    assert_eq!(range_from_parsed(None, None), Err(RangeError::InvalidStart));
    assert_eq!(range_from_parsed(Some(Day { n: 5 }), None), Err(RangeError::InvalidEnd));
}

#[test]
fn missing_texts_default_to_today_and_one_day() {
    let today = Day { n: JULY_1 };
    assert_eq!(
        parse_range_request(None, None, today),
        Ok(DayRange { start: today, end: Day { n: JULY_1 + 1 } })
    );
    assert_eq!(
        parse_range_request(Some("2025-07-01"), None, Day { n: 1 }),
        Ok(DayRange { start: today, end: Day { n: JULY_1 + 1 } })
    );
}

#[test]
fn last_day_has_no_successor() {
    let last = Day { n: i32::MAX };
    assert_eq!(last.next(), last);
    assert_eq!(normalize_range(last, last), Ok(DayRange { start: last, end: last }));
    assert_eq!(DayRange { start: last, end: last }.days(), 0);
}

#[test]
fn sapma_query_defaults_to_today() {
    let today = Day { n: 42 };
    assert_eq!(SapmaQuery { gun: None }.day_or(today), Some(today));
    assert_eq!(
        SapmaQuery { gun: Some("2025-07-01".to_string()) }.day_or(today),
        Some(Day { n: JULY_1 })
    );
    assert_eq!(SapmaQuery { gun: Some("x".to_string()) }.day_or(today), None);
}
