use tasky::calendar::civil_of_instant;
use tasky::calendar::day_number_x;
use tasky::calendar::decode_instant;
use tasky::calendar::encode_instant;
use tasky::calendar::leap_year;
use tasky::dates::current_instant;
use tasky::dates::format_date;
use tasky::dates::format_datetime;
use tasky::dates::format_relative_time;
use tasky::dates::now_instant;
use tasky::dates::parse_date;
use tasky::dates::parse_date_parts;
use tasky::dates::relative_time_text;
use tasky::dates::today_end;
use tasky::dates::today_start;
use tasky::TaskyError;

#[test]
fn test_parse_date() {
    // ISO format
    let result = parse_date("2024-01-15");
    assert!(result.is_ok());

    // ISO with slashes
    let result = parse_date("2024/12/31");
    assert!(result.is_ok());

    // ISO with dots
    let result = parse_date("2024.10.10");
    assert!(result.is_ok());

    // month/day/year
    let result = parse_date("12/31/2024");
    assert!(result.is_ok());

    // day/month/year
    let result = parse_date("31/12/2024");
    assert!(result.is_ok());

    // abbreviated month name
    let result = parse_date("Dec 31, 2024");
    assert!(result.is_ok());

    // day then abbreviated month
    let result = parse_date("31 Dec 2024");
    assert!(result.is_ok());

    // full month name
    let result = parse_date("December 31, 2024");
    assert!(result.is_ok());

    // not a date
    let result = parse_date("invalid");
    assert!(result.is_err());
}

#[test]
fn test_format_relative_time() {
    let now = now_instant();
    let tomorrow = now + 86_400;
    let yesterday = now - 86_400;

    assert!(format_relative_time(tomorrow).contains("후"));
    assert!(format_relative_time(yesterday).contains("전"));
    assert_eq!(format_relative_time(now), "지금");
}

#[test]
fn test_parse_date_parts_values() {
    assert_eq!(parse_date_parts("2024-01-15"), Some((2024, 1, 15)));
    assert_eq!(parse_date_parts("2024/12/31"), Some((2024, 12, 31)));
    assert_eq!(parse_date_parts("2024.10.10"), Some((2024, 10, 10)));
    // the ambiguous all-numeric form resolves month-first
    assert_eq!(parse_date_parts("01/02/2024"), Some((2024, 1, 2)));
    // a day over 12 can only be day/month/year
    assert_eq!(parse_date_parts("31/12/2024"), Some((2024, 12, 31)));
    assert_eq!(parse_date_parts("Dec 31, 2024"), Some((2024, 12, 31)));
    assert_eq!(parse_date_parts("dec 31, 2024"), Some((2024, 12, 31)));
    assert_eq!(parse_date_parts("31 Dec 2024"), Some((2024, 12, 31)));
    assert_eq!(parse_date_parts("December 31, 2024"), Some((2024, 12, 31)));
    assert_eq!(parse_date_parts("31 December 2024"), Some((2024, 12, 31)));
    assert_eq!(parse_date_parts("2024-1-5"), Some((2024, 1, 5)));
    // rejected shapes and impossible days
    assert_eq!(parse_date_parts("2024-13-01"), None);
    assert_eq!(parse_date_parts("2024-02-30"), None);
    assert_eq!(parse_date_parts("2023-02-29"), None);
    assert_eq!(parse_date_parts("2024-02-29"), Some((2024, 2, 29)));
    assert_eq!(parse_date_parts("24-01-15"), None);
    assert_eq!(parse_date_parts("not-a-date"), None);
    assert_eq!(parse_date_parts(""), None);
}

#[test]
fn test_parse_date_error_carries_input() {
    match parse_date("not-a-date") {
        Err(TaskyError::InvalidDateFormat { date }) => assert_eq!(date, "not-a-date"),
        other => panic!("unexpected: {:?}", other),
    }
}

#[test]
fn test_parse_format_roundtrip() {
    // local midnight of a date renders back as the same local date
    let ts = parse_date("2024-01-15").unwrap();
    assert_eq!(format_date(ts), "2024-01-15");
    let ts = parse_date("31/12/2024").unwrap();
    assert_eq!(format_date(ts), "2024-12-31");
    let ts = parse_date("Dec 31, 2024").unwrap();
    assert_eq!(format_date(ts), "2024-12-31");
}

#[test]
fn test_encode_decode_roundtrip() {
    assert_eq!(encode_instant(0), "1970-01-01 00:00:00");
    assert_eq!(encode_instant(86_399), "1970-01-01 23:59:59");
    assert_eq!(encode_instant(951_827_696), "2000-02-29 12:34:56");
    assert_eq!(encode_instant(253_402_300_799), "9999-12-31 23:59:59");
    assert_eq!(encode_instant(-62_167_219_200), "0000-01-01 00:00:00");
    for ts in [0i64, -1, 1_700_000_000, 253_402_300_799, -62_167_219_200, 86_400 * 365] {
        assert_eq!(decode_instant(&encode_instant(ts)), Some(ts));
    }
    assert_eq!(decode_instant("2024-01-15 00:00:00"), Some(1_705_276_800));
    assert_eq!(decode_instant("2024-13-15 00:00:00"), None);
    assert_eq!(decode_instant("2024-01-15T00:00:00"), None);
    assert_eq!(decode_instant("garbage"), None);
}

#[test]
fn test_calendar_arithmetic() {
    assert!(leap_year(2000));
    assert!(leap_year(2024));
    assert!(!leap_year(1900));
    assert!(!leap_year(2023));
    // day numbers count from 0000-01-01; the Unix epoch lands on 719528
    assert_eq!(day_number_x(1970, 1, 1), 719_528);
    let c = civil_of_instant(0);
    assert_eq!((c.year, c.month, c.day, c.hour, c.minute, c.second), (1970, 1, 1, 0, 0, 0));
    let c = civil_of_instant(951_827_696);
    assert_eq!((c.year, c.month, c.day, c.hour, c.minute, c.second), (2000, 2, 29, 12, 34, 56));
}

#[test]
fn test_today_bounds_straddle_now() {
    let now = current_instant();
    let start = today_start();
    let end = today_end();
    assert!(start <= now);
    assert!(now <= end);
    // a local day is 23, 24 or 25 hours long, minus the final second
    let len = end - start;
    assert!(len == 23 * 3600 - 1 || len == 24 * 3600 - 1 || len == 25 * 3600 - 1);
}

#[test]
fn test_format_datetime_of_local_midnight() {
    // the local midnight of a parsed date renders as that date at 00:00,
    // whatever the machine's zone
    let ts = parse_date("2024-01-15").unwrap();
    assert_eq!(format_datetime(ts), "2024년 01월 15일 00:00");
}

#[test]
fn test_relative_time_phrases() {
    let now = 1_700_000_000;
    assert_eq!(relative_time_text(now, now), "지금");
    assert_eq!(relative_time_text(now + 90_000, now), "1일 후");
    assert_eq!(relative_time_text(now - 90_000, now), "1일 전");
    assert_eq!(relative_time_text(now + 7_200, now), "2시간 후");
    assert_eq!(relative_time_text(now - 7_200, now), "2시간 전");
    assert_eq!(relative_time_text(now + 120, now), "2분 후");
    assert_eq!(relative_time_text(now - 120, now), "2분 전");
    assert_eq!(relative_time_text(now + 59, now), "지금");
    assert_eq!(relative_time_text(now + 86_400 * 12, now), "12일 후");
}
