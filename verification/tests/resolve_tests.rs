use chrono::{DateTime, TimeZone, Utc};
use time_banner::abbr::AbbreviationTable;
use time_banner::dataset::REFERENCE_DATASET;
use time_banner::error::{ParseErrorKind, TimeBannerError};
use time_banner::instant::UtcInstant;
use time_banner::offset::UtcOffset;
use time_banner::parse::{extract_absolute, DateSegmentOrder, ExtractionOptions};
use time_banner::render::OutputForm;
use time_banner::resolve::{
    instant_from_civil, is_signed, parse_epoch_into_datetime, parse_time_value, resolve,
    resolve_clock, resolve_fields, zone_offset, ResolvedInstant,
};

fn table() -> AbbreviationTable {
    AbbreviationTable::from_dataset(REFERENCE_DATASET).unwrap()
}

fn at(seconds: i64, nanos: u32) -> UtcInstant {
    UtcInstant::from_timestamp(seconds, nanos).unwrap()
}

fn some_now() -> UtcInstant {
    at(1_750_000_000, 123_456_789)
}

fn resolved(text: &str) -> ResolvedInstant {
    resolve(text, some_now(), &table(), ExtractionOptions::default()).unwrap()
}

fn kind(text: &str) -> ParseErrorKind {
    resolve(text, some_now(), &table(), ExtractionOptions::default()).unwrap_err().kind
}

fn datetime(instant: UtcInstant) -> DateTime<Utc> {
    DateTime::from_timestamp(instant.timestamp(), instant.subsec_nanos()).unwrap()
}

#[test]
fn absolute_expression_in_utc() {
    let r = resolved("2023-06-14-3");
    assert_eq!(datetime(r.utc_instant), Utc.with_ymd_and_hms(2023, 6, 14, 3, 0, 0).unwrap());
    assert_eq!(r.utc_instant.timestamp(), 1_686_711_600);
    assert_eq!(r.utc_instant.subsec_nanos(), 0);
    assert_eq!(r.source_offset.seconds(), 0);
    assert_eq!(r.display_intent, OutputForm::Absolute);
}

#[test]
fn absolute_expression_with_zone_and_fraction() {
    let r = resolved("2023.06.14.15-45-30,123-CST");
    // 15:45:30 in a zone six hours west of UTC.
    assert_eq!(datetime(r.utc_instant), Utc.with_ymd_and_hms(2023, 6, 14, 21, 45, 30).unwrap());
    assert_eq!(r.utc_instant.timestamp(), 1_686_779_130);
    assert_eq!(r.utc_instant.subsec_nanos(), 0);
    assert_eq!(r.source_offset.seconds(), -21600);
    assert_eq!(r.display_intent, OutputForm::Absolute);
}

#[test]
fn absolute_expression_east_of_utc() {
    let r = resolved("2023-01-01-00-30-JST");
    assert_eq!(datetime(r.utc_instant), Utc.with_ymd_and_hms(2022, 12, 31, 15, 30, 0).unwrap());
    assert_eq!(r.source_offset.seconds(), 32400);
}

#[test]
fn absolute_expression_with_too_many_time_segments() {
    assert_eq!(kind("2023-06-14-1-2-3-4-5"), ParseErrorKind::TooManySegments);
}

#[test]
fn absolute_expression_in_other_orders() {
    let options = ExtractionOptions { date_segment_order: DateSegmentOrder::DayMonthYear, strict: false };
    let r = resolve("14.06.2023 03:00", some_now(), &table(), options).unwrap();
    assert_eq!(r.utc_instant.timestamp(), 1_686_711_600);
    let options = ExtractionOptions { date_segment_order: DateSegmentOrder::MonthDayYear, strict: false };
    let r = resolve("06-14-2023-3", some_now(), &table(), options).unwrap();
    assert_eq!(r.utc_instant.timestamp(), 1_686_711_600);
}

#[test]
fn relative_seconds() {
    let r = resolved("+3600");
    assert_eq!(r.utc_instant.timestamp(), 1_750_003_600);
    assert_eq!(r.utc_instant.subsec_nanos(), 123_456_789);
    assert_eq!(r.source_offset.seconds(), 0);
    assert_eq!(r.display_intent, OutputForm::Relative);
    let r = resolved("-1800");
    assert_eq!(r.utc_instant.timestamp(), 1_749_998_200);
    assert_eq!(r.utc_instant.subsec_nanos(), 123_456_789);
    assert_eq!(r.display_intent, OutputForm::Relative);
    assert_eq!(resolved("+0").utc_instant, some_now());
    assert_eq!(resolved("-0").utc_instant, some_now());
}

#[test]
fn relative_durations() {
    let r = resolved("+1y2d");
    assert_eq!(r.utc_instant.timestamp(), 1_750_000_000 + 365 * 86400 + 6 * 3600 + 2 * 86400);
    assert_eq!(r.utc_instant.subsec_nanos(), 123_456_789);
    assert_eq!(r.display_intent, OutputForm::Relative);
    let r = resolved("-3h30m");
    assert_eq!(r.utc_instant.timestamp(), 1_750_000_000 - 12600);
    assert_eq!(resolved("+").utc_instant, some_now());
    assert_eq!(resolved("-").utc_instant, some_now());
}

#[test]
fn relative_across_a_second_boundary() {
    let now = at(-1, 999_999_999);
    let r = resolve("+1s", now, &table(), ExtractionOptions::default()).unwrap();
    assert_eq!(r.utc_instant.timestamp(), 0);
    assert_eq!(r.utc_instant.subsec_nanos(), 999_999_999);
    let r = resolve("-5", at(2, 500_000_000), &table(), ExtractionOptions::default()).unwrap();
    assert_eq!(r.utc_instant.timestamp(), -3);
    assert_eq!(r.utc_instant.subsec_nanos(), 500_000_000);
}

#[test]
fn relative_text_that_is_neither_number_nor_duration() {
    let error = resolve("+abc", some_now(), &table(), ExtractionOptions::default()).unwrap_err();
    assert_eq!(error.kind, ParseErrorKind::RelativeTime);
    assert_eq!(error.text, "+abc");
    assert_eq!(error.message(), "Could not parse relative time: +abc");
    assert_eq!(kind("-1d2y"), ParseErrorKind::RelativeTime);
    assert_eq!(kind("+99999999999999999999y"), ParseErrorKind::RelativeTime);
    assert_eq!(kind("-2023-06-14-3"), ParseErrorKind::RelativeTime);
    assert_eq!(kind("+ 5"), ParseErrorKind::RelativeTime);
}

#[test]
fn relative_beyond_the_timeline() {
    assert_eq!(kind("+9223372036854775807"), ParseErrorKind::Timestamp);
    assert_eq!(kind("-9223372036854775808"), ParseErrorKind::Timestamp);
    assert_eq!(kind("+300000y"), ParseErrorKind::Timestamp);
    assert_eq!(kind("-300000y"), ParseErrorKind::Timestamp);
    let last = at(8_210_266_876_799, 999_999_999);
    assert!(resolve("+0", last, &table(), ExtractionOptions::default()).is_ok());
    assert_eq!(
        resolve("+1", last, &table(), ExtractionOptions::default()).unwrap_err().kind,
        ParseErrorKind::Timestamp
    );
    let first = at(-8_334_601_228_800, 0);
    assert!(resolve("-0", first, &table(), ExtractionOptions::default()).is_ok());
    assert_eq!(
        resolve("-1", first, &table(), ExtractionOptions::default()).unwrap_err().kind,
        ParseErrorKind::Timestamp
    );
}

#[test]
fn epoch_seconds() {
    let r = resolved("1700000000");
    assert_eq!(datetime(r.utc_instant), DateTime::from_timestamp(1_700_000_000, 0).unwrap());
    assert_eq!(r.utc_instant.timestamp(), 1_700_000_000);
    assert_eq!(r.utc_instant.subsec_nanos(), 0);
    assert_eq!(r.source_offset.seconds(), 0);
    assert_eq!(r.display_intent, OutputForm::Absolute);
    assert_eq!(resolved("0").utc_instant.timestamp(), 0);
    assert_eq!(resolved("0001752170474").utc_instant.timestamp(), 1_752_170_474);
}

#[test]
fn epoch_seconds_do_not_depend_on_now() {
    let early = resolve("1700000000", at(0, 0), &table(), ExtractionOptions::default()).unwrap();
    let late = resolve("1700000000", at(4_000_000_000, 5), &table(), ExtractionOptions::default()).unwrap();
    assert_eq!(early, late);
    let again = resolve("1700000000", at(0, 0), &table(), ExtractionOptions::default()).unwrap();
    assert_eq!(early, again);
    let one = parse_time_value("1700000000", &table(), ExtractionOptions::default()).unwrap();
    let two = parse_time_value("1700000000", &table(), ExtractionOptions::default()).unwrap();
    assert_eq!(one, two);
    assert_eq!(one, early);
}

#[test]
fn absolute_expressions_do_not_depend_on_now() {
    let early = resolve("2023-06-14-3-CST", at(0, 0), &table(), ExtractionOptions::default()).unwrap();
    let late = resolve("2023-06-14-3-CST", at(4_000_000_000, 5), &table(), ExtractionOptions::default()).unwrap();
    assert_eq!(early, late);
}

#[test]
fn epoch_seconds_beyond_the_timeline() {
    assert_eq!(resolved("8210266876799").utc_instant.timestamp(), 8_210_266_876_799);
    let error = resolve("8210266876800", some_now(), &table(), ExtractionOptions::default()).unwrap_err();
    assert_eq!(error.kind, ParseErrorKind::Timestamp);
    assert_eq!(error.text, "8210266876800");
    assert_eq!(error.message(), "Invalid timestamp: 8210266876800");
    assert_eq!(kind("9223372036854775807"), ParseErrorKind::Timestamp);
}

#[test]
fn timeline_is_the_range_of_the_calendar() {
    assert_eq!(DateTime::<Utc>::MAX_UTC.timestamp(), 8_210_266_876_799);
    assert_eq!(DateTime::<Utc>::MIN_UTC.timestamp(), -8_334_601_228_800);
    assert!(parse_epoch_into_datetime(8_210_266_876_799).is_some());
    assert!(parse_epoch_into_datetime(8_210_266_876_800).is_none());
    assert!(parse_epoch_into_datetime(-8_334_601_228_800).is_some());
    assert!(parse_epoch_into_datetime(-8_334_601_228_801).is_none());
    assert!(parse_epoch_into_datetime(i64::MAX).is_none());
    assert!(parse_epoch_into_datetime(i64::MIN).is_none());
    assert!(DateTime::from_timestamp(8_210_266_876_799, 999_999_999).is_some());
    assert!(DateTime::from_timestamp(8_210_266_876_800, 0).is_none());
    assert!(DateTime::from_timestamp(-8_334_601_228_800, 0).is_some());
    assert!(DateTime::from_timestamp(-8_334_601_228_801, 999_999_999).is_none());
}

#[test]
fn instants_hold_seconds_and_nanoseconds() {
    let instant = at(-5, 250_000_000);
    assert_eq!(instant.timestamp(), -5);
    assert_eq!(instant.subsec_nanos(), 250_000_000);
    assert!(UtcInstant::from_timestamp(0, 1_000_000_000).is_none());
    assert!(UtcInstant::from_timestamp(59, 1_500_000_000).is_none());
    assert!(UtcInstant::from_timestamp(0, u32::MAX).is_none());
    assert_eq!(parse_epoch_into_datetime(1_431_648_000).unwrap(), at(1_431_648_000, 0));
}

#[test]
fn numbers_too_large_are_absolute_expressions() {
    assert_eq!(kind("9223372036854775808"), ParseErrorKind::AbsoluteShape);
    assert_eq!(kind("99999999999999999999"), ParseErrorKind::AbsoluteShape);
}

#[test]
fn anything_else_is_an_absolute_expression() {
    assert_eq!(kind("hello"), ParseErrorKind::AbsoluteShape);
    assert_eq!(kind(""), ParseErrorKind::AbsoluteShape);
    assert_eq!(kind("1y"), ParseErrorKind::AbsoluteShape);
    assert_eq!(kind("17000x"), ParseErrorKind::AbsoluteShape);
    assert_eq!(kind("\u{2212}3600"), ParseErrorKind::AbsoluteShape);
    assert_eq!(kind(" 1700000000"), ParseErrorKind::AbsoluteShape);
    for text in ["hello", "2023-06-14-3", "2023-13-01-0", "2023-06-14-3-XYZ"] {
        let direct = match extract_absolute(text, ExtractionOptions::default()) {
            Ok(fields) => resolve_fields(&fields, &table(), text),
            Err(e) => Err(e),
        };
        assert_eq!(resolve(text, some_now(), &table(), ExtractionOptions::default()), direct);
    }
}

#[test]
fn dates_that_do_not_exist() {
    let error = resolve("2023-13-01-0", some_now(), &table(), ExtractionOptions::default()).unwrap_err();
    assert_eq!(error.kind, ParseErrorKind::InvalidDate);
    assert_eq!(error.text, "2023-13-01-0");
    assert_eq!(error.message(), "Invalid calendar date: 2023-13-01-0");
    assert_eq!(kind("2023-06-32-0"), ParseErrorKind::InvalidDate);
    assert_eq!(kind("2023-00-10-0"), ParseErrorKind::InvalidDate);
    assert_eq!(kind("2023-06-00-0"), ParseErrorKind::InvalidDate);
    assert_eq!(kind("2023-02-29-0"), ParseErrorKind::InvalidDate);
    assert_eq!(kind("2023-04-31-0"), ParseErrorKind::InvalidDate);
    assert_eq!(kind("1900-02-29-0"), ParseErrorKind::InvalidDate);
    assert_eq!(kind("262143-01-01-0"), ParseErrorKind::InvalidDate);
    assert_eq!(kind("4294967295-01-01-0"), ParseErrorKind::InvalidDate);
    assert_eq!(resolved("2024-02-29-0").utc_instant.timestamp(), 1_709_164_800);
    assert_eq!(resolved("2000-02-29-0").utc_instant.timestamp(), 951_782_400);
    assert_eq!(resolved("1970-01-01-0").utc_instant.timestamp(), 0);
    assert_eq!(resolved("1969-12-31-23-59-59").utc_instant.timestamp(), -1);
    assert_eq!(resolved("0-01-01-0").utc_instant.timestamp(), -62_167_219_200);
}

#[test]
fn times_of_day_that_do_not_exist() {
    assert_eq!(kind("2023-06-14-24"), ParseErrorKind::InvalidDate);
    assert_eq!(kind("2023-06-14-23-60"), ParseErrorKind::InvalidDate);
    assert_eq!(kind("2023-06-14-23-59-60"), ParseErrorKind::InvalidDate);
    assert_eq!(kind("2023-06-14-13PM-61"), ParseErrorKind::AbsoluteShape);
    assert_eq!(resolved("2023-06-14-23-59-59").utc_instant.timestamp(), 1_686_787_199);
}

#[test]
fn end_of_the_timeline_in_another_zone() {
    assert_eq!(resolved("262142-12-31-23-59-59").utc_instant.timestamp(), 8_210_266_876_799);
    // One hour east of UTC the same fields lie an hour earlier.
    assert_eq!(resolved("262142-12-31-23-59-59-CET").utc_instant.timestamp(), 8_210_266_873_199);
    // West of UTC they lie behind the end of the timeline.
    let error = resolve("262142-12-31-23-59-59-CST", some_now(), &table(), ExtractionOptions::default()).unwrap_err();
    assert_eq!(error.kind, ParseErrorKind::Timestamp);
    assert_eq!(error.text, "262142-12-31-23-59-59-CST");
}

#[test]
fn unknown_zone() {
    let error = resolve("2023-06-14-3-XYZ", some_now(), &table(), ExtractionOptions::default()).unwrap_err();
    assert_eq!(error.kind, ParseErrorKind::UnknownAbbreviation);
    assert_eq!(error.text, "XYZ");
    assert_eq!(kind("2023-06-14-3-cst"), ParseErrorKind::UnknownAbbreviation);
}

#[test]
fn utc_needs_no_table() {
    let empty = AbbreviationTable::new();
    let r = resolve("2023-06-14-3", some_now(), &empty, ExtractionOptions::default()).unwrap();
    assert_eq!(r.utc_instant.timestamp(), 1_686_711_600);
    let r = resolve("2023-06-14-3-UTC", some_now(), &empty, ExtractionOptions::default()).unwrap();
    assert_eq!(r.utc_instant.timestamp(), 1_686_711_600);
    assert_eq!(zone_offset(&empty, "UTC").unwrap().seconds(), 0);
    assert_eq!(zone_offset(&empty, "CST").unwrap_err().kind, ParseErrorKind::UnknownAbbreviation);
    assert_eq!(zone_offset(&table(), "CST").unwrap().seconds(), -21600);
}

#[test]
fn civil_outcomes() {
    let west = UtcOffset::from_seconds(-21600).unwrap();
    assert_eq!(instant_from_civil(Some(1000), west, "x").unwrap(), at(22600, 0));
    assert_eq!(instant_from_civil(Some(1000), UtcOffset::utc(), "x").unwrap(), at(1000, 0));
    let error = instant_from_civil(None, west, "the text").unwrap_err();
    assert_eq!(error.kind, ParseErrorKind::InvalidDate);
    assert_eq!(error.text, "the text");
    assert_eq!(instant_from_civil(Some(i64::MAX), west, "x").unwrap_err().kind, ParseErrorKind::Timestamp);
    assert_eq!(instant_from_civil(Some(i64::MIN), UtcOffset::from_seconds(86399).unwrap(), "x").unwrap_err().kind, ParseErrorKind::Timestamp);
    assert_eq!(instant_from_civil(Some(8_210_266_876_799), west, "x").unwrap_err().kind, ParseErrorKind::Timestamp);
    assert!(instant_from_civil(Some(8_210_266_876_799), UtcOffset::from_seconds(1).unwrap(), "x").is_ok());
}

#[test]
fn clock_requests_resolve_to_now() {
    let r = resolve_clock(some_now());
    assert_eq!(r.utc_instant, some_now());
    assert_eq!(r.source_offset.seconds(), 0);
    assert_eq!(r.display_intent, OutputForm::Clock);
}

#[test]
fn signs() {
    assert!(is_signed("+1"));
    assert!(is_signed("-"));
    assert!(!is_signed(""));
    assert!(!is_signed("1+"));
    assert!(!is_signed("\u{2212}1"));
    assert!(!is_signed("\u{b1}1"));
}

#[test]
fn with_the_system_clock() {
    let before = Utc::now().timestamp();
    let r = parse_time_value("+3600", &table(), ExtractionOptions::default()).unwrap();
    let after = Utc::now().timestamp();
    assert!(before + 3600 <= r.utc_instant.timestamp());
    assert!(r.utc_instant.timestamp() <= after + 3600);
    assert_eq!(r.display_intent, OutputForm::Relative);
    let now = UtcInstant::now().unwrap();
    assert!(before <= now.timestamp());
    let r = parse_time_value("2023-06-14-3PM-CST", &table(), ExtractionOptions::default()).unwrap();
    assert_eq!(r.utc_instant.timestamp(), 1_686_776_400);
}

#[test]
fn failures_become_parse_errors_with_a_message() {
    assert_eq!(
        parse_time_value("+abc", &table(), ExtractionOptions::default()),
        Err(TimeBannerError::ParseError("Could not parse relative time: +abc".to_string()))
    );
    assert_eq!(
        parse_time_value("hello", &table(), ExtractionOptions::default()),
        Err(TimeBannerError::ParseError("Invalid absolute time format: hello".to_string()))
    );
    assert_eq!(
        parse_time_value("2023-06-14-3-XYZ", &table(), ExtractionOptions::default()),
        Err(TimeBannerError::ParseError("Unknown timezone abbreviation: XYZ".to_string()))
    );
    assert_eq!(
        parse_time_value("8210266876800", &table(), ExtractionOptions::default()),
        Err(TimeBannerError::ParseError("Invalid timestamp: 8210266876800".to_string()))
    );
}

#[test]
fn clock_shows_an_instant_of_the_timeline() {
    for _ in 0..1000 {
        let now = UtcInstant::now().expect("the clock always shows an instant");
        assert!(now.subsec_nanos() < 1_000_000_000);
        assert!(-8_334_601_228_800 <= now.timestamp());
        assert!(now.timestamp() <= 8_210_266_876_799);
        let reference = Utc::now();
        assert!((reference.timestamp() - now.timestamp()).abs() <= 1);
    }
}
