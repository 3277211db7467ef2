use std::str::FromStr;
use time_banner::error::ParseErrorKind;
use time_banner::parse::{extract_absolute, DateSegmentOrder, ExtractedTime, ExtractionOptions};
use time_banner::separator::Separable;

fn fields(year: u32, month: u32, day: u32, hour: u32, minute: u32, second: u32, timezone: &str) -> ExtractedTime {
    ExtractedTime { year, month, day, hour, minute, second, timezone: timezone.to_string() }
}

fn extract(text: &str) -> ExtractedTime {
    extract_absolute(text, ExtractionOptions::default()).unwrap()
}

fn kind(text: &str) -> ParseErrorKind {
    extract_absolute(text, ExtractionOptions::default()).unwrap_err().kind
}

fn with_order(order: DateSegmentOrder) -> ExtractionOptions {
    ExtractionOptions { date_segment_order: order, strict: false }
}

#[test]
fn separators_are_five_characters() {
    for c in [' ', '-', ',', ':', '.'] {
        assert!(c.is_separator(), "{:?}", c);
    }
    for c in ['_', '/', '\t', '+', 'a', '0', ';', '\u{2212}'] {
        assert!(!c.is_separator(), "{:?}", c);
    }
}

#[test]
fn default_order_is_year_month_day() {
    assert_eq!(DateSegmentOrder::default(), DateSegmentOrder::YearMonthDay);
    assert_eq!(ExtractionOptions::default().date_segment_order, DateSegmentOrder::YearMonthDay);
    assert!(!ExtractionOptions::default().strict);
}

#[test]
fn orders_have_names() {
    assert_eq!(DateSegmentOrder::from_name("YMD"), Some(DateSegmentOrder::YearMonthDay));
    assert_eq!(DateSegmentOrder::from_name("MDY"), Some(DateSegmentOrder::MonthDayYear));
    assert_eq!(DateSegmentOrder::from_name("DMY"), Some(DateSegmentOrder::DayMonthYear));
    assert_eq!(DateSegmentOrder::from_name("ymd"), None);
    assert_eq!(DateSegmentOrder::from_name("YDM"), None);
    assert_eq!(DateSegmentOrder::from_name(""), None);
    assert_eq!(DateSegmentOrder::from_str("DMY"), Ok(DateSegmentOrder::DayMonthYear));
    assert_eq!(DateSegmentOrder::from_str("dmy"), Err(()));
}

#[test]
fn date_segments_follow_the_order() {
    assert_eq!(
        extract_absolute("2023-06-14-3", with_order(DateSegmentOrder::YearMonthDay)).unwrap(),
        fields(2023, 6, 14, 3, 0, 0, "UTC")
    );
    assert_eq!(
        extract_absolute("06-14-2023-3", with_order(DateSegmentOrder::MonthDayYear)).unwrap(),
        fields(2023, 6, 14, 3, 0, 0, "UTC")
    );
    assert_eq!(
        extract_absolute("14-06-2023-3", with_order(DateSegmentOrder::DayMonthYear)).unwrap(),
        fields(2023, 6, 14, 3, 0, 0, "UTC")
    );
}

#[test]
fn every_separator_parts_segments() {
    assert_eq!(extract("2023 06 14 15 45 30 CST"), fields(2023, 6, 14, 15, 45, 30, "CST"));
    assert_eq!(extract("2023:06:14:15:45:30:CST"), fields(2023, 6, 14, 15, 45, 30, "CST"));
    assert_eq!(extract("2023,06,14,15,45,30,CST"), fields(2023, 6, 14, 15, 45, 30, "CST"));
    assert_eq!(extract("2023-06-14 15:45:30.123 JST"), fields(2023, 6, 14, 15, 45, 30, "JST"));
}

#[test]
fn time_of_day_is_optional() {
    assert_eq!(extract("2023-06-14-"), fields(2023, 6, 14, 0, 0, 0, "UTC"));
    assert_eq!(extract("2023-06-14-CST"), fields(2023, 6, 14, 0, 0, 0, "CST"));
    assert_eq!(extract("2023-06-14--CST"), fields(2023, 6, 14, 0, 0, 0, "CST"));
}

#[test]
fn the_third_separator_is_required() {
    assert_eq!(kind("2023-06-14"), ParseErrorKind::AbsoluteShape);
    assert_eq!(kind("2023-06"), ParseErrorKind::AbsoluteShape);
    assert_eq!(kind("2023"), ParseErrorKind::AbsoluteShape);
}

#[test]
fn zone_is_two_to_five_letters() {
    assert_eq!(extract("2023-06-14-3-NT").timezone, "NT");
    assert_eq!(extract("2023-06-14-3-ACWST").timezone, "ACWST");
    assert_eq!(extract("2023-06-14-3-cst").timezone, "cst");
    assert_eq!(extract("2023-06-14-3JST").timezone, "JST");
    assert_eq!(kind("2023-06-14-3-Z"), ParseErrorKind::AbsoluteShape);
    assert_eq!(kind("2023-06-14-3-ABCDEF"), ParseErrorKind::AbsoluteShape);
    assert_eq!(kind("2023-06-14-3-C5T"), ParseErrorKind::AbsoluteShape);
    assert_eq!(kind("2023-06-14-3-CST-"), ParseErrorKind::AbsoluteShape);
    assert_eq!(kind("2023-06-14-3-"), ParseErrorKind::AbsoluteShape);
}

#[test]
fn twelve_hour_clock() {
    assert_eq!(extract("2023-06-14-3PM").hour, 15);
    assert_eq!(extract("2023-06-14-3AM").hour, 3);
    assert_eq!(extract("2023-06-14-12AM").hour, 0);
    assert_eq!(extract("2023-06-14-12PM").hour, 12);
    assert_eq!(extract("2023-06-14-11PM").hour, 23);
    assert_eq!(extract("2023-06-14-15PM").hour, 15);
    assert_eq!(extract("2023-06-14-3-45PM-CST"), fields(2023, 6, 14, 15, 45, 0, "CST"));
    assert_eq!(extract("2023-06-14-3PM CST"), fields(2023, 6, 14, 15, 0, 0, "CST"));
    // A marker that runs on into letters is an abbreviation.
    assert_eq!(extract("2023-06-14-3PMT"), fields(2023, 6, 14, 3, 0, 0, "PMT"));
    // Behind a separator stands an abbreviation, not a marker.
    assert_eq!(extract("2023-06-14-3-PM"), fields(2023, 6, 14, 3, 0, 0, "PM"));
}

#[test]
fn fraction_of_a_second_is_dropped() {
    assert_eq!(extract("2023.06.14.15-45-30,123"), fields(2023, 6, 14, 15, 45, 30, "UTC"));
    assert_eq!(extract("2023.06.14.15-45-30.99999999999999999999"), fields(2023, 6, 14, 15, 45, 30, "UTC"));
}

#[test]
fn five_time_segments_are_too_many() {
    let error = extract_absolute("2023-06-14-1-2-3-4-5", ExtractionOptions::default()).unwrap_err();
    assert_eq!(error.kind, ParseErrorKind::TooManySegments);
    assert_eq!(error.text, "2023-06-14-1-2-3-4-5");
    assert_eq!(error.message(), "Invalid time format: too many segments: 2023-06-14-1-2-3-4-5");
    assert_eq!(kind("2023-06-14-1-2-3-4-5-6"), ParseErrorKind::TooManySegments);
    assert_eq!(kind("2023-06-14-1-2-3-4-5-CST"), ParseErrorKind::TooManySegments);
    assert_eq!(extract("2023-06-14-1-2-3-4"), fields(2023, 6, 14, 1, 2, 3, "UTC"));
}

#[test]
fn a_segment_that_overflows_is_named() {
    let error = extract_absolute("4294967296-06-14-3", ExtractionOptions::default()).unwrap_err();
    assert_eq!(error.kind, ParseErrorKind::SegmentNumber);
    assert_eq!(error.text, "4294967296");
    assert_eq!(error.message(), "Could not parse segment: 4294967296");
    let error = extract_absolute("2023-06-14-3-99999999999-5", ExtractionOptions::default()).unwrap_err();
    assert_eq!(error.kind, ParseErrorKind::SegmentNumber);
    assert_eq!(error.text, "99999999999");
    assert_eq!(extract("4294967295-06-14-3").year, 4294967295);
}

#[test]
fn fields_are_taken_as_written() {
    assert_eq!(extract("2023-13-32-25-61-61"), fields(2023, 13, 32, 25, 61, 61, "UTC"));
    assert_eq!(extract("0-0-0-0"), fields(0, 0, 0, 0, 0, 0, "UTC"));
    assert_eq!(extract("002023-006-014-003"), fields(2023, 6, 14, 3, 0, 0, "UTC"));
}

#[test]
fn absolute_text_of_another_shape_fails() {
    for text in ["", "hello", "2023/06/14 3", "2023--06-14-3", "-2023-06-14-3", "2023-06-14-3--45", "2023-06-14-3-45--CST", "2023-06-14-x", "a-b-c-d", "2023-06-14-3 PM CST"] {
        let error = extract_absolute(text, ExtractionOptions::default()).unwrap_err();
        assert_eq!(error.kind, ParseErrorKind::AbsoluteShape, "{}", text);
        assert_eq!(error.text, text);
    }
    assert_eq!(
        extract_absolute("hello", ExtractionOptions::default()).unwrap_err().message(),
        "Invalid absolute time format: hello"
    );
}
