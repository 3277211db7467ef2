use chrono::Duration;
use time_banner::duration::Months;

/// The span of `count` months, as the library counts them.
fn months(count: i32) -> Duration {
    let span: time_banner::duration::Duration = Months::months(count);
    Duration::milliseconds(span.num_milliseconds())
}

/// The parsed duration, or the message of the failure.
fn parse_duration(text: &str) -> Result<Duration, String> {
    match time_banner::duration::parse_duration(text) {
        Ok(span) => Ok(Duration::milliseconds(span.num_milliseconds())),
        Err(e) => Err(e.message()),
    }
}

#[test]
fn duration_parse_empty() {
    assert_eq!(parse_duration(""), Ok(Duration::zero()));
    assert_eq!(parse_duration(" "), Ok(Duration::zero()));
    assert_eq!(parse_duration("  "), Ok(Duration::zero()));
}

#[test]
fn duration_parse_composite() {
    assert_eq!(
        parse_duration("1y2mon3w4d5h6m7s"),
        Ok(Duration::days(365)
            + Duration::hours(6) // leap year compensation
            + months(2)
            + Duration::weeks(3)
            + Duration::days(4)
            + Duration::hours(5)
            + Duration::minutes(6)
            + Duration::seconds(7)),
        "1y2mon3w4d5h6m7s"
    );
    assert_eq!(
        parse_duration("19year33weeks4d9min"),
        Ok(Duration::days(365 * 19)
            + Duration::hours(6 * 19)
            + Duration::days(33 * 7 + 4)
            + Duration::minutes(9)),
        "19year33weeks4d9min"
    );
}

#[test]
fn duration_parse_year() {
    assert_eq!(
        parse_duration("1y"),
        Ok(Duration::days(365) + Duration::hours(6))
    );
    assert_eq!(
        parse_duration("2year"),
        Ok(Duration::days(365 * 2) + Duration::hours(6 * 2))
    );
    assert_eq!(
        parse_duration("144years"),
        Ok(Duration::days(365 * 144) + Duration::hours(6 * 144))
    );
}

#[test]
fn duration_parse_month() {
    assert_eq!(Duration::zero(), parse_duration("0mon").unwrap());
    assert_eq!(months(3), parse_duration("3mon").unwrap());
    assert_eq!(months(-14), parse_duration("-14mon").unwrap());
    assert_eq!(months(144), parse_duration("+144months").unwrap());
}

#[test]
fn duration_parse_week() {
    assert_eq!(Duration::zero(), parse_duration("0w").unwrap());
    assert_eq!(Duration::weeks(7), parse_duration("7w").unwrap());
    assert_eq!(Duration::weeks(19), parse_duration("19week").unwrap());
    assert_eq!(Duration::weeks(433), parse_duration("433weeks").unwrap());
}

#[test]
fn duration_parse_day() {
    assert_eq!(Duration::zero(), parse_duration("0d").unwrap());
    assert_eq!(Duration::days(9), parse_duration("9d").unwrap());
    assert_eq!(Duration::days(43), parse_duration("43day").unwrap());
    assert_eq!(Duration::days(969), parse_duration("969days").unwrap());
}

#[test]
fn duration_parse_hour() {
    assert_eq!(Duration::zero(), parse_duration("0h").unwrap());
    assert_eq!(Duration::hours(4), parse_duration("4h").unwrap());
    assert_eq!(Duration::hours(150), parse_duration("150hour").unwrap());
    assert_eq!(Duration::hours(777), parse_duration("777hours").unwrap());
}

#[test]
fn duration_parse_minute() {
    assert_eq!(Duration::zero(), parse_duration("0m").unwrap());
    assert_eq!(Duration::minutes(5), parse_duration("5m").unwrap());
    assert_eq!(Duration::minutes(60), parse_duration("60min").unwrap());
    assert_eq!(
        Duration::minutes(999),
        parse_duration("999minutes").unwrap()
    );
}

#[test]
fn duration_parse_second() {
    assert_eq!(Duration::zero(), parse_duration("0s").unwrap());
    assert_eq!(Duration::seconds(6), parse_duration("6s").unwrap());
    assert_eq!(Duration::minutes(1), parse_duration("60sec").unwrap());
    assert_eq!(
        Duration::seconds(999),
        parse_duration("999seconds").unwrap()
    );
}
