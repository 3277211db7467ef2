use time_banner::parse::{ExtractAbsolute, ExtractedTime};

#[test]
fn extract_hour() {
    // 3:00 AM UTC
    assert_eq!("2023-06-14-3".to_string().extract_absolute(Default::default()).unwrap(), ExtractedTime {
        year: 2023,
        month: 6,
        day: 14,
        hour: 3,
        minute: 0,
        second: 0,
        timezone: "UTC".to_string(),
    });

    // 3:00 PM CST
    assert_eq!("2023.06.14.15-CST".to_string().extract_absolute(Default::default()), Ok(ExtractedTime {
        year: 2023,
        month: 6,
        day: 14,
        hour: 15,
        minute: 0,
        second: 0,
        timezone: "CST".to_string(),
    }));

    // 3:00 PM CST
    assert_eq!("2023-06-14-3PM-CST".to_string().extract_absolute(Default::default()), Ok(ExtractedTime {
        year: 2023,
        month: 6,
        day: 14,
        hour: 12 + 3,
        minute: 0,
        second: 0,
        timezone: "CST".to_string(),
    }));
}

#[test]
fn extract_minute() {
    // 3:45 AM UTC
    assert_eq!("2023-06-14-3-45".to_string().extract_absolute(Default::default()), Ok(ExtractedTime {
        year: 2023,
        month: 6,
        day: 14,
        hour: 3,
        minute: 45,
        second: 0,
        timezone: "UTC".to_string(),
    }));

    // 3:45 PM CST
    assert_eq!("2023.06.14.15-45-CST".to_string().extract_absolute(Default::default()), Ok(ExtractedTime {
        year: 2023,
        month: 6,
        day: 14,
        hour: 15,
        minute: 45,
        second: 0,
        timezone: "CST".to_string(),
    }));
}

#[test]
fn extract_seconds() {
    // 3:45:30 PM CST
    assert_eq!("2023.06.14.15-45-30-CST".to_string().extract_absolute(Default::default()), Ok(ExtractedTime {
        year: 2023,
        month: 6,
        day: 14,
        hour: 15,
        minute: 45,
        second: 30,
        timezone: "CST".to_string(),
    }));
}

#[test]
fn handle_milliseconds() {
    // Handle comma
    assert_eq!("2023.06.14.15-45-30,123".to_string().extract_absolute(Default::default()), Ok(ExtractedTime {
        year: 2023,
        month: 6,
        day: 14,
        hour: 12 + 3,
        minute: 45,
        second: 30,
        timezone: "UTC".to_string(),
    }));


    // Handle period
    assert_eq!("2023.06.14.15-45-30.456".to_string().extract_absolute(Default::default()), Ok(ExtractedTime {
        year: 2023,
        month: 6,
        day: 14,
        hour: 12 + 3,
        minute: 45,
        second: 30,
        timezone: "UTC".to_string(),
    }));

    // Handle comma and timezone
    assert_eq!("2023.06.14.15-45-30,123-CST".to_string().extract_absolute(Default::default()), Ok(ExtractedTime {
        year: 2023,
        month: 6,
        day: 14,
        hour: 15,
        minute: 45,
        second: 30,
        timezone: "CST".to_string(),
    }));
}
