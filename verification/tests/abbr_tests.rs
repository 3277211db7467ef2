use chrono::FixedOffset;
use time_banner::abbr::{parse_abbreviation, parse_timezone_line, AbbreviationTable};
use time_banner::dataset::REFERENCE_DATASET;
use time_banner::error::ParseErrorKind;

fn table() -> AbbreviationTable {
    AbbreviationTable::from_dataset(REFERENCE_DATASET).expect("the reference dataset is well-formed")
}

fn fixed(abbreviation: &str) -> FixedOffset {
    let offset = parse_abbreviation(&table(), abbreviation).unwrap();
    FixedOffset::east_opt(offset.seconds()).unwrap()
}

#[test]
fn parse_offset() {
    assert_eq!(fixed("CST"), FixedOffset::west_opt(6 * 3600).unwrap());
}

#[test]
fn test_parse_cst() {
    // CST (Central Standard Time) is UTC-6
    let cst = fixed("CST");
    assert_eq!(cst, FixedOffset::west_opt(6 * 3600).unwrap());
}

#[test]
fn test_parse_est() {
    // EST (Eastern Standard Time) is UTC-5
    let est = fixed("EST");
    assert_eq!(est, FixedOffset::west_opt(5 * 3600).unwrap());
}

#[test]
fn test_parse_utc() {
    // UTC should be zero offset
    let utc = fixed("UTC");
    assert_eq!(utc, FixedOffset::east_opt(0).unwrap());
}

#[test]
fn test_parse_unknown() {
    // Unknown abbreviation should return error
    let result = parse_abbreviation(&table(), "INVALID");
    assert!(result.is_err());
    assert!(result
        .unwrap_err()
        .message()
        .contains("Unknown timezone abbreviation"));
}

#[test]
fn test_parse_positive_offset() {
    // JST (Japan Standard Time) is UTC+9
    let jst = fixed("JST");
    assert_eq!(jst, FixedOffset::east_opt(9 * 3600).unwrap());
}

#[test]
fn lookup_gives_the_seconds_of_each_zone() {
    let table = table();
    assert_eq!(table.lookup("CST").unwrap().seconds(), -21600);
    assert_eq!(table.lookup("JST").unwrap().seconds(), 32400);
    assert_eq!(table.lookup("UTC").unwrap().seconds(), 0);
    assert_eq!(table.lookup("IST").unwrap().seconds(), 19800);
    assert_eq!(table.lookup("NPT").unwrap().seconds(), 20700);
    assert_eq!(table.lookup("MART").unwrap().seconds(), -34200);
    assert_eq!(table.lookup("LINT").unwrap().seconds(), 50400);
    assert_eq!(table.lookup("GMT").unwrap().seconds(), 0);
}

#[test]
fn lookup_of_unknown_abbreviation_names_it() {
    let error = table().lookup("INVALID").unwrap_err();
    assert_eq!(error.kind, ParseErrorKind::UnknownAbbreviation);
    assert_eq!(error.text, "INVALID");
    assert_eq!(error.message(), "Unknown timezone abbreviation: INVALID");
}

#[test]
fn lookup_is_case_sensitive_and_exact() {
    let table = table();
    assert!(table.lookup("cst").is_err());
    assert!(table.lookup("Cst").is_err());
    assert!(table.lookup("CS").is_err());
    assert!(table.lookup("CST ").is_err());
    assert!(table.lookup("").is_err());
}

#[test]
fn first_entry_of_an_abbreviation_wins() {
    let dataset = "CST \tCentral Standard Time \tUTC\u{2212}06\nCST \tChina Standard Time \tUTC+08\nJST \tJapan Standard Time \tUTC+09\nCST \tCuba Standard Time \tUTC\u{2212}05\n";
    let table = AbbreviationTable::from_dataset(dataset).unwrap();
    assert_eq!(table.len(), 2);
    assert_eq!(table.lookup("CST").unwrap().seconds(), -21600);
    assert_eq!(table.lookup("JST").unwrap().seconds(), 32400);
}

#[test]
fn reference_dataset_holds_each_abbreviation_once() {
    let table = table();
    let mut keys: Vec<&str> = REFERENCE_DATASET
        .lines()
        .filter(|line| !line.trim().is_empty() && !line.trim().starts_with('#'))
        .map(|line| line.split('\t').next().unwrap().trim())
        .collect();
    keys.sort();
    keys.dedup();
    assert_eq!(table.len(), keys.len());
    for key in keys {
        assert!(table.lookup(key).is_ok());
    }
}

#[test]
fn blank_lines_and_comments_hold_no_entry() {
    assert!(parse_timezone_line("").unwrap().is_none());
    assert!(parse_timezone_line("   ").unwrap().is_none());
    assert!(parse_timezone_line("# a comment").unwrap().is_none());
    assert!(parse_timezone_line("  # an indented comment").unwrap().is_none());
    let table = AbbreviationTable::from_dataset("\n# nothing here\n\n").unwrap();
    assert_eq!(table.len(), 0);
    assert_eq!(AbbreviationTable::from_dataset("").unwrap().len(), 0);
}

#[test]
fn a_line_gives_its_abbreviation_and_offset() {
    let entry = parse_timezone_line("IST \tIndian Standard Time \tUTC+05:30")
        .unwrap()
        .unwrap();
    assert_eq!(entry.abbreviation(), "IST");
    assert_eq!(entry.offset().seconds(), 19800);
    let entry = parse_timezone_line("NST\tNewfoundland Standard Time\tUTC-03:30\r")
        .unwrap()
        .unwrap();
    assert_eq!(entry.abbreviation(), "NST");
    assert_eq!(entry.offset().seconds(), -12600);
    let entry = parse_timezone_line("WET \tWestern European Time \tUTC\u{b1}00")
        .unwrap()
        .unwrap();
    assert_eq!(entry.offset().seconds(), 0);
}

#[test]
fn malformed_lines_fail_the_build() {
    let error = parse_timezone_line("cst \tlower case \tUTC+01").unwrap_err();
    assert_eq!(error.kind, ParseErrorKind::DatasetLine);
    assert_eq!(error.text, "cst \tlower case \tUTC+01");
    assert_eq!(
        parse_timezone_line("CST Central Standard Time UTC-06").unwrap_err().kind,
        ParseErrorKind::DatasetLine
    );
    assert_eq!(
        parse_timezone_line("CST \t\tUTC-06").unwrap_err().kind,
        ParseErrorKind::DatasetLine
    );
    assert_eq!(
        parse_timezone_line("CST \tCentral Standard Time \tGMT-06").unwrap_err().kind,
        ParseErrorKind::DatasetLine
    );
    assert_eq!(
        parse_timezone_line("CST \tCentral Standard Time \tUTC-6").unwrap_err().kind,
        ParseErrorKind::OffsetShape
    );
    assert_eq!(
        parse_timezone_line("CST \tCentral Standard Time \tUTC-24").unwrap_err().kind,
        ParseErrorKind::OffsetHours
    );
    let error = AbbreviationTable::from_dataset("JST \tJapan \tUTC+09\nbroken\nKST \tKorea \tUTC+09\n")
        .unwrap_err();
    assert_eq!(error.kind, ParseErrorKind::DatasetLine);
    assert_eq!(error.text, "broken");
}
