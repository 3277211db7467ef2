//! Absolute expressions: three date segments, an optional time of day and
//! an optional timezone abbreviation, such as `2023.06.14.15-45-30,123-CST`.

use vstd::prelude::*;
use vstd::string::*;
use crate::error::{Failure, ParseError, ParseErrorKind};
use crate::separator::{is_separator_char, Separable};
use crate::text::{
    all_digits, chars_of, decimal_value, has_class, is_alpha, is_digit, lemma_run_end,
    parse_digits, run_end, scan_run, slice_is, CharClass,
};

verus! {

/// The order in which the three date segments are read.
#[derive(Debug, Clone, Copy, PartialEq, Eq, Structural)]
pub enum DateSegmentOrder {
    YearMonthDay,
    MonthDayYear,
    DayMonthYear,
}

impl Default for DateSegmentOrder {
    fn default() -> (r: DateSegmentOrder)
        ensures
            r == DateSegmentOrder::YearMonthDay,
    {
        DateSegmentOrder::YearMonthDay
    }
}

/// The order that `s` names: `YMD`, `MDY` or `DMY`, case-sensitive.
pub open spec fn order_of_name(s: Seq<char>) -> Option<DateSegmentOrder> {
    if s == "YMD"@ {
        Some(DateSegmentOrder::YearMonthDay)
    } else if s == "MDY"@ {
        Some(DateSegmentOrder::MonthDayYear)
    } else if s == "DMY"@ {
        Some(DateSegmentOrder::DayMonthYear)
    } else {
        None
    }
}

impl DateSegmentOrder {
    /// Reads the name of an order: `YMD`, `MDY` or `DMY`, case-sensitive.
    pub fn from_name(s: &str) -> (r: Option<DateSegmentOrder>)
        ensures
            r == order_of_name(s@),
    {
        let chars = chars_of(s);
        let n = chars.len();
        assert(chars@.subrange(0, n as int) =~= s@);
        if slice_is(&chars, 0, n, "YMD") {
            Some(DateSegmentOrder::YearMonthDay)
        } else if slice_is(&chars, 0, n, "MDY") {
            Some(DateSegmentOrder::MonthDayYear)
        } else if slice_is(&chars, 0, n, "DMY") {
            Some(DateSegmentOrder::DayMonthYear)
        } else {
            None
        }
    }
}

impl std::str::FromStr for DateSegmentOrder {
    type Err = ();

    fn from_str(s: &str) -> (r: Result<DateSegmentOrder, ()>)
        ensures
            match order_of_name(s@) {
                Some(order) => r == Ok::<DateSegmentOrder, ()>(order),
                None => r is Err,
            },
    {
        match DateSegmentOrder::from_name(s) {
            Some(order) => Ok(order),
            None => Err(()),
        }
    }
}

/// How an absolute expression is read.
#[derive(Debug, Clone, Copy, PartialEq, Eq, Structural)]
pub struct ExtractionOptions {
    pub date_segment_order: DateSegmentOrder,
    pub strict: bool,
}

impl Default for ExtractionOptions {
    fn default() -> (r: ExtractionOptions)
        ensures
            r == (ExtractionOptions {
                date_segment_order: DateSegmentOrder::YearMonthDay,
                strict: false,
            }),
    {
        ExtractionOptions { date_segment_order: DateSegmentOrder::YearMonthDay, strict: false }
    }
}

/// The calendar fields of an absolute expression as they were written,
/// before the timezone is resolved.
#[derive(Debug, Clone, PartialEq, Eq)]
pub struct ExtractedTime {
    pub year: u32,
    pub month: u32,
    pub day: u32,
    pub hour: u32,
    pub minute: u32,
    pub second: u32,
    pub timezone: String,
}

/// The calendar fields of an absolute expression, as a mathematical value.
pub struct Fields {
    pub year: int,
    pub month: int,
    pub day: int,
    pub hour: int,
    pub minute: int,
    pub second: int,
    pub timezone: Seq<char>,
}

impl View for ExtractedTime {
    type V = Fields;

    open spec fn view(&self) -> Fields {
        Fields {
            year: self.year as int,
            month: self.month as int,
            day: self.day as int,
            hour: self.hour as int,
            minute: self.minute as int,
            second: self.second as int,
            timezone: self.timezone@,
        }
    }
}

/// A stretch of the text: where it starts and where it ends.
pub type Range = (int, int);

/// The marker that follows a time on the twelve-hour clock.
#[derive(Debug, Clone, Copy, PartialEq, Eq, Structural)]
pub enum Meridiem {
    Am,
    Pm,
}

/// The parts that an absolute expression is made of.
pub struct Shape {
    /// The three date segments.
    pub first: Range,
    pub second: Range,
    pub third: Range,
    /// The segments of the time of day.
    pub time: Seq<Range>,
    /// The marker behind the time of day.
    pub meridiem: Option<Meridiem>,
    /// The timezone abbreviation.
    pub zone: Option<Range>,
}

/// The numeric segments that stand at `i` and behind it, each parted from
/// the next by one separator, added to `acc`.
pub open spec fn segments_from(s: Seq<char>, i: int, acc: Seq<Range>) -> Seq<Range>
    decreases s.len() - i,
{
    let d = run_end(s, i, CharClass::Digit);
    if !(0 <= i < d <= s.len()) {
        acc
    } else if d + 1 < s.len() && is_separator_char(s[d]) && is_digit(s[d + 1]) {
        segments_from(s, d + 1, acc.push((i, d)))
    } else {
        acc.push((i, d))
    }
}

/// Where the time of day ends: behind its last segment, or where it would
/// start.
pub open spec fn time_end(time: Seq<Range>, start: int) -> int {
    if time.len() > 0 {
        time.last().1
    } else {
        start
    }
}

/// The marker that stands at `p`: `AM` or `PM`, not followed by a letter.
pub open spec fn meridiem_at(s: Seq<char>, p: int) -> Option<Meridiem> {
    if 0 <= p && p + 2 <= s.len() && (p + 2 == s.len() || !is_alpha(s[p + 2])) {
        if s.subrange(p, p + 2) == "AM"@ {
            Some(Meridiem::Am)
        } else if s.subrange(p, p + 2) == "PM"@ {
            Some(Meridiem::Pm)
        } else {
            None
        }
    } else {
        None
    }
}

/// The timezone abbreviation that fills `s` from `p` to its end: two to
/// five letters, with or without a separator before them. The outer option
/// is `None` where something else stands there.
pub open spec fn zone_at(s: Seq<char>, p: int) -> Option<Option<Range>> {
    if p >= s.len() {
        Some(None)
    } else {
        let q = if is_separator_char(s[p]) {
            p + 1
        } else {
            p
        };
        let e = run_end(s, q, CharClass::Alpha);
        if e == s.len() && 2 <= e - q <= 5 {
            Some(Some((q, e)))
        } else {
            None
        }
    }
}

/// The parts of the absolute expression `s`; `None` where `s` is none.
///
/// An absolute expression is three numeric segments, each followed by a
/// separator; then up to any number of numeric segments for the time of
/// day, parted by separators, with `AM` or `PM` behind the last; then a
/// timezone abbreviation of two to five letters.
pub open spec fn absolute_shape(s: Seq<char>) -> Option<Shape> {
    let d1 = run_end(s, 0, CharClass::Digit);
    let d2 = run_end(s, d1 + 1, CharClass::Digit);
    let d3 = run_end(s, d2 + 1, CharClass::Digit);
    if 0 < d1 < s.len() && is_separator_char(s[d1]) && d1 + 1 < d2 < s.len() && is_separator_char(
        s[d2],
    ) && d2 + 1 < d3 < s.len() && is_separator_char(s[d3]) {
        let time = segments_from(s, d3 + 1, Seq::<Range>::empty());
        let p = time_end(time, d3 + 1);
        let meridiem = if time.len() > 0 {
            meridiem_at(s, p)
        } else {
            None
        };
        let q = if meridiem is Some {
            p + 2
        } else {
            p
        };
        match zone_at(s, q) {
            Some(zone) => Some(
                Shape { first: (0, d1), second: (d1 + 1, d2), third: (d2 + 1, d3), time, meridiem, zone },
            ),
            None => None,
        }
    } else {
        None
    }
}

/// The number that the segment `r` of `s` spells, if it fits 32 bits.
pub open spec fn segment_value(s: Seq<char>, r: Range) -> Result<int, Failure> {
    let digits = s.subrange(r.0, r.1);
    if decimal_value(digits) <= u32::MAX {
        Ok(decimal_value(digits))
    } else {
        Err(Failure { kind: ParseErrorKind::SegmentNumber, text: digits })
    }
}

/// The number that the segment `k` of the time of day spells; zero where
/// the time of day has no such segment.
pub open spec fn time_value(s: Seq<char>, time: Seq<Range>, k: int) -> Result<int, Failure> {
    if 0 <= k < time.len() {
        segment_value(s, time[k])
    } else {
        Ok(0)
    }
}

/// The hour on the 24-hour clock that `hour` with `meridiem` stands for.
pub open spec fn apply_meridiem(hour: int, meridiem: Option<Meridiem>) -> int {
    match meridiem {
        Some(Meridiem::Pm) => if hour < 12 {
            hour + 12
        } else {
            hour
        },
        Some(Meridiem::Am) => if hour == 12 {
            0
        } else {
            hour
        },
        None => hour,
    }
}

/// Year, month and day of three date segments read in `order`.
pub open spec fn order_date(order: DateSegmentOrder, first: int, second: int, third: int) -> (
    int,
    int,
    int,
) {
    match order {
        DateSegmentOrder::YearMonthDay => (first, second, third),
        DateSegmentOrder::MonthDayYear => (third, first, second),
        DateSegmentOrder::DayMonthYear => (third, second, first),
    }
}

/// The name of the zone that stands for an expression without one.
pub open spec fn default_zone() -> Seq<char> {
    "UTC"@
}

/// The calendar fields that the absolute expression `s` names.
///
/// The fourth segment of the time of day, a fraction of a second, is
/// dropped; a fifth one is an error. Segments are converted in the order
/// in which they stand, and the first one that does not fit 32 bits fails.
pub open spec fn absolute_spec(s: Seq<char>, order: DateSegmentOrder) -> Result<Fields, Failure> {
    match absolute_shape(s) {
        None => Err(Failure { kind: ParseErrorKind::AbsoluteShape, text: s }),
        Some(shape) => {
            let first = segment_value(s, shape.first);
            let second = segment_value(s, shape.second);
            let third = segment_value(s, shape.third);
            let hour = time_value(s, shape.time, 0);
            let minute = time_value(s, shape.time, 1);
            let seconds = time_value(s, shape.time, 2);
            if shape.time.len() > 4 {
                Err(Failure { kind: ParseErrorKind::TooManySegments, text: s })
            } else if first is Err {
                Err(first->Err_0)
            } else if second is Err {
                Err(second->Err_0)
            } else if third is Err {
                Err(third->Err_0)
            } else if hour is Err {
                Err(hour->Err_0)
            } else if minute is Err {
                Err(minute->Err_0)
            } else if seconds is Err {
                Err(seconds->Err_0)
            } else {
                let date = order_date(order, first->Ok_0, second->Ok_0, third->Ok_0);
                Ok(
                    Fields {
                        year: date.0,
                        month: date.1,
                        day: date.2,
                        hour: apply_meridiem(hour->Ok_0, shape.meridiem),
                        minute: minute->Ok_0,
                        second: seconds->Ok_0,
                        timezone: match shape.zone {
                            Some(r) => s.subrange(r.0, r.1),
                            None => default_zone(),
                        },
                    },
                )
            }
        },
    }
}

/// An expression with more than four segments in its time of day fails,
/// whatever else it holds.
pub proof fn lemma_too_many_segments(s: Seq<char>, order: DateSegmentOrder)
    requires
        absolute_shape(s) matches Some(shape) && shape.time.len() >= 5,
    ensures
        absolute_spec(s, order) == Err::<Fields, Failure>(
            Failure { kind: ParseErrorKind::TooManySegments, text: s },
        ),
{
}

/// The fraction of a second does not count: the fields of an expression
/// are those of its date segments and of the first three segments of its
/// time of day.
pub proof fn lemma_fraction_is_dropped(s: Seq<char>, order: DateSegmentOrder)
    requires
        absolute_shape(s) matches Some(shape) && shape.time.len() == 4,
    ensures
        absolute_spec(s, order) matches Ok(fields) ==> {
            let shape = absolute_shape(s)->0;
            &&& fields.second == decimal_value(s.subrange(shape.time[2].0, shape.time[2].1))
            &&& fields.minute == decimal_value(s.subrange(shape.time[1].0, shape.time[1].1))
        },
{
}

/// The stretches that a vector of index pairs stands for.
pub open spec fn ranges(v: Seq<(usize, usize)>) -> Seq<Range> {
    Seq::new(v.len(), |k: int| (v[k].0 as int, v[k].1 as int))
}

/// Does `r` report what `expected` says?
pub open spec fn extraction_is(
    r: Result<ExtractedTime, ParseError>,
    expected: Result<Fields, Failure>,
) -> bool {
    match (r, expected) {
        (Ok(time), Ok(fields)) => time@ == fields,
        (Err(e), Err(failure)) => e@ == failure,
        _ => false,
    }
}

/// The numeric segments that stand at `start` and behind it.
fn scan_segments(chars: &Vec<char>, start: usize) -> (segs: Vec<(usize, usize)>)
    requires
        start <= chars.len(),
    ensures
        ranges(segs@) == segments_from(chars@, start as int, Seq::<Range>::empty()),
        forall|k: int|
            0 <= k < segs@.len() ==> (#[trigger] segs@[k]).0 < segs@[k].1 <= chars.len()
                && all_digits(chars@.subrange(segs@[k].0 as int, segs@[k].1 as int)),
{
    let n = chars.len();
    let mut segs: Vec<(usize, usize)> = Vec::new();
    let mut i: usize = start;
    let mut more = true;
    assert(ranges(segs@) =~= Seq::<Range>::empty());
    while more
        invariant
            n == chars.len(),
            i <= n,
            more ==> segments_from(chars@, start as int, Seq::<Range>::empty()) == segments_from(
                chars@,
                i as int,
                ranges(segs@),
            ),
            !more ==> segments_from(chars@, start as int, Seq::<Range>::empty()) == ranges(segs@),
            forall|k: int|
                0 <= k < segs@.len() ==> (#[trigger] segs@[k]).0 < segs@[k].1 <= n && all_digits(
                    chars@.subrange(segs@[k].0 as int, segs@[k].1 as int),
                ),
        decreases n - i + (if more { 1int } else { 0int }),
    {
        let d = scan_run(chars, i, CharClass::Digit);
        proof {
            lemma_run_end(chars@, i as int, CharClass::Digit);
        }
        if d == i {
            more = false;
        } else {
            let ghost before = ranges(segs@);
            segs.push((i, d));
            assert(ranges(segs@) =~= before.push((i as int, d as int)));
            if d < n && n - d > 1 && chars[d].is_separator() && has_class(
                chars[d + 1],
                CharClass::Digit,
            ) {
                i = d + 1;
            } else {
                more = false;
            }
        }
    }
    segs
}

/// The marker that stands at `p`.
fn scan_meridiem(chars: &Vec<char>, p: usize) -> (r: Option<Meridiem>)
    requires
        p <= chars.len(),
    ensures
        r == meridiem_at(chars@, p as int),
{
    let n = chars.len();
    if n - p < 2 {
        return None;
    }
    if n - p > 2 && has_class(chars[p + 2], CharClass::Alpha) {
        return None;
    }
    if slice_is(chars, p, p + 2, "AM") {
        Some(Meridiem::Am)
    } else if slice_is(chars, p, p + 2, "PM") {
        Some(Meridiem::Pm)
    } else {
        None
    }
}

/// The timezone abbreviation that fills the text from `p` to its end.
fn scan_zone(chars: &Vec<char>, p: usize) -> (r: Option<Option<(usize, usize)>>)
    requires
        p <= chars.len(),
    ensures
        match (r, zone_at(chars@, p as int)) {
            (None, None) => true,
            (Some(None), Some(None)) => true,
            (Some(Some(found)), Some(Some(zone))) => found.0 == zone.0 && found.1 == zone.1
                && found.0 <= found.1 <= chars.len(),
            _ => false,
        },
{
    let n = chars.len();
    if p >= n {
        return Some(None);
    }
    let q: usize = if chars[p].is_separator() {
        p + 1
    } else {
        p
    };
    let e = scan_run(chars, q, CharClass::Alpha);
    if e == n && e - q >= 2 && e - q <= 5 {
        Some(Some((q, e)))
    } else {
        None
    }
}

/// The number that the digits `chars[from..to)` spell.
fn read_segment(text: &str, chars: &Vec<char>, from: usize, to: usize) -> (r: Result<
    u32,
    ParseError,
>)
    requires
        chars@ == text@,
        from <= to <= chars.len(),
        all_digits(text@.subrange(from as int, to as int)),
    ensures
        match (r, segment_value(text@, (from as int, to as int))) {
            (Ok(value), Ok(expected)) => value == expected,
            (Err(e), Err(failure)) => e@ == failure,
            _ => false,
        },
{
    match parse_digits(chars, from, to, 4_294_967_295) {
        Some(value) => Ok(value as u32),
        None => Err(ParseError::new(ParseErrorKind::SegmentNumber, text.substring_char(from, to))),
    }
}

/// The number that segment `k` of the time of day spells, or zero.
fn read_time(text: &str, chars: &Vec<char>, segs: &Vec<(usize, usize)>, k: usize) -> (r: Result<
    u32,
    ParseError,
>)
    requires
        chars@ == text@,
        forall|j: int|
            0 <= j < segs@.len() ==> (#[trigger] segs@[j]).0 < segs@[j].1 <= chars.len()
                && all_digits(chars@.subrange(segs@[j].0 as int, segs@[j].1 as int)),
    ensures
        match (r, time_value(text@, ranges(segs@), k as int)) {
            (Ok(value), Ok(expected)) => value == expected,
            (Err(e), Err(failure)) => e@ == failure,
            _ => false,
        },
{
    if k < segs.len() {
        let seg = segs[k];
        assert(seg == segs@[k as int]);
        read_segment(text, chars, seg.0, seg.1)
    } else {
        Ok(0)
    }
}

/// Extracts the calendar fields of an absolute expression.
///
/// The three leading segments are read as year, month and day in the order
/// that `options` name. Up to three segments of the time of day give hour,
/// minute and second; a fourth is a fraction of a second and is dropped.
/// The hour follows `AM` or `PM` where one of them stands behind the time.
/// Without an abbreviation the zone is `UTC`.
pub fn extract_absolute(text: &str, options: ExtractionOptions) -> (r: Result<
    ExtractedTime,
    ParseError,
>)
    ensures
        extraction_is(r, absolute_spec(text@, options.date_segment_order)),
{
    let chars = chars_of(text);
    let n = chars.len();
    let d1 = scan_run(&chars, 0, CharClass::Digit);
    if d1 == 0 || d1 >= n || !chars[d1].is_separator() {
        return Err(ParseError::new(ParseErrorKind::AbsoluteShape, text));
    }
    let d2 = scan_run(&chars, d1 + 1, CharClass::Digit);
    if d2 == d1 + 1 || d2 >= n || !chars[d2].is_separator() {
        return Err(ParseError::new(ParseErrorKind::AbsoluteShape, text));
    }
    let d3 = scan_run(&chars, d2 + 1, CharClass::Digit);
    if d3 == d2 + 1 || d3 >= n || !chars[d3].is_separator() {
        return Err(ParseError::new(ParseErrorKind::AbsoluteShape, text));
    }
    let segs = scan_segments(&chars, d3 + 1);
    let p: usize = if segs.len() > 0 {
        segs[segs.len() - 1].1
    } else {
        d3 + 1
    };
    assert(p == time_end(ranges(segs@), d3 + 1));
    let meridiem = if segs.len() > 0 {
        scan_meridiem(&chars, p)
    } else {
        None
    };
    let q: usize = if meridiem.is_some() {
        p + 2
    } else {
        p
    };
    let zone = match scan_zone(&chars, q) {
        Some(zone) => zone,
        None => {
            return Err(ParseError::new(ParseErrorKind::AbsoluteShape, text));
        },
    };
    proof {
        lemma_run_end(text@, 0, CharClass::Digit);
        lemma_run_end(text@, d1 + 1, CharClass::Digit);
        lemma_run_end(text@, d2 + 1, CharClass::Digit);
        assert(absolute_shape(text@) is Some);
        assert(absolute_shape(text@)->0.time == ranges(segs@));
    }
    if segs.len() > 4 {
        return Err(ParseError::new(ParseErrorKind::TooManySegments, text));
    }
    let first = match read_segment(text, &chars, 0, d1) {
        Ok(value) => value,
        Err(e) => {
            return Err(e);
        },
    };
    let second = match read_segment(text, &chars, d1 + 1, d2) {
        Ok(value) => value,
        Err(e) => {
            return Err(e);
        },
    };
    let third = match read_segment(text, &chars, d2 + 1, d3) {
        Ok(value) => value,
        Err(e) => {
            return Err(e);
        },
    };
    let hour = match read_time(text, &chars, &segs, 0) {
        Ok(value) => value,
        Err(e) => {
            return Err(e);
        },
    };
    let minute = match read_time(text, &chars, &segs, 1) {
        Ok(value) => value,
        Err(e) => {
            return Err(e);
        },
    };
    let second_of_minute = match read_time(text, &chars, &segs, 2) {
        Ok(value) => value,
        Err(e) => {
            return Err(e);
        },
    };
    let (year, month, day) = match options.date_segment_order {
        DateSegmentOrder::YearMonthDay => (first, second, third),
        DateSegmentOrder::MonthDayYear => (third, first, second),
        DateSegmentOrder::DayMonthYear => (third, second, first),
    };
    let hour = match meridiem {
        Some(Meridiem::Pm) => if hour < 12 {
            hour + 12
        } else {
            hour
        },
        Some(Meridiem::Am) => if hour == 12 {
            0
        } else {
            hour
        },
        None => hour,
    };
    let timezone = match zone {
        Some((from, to)) => String::from_str(text.substring_char(from, to)),
        None => String::from_str("UTC"),
    };
    Ok(ExtractedTime { year, month, day, hour, minute, second: second_of_minute, timezone })
}

/// Texts that may hold an absolute expression.
pub trait ExtractAbsolute {
    /// Extracts the calendar fields of the absolute expression that the
    /// text holds.
    fn extract_absolute(&self, options: ExtractionOptions) -> Result<ExtractedTime, ParseError>;
}

impl ExtractAbsolute for String {
    fn extract_absolute(&self, options: ExtractionOptions) -> (r: Result<
        ExtractedTime,
        ParseError,
    >)
        ensures
            extraction_is(r, absolute_spec(self@, options.date_segment_order)),
    {
        self::extract_absolute(self.as_str(), options)
    }
}

} // verus!
