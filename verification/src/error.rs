//! Errors of the application and of the parsers, and the response that
//! reports one to a client.

use vstd::prelude::*;
use vstd::string::*;
use crate::duration::Unit;

verus! {

/// Application-specific errors that can occur while a request is processed.
#[derive(Debug, Clone, PartialEq, Eq)]
pub enum TimeBannerError {
    /// Input parsing errors (invalid time formats, bad parameters).
    ParseError(String),
    /// Template rendering failures.
    RenderError(String),
    /// Failures of the conversion from SVG to a raster image.
    RasterizeError(String),
    /// The requested resource does not exist.
    NotFound,
}

/// Error body sent to HTTP clients.
#[derive(Debug, Clone, PartialEq, Eq)]
pub struct ErrorResponse {
    pub error: String,
    pub message: String,
}

/// Why a piece of text could not be parsed.
#[derive(Debug, Clone, Copy, PartialEq, Eq, Structural)]
pub enum ParseErrorKind {
    /// An offset token that is not a sign followed by `HH` or `HH:MM`.
    OffsetShape,
    /// An offset token whose hours exceed 23.
    OffsetHours,
    /// An offset token whose minutes exceed 59.
    OffsetMinutes,
    /// A line of the abbreviation dataset that is not `ABBR <tab> label <tab> UTC<offset>`.
    DatasetLine,
    /// An abbreviation that the table does not hold.
    UnknownAbbreviation,
    /// A duration whose unit groups are misspelt, repeated or out of order.
    DurationShape,
    /// A unit count of a duration that does not fit a signed 64-bit integer.
    DurationNumber(Unit),
    /// A duration whose total cannot be represented.
    DurationRange,
    /// An absolute expression that does not start with three date segments.
    AbsoluteShape,
    /// An absolute expression with more than four time segments.
    TooManySegments,
    /// A segment of an absolute expression that is not an unsigned 32-bit number.
    SegmentNumber,
    /// Calendar fields that name no date or time of day.
    InvalidDate,
    /// Text with a leading sign that is neither a number of seconds nor a duration.
    RelativeTime,
    /// An instant beyond the supported range of the timeline.
    Timestamp,
}

/// A parsing failure: its kind and the text that caused it.
#[derive(Debug, Clone, PartialEq, Eq)]
pub struct ParseError {
    pub kind: ParseErrorKind,
    pub text: String,
}

/// What a parse error says, as a mathematical value.
pub struct Failure {
    pub kind: ParseErrorKind,
    pub text: Seq<char>,
}

impl View for ParseError {
    type V = Failure;

    open spec fn view(&self) -> Failure {
        Failure { kind: self.kind, text: self.text@ }
    }
}

/// The HTTP status code that reports `error`.
pub open spec fn status_of(error: TimeBannerError) -> int {
    match error {
        TimeBannerError::ParseError(_) => 400,
        TimeBannerError::RenderError(_) => 500,
        TimeBannerError::RasterizeError(_) => 500,
        TimeBannerError::NotFound => 404,
    }
}

/// The label under which `error` is reported.
pub open spec fn label_of(error: TimeBannerError) -> Seq<char> {
    match error {
        TimeBannerError::ParseError(_) => "ParseError"@,
        TimeBannerError::RenderError(_) => "RenderError"@,
        TimeBannerError::RasterizeError(_) => "RasterizeError"@,
        TimeBannerError::NotFound => "NotFound"@,
    }
}

/// The text that explains `error` to the client.
pub open spec fn detail_of(error: TimeBannerError) -> Seq<char> {
    match error {
        TimeBannerError::ParseError(m) => m@,
        TimeBannerError::RenderError(m) => m@,
        TimeBannerError::RasterizeError(m) => m@,
        TimeBannerError::NotFound => "The requested resource was not found"@,
    }
}

/// Turns an application error into a status code and a response body:
/// 400 for parse errors, 500 for rendering and rasterizing errors, 404
/// where nothing was found.
pub fn get_error_response(error: TimeBannerError) -> (r: (u16, ErrorResponse))
    ensures
        r.0 == status_of(error),
        r.1.error@ == label_of(error),
        r.1.message@ == detail_of(error),
{
    match error {
        TimeBannerError::ParseError(msg) => (
            400,
            ErrorResponse { error: String::from_str("ParseError"), message: msg },
        ),
        TimeBannerError::RenderError(msg) => (
            500,
            ErrorResponse { error: String::from_str("RenderError"), message: msg },
        ),
        TimeBannerError::RasterizeError(msg) => (
            500,
            ErrorResponse { error: String::from_str("RasterizeError"), message: msg },
        ),
        TimeBannerError::NotFound => (
            404,
            ErrorResponse {
                error: String::from_str("NotFound"),
                message: String::from_str("The requested resource was not found"),
            },
        ),
    }
}

/// What precedes the offending text in the message of a parse error.
pub open spec fn message_prefix(kind: ParseErrorKind) -> Seq<char> {
    match kind {
        ParseErrorKind::OffsetShape => "Failed to match offset pattern: "@,
        ParseErrorKind::OffsetHours => "Hours out of range: "@,
        ParseErrorKind::OffsetMinutes => "Minutes out of range: "@,
        ParseErrorKind::DatasetLine => "Failed to match timezone pattern: "@,
        ParseErrorKind::UnknownAbbreviation => "Unknown timezone abbreviation: "@,
        ParseErrorKind::DurationShape => "Could not parse duration: "@,
        ParseErrorKind::DurationNumber(unit) => "Could not parse "@ + unit.name_spec()
            + " from "@,
        ParseErrorKind::DurationRange => "Duration out of range: "@,
        ParseErrorKind::AbsoluteShape => "Invalid absolute time format: "@,
        ParseErrorKind::TooManySegments => "Invalid time format: too many segments: "@,
        ParseErrorKind::SegmentNumber => "Could not parse segment: "@,
        ParseErrorKind::InvalidDate => "Invalid calendar date: "@,
        ParseErrorKind::RelativeTime => "Could not parse relative time: "@,
        ParseErrorKind::Timestamp => "Invalid timestamp: "@,
    }
}

/// What follows the offending text in the message of a parse error.
pub open spec fn message_suffix(kind: ParseErrorKind) -> Seq<char> {
    match kind {
        ParseErrorKind::DurationNumber(_) => " (number too large to fit in target type)"@,
        _ => Seq::<char>::empty(),
    }
}

/// The human-readable message of a parse error of `kind` caused by `text`.
pub open spec fn message_of(kind: ParseErrorKind, text: Seq<char>) -> Seq<char> {
    message_prefix(kind) + text + message_suffix(kind)
}

impl ParseError {
    /// A parse error of `kind` caused by `text`.
    pub fn new(kind: ParseErrorKind, text: &str) -> (e: ParseError)
        ensures
            e.kind == kind,
            e.text@ == text@,
    {
        ParseError { kind, text: String::from_str(text) }
    }

    /// The human-readable message: what went wrong, and the offending text.
    pub fn message(&self) -> (m: String)
        ensures
            m@ == message_of(self.kind, self.text@),
    {
        let head: String = match self.kind {
            ParseErrorKind::OffsetShape => String::from_str("Failed to match offset pattern: "),
            ParseErrorKind::OffsetHours => String::from_str("Hours out of range: "),
            ParseErrorKind::OffsetMinutes => String::from_str("Minutes out of range: "),
            ParseErrorKind::DatasetLine => String::from_str("Failed to match timezone pattern: "),
            ParseErrorKind::UnknownAbbreviation => String::from_str(
                "Unknown timezone abbreviation: ",
            ),
            ParseErrorKind::DurationShape => String::from_str("Could not parse duration: "),
            ParseErrorKind::DurationNumber(unit) => String::from_str("Could not parse ").concat(
                unit.name(),
            ).concat(" from "),
            ParseErrorKind::DurationRange => String::from_str("Duration out of range: "),
            ParseErrorKind::AbsoluteShape => String::from_str("Invalid absolute time format: "),
            ParseErrorKind::TooManySegments => String::from_str(
                "Invalid time format: too many segments: ",
            ),
            ParseErrorKind::SegmentNumber => String::from_str("Could not parse segment: "),
            ParseErrorKind::InvalidDate => String::from_str("Invalid calendar date: "),
            ParseErrorKind::RelativeTime => String::from_str("Could not parse relative time: "),
            ParseErrorKind::Timestamp => String::from_str("Invalid timestamp: "),
        };
        let body = head.concat(self.text.as_str());
        match self.kind {
            ParseErrorKind::DurationNumber(_) => body.concat(
                " (number too large to fit in target type)",
            ),
            _ => {
                assert(body@ + Seq::<char>::empty() =~= body@);
                body
            },
        }
    }

    /// The application error that reports this parse error.
    pub fn into_error(self) -> (r: TimeBannerError)
        ensures
            r matches TimeBannerError::ParseError(m) && m@ == message_of(self.kind, self.text@),
    {
        TimeBannerError::ParseError(self.message())
    }
}

} // verus!
