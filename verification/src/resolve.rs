//! The resolver: from a raw temporal expression to an instant on the UTC
//! timeline and the way it is meant to be displayed.
//!
//! An expression with a leading sign is relative to the current instant: a
//! number of seconds, or else a duration. An expression that is a number is
//! a Unix timestamp. Anything else is an absolute expression.

use vstd::prelude::*;
use vstd::string::*;
use crate::abbr::{lookup_spec, AbbreviationTable, EntryModel};
use crate::duration::{duration_spec, parse_duration};
use crate::error::{message_of, Failure, ParseError, ParseErrorKind, TimeBannerError};
use crate::instant::{
    always_in_calendar, civil_seconds, civil_timestamp, in_timeline, is_timestamp, out_of_calendar,
    UtcInstant,
};
use crate::offset::UtcOffset;
use crate::parse::{
    absolute_spec, default_zone, extract_absolute, DateSegmentOrder, ExtractedTime,
    ExtractionOptions, Fields,
};
use crate::render::OutputForm;
use crate::text::{chars_of, has_sign, integer_spec, parse_integer, slice_is};

verus! {

/// A resolved expression: the instant, the displacement from UTC under
/// which it was written, and how it is meant to be displayed.
#[derive(Debug, Clone, Copy, PartialEq, Eq, Structural)]
pub struct ResolvedInstant {
    pub utc_instant: UtcInstant,
    pub source_offset: UtcOffset,
    pub display_intent: OutputForm,
}

/// A resolved expression as a mathematical value: nanoseconds since the
/// Unix epoch, seconds east of UTC, and the display intent.
pub struct Resolved {
    pub instant: int,
    pub offset: int,
    pub intent: OutputForm,
}

impl View for ResolvedInstant {
    type V = Resolved;

    open spec fn view(&self) -> Resolved {
        Resolved {
            instant: self.utc_instant@,
            offset: self.source_offset@,
            intent: self.display_intent,
        }
    }
}

/// The nanoseconds that a relative expression moves away from now: a
/// number of seconds where it is one, else a duration.
pub open spec fn relative_delta(s: Seq<char>) -> Option<int> {
    match integer_spec(s) {
        Some(seconds) => Some(seconds * 1_000_000_000),
        None => match duration_spec(s) {
            Ok(millis) => Some(millis * 1_000_000),
            Err(_) => None,
        },
    }
}

/// What a relative expression resolves to at the instant `now`.
pub open spec fn relative_spec(s: Seq<char>, now: int) -> Result<Resolved, Failure> {
    match relative_delta(s) {
        None => Err(Failure { kind: ParseErrorKind::RelativeTime, text: s }),
        Some(delta) => if in_timeline(now + delta) {
            Ok(Resolved { instant: now + delta, offset: 0, intent: OutputForm::Relative })
        } else {
            Err(Failure { kind: ParseErrorKind::Timestamp, text: s })
        },
    }
}

/// What the Unix timestamp `seconds`, written as `s`, resolves to.
pub open spec fn epoch_spec(s: Seq<char>, seconds: int) -> Result<Resolved, Failure> {
    if is_timestamp(seconds) {
        Ok(Resolved { instant: seconds * 1_000_000_000, offset: 0, intent: OutputForm::Absolute })
    } else {
        Err(Failure { kind: ParseErrorKind::Timestamp, text: s })
    }
}

/// The seconds east of UTC that the zone `zone` stands for: none for
/// `UTC`, else what the table holds.
pub open spec fn zone_offset_spec(table: Seq<EntryModel>, zone: Seq<char>) -> Result<int, Failure> {
    if zone == default_zone() {
        Ok(0)
    } else {
        match lookup_spec(table, zone) {
            Some(offset) => Ok(offset),
            None => Err(Failure { kind: ParseErrorKind::UnknownAbbreviation, text: zone }),
        }
    }
}

/// The instant that lies `offset` seconds west of the timestamp `local`,
/// where the calendar gave one.
pub open spec fn civil_outcome(local: Option<i64>, offset: int, text: Seq<char>) -> Result<
    int,
    Failure,
> {
    match local {
        None => Err(Failure { kind: ParseErrorKind::InvalidDate, text }),
        Some(seconds) => if is_timestamp(seconds - offset) {
            Ok((seconds - offset) * 1_000_000_000)
        } else {
            Err(Failure { kind: ParseErrorKind::Timestamp, text })
        },
    }
}

/// The timestamp that the calendar gives for `fields` read in UTC.
pub open spec fn fields_seconds(fields: Fields) -> Option<i64> {
    if fields.year > i32::MAX {
        None
    } else {
        civil_seconds(
            fields.year as i32,
            fields.month as u32,
            fields.day as u32,
            fields.hour as u32,
            fields.minute as u32,
            fields.second as u32,
        )
    }
}

/// What is known of the calendar without asking it: fields outside the
/// calendar have no timestamp, and the fields of a day up to the 28th have
/// one.
pub open spec fn calendar_facts(fields: Fields) -> bool {
    &&& out_of_calendar(
        fields.year,
        fields.month,
        fields.day,
        fields.hour,
        fields.minute,
        fields.second,
    ) ==> fields_seconds(fields) is None
    &&& always_in_calendar(
        fields.year,
        fields.month,
        fields.day,
        fields.hour,
        fields.minute,
        fields.second,
    ) ==> fields_seconds(fields) is Some
}

/// The fields of an expression that is resolved as an absolute one and
/// whose zone is known.
pub open spec fn dated_fields(s: Seq<char>, table: Seq<EntryModel>, order: DateSegmentOrder) -> Option<
    Fields,
> {
    if has_sign(s) || integer_spec(s) is Some {
        None
    } else {
        match absolute_spec(s, order) {
            Ok(fields) => if zone_offset_spec(table, fields.timezone) is Ok {
                Some(fields)
            } else {
                None
            },
            Err(_) => None,
        }
    }
}

/// What calendar fields written as `text` resolve to.
pub open spec fn fields_spec(fields: Fields, table: Seq<EntryModel>, text: Seq<char>) -> Result<
    Resolved,
    Failure,
> {
    match zone_offset_spec(table, fields.timezone) {
        Err(failure) => Err(failure),
        Ok(offset) => match civil_outcome(fields_seconds(fields), offset, text) {
            Err(failure) => Err(failure),
            Ok(instant) => Ok(Resolved { instant, offset, intent: OutputForm::Absolute }),
        },
    }
}

/// What an absolute expression resolves to.
pub open spec fn absolute_resolution(
    s: Seq<char>,
    table: Seq<EntryModel>,
    order: DateSegmentOrder,
) -> Result<Resolved, Failure> {
    match absolute_spec(s, order) {
        Err(failure) => Err(failure),
        Ok(fields) => fields_spec(fields, table, s),
    }
}

/// What the expression `s` resolves to at the instant `now`.
pub open spec fn resolve_spec(
    s: Seq<char>,
    now: int,
    table: Seq<EntryModel>,
    order: DateSegmentOrder,
) -> Result<Resolved, Failure> {
    if has_sign(s) {
        relative_spec(s, now)
    } else {
        match integer_spec(s) {
            Some(seconds) => epoch_spec(s, seconds),
            None => absolute_resolution(s, table, order),
        }
    }
}

/// Does `r` report what `expected` says?
pub open spec fn resolution_is(
    r: Result<ResolvedInstant, ParseError>,
    expected: Result<Resolved, Failure>,
) -> bool {
    match (r, expected) {
        (Ok(resolved), Ok(model)) => resolved@ == model,
        (Err(e), Err(failure)) => e@ == failure,
        _ => false,
    }
}

/// Does `r` report what `expected` says, with the failure as a message?
pub open spec fn response_is(
    r: Result<ResolvedInstant, TimeBannerError>,
    expected: Result<Resolved, Failure>,
) -> bool {
    match (r, expected) {
        (Ok(resolved), Ok(model)) => resolved@ == model,
        (Err(TimeBannerError::ParseError(m)), Err(failure)) => m@ == message_of(
            failure.kind,
            failure.text,
        ),
        _ => false,
    }
}

/// An expression without a sign resolves to the same instant whatever the
/// current instant is.
pub proof fn lemma_unsigned_ignores_now(
    s: Seq<char>,
    now: int,
    later: int,
    table: Seq<EntryModel>,
    order: DateSegmentOrder,
)
    requires
        !has_sign(s),
    ensures
        resolve_spec(s, now, table, order) == resolve_spec(s, later, table, order),
{
}

/// An expression that has no sign and is no number is resolved as an
/// absolute expression, and as nothing else.
pub proof fn lemma_rest_is_absolute(
    s: Seq<char>,
    now: int,
    table: Seq<EntryModel>,
    order: DateSegmentOrder,
)
    requires
        !has_sign(s),
        integer_spec(s) is None,
    ensures
        resolve_spec(s, now, table, order) == absolute_resolution(s, table, order),
{
}

/// The display intent follows the kind of the expression: relative behind
/// a sign, absolute otherwise.
pub proof fn lemma_intent(s: Seq<char>, now: int, table: Seq<EntryModel>, order: DateSegmentOrder)
    ensures
        resolve_spec(s, now, table, order) matches Ok(resolved) ==> resolved.intent == (if has_sign(
            s,
        ) {
            OutputForm::Relative
        } else {
            OutputForm::Absolute
        }) && in_timeline(resolved.instant),
{
}

/// Converts a Unix timestamp into an instant.
pub fn parse_epoch_into_datetime(epoch: i64) -> (r: Option<UtcInstant>)
    ensures
        match r {
            Some(instant) => is_timestamp(epoch as int) && instant@ == epoch * 1_000_000_000,
            None => !is_timestamp(epoch as int),
        },
{
    UtcInstant::from_timestamp(epoch, 0)
}

/// The instant that lies `offset` west of the timestamp `local` that the
/// calendar gave for the fields of `text`.
pub fn instant_from_civil(local: Option<i64>, offset: UtcOffset, text: &str) -> (r: Result<
    UtcInstant,
    ParseError,
>)
    ensures
        match (r, civil_outcome(local, offset@, text@)) {
            (Ok(instant), Ok(nanos)) => instant@ == nanos,
            (Err(e), Err(failure)) => e@ == failure,
            _ => false,
        },
{
    let seconds = match local {
        Some(seconds) => seconds,
        None => {
            return Err(ParseError::new(ParseErrorKind::InvalidDate, text));
        },
    };
    let shifted: i128 = (seconds as i128) - (offset.seconds() as i128);
    if shifted < -8_334_601_228_800 || shifted > 8_210_266_876_799 {
        return Err(ParseError::new(ParseErrorKind::Timestamp, text));
    }
    match UtcInstant::from_timestamp(shifted as i64, 0) {
        Some(instant) => Ok(instant),
        None => Err(ParseError::new(ParseErrorKind::Timestamp, text)),
    }
}

/// The displacement from UTC of the zone `zone`: none for `UTC`, else what
/// the table holds.
pub fn zone_offset(table: &AbbreviationTable, zone: &str) -> (r: Result<UtcOffset, ParseError>)
    ensures
        match (r, zone_offset_spec(table@, zone@)) {
            (Ok(offset), Ok(seconds)) => offset@ == seconds,
            (Err(e), Err(failure)) => e@ == failure,
            _ => false,
        },
{
    let chars = chars_of(zone);
    assert(chars@.subrange(0, chars.len() as int) =~= zone@);
    if slice_is(&chars, 0, chars.len(), "UTC") {
        Ok(UtcOffset::utc())
    } else {
        table.lookup(zone)
    }
}

/// Resolves the calendar fields of the absolute expression `text`.
pub fn resolve_fields(fields: &ExtractedTime, table: &AbbreviationTable, text: &str) -> (r: Result<
    ResolvedInstant,
    ParseError,
>)
    ensures
        resolution_is(r, fields_spec(fields@, table@, text@)),
        zone_offset_spec(table@, fields@.timezone) is Ok ==> calendar_facts(fields@),
{
    let offset = match zone_offset(table, fields.timezone.as_str()) {
        Ok(offset) => offset,
        Err(e) => {
            return Err(e);
        },
    };
    let local = if fields.year > 2_147_483_647 {
        None
    } else {
        civil_timestamp(
            fields.year as i32,
            fields.month,
            fields.day,
            fields.hour,
            fields.minute,
            fields.second,
        )
    };
    match instant_from_civil(local, offset, text) {
        Ok(utc_instant) => Ok(
            ResolvedInstant {
                utc_instant,
                source_offset: offset,
                display_intent: OutputForm::Absolute,
            },
        ),
        Err(e) => Err(e),
    }
}

/// Resolves an expression with a leading sign at the instant `now`.
pub fn resolve_relative(raw: &str, now: UtcInstant) -> (r: Result<ResolvedInstant, ParseError>)
    ensures
        resolution_is(r, relative_spec(raw@, now@)),
{
    let moved = match parse_integer(raw) {
        Some(seconds) => now.checked_add_seconds(seconds),
        None => match parse_duration(raw) {
            Ok(duration) => now.checked_add(duration),
            Err(_) => {
                return Err(ParseError::new(ParseErrorKind::RelativeTime, raw));
            },
        },
    };
    match moved {
        Some(utc_instant) => Ok(
            ResolvedInstant {
                utc_instant,
                source_offset: UtcOffset::utc(),
                display_intent: OutputForm::Relative,
            },
        ),
        None => Err(ParseError::new(ParseErrorKind::Timestamp, raw)),
    }
}

/// Resolves an expression without a leading sign: a Unix timestamp or an
/// absolute expression.
pub(crate) fn resolve_absolute(raw: &str, table: &AbbreviationTable, options: ExtractionOptions) -> (r:
    Result<ResolvedInstant, ParseError>)
    requires
        !has_sign(raw@),
    ensures
        forall|now: int|
            resolution_is(r, #[trigger] resolve_spec(raw@, now, table@, options.date_segment_order)),
        dated_fields(raw@, table@, options.date_segment_order) matches Some(fields)
            ==> calendar_facts(fields),
{
    match parse_integer(raw) {
        Some(epoch) => match parse_epoch_into_datetime(epoch) {
            Some(utc_instant) => Ok(
                ResolvedInstant {
                    utc_instant,
                    source_offset: UtcOffset::utc(),
                    display_intent: OutputForm::Absolute,
                },
            ),
            None => Err(ParseError::new(ParseErrorKind::Timestamp, raw)),
        },
        None => match extract_absolute(raw, options) {
            Ok(fields) => resolve_fields(&fields, table, raw),
            Err(e) => Err(e),
        },
    }
}

/// Does `raw` start with a plus or a minus sign?
pub fn is_signed(raw: &str) -> (r: bool)
    ensures
        r == has_sign(raw@),
{
    if raw.unicode_len() == 0 {
        false
    } else {
        let first = raw.get_char(0);
        first == '+' || first == '-'
    }
}

/// Resolves the expression `raw` at the instant `now`.
pub fn resolve(
    raw: &str,
    now: UtcInstant,
    table: &AbbreviationTable,
    options: ExtractionOptions,
) -> (r: Result<ResolvedInstant, ParseError>)
    ensures
        resolution_is(r, resolve_spec(raw@, now@, table@, options.date_segment_order)),
        dated_fields(raw@, table@, options.date_segment_order) matches Some(fields)
            ==> calendar_facts(fields),
{
    if is_signed(raw) {
        resolve_relative(raw, now)
    } else {
        resolve_absolute(raw, table, options)
    }
}

/// Resolves to the given instant for display as a clock, whatever else was
/// asked for.
pub fn resolve_clock(now: UtcInstant) -> (r: ResolvedInstant)
    ensures
        r@ == (Resolved { instant: now@, offset: 0, intent: OutputForm::Clock }),
{
    ResolvedInstant {
        utc_instant: now,
        source_offset: UtcOffset::utc(),
        display_intent: OutputForm::Clock,
    }
}

/// Resolves the expression `raw`, reading the system clock where the
/// expression is relative.
///
/// An expression without a sign never depends on the clock. One with a
/// sign is resolved at some instant of the timeline, or fails where the
/// clock shows none.
pub fn parse_time_value(raw: &str, table: &AbbreviationTable, options: ExtractionOptions) -> (r:
    Result<ResolvedInstant, TimeBannerError>)
    ensures
        !has_sign(raw@) ==> response_is(
            r,
            resolve_spec(raw@, 0, table@, options.date_segment_order),
        ),
        dated_fields(raw@, table@, options.date_segment_order) matches Some(fields)
            ==> calendar_facts(fields),
        has_sign(raw@) ==> response_is(
            r,
            Err(Failure { kind: ParseErrorKind::Timestamp, text: raw@ }),
        ) || exists|now: int| #[trigger]
            in_timeline(now) && response_is(r, relative_spec(raw@, now)),
{
    let outcome = if is_signed(raw) {
        match UtcInstant::now() {
            Some(now) => {
                let outcome = resolve_relative(raw, now);
                assert(in_timeline(now@));
                outcome
            },
            None => Err(ParseError::new(ParseErrorKind::Timestamp, raw)),
        }
    } else {
        resolve_absolute(raw, table, options)
    };
    match outcome {
        Ok(resolved) => Ok(resolved),
        Err(e) => Err(e.into_error()),
    }
}

} // verus!
