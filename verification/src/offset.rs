//! Fixed displacements from UTC and the tokens that spell them.

use vstd::prelude::*;
use vstd::string::*;
use crate::error::{Failure, ParseError, ParseErrorKind};
use crate::text::{chars_of, digit_of, digit_value, has_class, is_digit, CharClass};

verus! {

/// A fixed displacement from UTC in seconds, positive to the east, of less
/// than a day in either direction.
#[derive(Debug, Clone, Copy, PartialEq, Eq, Structural)]
pub struct UtcOffset {
    seconds: i32,
}

impl View for UtcOffset {
    type V = int;

    /// The displacement in seconds.
    closed spec fn view(&self) -> int {
        self.seconds as int
    }
}

impl UtcOffset {
    #[verifier::type_invariant]
    spec fn in_range(self) -> bool {
        -86_400 < self.seconds < 86_400
    }

    /// No displacement: UTC itself.
    pub fn utc() -> (r: UtcOffset)
        ensures
            r@ == 0,
    {
        UtcOffset { seconds: 0 }
    }

    /// The displacement of `seconds`, provided that it is shorter than a day.
    pub fn from_seconds(seconds: i32) -> (r: Option<UtcOffset>)
        ensures
            match r {
                Some(offset) => offset@ == seconds && -86_400 < seconds < 86_400,
                None => seconds <= -86_400 || seconds >= 86_400,
            },
    {
        if -86_400 < seconds && seconds < 86_400 {
            Some(UtcOffset { seconds })
        } else {
            None
        }
    }

    /// The displacement in seconds.
    pub fn seconds(&self) -> (r: i32)
        ensures
            r == self@,
            -86_400 < r < 86_400,
    {
        proof {
            use_type_invariant(self);
        }
        self.seconds
    }
}

/// The sign that stands for an unspecified or variable displacement.
pub open spec fn is_variable_sign(c: char) -> bool {
    c == '\u{b1}'
}

/// A sign to the west: the hyphen or the typographic minus.
pub open spec fn is_minus_sign(c: char) -> bool {
    c == '-' || c == '\u{2212}'
}

/// One of the signs that start an offset token.
pub open spec fn is_offset_sign(c: char) -> bool {
    c == '+' || is_minus_sign(c) || is_variable_sign(c)
}

/// `s` is a sign and `HH`, or a sign and `HH:MM`.
pub open spec fn offset_shape(s: Seq<char>) -> bool {
    &&& s.len() == 3 || s.len() == 6
    &&& is_offset_sign(s[0])
    &&& is_digit(s[1])
    &&& is_digit(s[2])
    &&& s.len() == 6 ==> s[3] == ':' && is_digit(s[4]) && is_digit(s[5])
}

/// The hours that an offset token of the right shape names.
pub open spec fn offset_hours(s: Seq<char>) -> int {
    digit_value(s[1]) * 10 + digit_value(s[2])
}

/// The minutes that an offset token of the right shape names; none where it
/// stops after the hours.
pub open spec fn offset_minutes(s: Seq<char>) -> int {
    if s.len() == 6 {
        digit_value(s[4]) * 10 + digit_value(s[5])
    } else {
        0
    }
}

/// The seconds east of UTC that an offset token stands for.
///
/// The variable sign stands for no displacement whatever digits follow.
/// Behind the other signs the hours run up to 23 and the minutes up to 59.
pub open spec fn offset_spec(s: Seq<char>) -> Result<int, Failure> {
    if !offset_shape(s) {
        Err(Failure { kind: ParseErrorKind::OffsetShape, text: s })
    } else if is_variable_sign(s[0]) {
        Ok(0)
    } else if offset_hours(s) > 23 {
        Err(Failure { kind: ParseErrorKind::OffsetHours, text: s.subrange(1, 3) })
    } else if offset_minutes(s) > 59 {
        Err(Failure { kind: ParseErrorKind::OffsetMinutes, text: s.subrange(4, 6) })
    } else {
        let magnitude = offset_hours(s) * 3_600 + offset_minutes(s) * 60;
        if is_minus_sign(s[0]) {
            Ok(-magnitude)
        } else {
            Ok(magnitude)
        }
    }
}

/// Does `r` report what `expected` says?
pub open spec fn offset_result_is(
    r: Result<UtcOffset, ParseError>,
    expected: Result<int, Failure>,
) -> bool {
    match (r, expected) {
        (Ok(offset), Ok(seconds)) => offset@ == seconds,
        (Err(e), Err(failure)) => e@ == failure,
        _ => false,
    }
}

/// Every offset that a token stands for is a whole number of minutes of
/// less than a day.
pub proof fn lemma_offset_bounds(s: Seq<char>)
    ensures
        offset_spec(s) matches Ok(seconds) ==> -86_400 < seconds < 86_400 && seconds % 60 == 0,
{
}

/// The character that spells the digit `d`.
pub open spec fn digit_char(d: int) -> char {
    ('0' as int + d) as char
}

/// The token that spells `hours`, and `minutes` where there are any, behind
/// `sign`, each with two digits.
pub open spec fn offset_token(sign: char, hours: int, minutes: Option<int>) -> Seq<char> {
    let head = seq![sign, digit_char(hours / 10), digit_char(hours % 10)];
    match minutes {
        Some(m) => head + seq![':', digit_char(m / 10), digit_char(m % 10)],
        None => head,
    }
}

/// The minutes that a token names; none where it names only hours.
pub open spec fn minutes_or_zero(minutes: Option<int>) -> int {
    match minutes {
        Some(m) => m,
        None => 0,
    }
}

/// Every token of up to 23 hours and up to 59 minutes stands for that many
/// seconds: to the east behind a plus sign, to the west behind a minus sign.
pub proof fn lemma_offset_of_token(sign: char, hours: int, minutes: Option<int>)
    requires
        sign == '+' || is_minus_sign(sign),
        0 <= hours <= 23,
        0 <= minutes_or_zero(minutes) <= 59,
    ensures
        offset_spec(offset_token(sign, hours, minutes)) == Ok::<int, Failure>(
            if sign == '+' {
                hours * 3_600 + minutes_or_zero(minutes) * 60
            } else {
                -(hours * 3_600 + minutes_or_zero(minutes) * 60)
            },
        ),
{
    let s = offset_token(sign, hours, minutes);
    assert(digit_value(digit_char(hours / 10)) == hours / 10);
    assert(digit_value(digit_char(hours % 10)) == hours % 10);
    assert(offset_hours(s) == hours);
    match minutes {
        Some(m) => {
            assert(digit_value(digit_char(m / 10)) == m / 10);
            assert(digit_value(digit_char(m % 10)) == m % 10);
            assert(s.len() == 6);
            assert(offset_minutes(s) == m);
        },
        None => {
            assert(s.len() == 3);
        },
    }
}

/// Behind the variable sign every token stands for no displacement,
/// whatever its digits are.
pub proof fn lemma_variable_offset_is_zero(hours: int, minutes: Option<int>)
    requires
        0 <= hours <= 99,
        0 <= minutes_or_zero(minutes) <= 99,
    ensures
        offset_spec(offset_token('\u{b1}', hours, minutes)) == Ok::<int, Failure>(0),
{
    let s = offset_token('\u{b1}', hours, minutes);
    assert(is_digit(digit_char(hours / 10)) && is_digit(digit_char(hours % 10)));
    match minutes {
        Some(m) => {
            assert(is_digit(digit_char(m / 10)) && is_digit(digit_char(m % 10)));
            assert(s.len() == 6);
        },
        None => {
            assert(s.len() == 3);
        },
    }
}

/// Is `c` one of the signs that start an offset token?
fn is_sign(c: char) -> (b: bool)
    ensures
        b == is_offset_sign(c),
{
    c == '+' || c == '-' || c == '\u{2212}' || c == '\u{b1}'
}

/// Does the offset token `v[from..to)` have the right shape?
fn check_shape(v: &Vec<char>, from: usize, to: usize) -> (b: bool)
    requires
        from <= to <= v.len(),
    ensures
        b == offset_shape(v@.subrange(from as int, to as int)),
{
    let len = to - from;
    if len != 3 && len != 6 {
        return false;
    }
    let ghost s = v@.subrange(from as int, to as int);
    assert(s[0] == v@[from as int] && s[1] == v@[from + 1] && s[2] == v@[from + 2]);
    if !is_sign(v[from]) || !has_class(v[from + 1], CharClass::Digit) || !has_class(
        v[from + 2],
        CharClass::Digit,
    ) {
        return false;
    }
    if len == 6 {
        assert(s[3] == v@[from + 3] && s[4] == v@[from + 4] && s[5] == v@[from + 5]);
        v[from + 3] == ':' && has_class(v[from + 4], CharClass::Digit) && has_class(
            v[from + 5],
            CharClass::Digit,
        )
    } else {
        true
    }
}

/// Parses the offset token that the characters `v[from..to)` of `text` spell.
pub(crate) fn parse_offset_slice(text: &str, v: &Vec<char>, from: usize, to: usize) -> (r: Result<
    UtcOffset,
    ParseError,
>)
    requires
        v@ == text@,
        from <= to <= v.len(),
    ensures
        offset_result_is(r, offset_spec(text@.subrange(from as int, to as int))),
{
    let ghost s = text@.subrange(from as int, to as int);
    if !check_shape(v, from, to) {
        return Err(ParseError::new(ParseErrorKind::OffsetShape, text.substring_char(from, to)));
    }
    assert(s[0] == v@[from as int] && s[1] == v@[from + 1] && s[2] == v@[from + 2]);
    if v[from] == '\u{b1}' {
        return Ok(UtcOffset::utc());
    }
    let hours: u64 = digit_of(v[from + 1]) * 10 + digit_of(v[from + 2]);
    if hours > 23 {
        assert(s.subrange(1, 3) =~= text@.subrange(from + 1, from + 3));
        return Err(
            ParseError::new(ParseErrorKind::OffsetHours, text.substring_char(from + 1, from + 3)),
        );
    }
    let minutes: u64 = if to - from == 6 {
        assert(s[4] == v@[from + 4] && s[5] == v@[from + 5]);
        digit_of(v[from + 4]) * 10 + digit_of(v[from + 5])
    } else {
        0
    };
    if minutes > 59 {
        assert(s.subrange(4, 6) =~= text@.subrange(from + 4, from + 6));
        return Err(
            ParseError::new(
                ParseErrorKind::OffsetMinutes,
                text.substring_char(from + 4, from + 6),
            ),
        );
    }
    let magnitude: i32 = (hours * 3_600 + minutes * 60) as i32;
    let seconds: i32 = if v[from] == '-' || v[from] == '\u{2212}' {
        -magnitude
    } else {
        magnitude
    };
    Ok(UtcOffset { seconds })
}

/// Parses an offset token such as `+05:30`, `-08` or `±00` into seconds
/// east of UTC.
pub fn parse_utc_offset(raw_offset: &str) -> (r: Result<UtcOffset, ParseError>)
    ensures
        offset_result_is(r, offset_spec(raw_offset@)),
{
    let chars = chars_of(raw_offset);
    assert(raw_offset@.subrange(0, chars.len() as int) =~= raw_offset@);
    let r = parse_offset_slice(raw_offset, &chars, 0, chars.len());
    proof {
        if r is Err {
            assert(r->Err_0.text@ == offset_spec(raw_offset@)->Err_0.text);
        }
    }
    r
}

} // verus!
