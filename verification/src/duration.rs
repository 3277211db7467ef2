//! Relative durations written as unit groups, such as `1y2mon3w4d5h6m7s`,
//! `+1year` or `-3h30m`.

use vstd::prelude::*;
use vstd::string::*;
use crate::error::{Failure, ParseError, ParseErrorKind};
use crate::text::{
    all_digits, all_spaces, chars_of, decimal_value, has_class, has_sign, in_class, is_space,
    lemma_decimal_prefix, lemma_run_end, parse_digits, run_end, scan_run, slice_is, CharClass,
};

verus! {

/// The calendar units of a duration, from the largest to the smallest.
#[derive(Debug, Clone, Copy, PartialEq, Eq, Structural)]
pub enum Unit {
    Year,
    Month,
    Week,
    Day,
    Hour,
    Minute,
    Second,
}

impl Unit {
    /// Position of the unit in the descending order of magnitude.
    pub open spec fn rank(self) -> int {
        match self {
            Unit::Year => 0,
            Unit::Month => 1,
            Unit::Week => 2,
            Unit::Day => 3,
            Unit::Hour => 4,
            Unit::Minute => 5,
            Unit::Second => 6,
        }
    }

    /// The unit's name as it stands in messages.
    pub open spec fn name_spec(self) -> Seq<char> {
        match self {
            Unit::Year => "year"@,
            Unit::Month => "month"@,
            Unit::Week => "week"@,
            Unit::Day => "day"@,
            Unit::Hour => "hour"@,
            Unit::Minute => "minute"@,
            Unit::Second => "second"@,
        }
    }

    /// The unit's name as it stands in messages.
    pub fn name(self) -> (n: &'static str)
        ensures
            n@ == self.name_spec(),
    {
        match self {
            Unit::Year => "year",
            Unit::Month => "month",
            Unit::Week => "week",
            Unit::Day => "day",
            Unit::Hour => "hour",
            Unit::Minute => "minute",
            Unit::Second => "second",
        }
    }

    /// Position of the unit in the descending order of magnitude.
    pub fn index(self) -> (r: u8)
        ensures
            r == self.rank(),
    {
        match self {
            Unit::Year => 0,
            Unit::Month => 1,
            Unit::Week => 2,
            Unit::Day => 3,
            Unit::Hour => 4,
            Unit::Minute => 5,
            Unit::Second => 6,
        }
    }
}

/// A signed span of elapsed time, counted in milliseconds.
#[derive(Debug, Clone, Copy, PartialEq, Eq, Structural)]
pub struct Duration {
    millis: i64,
}

impl View for Duration {
    type V = int;

    /// The span in milliseconds.
    closed spec fn view(&self) -> int {
        self.millis as int
    }
}

/// Durations that are counted in months.
pub trait Months: Sized {
    /// The span of `count` average months.
    fn months(count: i32) -> Self;
}

impl Months for Duration {
    /// The span of `count` months of 365.25 / 12 days each.
    fn months(count: i32) -> (r: Duration)
        ensures
            r@ == unit_millis(Unit::Month, count as int),
    {
        Duration { millis: (count as i64) * 2_629_800_000 }
    }
}

impl Duration {
    /// The empty span.
    pub fn zero() -> (r: Duration)
        ensures
            r@ == 0,
    {
        Duration { millis: 0 }
    }

    /// A span of `count` milliseconds.
    pub fn milliseconds(count: i64) -> (r: Duration)
        ensures
            r@ == count,
    {
        Duration { millis: count }
    }

    /// A span of `count` seconds.
    pub fn seconds(count: i64) -> (r: Duration)
        requires
            i64::MIN <= unit_millis(Unit::Second, count as int) <= i64::MAX,
        ensures
            r@ == unit_millis(Unit::Second, count as int),
    {
        Duration { millis: count * 1_000 }
    }

    /// A span of `count` minutes.
    pub fn minutes(count: i64) -> (r: Duration)
        requires
            i64::MIN <= unit_millis(Unit::Minute, count as int) <= i64::MAX,
        ensures
            r@ == unit_millis(Unit::Minute, count as int),
    {
        Duration { millis: count * 60_000 }
    }

    /// A span of `count` hours.
    pub fn hours(count: i64) -> (r: Duration)
        requires
            i64::MIN <= unit_millis(Unit::Hour, count as int) <= i64::MAX,
        ensures
            r@ == unit_millis(Unit::Hour, count as int),
    {
        Duration { millis: count * 3_600_000 }
    }

    /// A span of `count` days.
    pub fn days(count: i64) -> (r: Duration)
        requires
            i64::MIN <= unit_millis(Unit::Day, count as int) <= i64::MAX,
        ensures
            r@ == unit_millis(Unit::Day, count as int),
    {
        Duration { millis: count * 86_400_000 }
    }

    /// A span of `count` weeks.
    pub fn weeks(count: i64) -> (r: Duration)
        requires
            i64::MIN <= unit_millis(Unit::Week, count as int) <= i64::MAX,
        ensures
            r@ == unit_millis(Unit::Week, count as int),
    {
        Duration { millis: count * 604_800_000 }
    }

    /// The span in milliseconds.
    pub fn num_milliseconds(&self) -> (r: i64)
        ensures
            r == self@,
    {
        self.millis
    }

    /// The sum of two spans, unless it cannot be represented.
    pub fn checked_add(&self, other: &Duration) -> (r: Option<Duration>)
        ensures
            match r {
                Some(sum) => sum@ == self@ + other@,
                None => self@ + other@ < i64::MIN || self@ + other@ > i64::MAX,
            },
    {
        match self.millis.checked_add(other.millis) {
            Some(millis) => Some(Duration { millis }),
            None => None,
        }
    }
}

/// The milliseconds that `count` of `unit` stand for.
///
/// A year is 365 days; a positive number of years gains six hours per year
/// for the leap days, a negative one does not. A month is a twelfth of
/// 365.25 days.
pub open spec fn unit_millis(unit: Unit, count: int) -> int {
    match unit {
        Unit::Year => count * 31_536_000_000 + if count > 0 {
            count * 21_600_000
        } else {
            0
        },
        Unit::Month => count * 2_629_800_000,
        Unit::Week => count * 604_800_000,
        Unit::Day => count * 86_400_000,
        Unit::Hour => count * 3_600_000,
        Unit::Minute => count * 60_000,
        Unit::Second => count * 1_000,
    }
}

/// The unit that `word` spells, if any. Spellings are case-sensitive.
pub open spec fn unit_of_word(word: Seq<char>) -> Option<Unit> {
    if word == "y"@ || word == "yr"@ || word == "yrs"@ || word == "year"@ || word == "years"@ {
        Some(Unit::Year)
    } else if word == "mon"@ || word == "month"@ || word == "months"@ {
        Some(Unit::Month)
    } else if word == "w"@ || word == "wk"@ || word == "wks"@ || word == "week"@ || word
        == "weeks"@ {
        Some(Unit::Week)
    } else if word == "d"@ || word == "day"@ || word == "days"@ {
        Some(Unit::Day)
    } else if word == "h"@ || word == "hr"@ || word == "hrs"@ || word == "hour"@ || word
        == "hours"@ {
        Some(Unit::Hour)
    } else if word == "m"@ || word == "min"@ || word == "mins"@ || word == "minute"@ || word
        == "minutes"@ {
        Some(Unit::Minute)
    } else if word == "s"@ || word == "sec"@ || word == "secs"@ || word == "second"@ || word
        == "seconds"@ {
        Some(Unit::Second)
    } else {
        None
    }
}

/// One unit group of a duration: the digits of its count and its unit.
pub struct Group {
    pub unit: Unit,
    pub digits: Seq<char>,
}

impl Group {
    /// The count that the digits spell.
    pub open spec fn count(self) -> int {
        decimal_value(self.digits)
    }

    /// The count does not fit a signed 64-bit integer.
    pub open spec fn overflows(self) -> bool {
        self.count() > i64::MAX
    }
}

/// Where the unit word of the group at `i` starts: behind the digits and at
/// most one whitespace character.
pub open spec fn word_start(s: Seq<char>, i: int) -> int {
    let d = run_end(s, i, CharClass::Digit);
    if 0 <= d < s.len() && is_space(s[d]) {
        d + 1
    } else {
        d
    }
}

/// The unit group that starts at `i`, and the index behind it.
///
/// A group is one or more digits, at most one whitespace character, a unit
/// word, and any amount of whitespace.
pub open spec fn group_at(s: Seq<char>, i: int) -> Option<(Group, int)> {
    let d = run_end(s, i, CharClass::Digit);
    let w = word_start(s, i);
    let e = run_end(s, w, CharClass::Word);
    if d <= i {
        None
    } else {
        match unit_of_word(s.subrange(w, e)) {
            Some(unit) => Some(
                (Group { unit, digits: s.subrange(i, d) }, run_end(s, e, CharClass::Space)),
            ),
            None => None,
        }
    }
}

/// The unit groups that fill `s` from `i` to its end, none of a rank below
/// `min_rank` and each of a higher rank than the one before it; `None` where
/// `s` is not made of such groups.
pub open spec fn groups_from(s: Seq<char>, i: int, min_rank: int) -> Option<Seq<Group>>
    decreases s.len() - i,
{
    if i >= s.len() {
        Some(Seq::<Group>::empty())
    } else {
        match group_at(s, i) {
            Some((group, next)) => if group.unit.rank() >= min_rank && i < next <= s.len() {
                match groups_from(s, next, group.unit.rank() + 1) {
                    Some(rest) => Some(seq![group] + rest),
                    None => None,
                }
            } else {
                None
            },
            None => None,
        }
    }
}

/// The first of `groups` whose count overflows.
pub open spec fn first_overflow(groups: Seq<Group>) -> Option<Group>
    decreases groups.len(),
{
    if groups.len() == 0 {
        None
    } else {
        match first_overflow(groups.drop_last()) {
            Some(group) => Some(group),
            None => if groups.last().overflows() {
                Some(groups.last())
            } else {
                None
            },
        }
    }
}

/// The sum of what each of `groups` stands for, unit by unit.
pub open spec fn total_millis(groups: Seq<Group>) -> int
    decreases groups.len(),
{
    if groups.len() == 0 {
        0
    } else {
        total_millis(groups.drop_last()) + unit_millis(groups.last().unit, groups.last().count())
    }
}

/// What a duration text stands for, in milliseconds.
///
/// Whitespace alone is the empty span. Otherwise the text is an optional
/// sign and unit groups in descending order; the sign applies once, to the
/// sum of the groups.
pub open spec fn duration_spec(s: Seq<char>) -> Result<int, Failure> {
    if all_spaces(s) {
        Ok(0)
    } else {
        match groups_from(s, if has_sign(s) { 1int } else { 0int }, 0) {
            None => Err(Failure { kind: ParseErrorKind::DurationShape, text: s }),
            Some(groups) => match first_overflow(groups) {
                Some(group) => Err(
                    Failure {
                        kind: ParseErrorKind::DurationNumber(group.unit),
                        text: group.digits,
                    },
                ),
                None => {
                    let total = total_millis(groups);
                    let value = if s[0] == '-' {
                        -total
                    } else {
                        total
                    };
                    if i64::MIN <= value <= i64::MAX {
                        Ok(value)
                    } else {
                        Err(Failure { kind: ParseErrorKind::DurationRange, text: s })
                    }
                },
            },
        }
    }
}

/// `done` followed by what is still to come, if that is well-formed.
pub open spec fn prepend(done: Seq<Group>, rest: Option<Seq<Group>>) -> Option<Seq<Group>> {
    match rest {
        Some(groups) => Some(done + groups),
        None => None,
    }
}

/// The unit that the characters `v[from..to)` spell.
pub(crate) fn classify_word(v: &Vec<char>, from: usize, to: usize) -> (r: Option<Unit>)
    requires
        from <= to <= v.len(),
    ensures
        r == unit_of_word(v@.subrange(from as int, to as int)),
{
    if slice_is(v, from, to, "y") || slice_is(v, from, to, "yr") || slice_is(v, from, to, "yrs")
        || slice_is(v, from, to, "year") || slice_is(v, from, to, "years") {
        Some(Unit::Year)
    } else if slice_is(v, from, to, "mon") || slice_is(v, from, to, "month") || slice_is(
        v,
        from,
        to,
        "months",
    ) {
        Some(Unit::Month)
    } else if slice_is(v, from, to, "w") || slice_is(v, from, to, "wk") || slice_is(
        v,
        from,
        to,
        "wks",
    ) || slice_is(v, from, to, "week") || slice_is(v, from, to, "weeks") {
        Some(Unit::Week)
    } else if slice_is(v, from, to, "d") || slice_is(v, from, to, "day") || slice_is(
        v,
        from,
        to,
        "days",
    ) {
        Some(Unit::Day)
    } else if slice_is(v, from, to, "h") || slice_is(v, from, to, "hr") || slice_is(
        v,
        from,
        to,
        "hrs",
    ) || slice_is(v, from, to, "hour") || slice_is(v, from, to, "hours") {
        Some(Unit::Hour)
    } else if slice_is(v, from, to, "m") || slice_is(v, from, to, "min") || slice_is(
        v,
        from,
        to,
        "mins",
    ) || slice_is(v, from, to, "minute") || slice_is(v, from, to, "minutes") {
        Some(Unit::Minute)
    } else if slice_is(v, from, to, "s") || slice_is(v, from, to, "sec") || slice_is(
        v,
        from,
        to,
        "secs",
    ) || slice_is(v, from, to, "second") || slice_is(v, from, to, "seconds") {
        Some(Unit::Second)
    } else {
        None
    }
}

/// The milliseconds that `count` of `unit` stand for.
pub(crate) fn millis_of(unit: Unit, count: i64) -> (r: i128)
    requires
        0 <= count,
    ensures
        r == unit_millis(unit, count as int),
        0 <= r <= count * 31_557_600_000,
{
    let n: i128 = count as i128;
    match unit {
        Unit::Year => if count > 0 {
            n * 31_536_000_000 + n * 21_600_000
        } else {
            0
        },
        Unit::Month => n * 2_629_800_000,
        Unit::Week => n * 604_800_000,
        Unit::Day => n * 86_400_000,
        Unit::Hour => n * 3_600_000,
        Unit::Minute => n * 60_000,
        Unit::Second => n * 1_000,
    }
}

/// The groups of a duration stand in descending order of magnitude: ranks
/// grow strictly from group to group, and none lies below the rank that the
/// first group may have. A duration so has at most one group of each unit.
pub proof fn lemma_groups_descend(s: Seq<char>, i: int, min_rank: int)
    ensures
        groups_from(s, i, min_rank) matches Some(groups) ==> {
            &&& forall|k: int| 0 <= k < groups.len() ==> (#[trigger] groups[k]).unit.rank() >= min_rank + k
            &&& forall|a: int, b: int|
                0 <= a < b < groups.len() ==> (#[trigger] groups[a]).unit.rank() < (
                #[trigger] groups[b]).unit.rank()
            &&& min_rank >= 0 ==> groups.len() <= 7
        },
    decreases s.len() - i,
{
    if i < s.len() {
        match group_at(s, i) {
            Some((group, next)) => {
                if group.unit.rank() >= min_rank && i < next <= s.len() {
                    let rank = group.unit.rank();
                    lemma_groups_descend(s, next, rank + 1);
                    match groups_from(s, next, rank + 1) {
                        Some(rest) => {
                            let groups = seq![group] + rest;
                            assert forall|k: int| 0 <= k < groups.len() implies (
                            #[trigger] groups[k]).unit.rank() >= min_rank + k by {
                                if k > 0 {
                                    assert(groups[k] == rest[k - 1]);
                                }
                            }
                            assert forall|a: int, b: int| 0 <= a < b < groups.len() implies (
                            #[trigger] groups[a]).unit.rank() < (
                            #[trigger] groups[b]).unit.rank() by {
                                assert(groups[b] == rest[b - 1]);
                                if a > 0 {
                                    assert(groups[a] == rest[a - 1]);
                                }
                            }
                            if min_rank >= 0 && rest.len() > 0 {
                                assert(rest[rest.len() - 1].unit.rank() >= rank + 1 + rest.len() - 1);
                            }
                        },
                        None => {},
                    }
                }
            },
            None => {},
        }
    }
}

/// A group may not follow a group of the same or of a smaller unit: text in
/// which one does is no duration.
pub proof fn lemma_out_of_order_fails(s: Seq<char>, i: int, min_rank: int)
    requires
        group_at(s, i) matches Some((group, next)) && group_at(s, next) matches Some((follower, _))
            && follower.unit.rank() <= group.unit.rank() && next < s.len(),
    ensures
        groups_from(s, i, min_rank) is None,
{
    reveal_with_fuel(groups_from, 2);
}

/// Whitespace alone, and the empty text with it, stands for the empty
/// span.
pub proof fn lemma_blank_is_zero(s: Seq<char>)
    requires
        all_spaces(s),
    ensures
        duration_spec(s) == Ok::<int, Failure>(0),
{
}

/// The total of a duration is the sum of what its groups stand for, each
/// converted on its own.
pub proof fn lemma_total_is_sum(front: Seq<Group>, back: Seq<Group>)
    ensures
        total_millis(front + back) == total_millis(front) + total_millis(back),
    decreases back.len(),
{
    if back.len() == 0 {
        assert(front + back =~= front);
    } else {
        lemma_total_is_sum(front, back.drop_last());
        assert((front + back).drop_last() =~= front + back.drop_last());
        assert((front + back).last() == back.last());
    }
}

/// A run in a text with one more character at its front ends one further
/// back.
pub proof fn lemma_run_end_shift(head: char, s: Seq<char>, i: int, class: CharClass)
    requires
        0 <= i,
    ensures
        run_end(seq![head] + s, i + 1, class) == run_end(s, i, class) + 1,
    decreases s.len() - i,
{
    let t = seq![head] + s;
    if i < s.len() {
        assert(t[i + 1] == s[i]);
        if in_class(s[i], class) {
            lemma_run_end_shift(head, s, i + 1, class);
        }
    }
}

/// The groups of a text do not change when one more character is put at
/// its front.
pub proof fn lemma_groups_shift(head: char, s: Seq<char>, i: int, min_rank: int)
    requires
        0 <= i,
    ensures
        groups_from(seq![head] + s, i + 1, min_rank) == groups_from(s, i, min_rank),
    decreases s.len() - i,
{
    let t = seq![head] + s;
    if i < s.len() {
        lemma_run_end_shift(head, s, i, CharClass::Digit);
        lemma_run_end(s, i, CharClass::Digit);
        let d = run_end(s, i, CharClass::Digit);
        if d < s.len() {
            assert(t[d + 1] == s[d]);
        }
        let w = word_start(s, i);
        assert(word_start(t, i + 1) == w + 1);
        lemma_run_end_shift(head, s, w, CharClass::Word);
        lemma_run_end(s, w, CharClass::Word);
        let e = run_end(s, w, CharClass::Word);
        lemma_run_end_shift(head, s, e, CharClass::Space);
        lemma_run_end(s, e, CharClass::Space);
        let next = run_end(s, e, CharClass::Space);
        assert(t.subrange(w + 1, e + 1) =~= s.subrange(w, e));
        assert(t.subrange(i + 1, d + 1) =~= s.subrange(i, d));
        match group_at(s, i) {
            Some((group, _)) => {
                assert(group_at(t, i + 1) == Some((group, next + 1)));
                if group.unit.rank() >= min_rank && i < next <= s.len() {
                    lemma_groups_shift(head, s, next, group.unit.rank() + 1);
                }
            },
            None => {
                assert(group_at(t, i + 1) is None);
            },
        }
    }
}

/// The sign applies once, to the sum of all groups: a minus sign before a
/// duration negates what the duration stands for, and a plus sign leaves it
/// as it is.
pub proof fn lemma_sign_applies_once(s: Seq<char>)
    requires
        !has_sign(s),
        s.len() == 0 || !all_spaces(s),
    ensures
        duration_spec(s) matches Ok(millis) ==> duration_spec(seq!['-'] + s) == Ok::<int, Failure>(
            -millis,
        ) && duration_spec(seq!['+'] + s) == Ok::<int, Failure>(millis) && millis >= 0,
{
    let minus = seq!['-'] + s;
    let plus = seq!['+'] + s;
    lemma_groups_shift('-', s, 0, 0);
    lemma_groups_shift('+', s, 0, 0);
    assert(!is_space(minus[0]) && !is_space(plus[0]));
    assert(!in_class(minus[0], CharClass::Space));
    assert(!in_class(plus[0], CharClass::Space));
    assert(has_sign(minus) && has_sign(plus));
    if groups_from(s, 0, 0) is Some {
        lemma_groups_count(s, 0, 0);
        lemma_total_nonnegative(groups_from(s, 0, 0)->0);
    }
    if s.len() == 0 {
        assert(all_spaces(s));
    }
}

/// The count of every group of a duration is spelt by one or more digits,
/// and so is no negative number.
pub proof fn lemma_groups_count(s: Seq<char>, i: int, min_rank: int)
    requires
        0 <= i,
    ensures
        groups_from(s, i, min_rank) matches Some(groups) ==> forall|k: int|
            0 <= k < groups.len() ==> (#[trigger] groups[k]).digits.len() > 0 && all_digits(
                groups[k].digits,
            ) && groups[k].count() >= 0,
    decreases s.len() - i,
{
    if i < s.len() {
        match group_at(s, i) {
            Some((group, next)) => {
                if group.unit.rank() >= min_rank && i < next <= s.len() {
                    lemma_run_end(s, i, CharClass::Digit);
                    lemma_decimal_prefix(group.digits, 0);
                    lemma_groups_count(s, next, group.unit.rank() + 1);
                    match groups_from(s, next, group.unit.rank() + 1) {
                        Some(rest) => {
                            let groups = seq![group] + rest;
                            assert forall|k: int| 0 <= k < groups.len() implies (
                            #[trigger] groups[k]).digits.len() > 0 && all_digits(groups[k].digits)
                                && groups[k].count() >= 0 by {
                                if k > 0 {
                                    assert(groups[k] == rest[k - 1]);
                                }
                            }
                        },
                        None => {},
                    }
                }
            },
            None => {},
        }
    }
}

/// A total that is made of counts is never negative.
pub proof fn lemma_total_nonnegative(groups: Seq<Group>)
    requires
        forall|k: int| 0 <= k < groups.len() ==> (#[trigger] groups[k]).count() >= 0,
    ensures
        total_millis(groups) >= 0,
    decreases groups.len(),
{
    if groups.len() > 0 {
        let front = groups.drop_last();
        assert forall|k: int| 0 <= k < front.len() implies (#[trigger] front[k]).count() >= 0 by {
            assert(front[k] == groups[k]);
        }
        lemma_total_nonnegative(front);
        assert(groups.last() == groups[groups.len() - 1]);
    }
}

/// Does `r` report what `expected` says?
pub open spec fn duration_result_is(
    r: Result<Duration, ParseError>,
    expected: Result<int, Failure>,
) -> bool {
    match (r, expected) {
        (Ok(duration), Ok(millis)) => duration@ == millis,
        (Err(e), Err(failure)) => e@ == failure,
        _ => false,
    }
}

/// Whitespace alone is what a run of whitespace from the start to the end is.
pub proof fn lemma_all_spaces(s: Seq<char>)
    ensures
        all_spaces(s) <==> run_end(s, 0, CharClass::Space) == s.len(),
{
    lemma_run_end(s, 0, CharClass::Space);
    let e = run_end(s, 0, CharClass::Space);
    if e == s.len() {
        assert(s.subrange(0, e) =~= s);
    } else {
        assert(!in_class(s[e], CharClass::Space));
    }
}

/// Parses a human-readable duration.
///
/// The text is an optional sign followed by unit groups: years, months,
/// weeks, days, hours, minutes and seconds, each optional, in this order.
/// Whitespace alone stands for the empty span. The sign applies once, to
/// the sum of all groups.
pub fn parse_duration(text: &str) -> (r: Result<Duration, ParseError>)
    ensures
        duration_result_is(r, duration_spec(text@)),
{
    let chars = chars_of(text);
    let n = chars.len();
    proof {
        lemma_all_spaces(text@);
    }
    if scan_run(&chars, 0, CharClass::Space) == n {
        return Ok(Duration::zero());
    }
    let negative = chars[0] == '-';
    let start: usize = if chars[0] == '-' || chars[0] == '+' {
        1
    } else {
        0
    };
    let mut i: usize = start;
    let mut min_rank: u8 = 0;
    let mut total: i128 = 0;
    let mut bad: Option<(Unit, usize, usize)> = None;
    let ghost mut done: Seq<Group> = Seq::<Group>::empty();
    proof {
        assert(start == if has_sign(text@) { 1int } else { 0int });
        let all = groups_from(text@, start as int, 0);
        if all is Some {
            assert(done + all.unwrap() =~= all.unwrap());
        }
    }
    while i < n
        invariant
            chars@ == text@,
            n == chars.len(),
            start <= i <= n,
            !all_spaces(text@),
            start == if has_sign(text@) { 1int } else { 0int },
            negative == (text@[0] == '-'),
            min_rank <= 7,
            groups_from(text@, start as int, 0) == prepend(
                done,
                groups_from(text@, i as int, min_rank as int),
            ),
            bad is None ==> first_overflow(done) is None && total == total_millis(done) && 0
                <= total <= min_rank * 9_223_372_036_854_775_807 * 31_557_600_000,
            bad matches Some((unit, from, to)) ==> from <= to <= n && first_overflow(done) == Some(
                Group { unit, digits: text@.subrange(from as int, to as int) },
            ),
        decreases n - i,
    {
        let d = scan_run(&chars, i, CharClass::Digit);
        let w: usize = if d < n && has_class(chars[d], CharClass::Space) {
            d + 1
        } else {
            d
        };
        let e = scan_run(&chars, w, CharClass::Word);
        let next = scan_run(&chars, e, CharClass::Space);
        let found = classify_word(&chars, w, e);
        proof {
            lemma_run_end(text@, i as int, CharClass::Digit);
            assert(w == word_start(text@, i as int));
            if found is Some && d > i {
                let group = Group { unit: found.unwrap(), digits: text@.subrange(i as int, d as int) };
                assert(group_at(text@, i as int) == Some((group, next as int)));
            } else {
                assert(group_at(text@, i as int) is None);
            }
        }
        let unit = match found {
            Some(unit) => unit,
            None => {
                return Err(ParseError::new(ParseErrorKind::DurationShape, text));
            },
        };
        if d == i || unit.index() < min_rank {
            return Err(ParseError::new(ParseErrorKind::DurationShape, text));
        }
        let ghost group = Group { unit, digits: text@.subrange(i as int, d as int) };
        proof {
            let rest = groups_from(text@, next as int, unit.rank() + 1);
            assert(groups_from(text@, i as int, min_rank as int) == prepend(seq![group], rest));
            if rest is Some {
                assert(done + (seq![group] + rest.unwrap()) =~= done.push(group) + rest.unwrap());
            }
            assert(done.push(group).drop_last() =~= done);
        }
        if bad.is_none() {
            match parse_digits(&chars, i, d, 9_223_372_036_854_775_807) {
                Some(count) => {
                    assert(count == group.count());
                    let part = millis_of(unit, count as i64);
                    total = total + part;
                },
                None => {
                    bad = Some((unit, i, d));
                },
            }
        }
        proof {
            done = done.push(group);
        }
        min_rank = unit.index() + 1;
        i = next;
    }
    proof {
        assert(done + Seq::<Group>::empty() =~= done);
    }
    match bad {
        Some((unit, from, to)) => {
            let digits = text.substring_char(from, to);
            Err(ParseError::new(ParseErrorKind::DurationNumber(unit), digits))
        },
        None => {
            let value: i128 = if negative {
                -total
            } else {
                total
            };
            if value < -9_223_372_036_854_775_808 || value > 9_223_372_036_854_775_807 {
                Err(ParseError::new(ParseErrorKind::DurationRange, text))
            } else {
                Ok(Duration { millis: value as i64 })
            }
        },
    }
}

} // verus!
