//! Character classes and scanning primitives shared by the parsers.

use vstd::prelude::*;
use vstd::string::*;

verus! {

/// The classes of characters that the grammars tell apart.
#[derive(Debug, Clone, Copy, PartialEq, Eq, Structural)]
pub enum CharClass {
    /// ASCII decimal digits.
    Digit,
    /// ASCII whitespace: space, tab, line feed, vertical tab, form feed, carriage return.
    Space,
    /// Whatever is neither a digit nor whitespace.
    Word,
    /// ASCII upper case letters.
    Upper,
    /// ASCII letters of either case.
    Alpha,
    /// Whatever is not a tab.
    Field,
    /// Whatever is not a line feed.
    Line,
    /// The space character.
    Blank,
}

/// ASCII decimal digit.
pub open spec fn is_digit(c: char) -> bool {
    '0' <= c && c <= '9'
}

/// ASCII whitespace.
pub open spec fn is_space(c: char) -> bool {
    c == ' ' || c == '\t' || c == '\n' || c == '\x0b' || c == '\x0c' || c == '\r'
}

/// ASCII upper case letter.
pub open spec fn is_upper(c: char) -> bool {
    'A' <= c && c <= 'Z'
}

/// ASCII letter.
pub open spec fn is_alpha(c: char) -> bool {
    is_upper(c) || ('a' <= c && c <= 'z')
}

/// `c` belongs to `class`.
pub open spec fn in_class(c: char, class: CharClass) -> bool {
    match class {
        CharClass::Digit => is_digit(c),
        CharClass::Space => is_space(c),
        CharClass::Word => !is_digit(c) && !is_space(c),
        CharClass::Upper => is_upper(c),
        CharClass::Alpha => is_alpha(c),
        CharClass::Field => c != '\t',
        CharClass::Line => c != '\n',
        CharClass::Blank => c == ' ',
    }
}

/// Every character of `s` belongs to `class`.
pub open spec fn all_in_class(s: Seq<char>, class: CharClass) -> bool {
    forall|i: int| 0 <= i < s.len() ==> in_class(#[trigger] s[i], class)
}

/// Every character of `s` is a decimal digit.
pub open spec fn all_digits(s: Seq<char>) -> bool {
    all_in_class(s, CharClass::Digit)
}

/// Every character of `s` is whitespace.
pub open spec fn all_spaces(s: Seq<char>) -> bool {
    all_in_class(s, CharClass::Space)
}

/// Index just past the longest run of characters of `class` that starts at `i`.
pub open spec fn run_end(s: Seq<char>, i: int, class: CharClass) -> int
    decreases s.len() - i,
{
    if 0 <= i < s.len() && in_class(s[i], class) {
        run_end(s, i + 1, class)
    } else {
        i
    }
}

/// The length of `s` without the whitespace at its end.
pub open spec fn trim_end(s: Seq<char>) -> int
    decreases s.len(),
{
    if s.len() > 0 && is_space(s.last()) {
        trim_end(s.drop_last())
    } else {
        s.len() as int
    }
}

/// Does `s` start with a plus or a minus sign?
pub open spec fn has_sign(s: Seq<char>) -> bool {
    s.len() > 0 && (s[0] == '+' || s[0] == '-')
}

/// The number that `s` spells in base 10: an optional sign and one or more
/// digits, with a value that fits a signed 64-bit integer.
pub open spec fn integer_spec(s: Seq<char>) -> Option<int> {
    let start = if has_sign(s) {
        1int
    } else {
        0int
    };
    let digits = s.subrange(start, s.len() as int);
    let value = if s.len() > 0 && s[0] == '-' {
        -decimal_value(digits)
    } else {
        decimal_value(digits)
    };
    if digits.len() > 0 && all_digits(digits) && i64::MIN <= value <= i64::MAX {
        Some(value)
    } else {
        None
    }
}

/// The numeric value of a decimal digit.
pub open spec fn digit_value(c: char) -> int {
    c as int - '0' as int
}

/// The value of `s` read as a base-10 numeral (most significant digit first).
pub open spec fn decimal_value(s: Seq<char>) -> int
    decreases s.len(),
{
    if s.len() == 0 {
        0
    } else {
        decimal_value(s.drop_last()) * 10 + digit_value(s.last())
    }
}

/// Facts about the run of `class` that starts at `i`.
pub proof fn lemma_run_end(s: Seq<char>, i: int, class: CharClass)
    requires
        0 <= i <= s.len(),
    ensures
        i <= run_end(s, i, class) <= s.len(),
        all_in_class(s.subrange(i, run_end(s, i, class)), class),
        run_end(s, i, class) < s.len() ==> !in_class(s[run_end(s, i, class)], class),
        run_end(s, i, class) > i <==> (i < s.len() && in_class(s[i], class)),
    decreases s.len() - i,
{
    if i < s.len() && in_class(s[i], class) {
        lemma_run_end(s, i + 1, class);
        let e = run_end(s, i, class);
        assert forall|k: int| 0 <= k < e - i implies in_class(
            #[trigger] s.subrange(i, e)[k],
            class,
        ) by {
            if k > 0 {
                assert(s.subrange(i + 1, e)[k - 1] == s[i + k]);
            }
        }
    }
}

/// A run that stops at `j` is the longest one.
pub proof fn lemma_run_end_at(s: Seq<char>, i: int, j: int, class: CharClass)
    requires
        0 <= i <= j <= s.len(),
        forall|k: int| i <= k < j ==> in_class(s[k], class),
        j < s.len() ==> !in_class(s[j], class),
    ensures
        run_end(s, i, class) == j,
    decreases j - i,
{
    if i < j {
        lemma_run_end_at(s, i + 1, j, class);
    }
}

/// A numeral is never negative, and never smaller than one of its prefixes.
pub proof fn lemma_decimal_prefix(s: Seq<char>, k: int)
    requires
        all_digits(s),
        0 <= k <= s.len(),
    ensures
        0 <= decimal_value(s.subrange(0, k)) <= decimal_value(s),
    decreases s.len(),
{
    if s.len() > 0 {
        let t = s.drop_last();
        assert(is_digit(s[s.len() - 1]));
        assert forall|i: int| 0 <= i < t.len() implies in_class(
            #[trigger] t[i],
            CharClass::Digit,
        ) by {
            assert(t[i] == s[i]);
        }
        lemma_decimal_prefix(t, t.len() as int);
        assert(t.subrange(0, t.len() as int) =~= t);
        if k < s.len() {
            lemma_decimal_prefix(t, k);
            assert(t.subrange(0, k) =~= s.subrange(0, k));
        }
    }
    if k == s.len() {
        assert(s.subrange(0, k) =~= s);
    }
}

/// Does `c` belong to `class`?
pub(crate) fn has_class(c: char, class: CharClass) -> (b: bool)
    ensures
        b == in_class(c, class),
{
    match class {
        CharClass::Digit => '0' <= c && c <= '9',
        CharClass::Space => c == ' ' || c == '\t' || c == '\n' || c == '\x0b' || c == '\x0c' || c
            == '\r',
        CharClass::Word => !('0' <= c && c <= '9') && !(c == ' ' || c == '\t' || c == '\n' || c
            == '\x0b' || c == '\x0c' || c == '\r'),
        CharClass::Upper => 'A' <= c && c <= 'Z',
        CharClass::Alpha => ('A' <= c && c <= 'Z') || ('a' <= c && c <= 'z'),
        CharClass::Field => c != '\t',
        CharClass::Line => c != '\n',
        CharClass::Blank => c == ' ',
    }
}

/// The characters of a string slice, in order.
pub fn chars_of(s: &str) -> (v: Vec<char>)
    ensures
        v@ == s@,
{
    let mut v: Vec<char> = Vec::new();
    for c in it: s.chars()
        invariant
            it.seq() == s@,
            v@ == s@.subrange(0, it.index() as int),
    {
        v.push(c);
        assert(v@ =~= s@.subrange(0, it.index() + 1));
    }
    assert(v@ =~= s@);
    v
}

/// Index just past the run of `class` that starts at `i`.
pub(crate) fn scan_run(v: &Vec<char>, i: usize, class: CharClass) -> (j: usize)
    requires
        i <= v.len(),
    ensures
        j == run_end(v@, i as int, class),
        i <= j <= v.len(),
{
    let mut j: usize = i;
    while j < v.len() && has_class(v[j], class)
        invariant
            i <= j <= v.len(),
            forall|k: int| i <= k < j ==> in_class(v@[k], class),
        decreases v.len() - j,
    {
        j = j + 1;
    }
    proof {
        lemma_run_end_at(v@, i as int, j as int, class);
    }
    j
}

/// Whatever stands behind `j` is whitespace, and what stands before it is not.
pub proof fn lemma_trim_end_at(s: Seq<char>, j: int)
    requires
        0 <= j <= s.len(),
        forall|k: int| j <= k < s.len() ==> is_space(s[k]),
        j > 0 ==> !is_space(s[j - 1]),
    ensures
        trim_end(s) == j,
    decreases s.len(),
{
    if j < s.len() {
        let t = s.drop_last();
        assert forall|k: int| j <= k < t.len() implies is_space(t[k]) by {
            assert(t[k] == s[k]);
        }
        lemma_trim_end_at(t, j);
    }
}

/// The length of `v` without the whitespace at its end.
pub(crate) fn scan_trim_end(v: &Vec<char>) -> (j: usize)
    ensures
        j == trim_end(v@),
        j <= v.len(),
{
    let mut j: usize = v.len();
    while j > 0 && has_class(v[j - 1], CharClass::Space)
        invariant
            j <= v.len(),
            forall|k: int| j <= k < v.len() ==> is_space(v@[k]),
        decreases j,
    {
        j = j - 1;
    }
    proof {
        lemma_trim_end_at(v@, j as int);
    }
    j
}

/// Do the characters `v[from..to)` spell `word`?
pub(crate) fn slice_is(v: &Vec<char>, from: usize, to: usize, word: &str) -> (b: bool)
    requires
        from <= to <= v.len(),
    ensures
        b == (v@.subrange(from as int, to as int) == word@),
{
    let n = word.unicode_len();
    if n != to - from {
        return false;
    }
    let mut k: usize = 0;
    while k < n
        invariant
            from <= to <= v.len(),
            n == to - from,
            n == word@.len(),
            k <= n,
            forall|j: int| 0 <= j < k ==> v@[from + j] == word@[j],
        decreases n - k,
    {
        if v[from + k] != word.get_char(k) {
            assert(v@.subrange(from as int, to as int)[k as int] != word@[k as int]);
            return false;
        }
        k = k + 1;
    }
    assert(v@.subrange(from as int, to as int) =~= word@);
    true
}

/// The number a decimal digit stands for.
pub(crate) fn digit_of(c: char) -> (d: u64)
    requires
        is_digit(c),
    ensures
        d == digit_value(c),
        d <= 9,
{
    (c as u32 - '0' as u32) as u64
}

/// Reads the digits `v[from..to)` as a base-10 numeral, as long as its value
/// does not exceed `limit`.
pub(crate) fn parse_digits(v: &Vec<char>, from: usize, to: usize, limit: u64) -> (r: Option<u64>)
    requires
        from <= to <= v.len(),
        all_digits(v@.subrange(from as int, to as int)),
    ensures
        0 <= decimal_value(v@.subrange(from as int, to as int)),
        r == (if decimal_value(v@.subrange(from as int, to as int)) <= limit {
            Some(decimal_value(v@.subrange(from as int, to as int)) as u64)
        } else {
            None
        }),
{
    let ghost whole = v@.subrange(from as int, to as int);
    let mut acc: u64 = 0;
    let mut k: usize = from;
    assert(whole.subrange(0, 0) =~= Seq::<char>::empty());
    proof {
        lemma_decimal_prefix(whole, 0);
    }
    while k < to
        invariant
            from <= k <= to <= v.len(),
            whole == v@.subrange(from as int, to as int),
            all_digits(whole),
            acc == decimal_value(whole.subrange(0, k - from)),
            acc <= limit,
        decreases to - k,
    {
        assert(is_digit(whole[k - from]));
        let d = digit_of(v[k]);
        proof {
            let next = whole.subrange(0, k - from + 1);
            assert(next.drop_last() =~= whole.subrange(0, k - from));
            assert(next.last() == v@[k as int]);
            assert(decimal_value(next) == acc * 10 + d);
            lemma_decimal_prefix(whole, k - from + 1);
        }
        if d > limit || acc > (limit - d) / 10 {
            return None;
        }
        acc = acc * 10 + d;
        k = k + 1;
    }
    assert(whole.subrange(0, to - from) =~= whole);
    Some(acc)
}

/// Reads `text` as a signed 64-bit integer in base 10.
pub fn parse_integer(text: &str) -> (r: Option<i64>)
    ensures
        match r {
            Some(value) => integer_spec(text@) == Some(value as int),
            None => integer_spec(text@) is None,
        },
{
    let chars = chars_of(text);
    let n = chars.len();
    if n == 0 {
        return None;
    }
    let negative = chars[0] == '-';
    let start: usize = if chars[0] == '-' || chars[0] == '+' {
        1
    } else {
        0
    };
    let d = scan_run(&chars, start, CharClass::Digit);
    proof {
        lemma_run_end(text@, start as int, CharClass::Digit);
        let digits = text@.subrange(start as int, n as int);
        if d < n {
            assert(digits[d - start] == text@[d as int]);
        }
    }
    if d != n || d == start {
        return None;
    }
    if negative {
        match parse_digits(&chars, start, n, 9_223_372_036_854_775_808) {
            Some(magnitude) => if magnitude == 9_223_372_036_854_775_808 {
                Some(i64::MIN)
            } else {
                Some(-(magnitude as i64))
            },
            None => None,
        }
    } else {
        match parse_digits(&chars, start, n, 9_223_372_036_854_775_807) {
            Some(magnitude) => Some(magnitude as i64),
            None => None,
        }
    }
}

} // verus!
