//! The table of timezone abbreviations and the dataset it is built from.
//!
//! Abbreviations are not standardised and several zones may share one. The
//! table keeps, of the entries of one abbreviation, the one that the dataset
//! lists first.

use vstd::prelude::*;
use vstd::string::*;
use crate::error::{Failure, ParseError, ParseErrorKind};
use crate::offset::{lemma_offset_bounds, offset_spec, parse_offset_slice, UtcOffset};
use crate::text::{
    all_in_class, chars_of, lemma_run_end, run_end, scan_run, scan_trim_end, slice_is, trim_end,
    CharClass,
};

verus! {

/// An abbreviation and the seconds east of UTC that it stands for.
pub type EntryModel = (Seq<char>, int);

/// One entry of the table.
#[derive(Debug, Clone)]
pub struct AbbreviationEntry {
    abbreviation: String,
    offset: UtcOffset,
}

impl View for AbbreviationEntry {
    type V = EntryModel;

    closed spec fn view(&self) -> EntryModel {
        (self.abbreviation@, self.offset@)
    }
}

/// The offset of the first of `entries` that is filed under `key`.
pub open spec fn lookup_spec(entries: Seq<EntryModel>, key: Seq<char>) -> Option<int>
    decreases entries.len(),
{
    if entries.len() == 0 {
        None
    } else {
        match lookup_spec(entries.drop_last(), key) {
            Some(offset) => Some(offset),
            None => if entries.last().0 == key {
                Some(entries.last().1)
            } else {
                None
            },
        }
    }
}

/// No two of `entries` share an abbreviation.
pub open spec fn unique_keys(entries: Seq<EntryModel>) -> bool {
    forall|i: int, j: int|
        0 <= i < j < entries.len() ==> (#[trigger] entries[i]).0 != (#[trigger] entries[j]).0
}

/// `entries` with one more entry, unless its abbreviation is taken: the
/// entry that came first stays.
pub open spec fn insert_first(entries: Seq<EntryModel>, key: Seq<char>, offset: int) -> Seq<
    EntryModel,
> {
    if lookup_spec(entries, key) is Some {
        entries
    } else {
        entries.push((key, offset))
    }
}

/// What one line of the dataset holds: nothing, where it is blank or a
/// comment, or an abbreviation and its offset.
///
/// An entry is an abbreviation in upper case letters, a tab, a label, a
/// tab, and `UTC` followed by an offset token. Spaces may stand before each
/// tab stop and whitespace around the line.
pub open spec fn line_spec(line: Seq<char>) -> Result<Option<EntryModel>, Failure> {
    let a = run_end(line, 0, CharClass::Space);
    let b = run_end(line, a, CharClass::Upper);
    let g = run_end(line, b, CharClass::Blank);
    let t = run_end(line, g + 1, CharClass::Field);
    let u = run_end(line, t + 1, CharClass::Blank);
    let z = trim_end(line);
    if a >= line.len() || line[a] == '#' {
        Ok(None)
    } else if a < b && g < line.len() && line[g] == '\t' && g + 1 < t < line.len() && u + 3 <= z
        && line.subrange(u, u + 3) == "UTC"@ {
        match offset_spec(line.subrange(u + 3, z)) {
            Ok(offset) => Ok(Some((line.subrange(a, b), offset))),
            Err(failure) => Err(failure),
        }
    } else {
        Err(Failure { kind: ParseErrorKind::DatasetLine, text: line })
    }
}

/// The abbreviation of an entry is made of upper case letters, one or more,
/// and its offset is shorter than a day.
pub proof fn lemma_line_entry(line: Seq<char>)
    ensures
        line_spec(line) matches Ok(Some(entry)) ==> entry.0.len() > 0 && all_in_class(
            entry.0,
            CharClass::Upper,
        ) && -86_400 < entry.1 < 86_400,
{
    let a = run_end(line, 0, CharClass::Space);
    let b = run_end(line, a, CharClass::Upper);
    let g = run_end(line, b, CharClass::Blank);
    let t = run_end(line, g + 1, CharClass::Field);
    let u = run_end(line, t + 1, CharClass::Blank);
    lemma_run_end(line, 0, CharClass::Space);
    lemma_run_end(line, a, CharClass::Upper);
    lemma_offset_bounds(line.subrange(u + 3, trim_end(line)));
}

/// Where the line behind the one that ends at `e` starts.
pub open spec fn next_line(s: Seq<char>, e: int) -> int {
    if e < s.len() {
        e + 1
    } else {
        e
    }
}

/// The entries that the lines of `s` from `i` on add to `acc`, in order.
pub open spec fn table_from(s: Seq<char>, i: int, acc: Seq<EntryModel>) -> Result<
    Seq<EntryModel>,
    Failure,
>
    decreases s.len() - i,
{
    let e = run_end(s, i, CharClass::Line);
    if i >= s.len() || !(i <= e <= s.len()) || i < 0 {
        Ok(acc)
    } else {
        match line_spec(s.subrange(i, e)) {
            Err(failure) => Err(failure),
            Ok(None) => table_from(s, next_line(s, e), acc),
            Ok(Some((key, offset))) => table_from(s, next_line(s, e), insert_first(acc, key, offset)),
        }
    }
}

/// The entries of the table that a dataset describes.
pub open spec fn dataset_spec(s: Seq<char>) -> Result<Seq<EntryModel>, Failure> {
    table_from(s, 0, Seq::<EntryModel>::empty())
}

/// An entry that was found stays found when entries are added behind it.
pub proof fn lemma_lookup_prefix(entries: Seq<EntryModel>, k: int, key: Seq<char>)
    requires
        0 <= k <= entries.len(),
        lookup_spec(entries.subrange(0, k), key) is Some,
    ensures
        lookup_spec(entries, key) == lookup_spec(entries.subrange(0, k), key),
    decreases entries.len(),
{
    if k == entries.len() {
        assert(entries.subrange(0, k) =~= entries);
    } else {
        let t = entries.drop_last();
        assert(t.subrange(0, k) =~= entries.subrange(0, k));
        lemma_lookup_prefix(t, k, key);
    }
}

/// A key is found exactly where some entry is filed under it.
pub proof fn lemma_lookup_exists(entries: Seq<EntryModel>, key: Seq<char>)
    ensures
        lookup_spec(entries, key) is Some <==> exists|i: int|
            0 <= i < entries.len() && (#[trigger] entries[i]).0 == key,
        lookup_spec(entries, key) matches Some(offset) ==> exists|i: int|
            0 <= i < entries.len() && #[trigger] entries[i] == (key, offset),
    decreases entries.len(),
{
    if entries.len() > 0 {
        let t = entries.drop_last();
        lemma_lookup_exists(t, key);
        if lookup_spec(t, key) is Some {
            let i = choose|i: int| 0 <= i < t.len() && #[trigger] t[i] == (key, lookup_spec(t, key)->0);
            assert(entries[i] == t[i]);
        } else if entries.last().0 == key {
            assert(entries[entries.len() - 1] == (key, entries.last().1));
        } else {
            assert forall|i: int| 0 <= i < entries.len() implies (#[trigger] entries[i]).0
                != key by {
                if i < t.len() {
                    assert(t[i] == entries[i]);
                }
            }
        }
    }
}

/// The entry that a lookup finds is the first one under its key.
pub proof fn lemma_lookup_is_first(entries: Seq<EntryModel>, key: Seq<char>)
    ensures
        lookup_spec(entries, key) matches Some(offset) ==> exists|i: int|
            0 <= i < entries.len() && #[trigger] entries[i] == (key, offset) && forall|j: int|
                0 <= j < i ==> (#[trigger] entries[j]).0 != key,
    decreases entries.len(),
{
    if entries.len() > 0 {
        let t = entries.drop_last();
        lemma_lookup_is_first(t, key);
        lemma_lookup_exists(t, key);
        match lookup_spec(t, key) {
            Some(offset) => {
                let i = choose|i: int|
                    0 <= i < t.len() && #[trigger] t[i] == (key, offset) && forall|j: int|
                        0 <= j < i ==> (#[trigger] t[j]).0 != key;
                assert(entries[i] == t[i]);
                assert forall|j: int| 0 <= j < i implies (#[trigger] entries[j]).0 != key by {
                    assert(entries[j] == t[j]);
                }
            },
            None => {
                if entries.last().0 == key {
                    let i = entries.len() - 1;
                    assert(entries[i] == (key, entries.last().1));
                    assert forall|j: int| 0 <= j < i implies (#[trigger] entries[j]).0
                        != key by {
                        assert(entries[j] == t[j]);
                    }
                }
            },
        }
    }
}

/// Adding an entry keeps the abbreviations distinct.
pub proof fn lemma_insert_keeps_unique(entries: Seq<EntryModel>, key: Seq<char>, offset: int)
    requires
        unique_keys(entries),
    ensures
        unique_keys(insert_first(entries, key, offset)),
{
    lemma_lookup_exists(entries, key);
}

/// A table that is built from a dataset holds no abbreviation twice.
pub proof fn lemma_table_keys_unique(s: Seq<char>, i: int, acc: Seq<EntryModel>)
    requires
        unique_keys(acc),
    ensures
        table_from(s, i, acc) matches Ok(entries) ==> unique_keys(entries),
    decreases s.len() - i,
{
    let e = run_end(s, i, CharClass::Line);
    if i >= s.len() || !(i <= e <= s.len()) || i < 0 {
    } else {
        match line_spec(s.subrange(i, e)) {
            Err(failure) => {},
            Ok(None) => {
                lemma_table_keys_unique(s, next_line(s, e), acc);
            },
            Ok(Some((key, offset))) => {
                lemma_insert_keeps_unique(acc, key, offset);
                lemma_table_keys_unique(s, next_line(s, e), insert_first(acc, key, offset));
            },
        }
    }
}

/// The table of a dataset holds no abbreviation twice.
pub proof fn lemma_dataset_keys_unique(s: Seq<char>)
    ensures
        dataset_spec(s) matches Ok(entries) ==> unique_keys(entries),
{
    lemma_table_keys_unique(s, 0, Seq::<EntryModel>::empty());
}

/// Of the entries that share an abbreviation, the table holds the one that
/// the dataset lists first: an entry is never replaced by a later line.
pub proof fn lemma_first_entry_wins(s: Seq<char>, i: int, acc: Seq<EntryModel>, key: Seq<char>)
    requires
        lookup_spec(acc, key) is Some,
    ensures
        table_from(s, i, acc) matches Ok(entries) ==> lookup_spec(entries, key) == lookup_spec(
            acc,
            key,
        ),
    decreases s.len() - i,
{
    let e = run_end(s, i, CharClass::Line);
    if i >= s.len() || !(i <= e <= s.len()) || i < 0 {
    } else {
        match line_spec(s.subrange(i, e)) {
            Err(failure) => {},
            Ok(None) => {
                lemma_first_entry_wins(s, next_line(s, e), acc, key);
            },
            Ok(Some((other, offset))) => {
                let next = insert_first(acc, other, offset);
                if lookup_spec(acc, other) is None {
                    assert(next.drop_last() =~= acc);
                }
                lemma_first_entry_wins(s, next_line(s, e), next, key);
            },
        }
    }
}

impl AbbreviationEntry {
    /// The abbreviation, in upper case letters.
    pub fn abbreviation(&self) -> (r: &str)
        ensures
            r@ == self@.0,
    {
        self.abbreviation.as_str()
    }

    /// The displacement from UTC that the abbreviation stands for.
    pub fn offset(&self) -> (r: UtcOffset)
        ensures
            r@ == self@.1,
    {
        self.offset
    }
}

/// Does `r` report what `expected` says?
pub open spec fn line_result_is(
    r: Result<Option<AbbreviationEntry>, ParseError>,
    expected: Result<Option<EntryModel>, Failure>,
) -> bool {
    match (r, expected) {
        (Ok(Some(entry)), Ok(Some(model))) => entry@ == model,
        (Ok(None), Ok(None)) => true,
        (Err(e), Err(failure)) => e@ == failure,
        _ => false,
    }
}

/// Parses one line of the dataset. Blank lines and lines that start with
/// `#` hold no entry.
pub fn parse_timezone_line(line: &str) -> (r: Result<Option<AbbreviationEntry>, ParseError>)
    ensures
        line_result_is(r, line_spec(line@)),
{
    let chars = chars_of(line);
    let n = chars.len();
    let a = scan_run(&chars, 0, CharClass::Space);
    if a >= n || chars[a] == '#' {
        return Ok(None);
    }
    let b = scan_run(&chars, a, CharClass::Upper);
    let g = scan_run(&chars, b, CharClass::Blank);
    if a >= b || g >= n || chars[g] != '\t' {
        return Err(ParseError::new(ParseErrorKind::DatasetLine, line));
    }
    let t = scan_run(&chars, g + 1, CharClass::Field);
    if t <= g + 1 || t >= n {
        return Err(ParseError::new(ParseErrorKind::DatasetLine, line));
    }
    let u = scan_run(&chars, t + 1, CharClass::Blank);
    let z = scan_trim_end(&chars);
    if z < 3 || u > z - 3 || !slice_is(&chars, u, u + 3, "UTC") {
        return Err(ParseError::new(ParseErrorKind::DatasetLine, line));
    }
    match parse_offset_slice(line, &chars, u + 3, z) {
        Ok(offset) => Ok(
            Some(
                AbbreviationEntry {
                    abbreviation: String::from_str(line.substring_char(a, b)),
                    offset,
                },
            ),
        ),
        Err(e) => Err(e),
    }
}

/// The table of timezone abbreviations: built once, read many times.
#[derive(Debug)]
pub struct AbbreviationTable {
    entries: Vec<AbbreviationEntry>,
}

impl View for AbbreviationTable {
    type V = Seq<EntryModel>;

    /// The entries in the order in which they were added.
    closed spec fn view(&self) -> Seq<EntryModel> {
        Seq::new(self.entries@.len(), |i: int| self.entries@[i]@)
    }
}

/// Does `r` report what `expected` says?
pub open spec fn table_result_is(
    r: Result<AbbreviationTable, ParseError>,
    expected: Result<Seq<EntryModel>, Failure>,
) -> bool {
    match (r, expected) {
        (Ok(table), Ok(entries)) => table@ == entries,
        (Err(e), Err(failure)) => e@ == failure,
        _ => false,
    }
}

impl AbbreviationTable {
    #[verifier::type_invariant]
    spec fn well_formed(self) -> bool {
        unique_keys(self@)
    }

    /// The table without entries.
    pub fn new() -> (r: AbbreviationTable)
        ensures
            r@ == Seq::<EntryModel>::empty(),
    {
        let r = AbbreviationTable { entries: Vec::new() };
        assert(r@ =~= Seq::<EntryModel>::empty());
        r
    }

    /// The number of abbreviations in the table.
    pub fn len(&self) -> (r: usize)
        ensures
            r == self@.len(),
            unique_keys(self@),
    {
        proof {
            use_type_invariant(self);
        }
        self.entries.len()
    }

    /// Position of the entry that is filed under `key`.
    fn position(&self, key: &Vec<char>) -> (r: Option<usize>)
        ensures
            match r {
                Some(i) => i < self@.len() && self@[i as int].0 == key@ && lookup_spec(
                    self@,
                    key@,
                ) == Some(self@[i as int].1),
                None => lookup_spec(self@, key@) is None,
            },
    {
        let mut i: usize = 0;
        assert(self@.subrange(0, 0) =~= Seq::<EntryModel>::empty());
        while i < self.entries.len()
            invariant
                i <= self.entries@.len(),
                self@.len() == self.entries@.len(),
                lookup_spec(self@.subrange(0, i as int), key@) is None,
            decreases self.entries@.len() - i,
        {
            let found = slice_is(key, 0, key.len(), self.entries[i].abbreviation.as_str());
            proof {
                assert(key@.subrange(0, key@.len() as int) =~= key@);
                assert(self@.subrange(0, i + 1).drop_last() =~= self@.subrange(0, i as int));
                assert(self@.subrange(0, i + 1).last() == self@[i as int]);
            }
            if found {
                proof {
                    lemma_lookup_prefix(self@, i + 1, key@);
                }
                return Some(i);
            }
            i = i + 1;
        }
        assert(self@.subrange(0, i as int) =~= self@);
        None
    }

    /// The table with one more entry, unless it already holds the entry's
    /// abbreviation.
    pub fn with_entry(self, entry: AbbreviationEntry) -> (r: AbbreviationTable)
        ensures
            r@ == insert_first(self@, entry@.0, entry@.1),
    {
        proof {
            use_type_invariant(&self);
            lemma_insert_keeps_unique(self@, entry@.0, entry@.1);
        }
        let key = chars_of(entry.abbreviation.as_str());
        if self.position(&key).is_none() {
            let ghost before = self@;
            let mut entries = self.entries;
            entries.push(entry);
            proof {
                let after = Seq::new(entries@.len(), |i: int| entries@[i]@);
                assert(after =~= before.push(entry@));
            }
            AbbreviationTable { entries }
        } else {
            self
        }
    }

    /// Builds the table from a dataset of one entry per line.
    ///
    /// Blank lines and comments are skipped. Of the entries that share an
    /// abbreviation the first one is kept. The first line that is no entry
    /// makes the whole dataset fail.
    pub fn from_dataset(dataset: &str) -> (r: Result<AbbreviationTable, ParseError>)
        ensures
            table_result_is(r, dataset_spec(dataset@)),
    {
        let chars = chars_of(dataset);
        let n = chars.len();
        let mut table = AbbreviationTable::new();
        let mut i: usize = 0;
        while i < n
            invariant
                chars@ == dataset@,
                n == chars.len(),
                i <= n,
                dataset_spec(dataset@) == table_from(dataset@, i as int, table@),
            decreases n - i,
        {
            let e = scan_run(&chars, i, CharClass::Line);
            let line = dataset.substring_char(i, e);
            match parse_timezone_line(line) {
                Err(failure) => {
                    return Err(failure);
                },
                Ok(None) => {},
                Ok(Some(entry)) => {
                    table = table.with_entry(entry);
                },
            }
            i = if e < n {
                e + 1
            } else {
                e
            };
        }
        Ok(table)
    }

    /// The displacement from UTC that `abbreviation` stands for. The match
    /// is exact and case-sensitive.
    pub fn lookup(&self, abbreviation: &str) -> (r: Result<UtcOffset, ParseError>)
        ensures
            match lookup_spec(self@, abbreviation@) {
                Some(offset) => r matches Ok(found) && found@ == offset,
                None => r matches Err(e) && e@ == (Failure {
                    kind: ParseErrorKind::UnknownAbbreviation,
                    text: abbreviation@,
                }),
            },
    {
        let key = chars_of(abbreviation);
        match self.position(&key) {
            Some(i) => Ok(self.entries[i].offset),
            None => Err(ParseError::new(ParseErrorKind::UnknownAbbreviation, abbreviation)),
        }
    }
}

/// Parses a timezone abbreviation into a displacement from UTC.
pub fn parse_abbreviation(table: &AbbreviationTable, abbreviation: &str) -> (r: Result<
    UtcOffset,
    ParseError,
>)
    ensures
        match lookup_spec(table@, abbreviation@) {
            Some(offset) => r matches Ok(found) && found@ == offset,
            None => r matches Err(e) && e@ == (Failure {
                kind: ParseErrorKind::UnknownAbbreviation,
                text: abbreviation@,
            }),
        },
{
    table.lookup(abbreviation)
}

} // verus!
