//! Regular-expression position search: the 1-based byte offset of a match,
//! or -1 when there is none or an argument is out of range.
use vstd::prelude::*;
use vstd::string::StringSliceAdditionalSpecFns;
use vstd::utf8::is_char_boundary;

use crate::broadcast::{aligned, evaluates_to, map_rows, EvalError, RowFunction};
use crate::column::Column;
use crate::pattern::{bytes_of, first_match_from, match_number, offset_of, Matcher, Pattern};

verus! {

/// A text within Rust's allocation limit, so that its 1-based offsets, one
/// past its end included, fit in an `isize` and an `i64`.
pub open spec fn text_fits(s: Seq<char>) -> bool {
    bytes_of(s).len() < isize::MAX
}

/// The 1-based position of a match found at byte offset `k` of a text that
/// starts `base` bytes into the haystack; -1 when there is no match.
pub open spec fn position(m: Option<nat>, base: int) -> i64 {
    match m {
        Some(k) => (k + base + 1) as i64,
        None => -1i64,
    }
}

/// Position of the first match of `p` in `hay`.
pub open spec fn find_first(p: Seq<char>, hay: Seq<char>) -> i64 {
    position(first_match_from(p, bytes_of(hay), 0), 0)
}

/// Position of the first match of `p` in `hay` at or after the 1-based
/// offset `start`; -1 when `start` is outside `1..=len`.
pub open spec fn find_from(p: Seq<char>, hay: Seq<char>, start: i64) -> i64 {
    let b = bytes_of(hay);
    if start < 1 || start > b.len() {
        -1i64
    } else {
        position(first_match_from(p, b, (start - 1) as nat), 0)
    }
}

/// Position of the `occurrence`-th match of `p` in the part of `hay` from
/// the 1-based offset `start`; -1 when `start` is outside `1..=len` or splits
/// a character, or when `occurrence` is below 1. An occurrence beyond what a
/// `usize` counts has no match: a haystack holds fewer matches than that.
pub open spec fn find_nth(p: Seq<char>, hay: Seq<char>, start: i64, occurrence: i64) -> i64 {
    let b = bytes_of(hay);
    if start < 1 || start > b.len() || !is_char_boundary(b, start - 1) || occurrence < 1
        || occurrence - 1 > usize::MAX {
        -1i64
    } else {
        position(
            match_number(p, b.subrange(start - 1, b.len() as int), (occurrence - 1) as nat),
            start - 1,
        )
    }
}

/// The 1-based position of a match found at byte offset `m` of a text that
/// starts `base` bytes into the haystack; -1 for no match.
pub fn match_position(m: Option<usize>, base: usize) -> (r: i64)
    requires
        m matches Some(k) ==> k + base < isize::MAX,
    ensures
        r == position(offset_of(m), base as int),
{
    match m {
        Some(k) => (k + base) as i64 + 1,
        None => -1,
    }
}

/// The first match of `m` in `hay`, 1-based, or -1.
pub fn first_position(m: &Matcher, hay: &str) -> (r: i64)
    requires
        text_fits(hay@),
    ensures
        r == find_first(m@, hay@),
{
    match_position(m.find(hay), 0)
}

/// The first match of `m` in `hay` at or after the 1-based offset `start`,
/// or -1.
pub fn position_from(m: &Matcher, hay: &str, start: i64) -> (r: i64)
    requires
        text_fits(hay@),
    ensures
        r == find_from(m@, hay@, start),
        start > bytes_of(hay@).len() ==> r == -1,
        start < 1 ==> r == -1,
{
    let len = hay.len();
    assert(hay.spec_bytes() == bytes_of(hay@));
    if start < 1 {
        return -1;
    }
    if start as u64 > len as u64 {
        return -1;
    }
    match_position(m.find_at(hay, (start - 1) as usize), 0)
}

/// The `occurrence`-th match of `m` in the part of `hay` from the 1-based
/// offset `start`, as a position in `hay`, or -1.
pub fn position_nth(m: &Matcher, hay: &str, start: i64, occurrence: i64) -> (r: i64)
    requires
        text_fits(hay@),
    ensures
        r == find_nth(m@, hay@, start, occurrence),
        start > bytes_of(hay@).len() ==> r == -1,
        occurrence <= 0 ==> r == -1,
{
    let len = hay.len();
    assert(hay.spec_bytes() == bytes_of(hay@));
    if start < 1 {
        return -1;
    }
    if start as u64 > len as u64 {
        return -1;
    }
    let from = (start - 1) as usize;
    if !hay.is_char_boundary(from) {
        return -1;
    }
    if occurrence < 1 {
        return -1;
    }
    if (occurrence - 1) as u64 > usize::MAX as u64 {
        return -1;
    }
    let (_, suffix) = hay.split_at(from);
    assert(suffix.spec_bytes() == bytes_of(suffix@));
    assert(bytes_of(suffix@) =~= bytes_of(hay@).subrange(from as int, len as int));
    match_position(m.nth_match(suffix, (occurrence - 1) as usize), from)
}

/// Every value of a text column is within the allocation limit.
pub open spec fn texts_fit(c: &Column<String>) -> bool {
    forall|i: int| c.has_row(i) && #[trigger] c.at(i) is Some ==> text_fits(c.at(i)->0@)
}

/// The array length of two operand columns; `None` when both are scalars.
pub open spec fn len_of_two<A, B>(a: &Column<A>, b: &Column<B>) -> Option<nat> {
    match a.array_len() {
        Some(n) => Some(n),
        None => b.array_len(),
    }
}

/// Two operand columns that are both arrays have one length.
pub open spec fn same_len<A, B>(a: &Column<A>, b: &Column<B>) -> bool {
    a.array_len() is Some && b.array_len() is Some ==> a.array_len() == b.array_len()
}

fn rows_of_two<A, B>(a: &Column<A>, b: &Column<B>) -> (r: Option<usize>)
    ensures
        match r {
            Some(n) => len_of_two(a, b) == Some(n as nat),
            None => len_of_two(a, b) is None,
        },
{
    match a.len() {
        Some(n) => Some(n),
        None => b.len(),
    }
}

/// `regexp_position(pattern, haystack)` bound to its haystack column.
pub struct FirstPosition<'a> {
    pub haystack: &'a Column<String>,
}

impl<'a> RowFunction for FirstPosition<'a> {
    type Output = i64;

    open spec fn well_formed(&self) -> bool {
        texts_fit(self.haystack)
    }

    open spec fn operand_len(&self) -> Option<nat> {
        self.haystack.array_len()
    }

    open spec fn null_at(&self, i: int) -> bool {
        self.haystack.at(i) is None
    }

    open spec fn result_at(&self, pattern: Seq<char>, i: int) -> i64 {
        find_first(pattern, self.haystack.at(i)->0@)
    }

    fn operand_rows(&self) -> (r: Option<usize>) {
        self.haystack.len()
    }

    fn is_null(&self, i: usize) -> (r: bool) {
        self.haystack.get(i).is_none()
    }

    fn apply(&self, m: &Matcher, i: usize) -> (r: i64) {
        match self.haystack.get(i) {
            Some(h) => first_position(m, h.as_str()),
            None => -1,
        }
    }
}

/// `regexp_position(pattern, haystack, start)` bound to its operand columns.
pub struct PositionFrom<'a> {
    pub haystack: &'a Column<String>,
    pub start: &'a Column<i64>,
}

impl<'a> RowFunction for PositionFrom<'a> {
    type Output = i64;

    open spec fn well_formed(&self) -> bool {
        texts_fit(self.haystack) && same_len(self.haystack, self.start)
    }

    open spec fn operand_len(&self) -> Option<nat> {
        len_of_two(self.haystack, self.start)
    }

    open spec fn null_at(&self, i: int) -> bool {
        self.haystack.at(i) is None || self.start.at(i) is None
    }

    open spec fn result_at(&self, pattern: Seq<char>, i: int) -> i64 {
        find_from(pattern, self.haystack.at(i)->0@, self.start.at(i)->0)
    }

    fn operand_rows(&self) -> (r: Option<usize>) {
        rows_of_two(self.haystack, self.start)
    }

    fn is_null(&self, i: usize) -> (r: bool) {
        self.haystack.get(i).is_none() || self.start.get(i).is_none()
    }

    fn apply(&self, m: &Matcher, i: usize) -> (r: i64) {
        match (self.haystack.get(i), self.start.get(i)) {
            (Some(h), Some(s)) => position_from(m, h.as_str(), *s),
            _ => -1,
        }
    }
}

/// `regexp_position(pattern, haystack, start, occurrence)` bound to its
/// operand columns.
pub struct NthPosition<'a> {
    pub haystack: &'a Column<String>,
    pub start: &'a Column<i64>,
    pub occurrence: &'a Column<i64>,
}

impl<'a> RowFunction for NthPosition<'a> {
    type Output = i64;

    open spec fn well_formed(&self) -> bool {
        texts_fit(self.haystack) && same_len(self.haystack, self.start) && same_len(
            self.haystack,
            self.occurrence,
        ) && same_len(self.start, self.occurrence)
    }

    open spec fn operand_len(&self) -> Option<nat> {
        match len_of_two(self.haystack, self.start) {
            Some(n) => Some(n),
            None => self.occurrence.array_len(),
        }
    }

    open spec fn null_at(&self, i: int) -> bool {
        self.haystack.at(i) is None || self.start.at(i) is None || self.occurrence.at(i) is None
    }

    open spec fn result_at(&self, pattern: Seq<char>, i: int) -> i64 {
        find_nth(pattern, self.haystack.at(i)->0@, self.start.at(i)->0, self.occurrence.at(i)->0)
    }

    fn operand_rows(&self) -> (r: Option<usize>) {
        match rows_of_two(self.haystack, self.start) {
            Some(n) => Some(n),
            None => self.occurrence.len(),
        }
    }

    fn is_null(&self, i: usize) -> (r: bool) {
        self.haystack.get(i).is_none() || self.start.get(i).is_none()
            || self.occurrence.get(i).is_none()
    }

    fn apply(&self, m: &Matcher, i: usize) -> (r: i64) {
        match (self.haystack.get(i), self.start.get(i), self.occurrence.get(i)) {
            (Some(h), Some(s), Some(o)) => position_nth(m, h.as_str(), *s, *o),
            _ => -1,
        }
    }
}

/// The position of the first match of each row's pattern in its haystack.
pub fn regexp_position(pattern: &Column<Pattern>, haystack: &Column<String>) -> (r: Result<
    Vec<Option<i64>>,
    EvalError,
>)
    requires
        aligned(pattern, &(FirstPosition { haystack })),
    ensures
        evaluates_to(pattern, &(FirstPosition { haystack }), r),
{
    map_rows(pattern, &FirstPosition { haystack })
}

/// The position of the first match at or after each row's start.
pub fn regexp_position_from(
    pattern: &Column<Pattern>,
    haystack: &Column<String>,
    start: &Column<i64>,
) -> (r: Result<Vec<Option<i64>>, EvalError>)
    requires
        aligned(pattern, &(PositionFrom { haystack, start })),
    ensures
        evaluates_to(pattern, &(PositionFrom { haystack, start }), r),
{
    map_rows(pattern, &PositionFrom { haystack, start })
}

/// The position of each row's `occurrence`-th match from its start.
pub fn regexp_position_nth(
    pattern: &Column<Pattern>,
    haystack: &Column<String>,
    start: &Column<i64>,
    occurrence: &Column<i64>,
) -> (r: Result<Vec<Option<i64>>, EvalError>)
    requires
        aligned(pattern, &(NthPosition { haystack, start, occurrence })),
    ensures
        evaluates_to(pattern, &(NthPosition { haystack, start, occurrence }), r),
{
    map_rows(pattern, &NthPosition { haystack, start, occurrence })
}

/// Searching from offset 1 finds what searching the whole haystack finds,
/// for every haystack that is not empty (an empty one has no offset 1).
pub proof fn search_from_one_is_first(p: Seq<char>, hay: Seq<char>)
    requires
        bytes_of(hay).len() > 0,
    ensures
        find_from(p, hay, 1) == find_first(p, hay),
{
}

/// A match found in the part of a haystack that begins at byte `base`, as an
/// offset into the whole haystack.
pub open spec fn shifted(m: Option<nat>, base: nat) -> Option<nat> {
    match m {
        Some(k) => Some(k + base),
        None => None,
    }
}

/// The first occurrence from `start` is the first match from `start`, for
/// every valid `start`: one in `1..=len` on a character boundary, where the
/// search from that offset sees what a search of the haystack's remainder
/// sees (no anchor or look-around reads the text before it).
pub proof fn first_occurrence_is_first_from(p: Seq<char>, hay: Seq<char>, start: i64)
    requires
        1 <= start <= bytes_of(hay).len(),
        is_char_boundary(bytes_of(hay), start - 1),
        first_match_from(p, bytes_of(hay), (start - 1) as nat) == shifted(
            first_match_from(
                p,
                bytes_of(hay).subrange(start - 1, bytes_of(hay).len() as int),
                0,
            ),
            (start - 1) as nat,
        ),
    ensures
        find_nth(p, hay, start, 1) == find_from(p, hay, start),
{
}

} // verus!
