//! Hamming distance: the number of positions at which two texts differ,
//! compared over the length of the shorter one.
use vstd::prelude::*;
use vstd::string::StrSliceExecFns;

use crate::column::Column;

verus! {

/// The number of positions below `n` where `a` and `b` differ.
pub open spec fn mismatches(a: Seq<char>, b: Seq<char>, n: int) -> nat
    decreases n,
{
    if n <= 0 {
        0
    } else {
        mismatches(a, b, n - 1) + if a[n - 1] != b[n - 1] {
            1nat
        } else {
            0nat
        }
    }
}

/// Characters compared: those of the shorter text.
pub open spec fn compared(a: Seq<char>, b: Seq<char>) -> int {
    if a.len() < b.len() {
        a.len() as int
    } else {
        b.len() as int
    }
}

/// The Hamming distance of two texts: positions beyond the shorter text are
/// not compared.
pub open spec fn distance(a: Seq<char>, b: Seq<char>) -> nat {
    mismatches(a, b, compared(a, b))
}

proof fn mismatches_bounded(a: Seq<char>, b: Seq<char>, n: int)
    ensures
        mismatches(a, b, n) <= if n < 0 {
            0
        } else {
            n
        },
    decreases n,
{
    if n > 0 {
        mismatches_bounded(a, b, n - 1);
    }
}

/// The number of character positions, over the shorter text, at which `s1`
/// and `s2` differ.
pub fn hamming_distance(s1: &str, s2: &str) -> (r: usize)
    ensures
        r == distance(s1@, s2@),
{
    let n1 = s1.unicode_len();
    let n2 = s2.unicode_len();
    let n = if n1 < n2 {
        n1
    } else {
        n2
    };
    let mut count: usize = 0;
    let mut i: usize = 0;
    while i < n
        invariant
            n == compared(s1@, s2@),
            n <= s1@.len(),
            n <= s2@.len(),
            i <= n,
            count == mismatches(s1@, s2@, i as int),
        decreases n - i,
    {
        proof {
            mismatches_bounded(s1@, s2@, i as int);
        }
        if s1.get_char(i) != s2.get_char(i) {
            count += 1;
        }
        i += 1;
    }
    count
}

/// The three text column forms. They hold the same text; the form decides the
/// width of a distance column.
#[derive(Debug, Clone, Copy, PartialEq, Eq)]
pub enum TextWidth {
    /// 32-bit offsets.
    Narrow,
    /// Views.
    View,
    /// 64-bit offsets.
    Large,
}

/// Distances, 32-bit for narrow and view text, 64-bit for large text.
#[derive(Debug, Clone, PartialEq, Eq)]
pub enum Distances {
    Int32(Vec<Option<i32>>),
    Int64(Vec<Option<i64>>),
}

/// A text's length fits the integer width of its column form.
pub open spec fn fits_width(width: TextWidth, s: Seq<char>) -> bool {
    match width {
        TextWidth::Large => s.len() <= i64::MAX,
        _ => s.len() <= i32::MAX,
    }
}

/// Every value of the column fits its form's width.
pub open spec fn column_fits(width: TextWidth, c: &Column<String>) -> bool {
    forall|i: int| c.has_row(i) && #[trigger] c.at(i) is Some ==> fits_width(width, c.at(i)->0@)
}

/// Row count of a two-column evaluation: the length of an array column, one
/// when both are scalars.
pub open spec fn pair_rows(a: &Column<String>, b: &Column<String>) -> nat {
    match a.array_len() {
        Some(n) => n,
        None => match b.array_len() {
            Some(n) => n,
            None => 1,
        },
    }
}

/// The distance at row `i`, null when either text is null there.
pub open spec fn distance_at(a: &Column<String>, b: &Column<String>, i: int) -> Option<int> {
    match (a.at(i), b.at(i)) {
        (Some(x), Some(y)) => Some(distance(x@, y@) as int),
        _ => None,
    }
}

/// The Hamming distance of each row's pair of texts, as 32-bit integers for
/// narrow and view text and as 64-bit integers for large text.
pub fn hamming(a: &Column<String>, b: &Column<String>, width: TextWidth) -> (r: Distances)
    requires
        a.array_len() is Some && b.array_len() is Some ==> a.array_len() == b.array_len(),
        column_fits(width, a),
    ensures
        match r {
            Distances::Int32(v) => width != TextWidth::Large && v@.len() == pair_rows(a, b)
                && forall|i: int|
                0 <= i < v@.len() ==> distance_at(a, b, i) == match #[trigger] v@[i] {
                    Some(d) => Some(d as int),
                    None => None::<int>,
                },
            Distances::Int64(v) => width == TextWidth::Large && v@.len() == pair_rows(a, b)
                && forall|i: int|
                0 <= i < v@.len() ==> distance_at(a, b, i) == match #[trigger] v@[i] {
                    Some(d) => Some(d as int),
                    None => None::<int>,
                },
        },
{
    let n: usize = match a.len() {
        Some(n) => n,
        None => match b.len() {
            Some(n) => n,
            None => 1,
        },
    };
    let large = match width {
        TextWidth::Large => true,
        _ => false,
    };
    let mut narrow_out: Vec<Option<i32>> = Vec::new();
    let mut large_out: Vec<Option<i64>> = Vec::new();
    let mut i: usize = 0;
    while i < n
        invariant
            n == pair_rows(a, b),
            a.array_len() is Some && b.array_len() is Some ==> a.array_len() == b.array_len(),
            column_fits(width, a),
            large == (width == TextWidth::Large),
            i <= n,
            large ==> large_out@.len() == i,
            !large ==> narrow_out@.len() == i,
            large ==> forall|j: int|
                0 <= j < i ==> distance_at(a, b, j) == match #[trigger] large_out@[j] {
                    Some(d) => Some(d as int),
                    None => None::<int>,
                },
            !large ==> forall|j: int|
                0 <= j < i ==> distance_at(a, b, j) == match #[trigger] narrow_out@[j] {
                    Some(d) => Some(d as int),
                    None => None::<int>,
                },
        decreases n - i,
    {
        let d: Option<usize> = match (a.get(i), b.get(i)) {
            (Some(x), Some(y)) => Some(hamming_distance(x.as_str(), y.as_str())),
            _ => None,
        };
        proof {
            if a.at(i as int) is Some && b.at(i as int) is Some {
                let x = a.at(i as int)->0@;
                let y = b.at(i as int)->0@;
                assert(fits_width(width, x));
                mismatches_bounded(x, y, compared(x, y));
            }
        }
        if large {
            large_out.push(
                match d {
                    Some(k) => Some(k as i64),
                    None => None,
                },
            );
        } else {
            narrow_out.push(
                match d {
                    Some(k) => Some(k as i32),
                    None => None,
                },
            );
        }
        i += 1;
    }
    if large {
        Distances::Int64(large_out)
    } else {
        Distances::Int32(narrow_out)
    }
}

} // verus!
