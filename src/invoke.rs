//! Declared functions over a batch of typed argument columns: each checks its
//! number of arguments and their element types, then evaluates.
use vstd::prelude::*;

use crate::broadcast::{aligned, evaluates_to, EvalError};
use crate::column::Column;
use crate::hamming::{column_fits, hamming, pair_rows, distance_at, Distances, TextWidth};
use crate::pattern::Pattern;
use crate::position::{
    regexp_position, regexp_position_from, regexp_position_nth, FirstPosition, NthPosition,
    PositionFrom,
};

verus! {

/// An argument column with its declared element type.
#[derive(Debug, Clone)]
pub enum Arg {
    Text(TextWidth, Column<String>),
    Int64(Column<i64>),
    Pattern(Column<Pattern>),
}

/// The name of an argument's element type.
pub open spec fn type_label(a: Arg) -> Seq<char> {
    match a {
        Arg::Text(TextWidth::Narrow, _) => "Utf8"@,
        Arg::Text(TextWidth::View, _) => "Utf8View"@,
        Arg::Text(TextWidth::Large, _) => "LargeUtf8"@,
        Arg::Int64(_) => "Int64"@,
        Arg::Pattern(_) => "Pattern"@,
    }
}

/// `e` reports that the function takes `expected` arguments and got `got`.
pub open spec fn is_arity_error(e: EvalError, expected: nat, got: nat) -> bool {
    e matches EvalError::Arity { expected: x, got: g } && x == expected && g == got
}

/// `e` reports the element type of `a` as unsupported.
pub open spec fn is_type_error(e: EvalError, a: Arg) -> bool {
    e matches EvalError::UnsupportedType { column_type } && column_type@ == type_label(a)
}

fn arity_error(expected: usize, got: usize) -> (e: EvalError)
    ensures
        is_arity_error(e, expected as nat, got as nat),
{
    EvalError::Arity { expected, got }
}

fn type_error(a: &Arg) -> (e: EvalError)
    ensures
        is_type_error(e, *a),
{
    let name: &str = match a {
        Arg::Text(TextWidth::Narrow, _) => "Utf8",
        Arg::Text(TextWidth::View, _) => "Utf8View",
        Arg::Text(TextWidth::Large, _) => "LargeUtf8",
        Arg::Int64(_) => "Int64",
        Arg::Pattern(_) => "Pattern",
    };
    proof {
        reveal_strlit("Utf8");
        reveal_strlit("Utf8View");
        reveal_strlit("LargeUtf8");
        reveal_strlit("Int64");
        reveal_strlit("Pattern");
    }
    EvalError::UnsupportedType { column_type: name.to_owned() }
}

/// `regexp_position(haystack, pattern)`.
pub fn invoke_regexp_position(args: &Vec<Arg>) -> (r: Result<Vec<Option<i64>>, EvalError>)
    requires
        args@.len() == 2 ==> match (args@[0], args@[1]) {
            (Arg::Text(_, h), Arg::Pattern(p)) => aligned(&p, &(FirstPosition { haystack: &h })),
            _ => true,
        },
    ensures
        args@.len() != 2 ==> (r matches Err(e) && is_arity_error(e, 2, args@.len())),
        args@.len() == 2 ==> match (args@[0], args@[1]) {
            (Arg::Text(_, h), Arg::Pattern(p)) => evaluates_to(
                &p,
                &(FirstPosition { haystack: &h }),
                r,
            ),
            (Arg::Text(_, _), b) => (r matches Err(e) && is_type_error(e, b)),
            (a, _) => (r matches Err(e) && is_type_error(e, a)),
        },
{
    if args.len() != 2 {
        return Err(arity_error(2, args.len()));
    }
    let haystack = match &args[0] {
        Arg::Text(_, h) => h,
        a => return Err(type_error(a)),
    };
    match &args[1] {
        Arg::Pattern(p) => regexp_position(p, haystack),
        b => Err(type_error(b)),
    }
}

/// `regexp_position(haystack, pattern, start)`.
pub fn invoke_regexp_position_from(args: &Vec<Arg>) -> (r: Result<Vec<Option<i64>>, EvalError>)
    requires
        args@.len() == 3 ==> match (args@[0], args@[1], args@[2]) {
            (Arg::Text(_, h), Arg::Pattern(p), Arg::Int64(s)) => aligned(
                &p,
                &(PositionFrom { haystack: &h, start: &s }),
            ),
            _ => true,
        },
    ensures
        args@.len() != 3 ==> (r matches Err(e) && is_arity_error(e, 3, args@.len())),
        args@.len() == 3 ==> match (args@[0], args@[1], args@[2]) {
            (Arg::Text(_, h), Arg::Pattern(p), Arg::Int64(s)) => evaluates_to(
                &p,
                &(PositionFrom { haystack: &h, start: &s }),
                r,
            ),
            (Arg::Text(_, _), Arg::Pattern(_), c) => (r matches Err(e) && is_type_error(e, c)),
            (Arg::Text(_, _), b, _) => (r matches Err(e) && is_type_error(e, b)),
            (a, _, _) => (r matches Err(e) && is_type_error(e, a)),
        },
{
    if args.len() != 3 {
        return Err(arity_error(3, args.len()));
    }
    let haystack = match &args[0] {
        Arg::Text(_, h) => h,
        a => return Err(type_error(a)),
    };
    let pattern = match &args[1] {
        Arg::Pattern(p) => p,
        b => return Err(type_error(b)),
    };
    match &args[2] {
        Arg::Int64(s) => regexp_position_from(pattern, haystack, s),
        c => Err(type_error(c)),
    }
}

/// `regexp_position(haystack, pattern, start, occurrence)`.
pub fn invoke_regexp_position_nth(args: &Vec<Arg>) -> (r: Result<Vec<Option<i64>>, EvalError>)
    requires
        args@.len() == 4 ==> match (args@[0], args@[1], args@[2], args@[3]) {
            (Arg::Text(_, h), Arg::Pattern(p), Arg::Int64(s), Arg::Int64(o)) => aligned(
                &p,
                &(NthPosition { haystack: &h, start: &s, occurrence: &o }),
            ),
            _ => true,
        },
    ensures
        args@.len() != 4 ==> (r matches Err(e) && is_arity_error(e, 4, args@.len())),
        args@.len() == 4 ==> match (args@[0], args@[1], args@[2], args@[3]) {
            (Arg::Text(_, h), Arg::Pattern(p), Arg::Int64(s), Arg::Int64(o)) => evaluates_to(
                &p,
                &(NthPosition { haystack: &h, start: &s, occurrence: &o }),
                r,
            ),
            (Arg::Text(_, _), Arg::Pattern(_), Arg::Int64(_), d) => (r matches Err(e) && is_type_error(e, d)),
            (Arg::Text(_, _), Arg::Pattern(_), c, _) => (r matches Err(e) && is_type_error(e, c)),
            (Arg::Text(_, _), b, _, _) => (r matches Err(e) && is_type_error(e, b)),
            (a, _, _, _) => (r matches Err(e) && is_type_error(e, a)),
        },
{
    if args.len() != 4 {
        return Err(arity_error(4, args.len()));
    }
    let haystack = match &args[0] {
        Arg::Text(_, h) => h,
        a => return Err(type_error(a)),
    };
    let pattern = match &args[1] {
        Arg::Pattern(p) => p,
        b => return Err(type_error(b)),
    };
    let start = match &args[2] {
        Arg::Int64(s) => s,
        c => return Err(type_error(c)),
    };
    match &args[3] {
        Arg::Int64(o) => regexp_position_nth(pattern, haystack, start, o),
        d => Err(type_error(d)),
    }
}

/// `hamming_distance(a, b)`: the width of the first text decides the width of
/// the result.
pub fn invoke_hamming_distance(args: &Vec<Arg>) -> (r: Result<Distances, EvalError>)
    requires
        args@.len() == 2 ==> match (args@[0], args@[1]) {
            (Arg::Text(w, a), Arg::Text(_, b)) => column_fits(w, &a) && (a.array_len() is Some
                && b.array_len() is Some ==> a.array_len() == b.array_len()),
            _ => true,
        },
    ensures
        args@.len() != 2 ==> (r matches Err(e) && is_arity_error(e, 2, args@.len())),
        args@.len() == 2 ==> match (args@[0], args@[1]) {
            (Arg::Text(w, a), Arg::Text(_, b)) => match r {
                Ok(Distances::Int32(v)) => w != TextWidth::Large && v@.len() == pair_rows(&a, &b)
                    && forall|i: int|
                    0 <= i < v@.len() ==> distance_at(&a, &b, i) == match #[trigger] v@[i] {
                        Some(d) => Some(d as int),
                        None => None::<int>,
                    },
                Ok(Distances::Int64(v)) => w == TextWidth::Large && v@.len() == pair_rows(&a, &b)
                    && forall|i: int|
                    0 <= i < v@.len() ==> distance_at(&a, &b, i) == match #[trigger] v@[i] {
                        Some(d) => Some(d as int),
                        None => None::<int>,
                    },
                Err(_) => false,
            },
            (Arg::Text(_, _), b) => (r matches Err(e) && is_type_error(e, b)),
            (a, _) => (r matches Err(e) && is_type_error(e, a)),
        },
{
    if args.len() != 2 {
        return Err(arity_error(2, args.len()));
    }
    let (width, a) = match &args[0] {
        Arg::Text(w, a) => (*w, a),
        x => return Err(type_error(x)),
    };
    match &args[1] {
        Arg::Text(_, b) => Ok(hamming(a, b, width)),
        y => Err(type_error(y)),
    }
}

} // verus!
