//! The broadcast combinator: evaluates a pattern-parameterised row function
//! over a pattern column and the function's operand columns, with scalar
//! broadcasting and null propagation.
use vstd::prelude::*;

use crate::column::Column;
use crate::pattern::{compile, compile_failure, Matcher, Pattern};

verus! {

/// Errors that end an evaluation as a whole.
#[derive(Debug, Clone, PartialEq, Eq)]
pub enum EvalError {
    /// The function was given `got` columns where it takes `expected`.
    Arity { expected: usize, got: usize },
    /// A column's element type is not one the function accepts.
    UnsupportedType { column_type: String },
    /// A pattern did not compile.
    PatternCompile { pattern: String, message: String },
    /// A text is not a duration.
    InvalidDuration { text: String, message: String },
}

/// `e` is the error reported for the pattern text `p` failing to compile.
pub open spec fn is_pattern_error(e: EvalError, p: Seq<char>) -> bool {
    match e {
        EvalError::PatternCompile { pattern, message } => pattern@ == p && compile_failure(p)
            == Some(message@),
        _ => false,
    }
}

/// A row function bound to its operand columns: it reads its operands at a
/// row, reports whether any of them is null there, and computes the row's
/// result from a compiled pattern.
pub trait RowFunction {
    type Output;

    /// The operand columns are usable: array operands share one length, and
    /// every row's values are within the function's machine limits.
    spec fn well_formed(&self) -> bool;

    /// The length of the array operands; `None` when all are scalars.
    spec fn operand_len(&self) -> Option<nat>;

    /// Some operand is null at row `i`.
    spec fn null_at(&self, i: int) -> bool;

    /// The result at row `i` for the pattern text `pattern`, where no operand
    /// is null.
    spec fn result_at(&self, pattern: Seq<char>, i: int) -> Self::Output;

    fn operand_rows(&self) -> (r: Option<usize>)
        requires
            self.well_formed(),
        ensures
            match r {
                Some(n) => self.operand_len() == Some(n as nat),
                None => self.operand_len() is None,
            },
    ;

    fn is_null(&self, i: usize) -> (r: bool)
        requires
            self.well_formed(),
            self.operand_len() matches Some(n) ==> i < n,
        ensures
            r == self.null_at(i as int),
    ;

    fn apply(&self, m: &Matcher, i: usize) -> (r: Self::Output)
        requires
            self.well_formed(),
            self.operand_len() matches Some(n) ==> i < n,
            !self.null_at(i as int),
        ensures
            r == self.result_at(m@, i as int),
    ;
}

/// The pattern column and the operands agree on the number of rows.
pub open spec fn aligned<F: RowFunction>(pattern: &Column<Pattern>, f: &F) -> bool {
    f.well_formed() && (pattern.array_len() is Some && f.operand_len() is Some
        ==> pattern.array_len() == f.operand_len())
}

/// The number of output rows: the length of any array column, or one when
/// every column is a scalar.
pub open spec fn row_count<F: RowFunction>(pattern: &Column<Pattern>, f: &F) -> nat {
    match pattern.array_len() {
        Some(n) => n,
        None => match f.operand_len() {
            Some(n) => n,
            None => 1,
        },
    }
}

/// The output at row `i`: null when the pattern or any operand is null there,
/// otherwise the row function's result.
pub open spec fn row_value<F: RowFunction>(pattern: &Column<Pattern>, f: &F, i: int) -> Option<
    F::Output,
> {
    match pattern.at(i) {
        None => None,
        Some(p) => if f.null_at(i) {
            None
        } else {
            Some(f.result_at(p@, i))
        },
    }
}

/// The pattern consulted at row `i` fails to compile.
pub open spec fn fails_at(pattern: &Column<Pattern>, i: int) -> bool {
    match pattern.at(i) {
        Some(p) => compile_failure(p@) is Some,
        None => false,
    }
}

/// Some consulted pattern fails to compile; a non-null scalar pattern is
/// consulted even when there are no rows.
pub open spec fn has_failure<F: RowFunction>(pattern: &Column<Pattern>, f: &F) -> bool {
    match pattern {
        Column::Scalar(_) => fails_at(pattern, 0),
        Column::Array(_) => exists|i: int| 0 <= i < row_count(pattern, f) && fails_at(pattern, i),
    }
}

/// The full contract of an evaluation: it fails exactly when some consulted
/// pattern does not compile, with the error of the first such row, and
/// otherwise holds `row_value` at each of `row_count` rows.
pub open spec fn evaluates_to<F: RowFunction>(
    pattern: &Column<Pattern>,
    f: &F,
    r: Result<Vec<Option<F::Output>>, EvalError>,
) -> bool {
    match r {
        Ok(out) => !has_failure(pattern, f) && out@.len() == row_count(pattern, f) && forall|i: int|
            0 <= i < out@.len() ==> #[trigger] out@[i] == row_value(pattern, f, i),
        Err(e) => has_failure(pattern, f) && exists|j: int|
            0 <= j < row_count(pattern, f) + 1 && fails_at(pattern, j) && (forall|k: int|
                0 <= k < j ==> !fails_at(pattern, k)) && is_pattern_error(e, pattern.at(j)->0@),
    }
}

fn pattern_error(p: &Pattern, message: String) -> (e: EvalError)
    requires
        compile_failure(p@) == Some(message@),
    ensures
        is_pattern_error(e, p@),
{
    let pattern = p.as_str().to_owned();
    EvalError::PatternCompile { pattern, message }
}

/// Evaluates `f` at every row. A scalar pattern is compiled once; an array
/// pattern is compiled at each row where it is not null. A compile failure
/// ends the whole evaluation.
pub fn map_rows<F: RowFunction>(pattern: &Column<Pattern>, f: &F) -> (r: Result<
    Vec<Option<F::Output>>,
    EvalError,
>)
    requires
        aligned(pattern, f),
    ensures
        evaluates_to(pattern, f, r),
{
    let n: usize = match pattern.len() {
        Some(n) => n,
        None => match f.operand_rows() {
            Some(n) => n,
            None => 1,
        },
    };
    let mut out: Vec<Option<F::Output>> = Vec::new();
    match pattern {
        Column::Scalar(None) => {
            let mut i: usize = 0;
            while i < n
                invariant
                    n == row_count(pattern, f),
                    i <= n,
                    out@.len() == i,
                    *pattern == Column::<Pattern>::Scalar(None),
                    forall|j: int| 0 <= j < i ==> #[trigger] out@[j] == row_value(pattern, f, j),
                decreases n - i,
            {
                out.push(None);
                i += 1;
            }
        },
        Column::Scalar(Some(p)) => {
            let m = match compile(p) {
                Ok(m) => m,
                Err(message) => {
                    assert(fails_at(pattern, 0));
                    return Err(pattern_error(p, message));
                },
            };
            let mut i: usize = 0;
            while i < n
                invariant
                    aligned(pattern, f),
                    n == row_count(pattern, f),
                    i <= n,
                    out@.len() == i,
                    m@ == p@,
                    *pattern == Column::Scalar(Some(*p)),
                    forall|j: int| 0 <= j < i ==> #[trigger] out@[j] == row_value(pattern, f, j),
                decreases n - i,
            {
                if f.is_null(i) {
                    out.push(None);
                } else {
                    let v = f.apply(&m, i);
                    out.push(Some(v));
                }
                i += 1;
            }
        },
        Column::Array(pats) => {
            let mut i: usize = 0;
            while i < n
                invariant
                    aligned(pattern, f),
                    *pattern == Column::Array(*pats),
                    n == row_count(pattern, f),
                    n == pats@.len(),
                    i <= n,
                    out@.len() == i,
                    forall|j: int| 0 <= j < i ==> !fails_at(pattern, j),
                    forall|j: int| 0 <= j < i ==> #[trigger] out@[j] == row_value(pattern, f, j),
                decreases n - i,
            {
                match &pats[i] {
                    None => out.push(None),
                    Some(p) => {
                        let m = match compile(p) {
                            Ok(m) => m,
                            Err(message) => {
                                let e = pattern_error(p, message);
                                assert(fails_at(pattern, i as int));
                                return Err(e);
                            },
                        };
                        if f.is_null(i) {
                            out.push(None);
                        } else {
                            let v = f.apply(&m, i);
                            out.push(Some(v));
                        }
                    },
                }
                i += 1;
            }
        },
    }
    Ok(out)
}

/// A row where the pattern or any operand is null is null in the output,
/// whatever the other rows hold.
pub proof fn null_in_null_out<F: RowFunction>(
    pattern: &Column<Pattern>,
    f: &F,
    out: Vec<Option<F::Output>>,
    i: int,
)
    requires
        evaluates_to(pattern, f, Ok(out)),
        0 <= i < row_count(pattern, f),
        pattern.at(i) is None || f.null_at(i),
    ensures
        out@[i] is None,
{
}

/// A scalar pattern gives the same evaluation as an array that repeats it on
/// each of a batch's `n` rows, for any batch of at least one row.
pub proof fn scalar_pattern_as_array<F: RowFunction>(
    p: Pattern,
    pats: Vec<Option<Pattern>>,
    f: &F,
    by_scalar: Result<Vec<Option<F::Output>>, EvalError>,
    by_array: Result<Vec<Option<F::Output>>, EvalError>,
)
    requires
        pats@.len() > 0,
        forall|i: int| 0 <= i < pats@.len() ==> pats@[i] == Some(p),
        f.operand_len() == Some(pats@.len()) || (f.operand_len() is None && pats@.len() == 1),
        evaluates_to(&Column::Scalar(Some(p)), f, by_scalar),
        evaluates_to(&Column::Array(pats), f, by_array),
    ensures
        by_scalar is Ok <==> by_array is Ok,
        by_scalar is Ok ==> by_scalar->Ok_0@ == by_array->Ok_0@,
        by_scalar is Err ==> is_pattern_error(by_scalar->Err_0, p@),
        by_array is Err ==> is_pattern_error(by_array->Err_0, p@),
{
    let s = Column::Scalar(Some(p));
    let a = Column::Array(pats);
    assert(a.at(0) == Some(p));
    if fails_at(&s, 0) {
        assert(fails_at(&a, 0));
    }
    if by_array is Err {
        let j = choose|j: int|
            0 <= j < row_count(&a, f) + 1 && fails_at(&a, j) && (forall|k: int|
                0 <= k < j ==> !fails_at(&a, k)) && is_pattern_error(by_array->Err_0, a.at(j)->0@);
        assert(a.at(j) == Some(p));
    }
    if by_scalar is Ok && by_array is Ok {
        assert forall|i: int| 0 <= i < pats@.len() implies by_scalar->Ok_0@[i]
            == by_array->Ok_0@[i] by {
            assert(s.at(i) == a.at(i));
        }
        assert(by_scalar->Ok_0@ =~= by_array->Ok_0@);
    }
}

} // verus!
