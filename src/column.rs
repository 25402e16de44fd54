//! Columns of optional values, either one value per row or one value
//! broadcast to every row.
use vstd::prelude::*;

verus! {

/// A column: `Array` holds one optional value per row, `Scalar` one optional
/// value that stands for every row.
#[derive(Debug, Clone)]
pub enum Column<T> {
    Array(Vec<Option<T>>),
    Scalar(Option<T>),
}

impl<T> Column<T> {
    /// The value at row `i`; a scalar has the same value at every row.
    pub open spec fn at(&self, i: int) -> Option<T> {
        match self {
            Column::Array(v) => v@[i],
            Column::Scalar(x) => *x,
        }
    }

    /// The number of rows of an array column; `None` for a scalar.
    pub open spec fn array_len(&self) -> Option<nat> {
        match self {
            Column::Array(v) => Some(v@.len()),
            Column::Scalar(_) => None,
        }
    }

    /// Row `i` can be read: any row of a scalar, a row in range of an array.
    pub open spec fn has_row(&self, i: int) -> bool {
        0 <= i && match self {
            Column::Array(v) => i < v@.len(),
            Column::Scalar(_) => true,
        }
    }

    /// An array column has `n` rows; a scalar fits any number of rows.
    pub open spec fn fits(&self, n: nat) -> bool {
        match self {
            Column::Array(v) => v@.len() == n,
            Column::Scalar(_) => true,
        }
    }

    pub fn get(&self, i: usize) -> (r: &Option<T>)
        requires
            self.has_row(i as int),
        ensures
            *r == self.at(i as int),
    {
        match self {
            Column::Array(v) => &v[i],
            Column::Scalar(x) => x,
        }
    }

    pub fn len(&self) -> (r: Option<usize>)
        ensures
            match r {
                Some(n) => self.array_len() == Some(n as nat),
                None => self.array_len() is None,
            },
    {
        match self {
            Column::Array(v) => Some(v.len()),
            Column::Scalar(_) => None,
        }
    }
}

} // verus!
