//! Pattern-parameterised scalar functions over columnar batches: a broadcast
//! combinator with three-valued null handling, and regular-expression position
//! search built on it.

pub mod column;
pub mod pattern;
pub mod broadcast;
pub mod position;
pub mod hamming;
pub mod seconds;
pub mod duration;
pub mod invoke;
