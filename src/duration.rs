//! Durations written as text, such as `1 day 2 hours`.
use vstd::prelude::*;

use crate::broadcast::EvalError;

verus! {

/// An interval of months, days and nanoseconds.
#[derive(Debug, Clone, Copy, PartialEq, Eq)]
pub struct Interval {
    pub months: i32,
    pub days: i32,
    pub nanoseconds: i64,
}

/// What `arrow`'s `parse_interval_month_day_nano` gives for a text: its
/// months, days and nanoseconds, or the text of its error.
pub uninterp spec fn interval_parse(text: Seq<char>) -> Result<(i32, i32, i64), Seq<char>>;

/// Relies on `arrow::compute::kernels::cast_utils::parse_interval_month_day_nano`:
/// its result depends on the text alone.
#[verifier::external_body]
fn parse_interval(text: &str) -> (r: Result<Interval, String>)
    ensures
        match r {
            Ok(iv) => interval_parse(text@) == Ok::<(i32, i32, i64), Seq<char>>(
                (iv.months, iv.days, iv.nanoseconds),
            ),
            Err(msg) => interval_parse(text@) == Err::<(i32, i32, i64), Seq<char>>(msg@),
        },
{
    match arrow::compute::kernels::cast_utils::parse_interval_month_day_nano(text) {
        Ok(iv) => Ok(Interval { months: iv.months, days: iv.days, nanoseconds: iv.nanoseconds }),
        Err(e) => Err(e.to_string()),
    }
}

/// The interval a text describes; `InvalidDuration`, with the text and the
/// reason, when it describes none.
pub fn parse_duration(text: &str) -> (r: Result<Interval, EvalError>)
    ensures
        match interval_parse(text@) {
            Ok((months, days, nanoseconds)) => r == Ok::<Interval, EvalError>(
                Interval { months, days, nanoseconds },
            ),
            Err(reason) => match r {
                Err(EvalError::InvalidDuration { text: t, message }) => t@ == text@ && message@
                    == reason,
                _ => false,
            },
        },
{
    match parse_interval(text) {
        Ok(iv) => Ok(iv),
        Err(message) => Err(EvalError::InvalidDuration { text: text.to_owned(), message }),
    }
}

} // verus!
