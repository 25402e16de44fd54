//! A number of seconds as human-readable text.
use vstd::prelude::*;

verus! {

/// The text `humantime::format_duration` gives for a duration of `secs`
/// whole seconds.
pub uninterp spec fn readable_duration(secs: nat) -> Seq<char>;

/// Relies on `humantime::format_duration`: its text depends on the duration
/// alone.
#[verifier::external_body]
fn format_seconds(secs: u64) -> (r: String)
    ensures
        r@ == readable_duration(secs as nat),
{
    humantime::format_duration(std::time::Duration::from_secs(secs)).to_string()
}

/// A signed count of seconds read as unsigned: a negative count wraps around
/// 2^64.
pub open spec fn unsigned_seconds(seconds: i64) -> nat {
    if seconds >= 0 {
        seconds as nat
    } else {
        (seconds + 0x1_0000_0000_0000_0000) as nat
    }
}

/// `seconds` as human-readable text, such as `2h 37m`.
pub fn human_readable_seconds(seconds: i64) -> (r: String)
    ensures
        r@ == readable_duration(unsigned_seconds(seconds)),
{
    let secs: u64 = if seconds >= 0 {
        seconds as u64
    } else {
        u64::MAX - ((-(seconds + 1)) as u64)
    };
    format_seconds(secs)
}

} // verus!
