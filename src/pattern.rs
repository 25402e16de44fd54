//! Search patterns and the matchers compiled from them.
//!
//! Matching itself is the `regex` crate's: its results are named below, and
//! each wrapper states which of those names it returns.
use vstd::prelude::*;
use vstd::utf8::encode_utf8;

verus! {

#[verifier::external_type_specification]
#[verifier::external_body]
pub struct ExRegex(regex::Regex);

/// `None` when `regex::Regex::new` accepts the pattern text, otherwise the
/// text of the error it reports.
pub uninterp spec fn compile_failure(pattern: Seq<char>) -> Option<Seq<char>>;

/// The byte offset of the leftmost-first match of `pattern` in the UTF-8
/// bytes `hay`, searching from byte offset `from` (`Regex::find_at`).
pub uninterp spec fn first_match_from(pattern: Seq<char>, hay: Seq<u8>, from: nat) -> Option<nat>;

/// The byte offset of the `n`-th (from 0) of the successive non-overlapping
/// matches of `pattern` in the UTF-8 bytes `hay` (`Regex::find_iter`).
pub uninterp spec fn nth_match(pattern: Seq<char>, hay: Seq<u8>, n: nat) -> Option<nat>;

/// The offset of the `n`-th (from 0) successive match: the first is the one
/// a search from the start finds.
pub open spec fn match_number(pattern: Seq<char>, hay: Seq<u8>, n: nat) -> Option<nat> {
    if n == 0 {
        first_match_from(pattern, hay, 0)
    } else {
        nth_match(pattern, hay, n)
    }
}

/// The UTF-8 bytes of a text.
pub open spec fn bytes_of(s: Seq<char>) -> Seq<u8> {
    encode_utf8(s)
}

pub open spec fn offset_of(r: Option<usize>) -> Option<nat> {
    match r {
        Some(k) => Some(k as nat),
        None => None,
    }
}

/// Text that stands for a search pattern, kept apart from ordinary text.
#[derive(Debug, Clone)]
pub struct Pattern {
    text: String,
}

impl View for Pattern {
    type V = Seq<char>;

    closed spec fn view(&self) -> Seq<char> {
        self.text@
    }
}

impl Pattern {
    /// Takes text as a pattern.
    pub fn decode(text: String) -> (r: Pattern)
        ensures
            r@ == text@,
    {
        Pattern { text }
    }

    pub fn as_str(&self) -> (r: &str)
        ensures
            r@ == self@,
    {
        self.text.as_str()
    }
}

/// A pattern compiled into a regular expression. It is built only by
/// `compile`, so its regex is always the one compiled from `source`.
pub struct Matcher {
    re: regex::Regex,
    source: String,
}

impl View for Matcher {
    type V = Seq<char>;

    /// The pattern text the matcher was compiled from.
    closed spec fn view(&self) -> Seq<char> {
        self.source@
    }
}

/// Relies on `regex::Regex::new`: whether it accepts a pattern, and the text
/// of its error, depend on the pattern text alone.
#[verifier::external_body]
pub fn compile(pattern: &Pattern) -> (r: Result<Matcher, String>)
    ensures
        match r {
            Ok(m) => m@ == pattern@ && compile_failure(pattern@) is None,
            Err(msg) => compile_failure(pattern@) == Some(msg@),
        },
{
    match regex::Regex::new(pattern.as_str()) {
        Ok(re) => Ok(Matcher { re, source: pattern.text.clone() }),
        Err(e) => Err(e.to_string()),
    }
}

impl Matcher {
    /// Relies on `regex::Regex::find`, which is `find_at(haystack, 0)`; a
    /// match's start is a byte offset within the haystack.
    #[verifier::external_body]
    pub(crate) fn find(&self, hay: &str) -> (r: Option<usize>)
        ensures
            offset_of(r) == first_match_from(self@, bytes_of(hay@), 0),
            r matches Some(k) ==> k <= bytes_of(hay@).len(),
    {
        self.re.find(hay).map(|m| m.start())
    }

    /// Relies on `regex::Regex::find_at`, which panics when `start` is past
    /// the end of the haystack; a match's start is a byte offset within it.
    #[verifier::external_body]
    pub(crate) fn find_at(&self, hay: &str, start: usize) -> (r: Option<usize>)
        requires
            start <= bytes_of(hay@).len(),
        ensures
            offset_of(r) == first_match_from(self@, bytes_of(hay@), start as nat),
            r matches Some(k) ==> k <= bytes_of(hay@).len(),
    {
        self.re.find_at(hay, start).map(|m| m.start())
    }

    /// Relies on `regex::Regex::find_iter`: its matches come in order, the
    /// first being the one `find` returns; a match's start is a byte offset
    /// within the haystack.
    #[verifier::external_body]
    pub(crate) fn nth_match(&self, hay: &str, n: usize) -> (r: Option<usize>)
        ensures
            n > 0 ==> offset_of(r) == nth_match(self@, bytes_of(hay@), n as nat),
            n == 0 ==> offset_of(r) == first_match_from(self@, bytes_of(hay@), 0),
            r matches Some(k) ==> k <= bytes_of(hay@).len(),
    {
        self.re.find_iter(hay).nth(n).map(|m| m.start())
    }
}

} // verus!
