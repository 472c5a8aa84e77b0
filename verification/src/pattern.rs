//! Regular-expression matching, delegated to the `regex` crate.

use vstd::prelude::*;
use crate::text::is_substring;
use vstd::utf8::encode_utf8;

verus! {

/// One match of a pattern in a text: byte offsets of its start and end and
/// the matched text.
pub struct PatternMatch {
    pub start: usize,
    pub end: usize,
    pub text: String,
}

impl PatternMatch {
    /// The match as plain values.
    pub open spec fn view_triple(self) -> (usize, usize, Seq<char>) {
        (self.start, self.end, self.text@)
    }
}

/// The successive non-overlapping matches that `regex::Regex::find_iter`
/// yields for the pattern (compiled with `regex::Regex::new`) in the text,
/// each as (start byte offset, end byte offset, matched text); empty when
/// the pattern does not compile.
pub uninterp spec fn regex_find_all(pattern: Seq<char>, text: Seq<char>) -> Seq<(usize, usize, Seq<char>)>;

/// Whether the pattern matches somewhere in the text.
pub open spec fn regex_matches(pattern: Seq<char>, text: Seq<char>) -> bool {
    regex_find_all(pattern, text).len() > 0
}

/// All matches of `pattern` in `text`: compiles the pattern with
/// `regex::Regex::new` and walks `Regex::find_iter`. The contract claims what
/// the crate documents: the matches are the named ones, each starts no later
/// than it ends, successive matches do not overlap, and each match's text is
/// a part of the text: its UTF-8 bytes are the text's bytes between the
/// match's start and end byte offsets (`Match::as_str` is
/// `&haystack[start..end]`).
#[verifier::external_body]
pub(crate) fn find_all(pattern: &str, text: &str) -> (r: Vec<PatternMatch>)
    ensures
        r@.map_values(|m: PatternMatch| m.view_triple()) == regex_find_all(pattern@, text@),
        forall|i: int| 0 <= i < r@.len() ==> r@[i].start <= r@[i].end,
        forall|i: int, j: int| 0 <= i < j < r@.len() ==> r@[i].end <= r@[j].start,
        forall|i: int| 0 <= i < r@.len() ==> is_substring(#[trigger] r@[i].text@, text@),
        forall|i: int| 0 <= i < r@.len() ==> (#[trigger] r@[i]).end <= encode_utf8(text@).len()
            && encode_utf8(r@[i].text@) == encode_utf8(text@).subrange(r@[i].start as int, r@[i].end as int),
{
    match regex::Regex::new(pattern) {
        Ok(re) => re.find_iter(text).map(|m| PatternMatch { start: m.start(), end: m.end(), text: m.as_str().to_string() }).collect(),
        Err(_) => Vec::new(),
    }
}

/// Whether `pattern` matches anywhere in `text`: `regex::Regex::is_match`
/// after `regex::Regex::new`, false when the pattern does not compile. The
/// crate documents that this holds exactly when `find_iter` yields a match.
#[verifier::external_body]
pub(crate) fn is_match(pattern: &str, text: &str) -> (b: bool)
    ensures
        b == regex_matches(pattern@, text@),
{
    match regex::Regex::new(pattern) {
        Ok(re) => re.is_match(text),
        Err(_) => false,
    }
}

} // verus!
