//! Regular-expression matching, done by the `regex` crate.
//!
//! Nothing here is proved: the one function of this module hands a pattern and
//! a text to `regex` and gives back what was captured, as plain strings. The
//! rest of the library reasons about that result through [`regex_captures`].

use regex::Regex;
use vstd::prelude::*;

verus! {

/// What `regex` captures when it searches `haystack` for its leftmost match
/// of `pattern`.
///
/// `None` where there is no match, or where `pattern` is no regular
/// expression that `regex` accepts. Otherwise one entry for each group of the
/// pattern, in the order of their opening brackets, with the whole match at
/// index 0; the entry of a group that took no part in the match is `None`.
pub uninterp spec fn regex_captures(pattern: Seq<char>, haystack: Seq<char>) -> Option<
    Seq<Option<Seq<char>>>,
>;

/// Searches `haystack` for the leftmost match of `pattern`, with
/// `Regex::new` and `Regex::captures`, and copies the text of each group out
/// of the `Captures`.
///
/// Trusted: that the result depends on the two texts alone, which is all that
/// [`regex_captures`] claims.
#[verifier::external_body]
pub(crate) fn captures(pattern: &str, haystack: &str) -> (groups: Option<Vec<Option<String>>>)
    ensures
        groups.deep_view() == regex_captures(pattern@, haystack@),
{
    let re = Regex::new(pattern).ok()?;
    let caps = re.captures(haystack)?;
    Some(caps.iter().map(|m| m.map(|m| m.as_str().to_owned())).collect())
}

} // verus!
