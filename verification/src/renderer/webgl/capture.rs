//! Regular-expression capture groups, as computed by the `regex` crate.
use regex::Regex;
use vstd::prelude::*;

verus! {

/// The text that capture group `group` of the regular expression `pattern`
/// matches in the first match of `pattern` in `haystack`, or `None` when the
/// pattern does not compile, does not match, or the group takes no part in
/// the match.
pub uninterp spec fn regex_capture(pattern: Seq<char>, haystack: Seq<char>, group: nat) -> Option<Seq<char>>;

/// Compiles `pattern` with `regex::Regex::new`, searches `haystack` with
/// `Regex::captures` and returns the text of group `group` (`Captures::get`
/// and `Match::as_str`). The contract claims only that the result is the one
/// named by [`regex_capture`] for these arguments: the regex crate computes the
/// same captures for the same pattern and haystack every time.
#[verifier::external_body]
pub(crate) fn capture_group(pattern: &str, haystack: &str, group: usize) -> (r: Option<String>)
    ensures
        match r {
            Some(s) => regex_capture(pattern@, haystack@, group as nat) == Some(s@),
            None => regex_capture(pattern@, haystack@, group as nat) is None,
        },
{
    let regex = Regex::new(pattern).ok()?;
    let found = regex.captures(haystack)?.get(group)?;
    Some(found.as_str().to_string())
}

} // verus!
