//! Regular expressions, matched by the `regex` crate.
//!
//! What a search finds is given a name here and is not spelled out: the
//! contracts of the parsers speak of these names, and the code after a search
//! is verified for whatever the search returned.

use vstd::prelude::*;

verus! {

/// What `Regex::captures` finds: the text that capture group `group` holds in
/// the leftmost match of the regular expression `pattern` in `haystack`.
/// `None` where `pattern` does not compile, where nothing matches, and where
/// the group took no part in the match. Group 0 is the whole match.
pub uninterp spec fn regex_capture_of(pattern: Seq<char>, haystack: Seq<char>, group: nat) -> Option<Seq<char>>;

/// What `Regex::captures_iter` finds: the successive matches of `pattern` in
/// `haystack`, that do not overlap, each as the list of its capture groups from
/// group 0 on; a group that took no part in its match is `None`. Empty where
/// `pattern` does not compile.
pub uninterp spec fn regex_matches_of(pattern: Seq<char>, haystack: Seq<char>) -> Seq<Seq<Option<Seq<char>>>>;

/// Compiles `pattern` with `regex::Regex::new`, searches `haystack` with
/// `Regex::captures` and reads group `group` with `Captures::get`. The
/// contract only names the outcome; none of the three calls panics.
#[verifier::external_body]
pub(crate) fn first_capture(pattern: &str, haystack: &str, group: usize) -> (r: Option<String>)
    ensures
        r.deep_view() == regex_capture_of(pattern@, haystack@, group as nat),
{
    let re = regex::Regex::new(pattern).ok()?;
    re.captures(haystack)?.get(group).map(|m| m.as_str().to_string())
}

/// Compiles `pattern` with `regex::Regex::new` and walks `haystack` with
/// `Regex::captures_iter`, copying out every group of every match. The
/// contract only names the outcome.
#[verifier::external_body]
pub(crate) fn all_matches(pattern: &str, haystack: &str) -> (r: Vec<Vec<Option<String>>>)
    ensures
        r.deep_view() == regex_matches_of(pattern@, haystack@),
{
    match regex::Regex::new(pattern) {
        Ok(re) => re.captures_iter(haystack).map(
            |c| c.iter().map(|g| g.map(|m| m.as_str().to_string())).collect(),
        ).collect(),
        Err(_) => Vec::new(),
    }
}

} // verus!
