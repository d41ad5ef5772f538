//! The boundary to the `regex` crate: compiling a pattern and searching a
//! line with it. Nothing in this file is proved; each contract states what
//! the crate documents, or gives its result a name.

use vstd::prelude::*;

verus! {

/// `regex::Regex`, a compiled pattern. Opaque to the verifier.
#[verifier::external_type_specification]
#[verifier::external_body]
pub struct ExRegex(regex::Regex);

/// `regex::Error`, the reason a pattern was refused. Opaque to the verifier.
#[verifier::external_type_specification]
#[verifier::external_body]
pub struct ExRegexError(regex::Error);

/// The pattern text a compiled regex was built from, as `Regex::as_str`
/// reports it.
pub uninterp spec fn regex_source(re: regex::Regex) -> Seq<char>;

/// Whether `Regex::new` accepts the pattern, under the crate's default limits.
pub uninterp spec fn pattern_compiles(pattern: Seq<char>) -> bool;

/// What `Regex::captures` finds when the regex compiled from `pattern`
/// searches `haystack`: `None` where there is no match, else the text of
/// every capture group of the leftmost match, group 0 (the whole match)
/// first, with `None` for a group that took no part in the match.
pub uninterp spec fn pattern_captures(pattern: Seq<char>, haystack: Seq<char>) -> Option<
    Seq<Option<Seq<char>>>,
>;

/// The value of a list of capture groups.
pub open spec fn groups_view(groups: Seq<Option<String>>) -> Seq<Option<Seq<char>>> {
    Seq::new(
        groups.len(),
        |i: int|
            match groups[i] {
                Some(text) => Some(text@),
                None => None,
            },
    )
}

/// The value of a search result.
pub open spec fn captures_view(found: Option<Vec<Option<String>>>) -> Option<
    Seq<Option<Seq<char>>>,
> {
    match found {
        Some(groups) => Some(groups_view(groups@)),
        None => None,
    }
}

/// Calls `Regex::new`. Trusted: it succeeds exactly on the patterns the crate
/// accepts, and the regex it returns remembers the pattern it was given.
#[verifier::external_body]
pub(crate) fn compile(pattern: &str) -> (r: Result<regex::Regex, regex::Error>)
    ensures
        r is Ok <==> pattern_compiles(pattern@),
        r matches Ok(re) ==> regex_source(re) == pattern@,
{
    regex::Regex::new(pattern)
}

/// Calls `Regex::captures` and copies the text of each group out of the
/// haystack. Trusted: the result is the search result of the regex's pattern
/// on this haystack. That is so of every regex that `compile` made; no other
/// reaches this function, and one built with other options would search
/// otherwise.
#[verifier::external_body]
pub(crate) fn captures(re: &regex::Regex, haystack: &str) -> (found: Option<Vec<Option<String>>>)
    ensures
        captures_view(found) == pattern_captures(regex_source(*re), haystack@),
{
    re.captures(haystack).map(|caps| caps.iter().map(|m| m.map(|m| m.as_str().to_string())).collect())
}

} // verus!
