//! Regular expressions, as far as the crate uses them: a pattern is text,
//! and what it captures in a haystack is again text.
use regex::Regex;
use vstd::prelude::*;

verus! {

/// Whether `pattern` is a regular expression that the `regex` crate
/// compiles.
pub uninterp spec fn regex_compiles(pattern: Seq<char>) -> bool;

/// What the leftmost match of `pattern` in `haystack` captures: `None` where
/// the pattern does not compile or matches nowhere; otherwise one entry for
/// each group of the pattern, the whole match first and then the groups in
/// the order of their opening brackets, each with the text it matched or
/// `None` where it took no part in the match.
pub uninterp spec fn regex_captures(pattern: Seq<char>, haystack: Seq<char>) -> Option<
    Seq<Option<Seq<char>>>,
>;

/// Calls `regex::Regex::new` and tells whether it returned a compiled
/// expression. The contract gives that answer the name `regex_compiles`: it
/// depends on the pattern alone.
#[verifier::external_body]
pub(crate) fn compiles(pattern: &str) -> (ok: bool)
    ensures
        ok == regex_compiles(pattern@),
{
    Regex::new(pattern).is_ok()
}

/// Compiles `pattern` with `regex::Regex::new` and calls
/// `regex::Regex::captures` on `haystack`, handing out the text of each group
/// as `regex::Captures::iter` yields them. The contract gives the outcome
/// the name `regex_captures`: it depends on the two texts alone. A pattern
/// that does not compile captures nothing.
#[verifier::external_body]
pub(crate) fn captures(pattern: &str, haystack: &str) -> (groups: Option<Vec<Option<String>>>)
    ensures
        groups.deep_view() == regex_captures(pattern@, haystack@),
{
    let re = Regex::new(pattern).ok()?;
    let caps = re.captures(haystack)?;
    Some(caps.iter().map(|m| m.map(|m| m.as_str().to_owned())).collect())
}

} // verus!
