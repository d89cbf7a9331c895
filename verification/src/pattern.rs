//! Regular expressions, as far as the relay needs them.

use vstd::prelude::*;
use crate::text::{opt_text, text_views};

verus! {

/// The haystack with the leftmost match of the pattern replaced by the
/// replacement, in which `$1` stands for the first group of the match;
/// `None` where the pattern does not compile.
pub uninterp spec fn first_match_replaced(
    pattern: Seq<char>,
    haystack: Seq<char>,
    replacement: Seq<char>,
) -> Option<Seq<char>>;

/// The first group of every match of the pattern in the haystack, from
/// left to right; `None` where the pattern does not compile.
pub uninterp spec fn first_groups(pattern: Seq<char>, haystack: Seq<char>) -> Option<
    Seq<Seq<char>>,
>;

/// Every match of the pattern in the haystack, from left to right; `None`
/// where the pattern does not compile.
pub uninterp spec fn all_matches(pattern: Seq<char>, haystack: Seq<char>) -> Option<
    Seq<Seq<char>>,
>;

/// The views of an optional list of strings.
pub open spec fn opt_views(items: Option<Vec<String>>) -> Option<Seq<Seq<char>>> {
    match items {
        Some(items) => Some(text_views(items@)),
        None => None,
    }
}

/// Calls `regex::Regex::new` and, on the compiled pattern,
/// `Regex::replace`. The contract names the result and claims no more
/// than that it is a function of the three strings.
#[verifier::external_body]
pub(crate) fn replace_first(pattern: &str, haystack: &str, replacement: &str) -> (out: Option<
    String,
>)
    ensures
        opt_text(out) == first_match_replaced(pattern@, haystack@, replacement@),
{
    match regex::Regex::new(pattern) {
        Ok(re) => Some(re.replace(haystack, replacement).into_owned()),
        Err(_) => None,
    }
}

/// Calls `regex::Regex::new` and, on the compiled pattern,
/// `Regex::captures_iter`, keeping of each match the text of its first
/// group (empty where the group took no part in the match). The contract
/// names the result and claims no more than that it is a function of the
/// two strings.
#[verifier::external_body]
pub(crate) fn capture_first_groups(pattern: &str, haystack: &str) -> (out: Option<Vec<String>>)
    ensures
        opt_views(out) == first_groups(pattern@, haystack@),
{
    match regex::Regex::new(pattern) {
        Ok(re) => Some(
            re.captures_iter(haystack).map(
                |c| c.get(1).map_or(String::new(), |m| m.as_str().to_owned()),
            ).collect(),
        ),
        Err(_) => None,
    }
}

/// Calls `regex::Regex::new` and, on the compiled pattern,
/// `Regex::find_iter`, keeping the text of each match. The contract names
/// the result and claims no more than that it is a function of the two
/// strings.
#[verifier::external_body]
pub(crate) fn find_all(pattern: &str, haystack: &str) -> (out: Option<Vec<String>>)
    ensures
        opt_views(out) == all_matches(pattern@, haystack@),
{
    match regex::Regex::new(pattern) {
        Ok(re) => Some(re.find_iter(haystack).map(|m| m.as_str().to_owned()).collect()),
        Err(_) => None,
    }
}

} // verus!
