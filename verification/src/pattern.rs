//! Searching a text for a regular expression.

use regex::Regex;
use vstd::prelude::*;

verus! {

/// What a search of `text` for the regular expression `pattern` finds:
/// whether the expression matches anywhere in the text, or `None` where
/// `pattern` is no expression that can be compiled. The value is that of
/// `Regex::is_match` on the expression that `Regex::new` compiles.
pub uninterp spec fn regex_search(pattern: Seq<char>, text: Seq<char>) -> Option<bool>;

/// Compiles `pattern` with `regex::Regex::new` and searches `text` with
/// `Regex::is_match`. Both depend on their arguments alone; what they make of
/// them is not spelled out here but named.
#[verifier::external_body]
pub(crate) fn search(pattern: &str, text: &str) -> (found: Option<bool>)
    ensures
        found == regex_search(pattern@, text@),
{
    match Regex::new(pattern) {
        Ok(expression) => Some(expression.is_match(text)),
        Err(_) => None,
    }
}

} // verus!
