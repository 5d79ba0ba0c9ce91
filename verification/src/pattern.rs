//! Searching text with regular expressions of the `regex` crate.

use crate::text::opt_text;
use vstd::prelude::*;

verus! {

/// The leftmost-first match of the regular expression `pattern` in `text`;
/// `None` where there is no match or `pattern` is not a regular expression
/// that the crate accepts.
pub uninterp spec fn regex_find(pattern: Seq<char>, text: Seq<char>) -> Option<Seq<char>>;

/// `Regex::new` and `Regex::find` of the `regex` crate: the pattern is
/// compiled and the text is searched once from its start. The result is the
/// matched part of the text, which is what [`regex_find`] names.
#[verifier::external_body]
pub(crate) fn find_first(pattern: &str, text: &str) -> (r: Option<String>)
    ensures
        opt_text(r) == regex_find(pattern@, text@),
{
    match regex::Regex::new(pattern) {
        Ok(re) => re.find(text).map(|m| m.as_str().to_string()),
        Err(_) => None,
    }
}

} // verus!
