//! Pattern matching, by way of the `regex` crate.

use vstd::prelude::*;
use crate::engine::text::strings_view;

verus! {

/// For every match of `pattern` in `text`, from left to right and without
/// overlap, what the pattern's first group took: the empty text if the group
/// took no part. A pattern that is not a valid one matches nowhere.
pub uninterp spec fn regex_groups(pattern: Seq<char>, text: Seq<char>) -> Seq<Seq<char>>;

/// What the first group of `pattern` took in each match in `text`.
///
/// Wraps `regex::Regex::new`, which compiles a pattern, and
/// `Regex::captures_iter`, which walks the successive non-overlapping
/// matches from the left.
#[verifier::external_body]
pub(crate) fn first_groups(pattern: &str, text: &str) -> (groups: Vec<String>)
    ensures
        strings_view(groups@) == regex_groups(pattern@, text@),
{
    match regex::Regex::new(pattern) {
        Ok(re) => re.captures_iter(text).map(
            |found| found.get(1).map_or("", |group| group.as_str()).to_string(),
        ).collect(),
        Err(_) => Vec::new(),
    }
}

} // verus!
