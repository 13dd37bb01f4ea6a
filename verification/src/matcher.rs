//! Matching a query against a station's name.

use vstd::prelude::*;

verus! {

/// Whether `sublime_fuzzy` finds the whole of `query` in `target`, ignoring case.
pub uninterp spec fn fuzzy_match_exists(query: Seq<char>, target: Seq<char>) -> bool;

/// Runs `sublime_fuzzy::FuzzySearch::new(query, target)`, case-insensitive and
/// with the default scoring, and reports whether `best_match` found a match.
/// The search reads nothing but its two strings, so the answer is a function
/// of them; the contract gives that function its name and claims no more.
#[verifier::external_body]
fn fuzzy_search(query: &str, target: &str) -> (found: bool)
    ensures
        found == fuzzy_match_exists(query@, target@),
{
    sublime_fuzzy::FuzzySearch::new(query, target)
        .case_insensitive()
        .score_with(&sublime_fuzzy::Scoring::default())
        .best_match()
        .is_some()
}

/// Whether a station named `name` answers `query`: an empty query matches
/// every name, any other query matches where the fuzzy search finds it.
pub open spec fn name_matches(query: Seq<char>, name: Seq<char>) -> bool {
    query.len() == 0 || fuzzy_match_exists(query, name)
}

/// Whether a station named `name` answers `filter`; no filter matches every name.
pub open spec fn filter_matches(filter: Option<Seq<char>>, name: Seq<char>) -> bool {
    match filter {
        None => true,
        Some(query) => name_matches(query, name),
    }
}

/// Decides [`name_matches`] once the fuzzy search has given its answer `found`.
pub fn is_match_given(query: &str, found: bool) -> (m: bool)
    ensures
        m == (query@.len() == 0 || found),
{
    query.unicode_len() == 0 || found
}

/// Decides [`name_matches`].
pub fn is_match(query: &str, name: &str) -> (m: bool)
    ensures
        m == name_matches(query@, name@),
{
    is_match_given(query, fuzzy_search(query, name))
}

} // verus!
