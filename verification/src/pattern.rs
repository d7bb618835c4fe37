//! Searching text for a regular expression, through the `regex` crate.
//!
//! The engine is not verified. What it finds is given a name here, and the rest
//! of the library states its results over those names.

use crate::error::ScanError;
use regex::Regex;
use vstd::prelude::*;

verus! {

/// The error with which the `regex` crate refuses an expression.
#[verifier::external_type_specification]
#[verifier::external_body]
pub struct ExPatternError(regex::Error);

/// Whether `Regex::new` accepts the expression `pattern`.
pub uninterp spec fn accepted(pattern: Seq<char>) -> bool;

/// What `Regex::captures` finds for the expression `pattern` in `haystack`:
/// `None` where nothing matches; else, for the leftmost match, the text of the
/// first capture group, or `None` where that group took no part in the match.
pub uninterp spec fn first_capture(pattern: Seq<char>, haystack: Seq<char>) -> Option<
    Option<Seq<char>>,
>;

/// What `Regex::captures_iter` finds for the expression `pattern` in
/// `haystack`: for each of the successive matches that do not overlap, in the
/// order of the text, the text of the first capture group, or `None` where that
/// group took no part in the match.
pub uninterp spec fn every_capture(pattern: Seq<char>, haystack: Seq<char>) -> Seq<
    Option<Seq<char>>,
>;

/// Compiles `pattern` with `Regex::new` and searches `haystack` once with
/// `Regex::captures`, reading the first group with `Captures::get`.
///
/// Trusted: the engine refuses exactly the expressions that are not
/// `accepted`, whatever the text; where it accepts, the result is
/// `first_capture` of the two texts.
#[verifier::external_body]
fn search_first(pattern: &str, haystack: &str) -> (found: Result<
    Option<Option<String>>,
    regex::Error,
>)
    ensures
        found is Ok <==> accepted(pattern@),
        found matches Ok(capture) ==> capture.deep_view() == first_capture(pattern@, haystack@),
{
    let engine = Regex::new(pattern)?;
    Ok(engine.captures(haystack).map(|c| c.get(1).map(|m| m.as_str().to_string())))
}

/// Compiles `pattern` with `Regex::new` and walks `haystack` with
/// `Regex::captures_iter`, reading the first group of each match with
/// `Captures::get`.
///
/// Trusted: the engine refuses exactly the expressions that are not
/// `accepted`, whatever the text; where it accepts, the result is
/// `every_capture` of the two texts.
#[verifier::external_body]
fn search_every(pattern: &str, haystack: &str) -> (found: Result<
    Vec<Option<String>>,
    regex::Error,
>)
    ensures
        found is Ok <==> accepted(pattern@),
        found matches Ok(captures) ==> captures.deep_view() == every_capture(
            pattern@,
            haystack@,
        ),
{
    let engine = Regex::new(pattern)?;
    Ok(engine.captures_iter(haystack).map(|c| c.get(1).map(|m| m.as_str().to_string())).collect())
}

/// The identity on an optional text, as a function to filter by.
pub open spec fn when_present() -> spec_fn(Option<Seq<char>>) -> Option<Seq<char>> {
    |group: Option<Seq<char>>| group
}

/// The texts among `groups`, in order, without the absent ones.
pub open spec fn present(groups: Seq<Option<Seq<char>>>) -> Seq<Seq<char>> {
    groups.filter_map(when_present())
}

/// The section of text that a single search captured, if it matched and the
/// group took part.
pub open spec fn captured(found: Option<Option<Seq<char>>>) -> Option<Seq<char>> {
    match found {
        Some(Some(text)) => Some(text),
        _ => None,
    }
}

/// Keeps the texts of the groups that took part in their match.
pub fn present_groups(groups: Vec<Option<String>>) -> (texts: Vec<String>)
    ensures
        texts.deep_view() == present(groups.deep_view()),
{
    let ghost all = groups.deep_view();
    let mut texts: Vec<String> = Vec::new();
    let mut i: usize = 0;
    assert(all.take(0) =~= Seq::<Option<Seq<char>>>::empty());
    assert(texts.deep_view() =~= Seq::<Seq<char>>::empty());
    while i < groups.len()
        invariant
            i <= groups.len(),
            all == groups.deep_view(),
            texts.deep_view() == present(all.take(i as int)),
        decreases groups.len() - i,
    {
        let ghost before = texts.deep_view();
        proof {
            all.lemma_filter_map_take_succ(when_present(), i as int);
        }
        match &groups[i] {
            Some(text) => {
                texts.push(text.clone());
                assert(texts.deep_view() =~= before + seq![text@]);
            },
            None => {},
        }
        i += 1;
    }
    assert(all.take(groups.len() as int) =~= all);
    texts
}

/// The first capture group of the leftmost match of `pattern` in `content`.
///
/// `Ok(None)` where nothing matches, or where the match did not use the group.
/// An error where the engine refuses the expression, and only there.
pub fn find_first(pattern: &str, content: &str) -> (found: Result<Option<String>, ScanError>)
    ensures
        found is Ok <==> accepted(pattern@),
        found matches Ok(text) ==> text.deep_view() == captured(
            first_capture(pattern@, content@),
        ),
        found matches Err(error) ==> error == ScanError::Pattern,
{
    match search_first(pattern, content) {
        Ok(Some(Some(text))) => Ok(Some(text)),
        Ok(_) => Ok(None),
        Err(_) => Err(ScanError::Pattern),
    }
}

/// The first capture group of every match of `pattern` in `content`, in the
/// order of the text. A match that did not use the group adds nothing. An
/// error where the engine refuses the expression, and only there.
pub fn find_matches(pattern: &str, content: &str) -> (found: Result<Vec<String>, ScanError>)
    ensures
        found is Ok <==> accepted(pattern@),
        found matches Ok(findings) ==> findings.deep_view() == present(
            every_capture(pattern@, content@),
        ),
        found matches Err(error) ==> error == ScanError::Pattern,
{
    match search_every(pattern, content) {
        Ok(groups) => Ok(present_groups(groups)),
        Err(_) => Err(ScanError::Pattern),
    }
}

} // verus!
