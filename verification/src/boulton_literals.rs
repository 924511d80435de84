//! Extraction of the literals that application source embeds. A literal
//! stands between backticks after the word `bDeclare`.

use regex::Regex;
use vstd::prelude::*;

verus! {

/// The pattern of an embedded literal. Its first group is the literal's
/// content: everything between the backticks, which is never empty.
pub const EXTRACT_BDECLARE: &'static str = "bDeclare`([^`]+)`";

/// The error with which the `regex` crate refuses a pattern.
#[verifier::external_type_specification]
#[verifier::external_body]
pub struct ExRegexError(regex::Error);

/// Why no literals could be extracted.
#[derive(Debug, Clone, Copy, PartialEq, Eq, Structural)]
pub enum LiteralExtractionError {
    /// The pattern of a literal was refused as a regular expression.
    PatternRefused,
    /// A match of the pattern came without the group that holds the content.
    ContentNotCaptured,
}

/// What the `regex` crate finds when it searches `haystack` for `pattern`:
/// `None` if it refuses the pattern. Else, for each match in turn, going
/// from left to right without overlap, the text that the group with the
/// index `group` matched, or `None` where the group took no part in the
/// match.
pub uninterp spec fn group_of_each_match(
    pattern: Seq<char>,
    group: usize,
    haystack: Seq<char>,
) -> Option<Seq<Option<Seq<char>>>>;

/// The texts as sequences of characters.
pub open spec fn capture_views(captures: Seq<Option<String>>) -> Seq<Option<Seq<char>>> {
    captures.map_values(
        |capture: Option<String>|
            match capture {
                Some(text) => Some(text@),
                None => None,
            },
    )
}

/// Searches `haystack` for `pattern` with the `regex` crate: compiles the
/// pattern with `Regex::new`, walks the matches with `Regex::captures_iter`
/// and takes from each the group `group` with `Captures::get`. The contract
/// claims that the outcome depends on the three arguments alone, and gives
/// it the name `group_of_each_match`; an error is returned exactly where the
/// pattern is refused.
#[verifier::external_body]
fn search_for_group(pattern: &str, group: usize, haystack: &str) -> (result: Result<
    Vec<Option<String>>,
    regex::Error,
>)
    ensures
        match result {
            Ok(captures) => group_of_each_match(pattern@, group, haystack@) == Some(
                capture_views(captures@),
            ),
            Err(_) => group_of_each_match(pattern@, group, haystack@) is None,
        },
{
    let regex = Regex::new(pattern)?;
    Ok(
        regex.captures_iter(haystack).map(
            |captures| captures.get(group).map(|found| found.as_str().to_owned()),
        ).collect(),
    )
}

/// The literals that a list of captures holds, if every capture holds one.
pub open spec fn literals_of(captures: Seq<Option<Seq<char>>>) -> Option<Seq<Seq<char>>> {
    if forall|i: int| 0 <= i < captures.len() ==> (#[trigger] captures[i]) is Some {
        Some(captures.map_values(|capture: Option<Seq<char>>| capture->0))
    } else {
        None
    }
}

/// The texts as sequences of characters.
pub open spec fn literal_views(literals: Seq<String>) -> Seq<Seq<char>> {
    literals.map_values(|literal: String| literal@)
}

/// The content of each capture, in order. `None` if a capture is missing.
pub fn literals_of_captures(captures: Vec<Option<String>>) -> (literals: Option<Vec<String>>)
    ensures
        match literals {
            Some(contents) => literals_of(capture_views(captures@)) == Some(
                literal_views(contents@),
            ),
            None => literals_of(capture_views(captures@)) is None,
        },
{
    let mut contents: Vec<String> = Vec::new();
    let mut i: usize = 0;
    while i < captures.len()
        invariant
            i <= captures@.len(),
            contents@.len() == i,
            forall|k: int| 0 <= k < i ==> (#[trigger] captures@[k]) is Some,
            forall|k: int| 0 <= k < i ==> (#[trigger] contents@[k])@ == captures@[k]->0@,
        decreases captures@.len() - i,
    {
        match &captures[i] {
            Some(content) => {
                contents.push(content.clone());
            },
            None => {
                assert(capture_views(captures@)[i as int] is None);
                return None;
            },
        }
        i += 1;
    }
    Some(contents)
}

/// The literals that come of what a search found: the content of every
/// match, or the reason why there are none.
pub open spec fn extracted_literals(found: Option<Seq<Option<Seq<char>>>>) -> Result<
    Seq<Seq<char>>,
    LiteralExtractionError,
> {
    match found {
        None => Err(LiteralExtractionError::PatternRefused),
        Some(captures) => match literals_of(captures) {
            Some(literals) => Ok(literals),
            None => Err(LiteralExtractionError::ContentNotCaptured),
        },
    }
}

/// The text that the first group of `pattern` matched in each match of the
/// pattern in `content`, in the order of the matches.
pub fn extract_first_group_of_each_match(pattern: &str, content: &str) -> (result: Result<
    Vec<String>,
    LiteralExtractionError,
>)
    ensures
        match result {
            Ok(literals) => extracted_literals(group_of_each_match(pattern@, 1, content@)) == Ok::<
                Seq<Seq<char>>,
                LiteralExtractionError,
            >(literal_views(literals@)),
            Err(error) => extracted_literals(group_of_each_match(pattern@, 1, content@)) == Err::<
                Seq<Seq<char>>,
                LiteralExtractionError,
            >(error),
        },
{
    match search_for_group(pattern, 1, content) {
        Err(_) => Err(LiteralExtractionError::PatternRefused),
        Ok(captures) => match literals_of_captures(captures) {
            Some(literals) => Ok(literals),
            None => Err(LiteralExtractionError::ContentNotCaptured),
        },
    }
}

/// The contents of the literals that a source text embeds, one for each
/// occurrence and in the order of the text.
pub fn extract_b_declare_literal_from_file_content(content: &str) -> (result: Result<
    Vec<String>,
    LiteralExtractionError,
>)
    ensures
        match result {
            Ok(literals) => extracted_literals(
                group_of_each_match(EXTRACT_BDECLARE@, 1, content@),
            ) == Ok::<Seq<Seq<char>>, LiteralExtractionError>(literal_views(literals@)),
            Err(error) => extracted_literals(group_of_each_match(EXTRACT_BDECLARE@, 1, content@))
                == Err::<Seq<Seq<char>>, LiteralExtractionError>(error),
        },
{
    extract_first_group_of_each_match(EXTRACT_BDECLARE, content)
}

} // verus!
