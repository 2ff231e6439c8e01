//! The pattern engine behind the deep links.

use crate::text::optional_text;
use regex::Regex;
use vstd::prelude::*;

verus! {

/// `regex::Error`: what `regex::Regex::new` gives for a pattern that it
/// cannot compile. Nothing is known of its content.
#[verifier::external_type_specification]
#[verifier::external_body]
pub struct ExRegexError(regex::Error);

/// Whether `regex::Regex::new` accepts a pattern.
pub uninterp spec fn regex_compiles(pattern: Seq<char>) -> bool;

/// What `regex::Regex::captures` finds in `text` for a pattern: `None`
/// where the pattern matches nowhere, else, for the leftmost match, what
/// `regex::Captures::name` gives for the groups named `first` and `second`,
/// each the part of the text that its group matched, or `None` where the
/// group took no part in the match.
pub uninterp spec fn regex_captures(
    pattern: Seq<char>,
    first: Seq<char>,
    second: Seq<char>,
    text: Seq<char>,
) -> Option<(Option<Seq<char>>, Option<Seq<char>>)>;

/// The texts of a pair of captured groups.
pub open spec fn group_texts(found: Option<(Option<String>, Option<String>)>) -> Option<
    (Option<Seq<char>>, Option<Seq<char>>),
> {
    match found {
        Some((first, second)) => Some((optional_text(first), optional_text(second))),
        None => None,
    }
}

/// Compiles `pattern` with `regex::Regex::new`, searches `text` with
/// `regex::Regex::captures` and reads the groups named `first` and `second`
/// with `regex::Captures::name`. The contract claims that compiling
/// succeeds or fails by the pattern alone, and that what is found is decided
/// by the four texts alone; it claims nothing of what is found.
#[verifier::external_body]
pub(crate) fn captures(pattern: &str, first: &str, second: &str, text: &str) -> (found: Result<
    Option<(Option<String>, Option<String>)>,
    regex::Error,
>)
    ensures
        found is Ok <==> regex_compiles(pattern@),
        found matches Ok(groups) ==> group_texts(groups) == regex_captures(
            pattern@,
            first@,
            second@,
            text@,
        ),
{
    let re = Regex::new(pattern)?;
    Ok(
        re.captures(text).map(
            |caps|
                (
                    caps.name(first).map(|m| m.as_str().to_string()),
                    caps.name(second).map(|m| m.as_str().to_string()),
                ),
        ),
    )
}

} // verus!
