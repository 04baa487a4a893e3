//! Regular expressions, through the `regex` crate. What a pattern matches
//! is not restated here: the results of the crate's calls have names, and
//! the library's contracts speak of those names. Every regular expression
//! is compiled by `Regex::new`, with the options that it sets, so that what
//! an expression matches depends on its pattern alone.

use vstd::prelude::*;

verus! {

#[verifier::external_type_specification]
#[verifier::external_body]
pub struct ExRegex(regex::Regex);

#[verifier::external_type_specification]
#[verifier::external_body]
pub struct ExRegexError(regex::Error);

/// The capture groups of one match: the text of each group, group 0 (the
/// whole match) first; `None` for a group that took no part in the match.
pub type Groups = Vec<Option<String>>;

/// The pattern that a compiled regular expression was made from.
pub uninterp spec fn regex_source(re: regex::Regex) -> Seq<char>;

/// Whether `Regex::new` accepts `pattern`.
pub uninterp spec fn regex_compiles(pattern: Seq<char>) -> bool;

/// The groups of the first match of `pattern` in `haystack`, as
/// `Regex::captures` finds it.
pub uninterp spec fn regex_first_match(pattern: Seq<char>, haystack: Seq<char>) -> Option<
    Seq<Option<Seq<char>>>,
>;

/// The groups of every match of `pattern` in `haystack`, in the order in
/// which `Regex::captures_iter` yields them.
pub uninterp spec fn regex_all_matches(pattern: Seq<char>, haystack: Seq<char>) -> Seq<
    Seq<Option<Seq<char>>>,
>;

/// The texts of a list of groups.
pub open spec fn groups_view(groups: Seq<Option<String>>) -> Seq<Option<Seq<char>>> {
    Seq::new(
        groups.len(),
        |i: int|
            match groups[i] {
                Some(text) => Some(text@),
                None => None,
            },
    )
}

/// The texts of a list of matches.
pub open spec fn matches_view(found: Seq<Groups>) -> Seq<Seq<Option<Seq<char>>>> {
    Seq::new(found.len(), |i: int| groups_view(found[i]@))
}

/// The text of group `index`, where the group exists and took part.
pub open spec fn group_text(groups: Seq<Option<Seq<char>>>, index: int) -> Option<Seq<char>> {
    if 0 <= index < groups.len() {
        groups[index]
    } else {
        None
    }
}

/// `Regex::new`: it compiles exactly the patterns that `regex_compiles`
/// names, and the regular expression remembers its pattern.
#[verifier::external_body]
fn regex_new(pattern: &str) -> (r: Result<regex::Regex, regex::Error>)
    ensures
        r is Ok == regex_compiles(pattern@),
        r matches Ok(re) ==> regex_source(re) == pattern@,
{
    regex::Regex::new(pattern)
}

/// `Display` of a `regex::Error`: the message of the error. Nothing is
/// promised of the text.
#[verifier::external_body]
fn regex_error_message(error: &regex::Error) -> String {
    error.to_string()
}

/// `Regex::captures`, for an expression that `Regex::new` compiled: the
/// first match in `haystack`, each of its groups copied out as text.
#[verifier::external_body]
fn regex_captures(re: &regex::Regex, haystack: &str) -> (r: Option<Groups>)
    ensures
        match r {
            Some(groups) => regex_first_match(regex_source(*re), haystack@) == Some(
                groups_view(groups@),
            ),
            None => regex_first_match(regex_source(*re), haystack@) is None,
        },
{
    re.captures(haystack).map(|c| c.iter().map(|m| m.map(|m| m.as_str().to_string())).collect())
}

/// `Regex::captures_iter`, for an expression that `Regex::new` compiled:
/// every match in `haystack`, in order, each of its groups copied out as
/// text.
#[verifier::external_body]
fn regex_captures_iter(re: &regex::Regex, haystack: &str) -> (r: Vec<Groups>)
    ensures
        matches_view(r@) == regex_all_matches(regex_source(*re), haystack@),
{
    re.captures_iter(haystack).map(
        |c| c.iter().map(|m| m.map(|m| m.as_str().to_string())).collect(),
    ).collect()
}

/// The groups of the first match of `pattern` in `haystack`; the message
/// of the `regex` crate where it does not accept the pattern.
pub fn first_match(pattern: &str, haystack: &str) -> (r: Result<Option<Groups>, String>)
    ensures
        match r {
            Ok(Some(groups)) => regex_compiles(pattern@) && regex_first_match(pattern@, haystack@)
                == Some(groups_view(groups@)),
            Ok(None) => regex_compiles(pattern@) && regex_first_match(pattern@, haystack@) is None,
            Err(_) => !regex_compiles(pattern@),
        },
{
    match regex_new(pattern) {
        Ok(re) => Ok(regex_captures(&re, haystack)),
        Err(error) => Err(regex_error_message(&error)),
    }
}

/// The groups of every match of `pattern` in `haystack`, in order; the
/// message of the `regex` crate where it does not accept the pattern.
pub fn all_matches(pattern: &str, haystack: &str) -> (r: Result<Vec<Groups>, String>)
    ensures
        match r {
            Ok(found) => regex_compiles(pattern@) && matches_view(found@) == regex_all_matches(
                pattern@,
                haystack@,
            ),
            Err(_) => !regex_compiles(pattern@),
        },
{
    match regex_new(pattern) {
        Ok(re) => Ok(regex_captures_iter(&re, haystack)),
        Err(error) => Err(regex_error_message(&error)),
    }
}

/// The text of group `index` of a match.
pub fn group(groups: &Groups, index: usize) -> (r: Option<&String>)
    ensures
        match r {
            Some(text) => group_text(groups_view(groups@), index as int) == Some(text@),
            None => group_text(groups_view(groups@), index as int) is None,
        },
{
    if index < groups.len() {
        match &groups[index] {
            Some(text) => Some(text),
            None => None,
        }
    } else {
        None
    }
}

} // verus!
