//! The boundary to the `regex` crate.
//!
//! Nothing in this file is proved: each item states what the crate's
//! documentation says of one of its functions, and the rest of the library is
//! verified against these statements.

use vstd::prelude::*;

verus! {

/// `regex::Regex`, a compiled regular expression. Its inside is not visible
/// to the verifier.
#[verifier::external_type_specification]
#[verifier::external_body]
pub struct ExRegex(regex::Regex);

/// `regex::Error`, the reason a pattern did not compile. Its inside is not
/// visible to the verifier.
#[verifier::external_type_specification]
#[verifier::external_body]
pub struct ExRegexError(regex::Error);

/// What `regex::RegexBuilder::build` returns for a pattern and the five
/// options set on the builder: the compiled expression, or the engine's error.
pub uninterp spec fn regex_build(
    pattern: Seq<char>,
    case_insensitive: bool,
    multi_line: bool,
    dot_matches_new_line: bool,
    ignore_whitespace: bool,
    unicode: bool,
) -> Result<regex::Regex, regex::Error>;

/// What `regex::Regex::is_match` returns: whether the expression finds a match
/// anywhere in the haystack.
pub uninterp spec fn regex_is_match(regex: regex::Regex, haystack: Seq<char>) -> bool;

/// What formatting a `regex::Error` with `Display` produces: the engine's
/// diagnostic text.
pub uninterp spec fn regex_error_text(error: regex::Error) -> Seq<char>;

/// Calls `regex::RegexBuilder::new` on the pattern, sets `case_insensitive`,
/// `multi_line`, `dot_matches_new_line`, `ignore_whitespace` and `unicode` on
/// the builder, and calls `build`.
///
/// Trusted: the outcome depends on the pattern and the five options alone, so
/// it is the value that `regex_build` names. Whether a given pattern compiles
/// is not stated.
#[verifier::external_body]
pub(crate) fn build_regex(
    pattern: &str,
    case_insensitive: bool,
    multi_line: bool,
    dot_matches_new_line: bool,
    ignore_whitespace: bool,
    unicode: bool,
) -> (outcome: Result<regex::Regex, regex::Error>)
    ensures
        outcome == regex_build(
            pattern@,
            case_insensitive,
            multi_line,
            dot_matches_new_line,
            ignore_whitespace,
            unicode,
        ),
{
    regex::RegexBuilder::new(pattern)
        .case_insensitive(case_insensitive)
        .multi_line(multi_line)
        .dot_matches_new_line(dot_matches_new_line)
        .ignore_whitespace(ignore_whitespace)
        .unicode(unicode)
        .build()
}

/// Calls `regex::Regex::is_match`.
///
/// Trusted: the answer depends on the expression and the haystack alone, so it
/// is the value that `regex_is_match` names.
#[verifier::external_body]
pub(crate) fn search(regex: &regex::Regex, haystack: &str) -> (found: bool)
    ensures
        found == regex_is_match(*regex, haystack@),
{
    regex.is_match(haystack)
}

/// Formats a `regex::Error` through its `Display` impl.
///
/// Trusted: the text depends on the error alone, so it is the value that
/// `regex_error_text` names. Nothing is stated of its length or content.
#[verifier::external_body]
pub(crate) fn error_text(error: &regex::Error) -> (text: String)
    ensures
        text@ == regex_error_text(*error),
{
    format!("{}", error)
}

} // verus!
