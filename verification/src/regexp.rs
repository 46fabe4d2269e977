//! Regular-expression patterns.

use vstd::prelude::*;
use vstd::string::StringExecFns;
use crate::config::PatternConfig;
use crate::engine::{build_regex, error_text, regex_build, regex_error_text, regex_is_match, search};
use crate::pattern::{
    any_matches, first_match, kept, parse_patterns, refused, texts, views, Pattern, Patterns,
    Skipped,
};

verus! {

/// What a regular-expression pattern is: the text it was compiled from and
/// the case setting it was compiled under.
pub struct RegexSpec {
    pub source: Seq<char>,
    pub case_insensitive: bool,
}

/// The outcome of compiling `source` with the engine options that every
/// regular-expression pattern uses: `^` and `$` match only at the ends of the
/// subject, `.` does not match a line terminator, unescaped whitespace and
/// `#` comments in the pattern are ignored, and matching is Unicode-aware.
pub open spec fn compiled(source: Seq<char>, case_insensitive: bool) -> Result<
    regex::Regex,
    regex::Error,
> {
    regex_build(source, case_insensitive, false, false, true, true)
}

/// The words that open the message for a pattern that did not compile.
pub open spec fn invalid_regex_prefix() -> Seq<char> {
    "Invalid regex: "@
}

/// A compiled regular expression.
pub struct RegexPattern {
    source: String,
    case_insensitive: bool,
    regex: regex::Regex,
}

impl View for RegexPattern {
    type V = RegexSpec;

    closed spec fn view(&self) -> RegexSpec {
        RegexSpec { source: self.source@, case_insensitive: self.case_insensitive }
    }
}

impl RegexPattern {
    /// The compiled expression is the one the engine gives for the source
    /// text and the case setting.
    #[verifier::type_invariant]
    spec fn well_formed(self) -> bool {
        compiled(self.source@, self.case_insensitive) == Ok::<regex::Regex, regex::Error>(
            self.regex,
        )
    }
}

impl Pattern for RegexPattern {
    open spec fn parse_spec(raw: Seq<char>, config: PatternConfig) -> Result<
        RegexSpec,
        Seq<char>,
    > {
        match compiled(raw, config.case_insensitive) {
            Ok(_) => Ok(RegexSpec { source: raw, case_insensitive: config.case_insensitive }),
            Err(error) => Err(invalid_regex_prefix() + regex_error_text(error)),
        }
    }

    open spec fn matches_spec(pattern: RegexSpec, subject: Seq<char>) -> bool {
        match compiled(pattern.source, pattern.case_insensitive) {
            Ok(regex) => regex_is_match(regex, subject),
            Err(_) => false,
        }
    }

    open spec fn text_spec(pattern: RegexSpec) -> Seq<char> {
        pattern.source
    }

    /// True iff the expression finds a match anywhere in the subject.
    fn matches(&self, string: &str) -> (found: bool) {
        proof {
            use_type_invariant(self);
        }
        search(&self.regex, string)
    }

    /// Compiles the text. A text the engine refuses gives the engine's
    /// diagnostic behind the words "Invalid regex: ".
    fn parse(string: &str, config: &PatternConfig) -> (outcome: Result<Self, String>) {
        match build_regex(string, config.case_insensitive, false, false, true, true) {
            Ok(regex) => Ok(
                RegexPattern {
                    source: String::from_str(string),
                    case_insensitive: config.case_insensitive,
                    regex,
                },
            ),
            Err(error) => {
                let reason = String::from_str("Invalid regex: ").concat(error_text(&error).as_str());
                Err(reason)
            },
        }
    }

    /// The text the expression was compiled from.
    fn to_string(&self) -> (text: String) {
        self.source.clone()
    }
}

/// A collection of regular-expression patterns, fixed once it is built.
pub struct RegexPatterns {
    vec: Vec<RegexPattern>,
}

impl View for RegexPatterns {
    type V = Seq<RegexSpec>;

    closed spec fn view(&self) -> Seq<RegexSpec> {
        views(self.vec@)
    }
}

impl RegexPatterns {
    /// Builds the collection from raw texts: the non-empty ones that compile,
    /// in input order. The ones that do not compile come back beside it, each
    /// with the engine's reason.
    pub fn new(raw_patterns: &Vec<String>, case_insensitive: bool) -> (built: (
        RegexPatterns,
        Vec<Skipped>,
    ))
        ensures
            built.0@ == kept::<RegexPattern>(
                texts(raw_patterns@),
                PatternConfig { case_insensitive },
            ),
            views(built.1@) == refused::<RegexPattern>(
                texts(raw_patterns@),
                PatternConfig { case_insensitive },
            ),
    {
        let config = PatternConfig { case_insensitive };
        let parsed = parse_patterns::<RegexPattern>(raw_patterns, &config);
        (RegexPatterns { vec: parsed.patterns }, parsed.skipped)
    }
}

impl Patterns for RegexPatterns {
    open spec fn spec_len(&self) -> nat {
        self@.len()
    }

    open spec fn spec_contains(&self, subject: Seq<char>) -> bool {
        any_matches::<RegexPattern>(self@, subject)
    }

    fn contains(&self, address: &String) -> (found: bool) {
        first_match(&self.vec, address.as_str()).is_some()
    }

    fn len(&self) -> (count: usize) {
        self.vec.len()
    }
}

} // verus!
