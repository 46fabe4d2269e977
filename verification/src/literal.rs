//! Literal string patterns: a pattern matches a subject that contains its
//! text.

use vstd::prelude::*;
use vstd::std_specs::iter::IteratorSpec;
use vstd::string::StringExecFns;
use crate::config::PatternConfig;
use crate::pattern::{any_matches, first_match, kept, parse_patterns, texts, views, Pattern, Patterns};

verus! {

/// What `str::to_lowercase` returns: the text with each character replaced by
/// its Unicode lowercase mapping.
pub uninterp spec fn lowercase(text: Seq<char>) -> Seq<char>;

/// Calls `str::to_lowercase`.
///
/// Trusted: the result depends on the text alone, so it is the value that
/// `lowercase` names. Nothing is stated of its length or content.
#[verifier::external_body]
fn to_lowercase(text: &str) -> (lowered: String)
    ensures
        lowered@ == lowercase(text@),
{
    text.to_lowercase()
}

/// The form in which texts are compared: lowercase where case is ignored,
/// unchanged where it is not.
pub open spec fn normalized(text: Seq<char>, case_insensitive: bool) -> Seq<char> {
    if case_insensitive {
        lowercase(text)
    } else {
        text
    }
}

/// Whether `needle` stands in `haystack` at position `at`.
pub open spec fn occurs_at(needle: Seq<char>, haystack: Seq<char>, at: int) -> bool {
    &&& 0 <= at
    &&& at + needle.len() <= haystack.len()
    &&& haystack.subrange(at, at + needle.len()) == needle
}

/// Whether `needle` stands somewhere in `haystack`.
pub open spec fn is_substring(needle: Seq<char>, haystack: Seq<char>) -> bool {
    exists|at: int| occurs_at(needle, haystack, at)
}

/// The characters of a text, one by one.
pub fn chars_of(text: &str) -> (chars: Vec<char>)
    ensures
        chars@ == text@,
{
    let mut chars: Vec<char> = Vec::new();
    let source = text.chars();
    proof {
        broadcast use vstd::string::axiom_spec_iter;

    }
    for c in it: source
        invariant
            it.seq() == text@,
            chars@ == it.seq().take(it.index() as int),
    {
        proof {
            assert(it.seq().take(it.index() + 1) == it.seq().take(it.index() as int).push(c));
        }
        chars.push(c);
    }
    proof {
        assert(text@.take(text@.len() as int) == text@);
    }
    chars
}

/// Whether `needle` stands in `haystack` at `start`.
fn stands_at(needle: &Vec<char>, haystack: &Vec<char>, start: usize) -> (found: bool)
    requires
        start + needle.len() <= haystack.len(),
    ensures
        found == occurs_at(needle@, haystack@, start as int),
{
    let mut i: usize = 0;
    while i < needle.len()
        invariant
            i <= needle.len(),
            start + needle.len() <= haystack.len(),
            forall|k: int| 0 <= k < i ==> haystack[start + k] == needle[k],
        decreases needle.len() - i,
    {
        if haystack[start + i] != needle[i] {
            proof {
                let window = haystack@.subrange(start as int, start + needle.len());
                assert(window[i as int] != needle[i as int]);
            }
            return false;
        }
        i += 1;
    }
    proof {
        assert(haystack@.subrange(start as int, start + needle.len()) =~= needle@);
    }
    true
}

/// The first position at which `needle` stands in `haystack`.
pub fn find(needle: &Vec<char>, haystack: &Vec<char>) -> (position: Option<usize>)
    ensures
        match position {
            Some(at) => occurs_at(needle@, haystack@, at as int) && forall|j: int|
                0 <= j < at ==> !occurs_at(needle@, haystack@, j),
            None => !is_substring(needle@, haystack@),
        },
        position is Some <==> is_substring(needle@, haystack@),
{
    if needle.len() > haystack.len() {
        return None;
    }
    let last: usize = haystack.len() - needle.len();
    let mut start: usize = 0;
    while start < last
        invariant
            start <= last,
            last == haystack.len() - needle.len(),
            forall|j: int| 0 <= j < start ==> !occurs_at(needle@, haystack@, j),
        decreases last - start,
    {
        if stands_at(needle, haystack, start) {
            return Some(start);
        }
        start += 1;
    }
    if stands_at(needle, haystack, start) {
        Some(start)
    } else {
        None
    }
}

/// What a literal pattern is: its text in the form in which it is compared,
/// and the case setting.
pub struct StringSpec {
    pub text: Seq<char>,
    pub case_insensitive: bool,
}

/// A literal pattern.
pub struct StringPattern {
    text: String,
    needle: Vec<char>,
    case_insensitive: bool,
}

impl View for StringPattern {
    type V = StringSpec;

    closed spec fn view(&self) -> StringSpec {
        StringSpec { text: self.text@, case_insensitive: self.case_insensitive }
    }
}

impl StringPattern {
    /// The characters searched for are those of the text.
    #[verifier::type_invariant]
    spec fn well_formed(self) -> bool {
        self.needle@ == self.text@
    }
}

impl Pattern for StringPattern {
    open spec fn parse_spec(raw: Seq<char>, config: PatternConfig) -> Result<
        StringSpec,
        Seq<char>,
    > {
        Ok(
            StringSpec {
                text: normalized(raw, config.case_insensitive),
                case_insensitive: config.case_insensitive,
            },
        )
    }

    open spec fn matches_spec(pattern: StringSpec, subject: Seq<char>) -> bool {
        is_substring(pattern.text, normalized(subject, pattern.case_insensitive))
    }

    open spec fn text_spec(pattern: StringSpec) -> Seq<char> {
        pattern.text
    }

    /// True iff the subject contains the pattern's text; where case is
    /// ignored, the subject is compared in lowercase.
    fn matches(&self, string: &str) -> (found: bool) {
        proof {
            use_type_invariant(self);
        }
        let haystack = if self.case_insensitive {
            let lowered = to_lowercase(string);
            chars_of(lowered.as_str())
        } else {
            chars_of(string)
        };
        find(&self.needle, &haystack).is_some()
    }

    /// Takes any text as a pattern; where case is ignored, the text is kept
    /// in lowercase.
    fn parse(string: &str, config: &PatternConfig) -> (outcome: Result<Self, String>)
        ensures
            outcome is Ok,
    {
        let text = if config.case_insensitive {
            to_lowercase(string)
        } else {
            String::from_str(string)
        };
        let needle = chars_of(text.as_str());
        Ok(StringPattern { text, needle, case_insensitive: config.case_insensitive })
    }

    /// The text in the form in which it is compared.
    fn to_string(&self) -> (text: String) {
        self.text.clone()
    }
}

/// A collection of literal patterns, fixed once it is built.
pub struct StringPatterns {
    vec: Vec<StringPattern>,
}

impl View for StringPatterns {
    type V = Seq<StringSpec>;

    closed spec fn view(&self) -> Seq<StringSpec> {
        views(self.vec@)
    }
}

impl StringPatterns {
    /// Builds the collection from raw texts: the non-empty ones, in input
    /// order.
    pub fn new(raw_patterns: &Vec<String>, config: &PatternConfig) -> (built: StringPatterns)
        ensures
            built@ == kept::<StringPattern>(texts(raw_patterns@), *config),
    {
        let parsed = parse_patterns::<StringPattern>(raw_patterns, config);
        StringPatterns { vec: parsed.patterns }
    }
}

impl Patterns for StringPatterns {
    open spec fn spec_len(&self) -> nat {
        self@.len()
    }

    open spec fn spec_contains(&self, subject: Seq<char>) -> bool {
        any_matches::<StringPattern>(self@, subject)
    }

    fn contains(&self, address: &String) -> (found: bool) {
        first_match(&self.vec, address.as_str()).is_some()
    }

    fn len(&self) -> (count: usize) {
        self.vec.len()
    }
}

} // verus!
