//! What a pattern is: text that parses into a value which can then be asked
//! whether it matches a subject.

use vstd::prelude::*;
use crate::config::PatternConfig;

verus! {

/// One kind of pattern.
///
/// A pattern is modelled by its view. Parsing is a function of the raw text
/// and the configuration; matching is a function of the pattern and the
/// subject, and cannot fail.
pub trait Pattern: Sized + View + Send + Sync {
    /// The outcome of parsing `raw`: the pattern, or the reason the text is
    /// refused.
    spec fn parse_spec(raw: Seq<char>, config: PatternConfig) -> Result<Self::V, Seq<char>>;

    /// Whether `pattern` matches `subject`.
    spec fn matches_spec(pattern: Self::V, subject: Seq<char>) -> bool;

    /// The text shown for `pattern` in diagnostics.
    spec fn text_spec(pattern: Self::V) -> Seq<char>;

    /// Tests the subject against this pattern.
    fn matches(&self, string: &str) -> (found: bool)
        ensures
            found == Self::matches_spec(self@, string@),
    ;

    /// Parses raw text, taken as it is: nothing is trimmed.
    fn parse(string: &str, config: &PatternConfig) -> (outcome: Result<Self, String>)
        ensures
            match outcome {
                Ok(pattern) => Self::parse_spec(string@, *config) == Ok::<Self::V, Seq<char>>(
                    pattern@,
                ),
                Err(reason) => Self::parse_spec(string@, *config) == Err::<Self::V, Seq<char>>(
                    reason@,
                ),
            },
    ;

    /// The pattern's text, for diagnostics.
    fn to_string(&self) -> (text: String)
        ensures
            text@ == Self::text_spec(self@),
    ;
}

/// What a collection of patterns answers.
pub trait Patterns: Sync + Send {
    /// The number of patterns held.
    spec fn spec_len(&self) -> nat;

    /// Whether some pattern held matches `subject`.
    spec fn spec_contains(&self, subject: Seq<char>) -> bool;

    /// True iff at least one pattern matches the subject.
    fn contains(&self, address: &String) -> (found: bool)
        ensures
            found == self.spec_contains(address@),
    ;

    /// The number of patterns that parsed.
    fn len(&self) -> (count: usize)
        ensures
            count == self.spec_len(),
    ;
}

/// A raw pattern that was left out of a batch, with the reason.
pub struct Skipped {
    /// The text as it was given.
    pub raw: String,
    /// Why it did not parse.
    pub reason: String,
}

/// A skipped pattern as plain text.
pub struct SkippedText {
    pub raw: Seq<char>,
    pub reason: Seq<char>,
}

impl View for Skipped {
    type V = SkippedText;

    open spec fn view(&self) -> SkippedText {
        SkippedText { raw: self.raw@, reason: self.reason@ }
    }
}

/// The outcome of parsing a batch: the patterns that parsed, and the raw
/// texts that did not, each in the order of the input.
pub struct Parsed<P> {
    pub patterns: Vec<P>,
    pub skipped: Vec<Skipped>,
}

/// The text of each string.
pub open spec fn texts(strings: Seq<String>) -> Seq<Seq<char>> {
    strings.map_values(|s: String| s@)
}

/// The view of each item.
pub open spec fn views<T: View>(items: Seq<T>) -> Seq<T::V> {
    items.map_values(|item: T| item@)
}

/// The patterns that a batch yields: those of the non-empty raw texts that
/// parse, in input order.
pub open spec fn kept<P: Pattern>(raws: Seq<Seq<char>>, config: PatternConfig) -> Seq<P::V>
    decreases raws.len(),
{
    if raws.len() == 0 {
        Seq::empty()
    } else {
        let earlier = kept::<P>(raws.drop_last(), config);
        if raws.last().len() == 0 {
            earlier
        } else {
            match P::parse_spec(raws.last(), config) {
                Ok(pattern) => earlier.push(pattern),
                Err(_) => earlier,
            }
        }
    }
}

/// The raw texts that a batch reports: the non-empty ones that do not parse,
/// each with its reason, in input order.
pub open spec fn refused<P: Pattern>(raws: Seq<Seq<char>>, config: PatternConfig) -> Seq<
    SkippedText,
>
    decreases raws.len(),
{
    if raws.len() == 0 {
        Seq::empty()
    } else {
        let earlier = refused::<P>(raws.drop_last(), config);
        if raws.last().len() == 0 {
            earlier
        } else {
            match P::parse_spec(raws.last(), config) {
                Ok(_) => earlier,
                Err(reason) => earlier.push(SkippedText { raw: raws.last(), reason }),
            }
        }
    }
}

/// Parses each raw text of a batch. Empty texts are passed over silently; a
/// text that does not parse is set aside with its reason, and the batch goes
/// on.
pub fn parse_patterns<P: Pattern>(raw_patterns: &Vec<String>, config: &PatternConfig) -> (parsed:
    Parsed<P>)
    ensures
        views(parsed.patterns@) == kept::<P>(texts(raw_patterns@), *config),
        views(parsed.skipped@) == refused::<P>(texts(raw_patterns@), *config),
{
    let mut patterns: Vec<P> = Vec::new();
    let mut skipped: Vec<Skipped> = Vec::new();
    let ghost raws = texts(raw_patterns@);
    let mut i: usize = 0;
    while i < raw_patterns.len()
        invariant
            i <= raw_patterns.len(),
            raws == texts(raw_patterns@),
            views(patterns@) == kept::<P>(raws.take(i as int), *config),
            views(skipped@) == refused::<P>(raws.take(i as int), *config),
        decreases raw_patterns.len() - i,
    {
        let raw_pattern = &raw_patterns[i];
        proof {
            assert(raws.take(i + 1).drop_last() == raws.take(i as int));
            assert(raws.take(i + 1).last() == raw_pattern@);
        }
        if !raw_pattern.as_str().is_empty() {
            match P::parse(raw_pattern.as_str(), config) {
                Ok(pattern) => {
                    proof {
                        assert(views(patterns@.push(pattern)) == views(patterns@).push(pattern@));
                    }
                    patterns.push(pattern);
                },
                Err(reason) => {
                    let entry = Skipped { raw: raw_pattern.clone(), reason };
                    proof {
                        assert(views(skipped@.push(entry)) == views(skipped@).push(entry@));
                    }
                    skipped.push(entry);
                },
            }
        }
        i += 1;
    }
    proof {
        assert(raws.take(i as int) == raws);
    }
    Parsed { patterns, skipped }
}

/// Whether some pattern of the sequence matches `subject`.
pub open spec fn any_matches<P: Pattern>(patterns: Seq<P::V>, subject: Seq<char>) -> bool {
    exists|i: int| 0 <= i < patterns.len() && P::matches_spec(#[trigger] patterns[i], subject)
}

/// The position of the first pattern, in the order held, that matches the
/// subject. The scan stops there.
pub fn first_match<P: Pattern>(patterns: &Vec<P>, subject: &str) -> (position: Option<usize>)
    ensures
        match position {
            Some(at) => at < patterns.len() && P::matches_spec(patterns[at as int]@, subject@)
                && forall|j: int|
                0 <= j < at ==> !P::matches_spec(#[trigger] patterns[j]@, subject@),
            None => !any_matches::<P>(views(patterns@), subject@),
        },
        position is Some <==> any_matches::<P>(views(patterns@), subject@),
{
    let mut i: usize = 0;
    while i < patterns.len()
        invariant
            i <= patterns.len(),
            forall|j: int| 0 <= j < i ==> !P::matches_spec(#[trigger] patterns[j]@, subject@),
        decreases patterns.len() - i,
    {
        if patterns[i].matches(subject) {
            proof {
                assert(P::matches_spec(views(patterns@)[i as int], subject@));
            }
            return Some(i);
        }
        i += 1;
    }
    proof {
        assert forall|j: int| 0 <= j < views(patterns@).len() implies !P::matches_spec(
            #[trigger] views(patterns@)[j],
            subject@,
        ) by {
            assert(views(patterns@)[j] == patterns[j]@);
        }
    }
    None
}

} // verus!
