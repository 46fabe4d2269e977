//! Laws that relate the operations of the library to one another.

use vstd::prelude::*;
use crate::config::PatternConfig;
use crate::literal::{normalized, occurs_at, StringPattern, StringPatterns};
use crate::pattern::{any_matches, kept, refused, Pattern, Patterns};
use crate::regexp::{compiled, invalid_regex_prefix, RegexPattern, RegexPatterns};

verus! {

/// The number of non-empty texts among `raws`.
pub open spec fn non_empty_count(raws: Seq<Seq<char>>) -> nat
    decreases raws.len(),
{
    if raws.len() == 0 {
        0
    } else {
        non_empty_count(raws.drop_last()) + if raws.last().len() == 0 {
            0nat
        } else {
            1nat
        }
    }
}

/// A batch keeps as many patterns as it has non-empty texts, less those that
/// did not parse; it never keeps more than it was given.
pub proof fn lemma_batch_length<P: Pattern>(raws: Seq<Seq<char>>, config: PatternConfig)
    ensures
        kept::<P>(raws, config).len() == non_empty_count(raws) - refused::<P>(raws, config).len(),
        non_empty_count(raws) <= raws.len(),
    decreases raws.len(),
{
    if raws.len() > 0 {
        lemma_batch_length::<P>(raws.drop_last(), config);
    }
}

/// A batch of no texts keeps nothing and reports nothing, and nothing kept
/// matches any subject.
pub proof fn lemma_empty_batch<P: Pattern>(config: PatternConfig, subject: Seq<char>)
    ensures
        kept::<P>(Seq::empty(), config).len() == 0,
        refused::<P>(Seq::empty(), config).len() == 0,
        !any_matches::<P>(kept::<P>(Seq::empty(), config), subject),
{
}

/// A regular-expression collection built from no texts is empty and contains
/// no subject.
pub proof fn lemma_empty_regex_patterns(
    patterns: RegexPatterns,
    config: PatternConfig,
    subject: Seq<char>,
)
    requires
        patterns@ == kept::<RegexPattern>(Seq::empty(), config),
    ensures
        patterns.spec_len() == 0,
        !patterns.spec_contains(subject),
{
}

/// A literal collection built from no texts is empty and contains no subject.
pub proof fn lemma_empty_string_patterns(
    patterns: StringPatterns,
    config: PatternConfig,
    subject: Seq<char>,
)
    requires
        patterns@ == kept::<StringPattern>(Seq::empty(), config),
    ensures
        patterns.spec_len() == 0,
        !patterns.spec_contains(subject),
{
}

/// Two regular-expression collections built from the same texts under the
/// same configuration hold the same patterns and answer alike for every
/// subject.
pub proof fn lemma_regex_patterns_repeatable(
    first: RegexPatterns,
    second: RegexPatterns,
    raws: Seq<Seq<char>>,
    config: PatternConfig,
)
    requires
        first@ == kept::<RegexPattern>(raws, config),
        second@ == kept::<RegexPattern>(raws, config),
    ensures
        first.spec_len() == second.spec_len(),
        forall|subject: Seq<char>|
            first.spec_contains(subject) == second.spec_contains(subject),
{
}

/// Two literal collections built from the same texts under the same
/// configuration hold the same patterns and answer alike for every subject.
pub proof fn lemma_string_patterns_repeatable(
    first: StringPatterns,
    second: StringPatterns,
    raws: Seq<Seq<char>>,
    config: PatternConfig,
)
    requires
        first@ == kept::<StringPattern>(raws, config),
        second@ == kept::<StringPattern>(raws, config),
    ensures
        first.spec_len() == second.spec_len(),
        forall|subject: Seq<char>|
            first.spec_contains(subject) == second.spec_contains(subject),
{
}

/// A text that the engine does not compile is refused with a message that
/// opens with the words "Invalid regex: ", and so is not empty.
pub proof fn lemma_invalid_regex_has_reason(raw: Seq<char>, config: PatternConfig)
    requires
        compiled(raw, config.case_insensitive) is Err,
    ensures
        RegexPattern::parse_spec(raw, config) is Err,
        invalid_regex_prefix().is_prefix_of(RegexPattern::parse_spec(raw, config)->Err_0),
        RegexPattern::parse_spec(raw, config)->Err_0.len() >= 15,
{
    reveal_strlit("Invalid regex: ");
    let reason = RegexPattern::parse_spec(raw, config)->Err_0;
    assert(reason.subrange(0, invalid_regex_prefix().len() as int) == invalid_regex_prefix());
}

/// Every text that a regular-expression batch reports carries a reason that
/// is not empty.
pub proof fn lemma_refused_regex_has_reason(raws: Seq<Seq<char>>, config: PatternConfig, i: int)
    requires
        0 <= i < refused::<RegexPattern>(raws, config).len(),
    ensures
        refused::<RegexPattern>(raws, config)[i].reason.len() >= 15,
        refused::<RegexPattern>(raws, config)[i].raw.len() > 0,
    decreases raws.len(),
{
    if raws.len() > 0 {
        let earlier = refused::<RegexPattern>(raws.drop_last(), config);
        if i < earlier.len() {
            lemma_refused_regex_has_reason(raws.drop_last(), config, i);
        } else {
            lemma_invalid_regex_has_reason(raws.last(), config);
        }
    }
}

/// Every text parses as a literal pattern, so a literal batch reports nothing
/// and keeps one pattern for each non-empty text.
pub proof fn lemma_string_batch_keeps_all(raws: Seq<Seq<char>>, config: PatternConfig)
    ensures
        refused::<StringPattern>(raws, config).len() == 0,
        kept::<StringPattern>(raws, config).len() == non_empty_count(raws),
    decreases raws.len(),
{
    if raws.len() > 0 {
        lemma_string_batch_keeps_all(raws.drop_last(), config);
    }
}

/// A literal pattern matches the text it was parsed from, under either case
/// setting.
pub proof fn lemma_string_matches_own_text(raw: Seq<char>, config: PatternConfig)
    ensures
        StringPattern::parse_spec(raw, config) is Ok,
        StringPattern::matches_spec(StringPattern::parse_spec(raw, config)->Ok_0, raw),
{
    let text = normalized(raw, config.case_insensitive);
    assert(text.subrange(0, text.len() as int) == text);
    assert(occurs_at(text, text, 0));
}

} // verus!
