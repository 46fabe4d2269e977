use pattern_filter::{Pattern, PatternConfig, Patterns, RegexPattern, RegexPatterns};

fn raws(items: &[&str]) -> Vec<String> {
    items.iter().map(|s| s.to_string()).collect()
}

fn parse(raw: &str, case_insensitive: bool) -> Result<RegexPattern, String> {
    RegexPattern::parse(raw, &PatternConfig { case_insensitive })
}

#[test]
fn valid_regex_matches_its_own_plain_text() {
    for text in ["foo", "valid1", "abc123", "x"] {
        let pattern = parse(text, false).unwrap();
        assert!(pattern.matches(text), "{text}");
    }
}

#[test]
fn escaped_text_matches_the_plain_text() {
    for text in ["a.b", "1+1=2", "(x)", "[y]", "what?", "a|b", "c:\\dir"] {
        let pattern = parse(&regex::escape(text), false).unwrap();
        assert!(pattern.matches(text), "{text}");
    }
}

#[test]
fn invalid_regex_gives_a_message() {
    for raw in ["(invalid", "[abc", "a{2,1}", "*", "\\"] {
        let reason = match parse(raw, false) {
            Ok(_) => panic!("{raw} compiled"),
            Err(reason) => reason,
        };
        assert!(!reason.is_empty());
        assert!(reason.starts_with("Invalid regex: "), "{reason}");
        assert!(reason.len() > "Invalid regex: ".len(), "{reason}");
    }
}

#[test]
fn invalid_regex_message_carries_the_engine_text() {
    let engine = regex::Regex::new("(invalid").unwrap_err().to_string();
    let reason = parse("(invalid", false).err().unwrap();
    assert_eq!(reason, format!("Invalid regex: {}", engine));
}

#[test]
fn free_spacing_ignores_whitespace_in_the_pattern() {
    let pattern = parse("a b c", false).unwrap();
    assert!(pattern.matches("abc"));
    assert!(!pattern.matches("a b c"));
}

#[test]
fn free_spacing_ignores_comments_in_the_pattern() {
    let pattern = parse("ab # the rest is a comment", false).unwrap();
    assert!(pattern.matches("ab"));
    assert!(pattern.matches("xabx"));
    assert!(!pattern.matches("a"));
}

#[test]
fn escaped_whitespace_is_kept() {
    let pattern = parse("a\\ b", false).unwrap();
    assert!(pattern.matches("a b"));
    assert!(!pattern.matches("ab"));
}

#[test]
fn search_is_unanchored() {
    let pattern = parse("oba", false).unwrap();
    assert!(pattern.matches("foobar"));
    assert!(!pattern.matches("foo bar"));
    let anchored = parse("^foo$", false).unwrap();
    assert!(anchored.matches("foo"));
    assert!(!anchored.matches("foobar"));
}

#[test]
fn anchors_match_only_the_ends_of_the_subject() {
    let start = parse("^b", false).unwrap();
    assert!(!start.matches("a\nb"));
    assert!(start.matches("b\na"));
    let end = parse("a$", false).unwrap();
    assert!(!end.matches("a\nb"));
    assert!(end.matches("b\na"));
}

#[test]
fn dot_does_not_match_a_line_terminator() {
    let pattern = parse("a.b", false).unwrap();
    assert!(pattern.matches("a-b"));
    assert!(!pattern.matches("a\nb"));
}

#[test]
fn matching_is_unicode_aware() {
    let dot = parse("^.$", false).unwrap();
    assert!(dot.matches("é"));
    assert!(dot.matches("日"));
    let word = parse("^\\w+$", false).unwrap();
    assert!(word.matches("naïve"));
}

#[test]
fn regex_case_follows_the_configuration() {
    let sensitive = parse("FOO", false).unwrap();
    assert!(sensitive.matches("FOO"));
    assert!(!sensitive.matches("foo"));
    let insensitive = parse("FOO", true).unwrap();
    assert!(insensitive.matches("FOO"));
    assert!(insensitive.matches("foo"));
    assert!(insensitive.matches("xFoOx"));
}

#[test]
fn regex_text_is_the_source() {
    let pattern = parse("a b c", true).unwrap();
    assert_eq!(pattern.to_string(), "a b c");
}

#[test]
fn parse_trims_nothing() {
    let pattern = parse("\\ a", false).unwrap();
    assert_eq!(pattern.to_string(), "\\ a");
    assert!(pattern.matches(" a"));
    assert!(!pattern.matches("a"));
}

#[test]
fn regex_len_counts_parsed_non_empty_inputs() {
    let (patterns, skipped) = RegexPatterns::new(&raws(&["", "valid1", "(invalid", "valid2"]), false);
    assert_eq!(patterns.len(), 2);
    assert_eq!(skipped.len(), 1);
    assert!(patterns.contains(&"valid1".to_string()));
    assert!(patterns.contains(&"xx valid2 xx".to_string()));
    assert!(!patterns.contains(&"(invalid".to_string()));
    assert!(!patterns.contains(&"".to_string()));
}

#[test]
fn skipped_patterns_come_with_raw_text_and_reason() {
    let (patterns, skipped) = RegexPatterns::new(&raws(&["ok", "(a", "", "[b", "fine"]), false);
    assert_eq!(patterns.len(), 2);
    assert_eq!(skipped.len(), 2);
    assert_eq!(skipped[0].raw, "(a");
    assert_eq!(skipped[1].raw, "[b");
    assert_eq!(skipped[0].reason, parse("(a", false).err().unwrap());
    assert_eq!(skipped[1].reason, parse("[b", false).err().unwrap());
}

#[test]
fn regex_collections_from_the_same_input_answer_alike() {
    let input = raws(&["^a+$", "", "b c", "(bad", "D"]);
    for case_insensitive in [false, true] {
        let (first, first_skipped) = RegexPatterns::new(&input, case_insensitive);
        let (second, second_skipped) = RegexPatterns::new(&input, case_insensitive);
        assert_eq!(first.len(), second.len());
        assert_eq!(first_skipped.len(), second_skipped.len());
        for subject in ["", "a", "aaa", "ab", "bc", "b c", "d", "D", "(bad", "zzz"] {
            let subject = subject.to_string();
            assert_eq!(first.contains(&subject), second.contains(&subject), "{subject}");
        }
    }
}

#[test]
fn empty_regex_collection_contains_nothing() {
    let (patterns, skipped) = RegexPatterns::new(&Vec::new(), false);
    assert_eq!(patterns.len(), 0);
    assert!(skipped.is_empty());
    for subject in ["", "a", "anything at all", "\n"] {
        assert!(!patterns.contains(&subject.to_string()));
    }
}

#[test]
fn only_empty_inputs_give_an_empty_collection() {
    let (patterns, skipped) = RegexPatterns::new(&raws(&["", "", ""]), true);
    assert_eq!(patterns.len(), 0);
    assert!(skipped.is_empty());
    assert!(!patterns.contains(&"".to_string()));
}

#[test]
fn regex_collection_case_insensitive() {
    let (patterns, _) = RegexPatterns::new(&raws(&["^hello$"]), true);
    assert!(patterns.contains(&"HeLLo".to_string()));
    let (patterns, _) = RegexPatterns::new(&raws(&["^hello$"]), false);
    assert!(!patterns.contains(&"HeLLo".to_string()));
    assert!(patterns.contains(&"hello".to_string()));
}
