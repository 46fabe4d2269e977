//! Pattern collections for filtering text: a batch of user-supplied patterns,
//! literal strings or regular expressions, is parsed once and then answers
//! whether any of them matches a subject.

pub mod config;
pub mod engine;
pub mod laws;
pub mod literal;
pub mod pattern;
pub mod regexp;

pub use config::PatternConfig;
pub use literal::{StringPattern, StringPatterns};
pub use pattern::{first_match, parse_patterns, Parsed, Pattern, Patterns, Skipped};
pub use regexp::{RegexPattern, RegexPatterns};
