//! Matching options shared by every pattern kind.

use vstd::prelude::*;

verus! {

/// Options that apply to every pattern of one collection.
#[derive(Clone, Copy, Debug)]
pub struct PatternConfig {
    /// Letter case is ignored when matching.
    pub case_insensitive: bool,
}

impl Default for PatternConfig {
    /// Case-sensitive matching.
    fn default() -> (config: PatternConfig)
        ensures
            !config.case_insensitive,
    {
        PatternConfig { case_insensitive: false }
    }
}

} // verus!
