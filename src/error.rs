use aho_corasick::{BuildError, MatchError};
use vstd::prelude::*;

verus! {

/// Why a transformation failed.
#[derive(Debug)]
pub enum UwuError {
    /// The automaton for a pattern table could not be built.
    StringMatcherBuild(BuildError),
    /// A search with such an automaton failed.
    StringMatcherMatch(MatchError),
}

} // verus!
