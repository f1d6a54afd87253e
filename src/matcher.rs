use aho_corasick::{AhoCorasick, BuildError, Input, MatchError};
use crate::error::UwuError;
use vstd::prelude::*;

verus! {

#[verifier::external_type_specification]
#[verifier::external_body]
pub struct ExAhoCorasick(AhoCorasick);

#[verifier::external_type_specification]
#[verifier::external_body]
pub struct ExBuildError(BuildError);

#[verifier::external_type_specification]
#[verifier::external_body]
pub struct ExMatchError(MatchError);

/// The patterns that an automaton was built from, in order.
pub uninterp spec fn automaton_patterns(m: AhoCorasick) -> Seq<Seq<u8>>;

/// The automaton runs unanchored searches.
pub uninterp spec fn automaton_unanchored(m: AhoCorasick) -> bool;

/// The non-overlapping matches, each as (start, end, pattern index), that a search with
/// the standard match semantics of an automaton for `patterns` reports in `hay`.
pub uninterp spec fn standard_matches(patterns: Seq<Seq<u8>>, hay: Seq<u8>) -> Seq<(usize, usize, usize)>;

/// Each of `ms` is an occurrence in `hay` of the pattern that it names, and they come in
/// order without overlapping.
pub open spec fn sound_matches(patterns: Seq<Seq<u8>>, hay: Seq<u8>, ms: Seq<(usize, usize, usize)>) -> bool {
    &&& forall|k: int|
        #![trigger ms[k]]
        0 <= k < ms.len() ==> {
            &&& ms[k].0 <= ms[k].1 <= hay.len()
            &&& ms[k].2 < patterns.len()
            &&& hay.subrange(ms[k].0 as int, ms[k].1 as int) == patterns[ms[k].2 as int]
        }
    &&& forall|k: int| 0 <= k < ms.len() - 1 ==> #[trigger] ms[k].1 <= ms[k + 1].0
}

/// `hay[s..e]` is an occurrence of one of `patterns`.
pub open spec fn occurs(patterns: Seq<Seq<u8>>, hay: Seq<u8>, s: int, e: int) -> bool {
    &&& 0 <= s <= e <= hay.len()
    &&& exists|p: int| 0 <= p < patterns.len() && #[trigger] patterns[p] == hay.subrange(s, e)
}

/// Where the search for the `k`-th of `ms` starts: at the end of the one before.
pub open spec fn search_start(ms: Seq<(usize, usize, usize)>, k: int) -> int {
    if k <= 0 {
        0
    } else {
        ms[k - 1].1 as int
    }
}

/// Each of `ms` ends no later than any occurrence that starts at or after the end of the
/// match before it, and after the last one no occurrence starts at or after its end: the
/// search reports each match as soon as it sees one end.
pub open spec fn earliest_matches(patterns: Seq<Seq<u8>>, hay: Seq<u8>, ms: Seq<(usize, usize, usize)>) -> bool {
    forall|k: int, s: int, e: int|
        #![trigger search_start(ms, k), occurs(patterns, hay, s, e)]
        0 <= k <= ms.len() && search_start(ms, k) <= s && occurs(patterns, hay, s, e) ==> k < ms.len()
            && ms[k].1 <= e
}

/// No pattern is empty.
pub open spec fn non_empty(patterns: Seq<Seq<u8>>) -> bool {
    forall|i: int| 0 <= i < patterns.len() ==> #[trigger] patterns[i].len() > 0
}

/// A table far below the limits on the number and the length of patterns: at most 1000
/// patterns of at most 1000 bytes each.
pub open spec fn within_limits(patterns: Seq<Seq<u8>>) -> bool {
    &&& patterns.len() <= 1000
    &&& forall|i: int| 0 <= i < patterns.len() ==> #[trigger] patterns[i].len() <= 1000
}

/// Relies on aho_corasick::AhoCorasick::new: an automaton for the given patterns with the
/// standard match semantics and unanchored searches, or a BuildError, which comes only when
/// a pattern or state identifier or a pattern length overflows its 32-bit limit.
#[verifier::external_body]
fn build_automaton(patterns: &Vec<Vec<u8>>) -> (r: Result<AhoCorasick, BuildError>)
    ensures
        r is Ok ==> automaton_patterns(r.unwrap()) == patterns.deep_view(),
        r is Ok ==> automaton_unanchored(r.unwrap()),
        within_limits(patterns.deep_view()) ==> r is Ok,
{
    AhoCorasick::new(patterns)
}

/// Relies on aho_corasick::AhoCorasick::try_find_iter: the matches of the automaton's
/// patterns in `hay`, non-overlapping and in order, each with its span and pattern, each
/// reported as soon as its end is seen (standard semantics); a MatchError comes only for an
/// anchored search that the automaton does not support, and `Input::new` asks for none.
#[verifier::external_body]
fn find_matches(m: &AhoCorasick, hay: &Vec<u8>) -> (r: Result<Vec<(usize, usize, usize)>, MatchError>)
    requires
        automaton_unanchored(*m),
    ensures
        r is Ok,
        r.unwrap()@ == standard_matches(automaton_patterns(*m), hay@),
        sound_matches(automaton_patterns(*m), hay@, r.unwrap()@),
        non_empty(automaton_patterns(*m)) ==> earliest_matches(automaton_patterns(*m), hay@, r.unwrap()@),
{
    let found = m.try_find_iter(Input::new(hay.as_slice()))?;
    Ok(found.map(|mat| (mat.start(), mat.end(), mat.pattern().as_usize())).collect())
}

/// Builds an automaton for `patterns` and searches `hay` with it; this succeeds for every
/// table within the limits.
pub fn search(patterns: &Vec<Vec<u8>>, hay: &Vec<u8>) -> (r: Result<Vec<(usize, usize, usize)>, UwuError>)
    ensures
        within_limits(patterns.deep_view()) ==> r is Ok,
        r is Ok ==> r->Ok_0@ == standard_matches(patterns.deep_view(), hay@),
        r is Ok ==> sound_matches(patterns.deep_view(), hay@, r->Ok_0@),
        r is Ok && non_empty(patterns.deep_view()) ==> earliest_matches(patterns.deep_view(), hay@, r->Ok_0@),
{
    match build_automaton(patterns) {
        Err(e) => Err(UwuError::StringMatcherBuild(e)),
        Ok(m) => match find_matches(&m, hay) {
            Err(e) => Err(UwuError::StringMatcherMatch(e)),
            Ok(v) => Ok(v),
        },
    }
}

} // verus!
