use crate::dict::{lemma_punctuation_bytes, punctuation_markers, DECORATION_COUNT};
use crate::matcher::{earliest_matches, occurs, search_start, sound_matches};
use crate::rng::{draw_below, draw_choice};
use crate::stages::{
    decorate_from, drawn_zero, stutter_from, symbol_of, w_replaced, word_start, DASH,
};
use crate::uwu::{match_ends, padded, staged_bytes, trimmed, uwuified, Uwu};
use vstd::prelude::*;
use vstd::utf8::*;

verus! {

/// Transforming the same text with the same settings gives the same result: the output is a
/// function of the settings and the text alone, as every generator starts from the same
/// fixed seed.
pub proof fn lemma_transform_deterministic(c1: Uwu, c2: Uwu, t1: Seq<char>, t2: Seq<char>)
    requires
        c1 == c2,
        t1 == t2,
    ensures
        uwuified(c1, t1) == uwuified(c2, t2),
{
}

/// With every stage off, the text comes back unchanged: the padding added round it is taken
/// off again.
pub proof fn lemma_disabled_is_identity(c: Uwu, text: Seq<char>)
    requires
        !c.lowercase,
        !c.expressions,
        !c.w_replace,
        !c.stutter,
        !c.emojis,
    ensures
        uwuified(c, text) == text,
{
    let b = encode_utf8(text);
    assert(staged_bytes(c, b) == padded(b));
    assert(trimmed(padded(b)) =~= b);
    encode_utf8_valid_utf8(text);
    encode_utf8_decode_utf8(text);
}

/// Letter substitution leaves no 'l' and no 'r', and doing it twice is doing it once.
pub proof fn lemma_w_replace_idempotent(b: Seq<u8>)
    ensures
        forall|i: int| 0 <= i < b.len() ==> #[trigger] w_replaced(b)[i] != 108 && w_replaced(b)[i] != 114,
        w_replaced(w_replaced(b)) == w_replaced(b),
{
    assert(w_replaced(w_replaced(b)) =~= w_replaced(b));
}

/// The positions, from `j` on, of the word starts at which the stutter stage on `b` draws a
/// zero.
pub open spec fn stutter_picks(b: Seq<u8>, j: int, chance: u8, s: u64) -> Set<int>
    decreases b.len() - j,
{
    if j >= b.len() {
        Set::empty()
    } else if word_start(b, j) {
        let d = draw_below(s, chance);
        let rest = stutter_picks(b, j + 1, chance, d.1);
        if drawn_zero(s, chance) {
            rest.insert(j)
        } else {
            rest
        }
    } else {
        stutter_picks(b, j + 1, chance, s)
    }
}

/// `b` from `j` on, with the letter `x` at each position of `picks` written `x-x`.
pub open spec fn with_stutters(b: Seq<u8>, picks: Set<int>, j: int) -> Seq<u8>
    decreases b.len() - j,
{
    if j >= b.len() {
        seq![]
    } else if picks.contains(j) {
        seq![b[j], DASH, b[j]] + with_stutters(b, picks, j + 1)
    } else {
        seq![b[j]] + with_stutters(b, picks, j + 1)
    }
}

proof fn lemma_with_stutters_from(b: Seq<u8>, p: Set<int>, q: Set<int>, j: int)
    requires
        forall|i: int| j <= i ==> (p.contains(i) <==> q.contains(i)),
    ensures
        with_stutters(b, p, j) == with_stutters(b, q, j),
    decreases b.len() - j,
{
    if j < b.len() {
        lemma_with_stutters_from(b, p, q, j + 1);
    }
}

proof fn lemma_stutter_from(b: Seq<u8>, j: int, chance: u8, s: u64)
    ensures
        stutter_from(b, j, chance, s) == with_stutters(b, stutter_picks(b, j, chance, s), j),
        forall|p: int| #[trigger] stutter_picks(b, j, chance, s).contains(p) ==> j <= p && word_start(b, p),
    decreases b.len() - j,
{
    if j < b.len() {
        let picks = stutter_picks(b, j, chance, s);
        if word_start(b, j) {
            let d = draw_below(s, chance);
            lemma_stutter_from(b, j + 1, chance, d.1);
            lemma_with_stutters_from(b, picks, stutter_picks(b, j + 1, chance, d.1), j + 1);
        } else {
            lemma_stutter_from(b, j + 1, chance, s);
            lemma_with_stutters_from(b, picks, stutter_picks(b, j + 1, chance, s), j + 1);
        }
    }
}

/// Stutter only ever inserts at a word start: for every generator state, its output is `b`
/// with some letters `x` written `x-x`, each a letter right after a space, so that each
/// inserted `x-` follows a space and comes before the same letter.
pub proof fn lemma_stutter_at_word_starts(b: Seq<u8>, chance: u8, s: u64)
    ensures
        stutter_from(b, 0, chance, s) == with_stutters(b, stutter_picks(b, 0, chance, s), 0),
        forall|p: int| #[trigger] stutter_picks(b, 0, chance, s).contains(p) ==> word_start(b, p),
{
    lemma_stutter_from(b, 0, chance, s);
}

/// The insertions, each a position and a text, that the decoration stage makes in `b` at the
/// points `ends` from the `k`-th on, with a generator in state `s`.
pub open spec fn decoration_inserts(b: Seq<u8>, ends: Seq<usize>, k: int, chance: u8, s: u64) -> Seq<(int, Seq<u8>)>
    decreases ends.len() - k,
{
    if k >= ends.len() {
        seq![]
    } else {
        let d = draw_below(s, chance);
        if !drawn_zero(s, chance) {
            decoration_inserts(b, ends, k + 1, chance, d.1)
        } else {
            let c = draw_choice(d.1, DECORATION_COUNT);
            seq![(ends[k] as int, symbol_of(c.0))] + decoration_inserts(b, ends, k + 1, chance, c.1)
        }
    }
}

/// `b` from `prev` on, with each text of `ins` put in at its position.
pub open spec fn spliced(b: Seq<u8>, ins: Seq<(int, Seq<u8>)>, prev: int) -> Seq<u8>
    decreases ins.len(),
{
    if ins.len() == 0 {
        b.subrange(prev, b.len() as int)
    } else {
        b.subrange(prev, ins[0].0) + ins[0].1 + spliced(b, ins.drop_first(), ins[0].0)
    }
}

/// Position `p` of `b` comes right after one of the punctuation markers.
pub open spec fn after_marker(b: Seq<u8>, p: int) -> bool {
    exists|m: int|
        0 <= m < punctuation_markers().len() && punctuation_markers()[m].len() <= p && #[trigger] b.subrange(
            p - punctuation_markers()[m].len(),
            p,
        ) == punctuation_markers()[m]
}

proof fn lemma_decorate_from(b: Seq<u8>, ends: Seq<usize>, k: int, prev: int, chance: u8, s: u64)
    requires
        0 <= k,
    ensures
        decorate_from(b, ends, k, prev, chance, s) == spliced(b, decoration_inserts(b, ends, k, chance, s), prev),
        forall|i: int|
            0 <= i < decoration_inserts(b, ends, k, chance, s).len() ==> exists|q: int|
                k <= q < ends.len() && #[trigger] decoration_inserts(b, ends, k, chance, s)[i].0 == ends[q] as int,
    decreases ends.len() - k,
{
    if k < ends.len() {
        let d = draw_below(s, chance);
        if !drawn_zero(s, chance) {
            lemma_decorate_from(b, ends, k + 1, prev, chance, d.1);
        } else {
            let c = draw_choice(d.1, DECORATION_COUNT);
            let rest = decoration_inserts(b, ends, k + 1, chance, c.1);
            let ins = decoration_inserts(b, ends, k, chance, s);
            lemma_decorate_from(b, ends, k + 1, ends[k] as int, chance, c.1);
            assert(ins.drop_first() =~= rest);
            assert forall|i: int| 0 <= i < ins.len() implies exists|q: int|
                k <= q < ends.len() && #[trigger] ins[i].0 == ends[q] as int by {
                if i == 0 {
                    assert(ins[0].0 == ends[k] as int);
                } else {
                    assert(ins[i] == rest[i - 1]);
                    let q = choose|q: int| k + 1 <= q < ends.len() && rest[i - 1].0 == ends[q] as int;
                    assert(ins[i].0 == ends[q] as int);
                }
            }
        }
    }
}

/// Decoration only ever inserts right after a punctuation marker: for every list of marker
/// matches that a search can report and every generator state, its output is `b` with texts
/// put in at some of the match ends, each right after a marker.
pub proof fn lemma_decoration_after_punctuation(
    b: Seq<u8>,
    ms: Seq<(usize, usize, usize)>,
    chance: u8,
    s: u64,
)
    requires
        sound_matches(punctuation_markers(), b, ms),
    ensures
        decorate_from(b, match_ends(ms), 0, 0, chance, s) == spliced(
            b,
            decoration_inserts(b, match_ends(ms), 0, chance, s),
            0,
        ),
        forall|i: int|
            0 <= i < decoration_inserts(b, match_ends(ms), 0, chance, s).len() ==> after_marker(
                b,
                #[trigger] decoration_inserts(b, match_ends(ms), 0, chance, s)[i].0,
            ),
{
    let ends = match_ends(ms);
    let ins = decoration_inserts(b, ends, 0, chance, s);
    lemma_decorate_from(b, ends, 0, 0, chance, s);
    assert forall|i: int| 0 <= i < ins.len() implies after_marker(b, #[trigger] ins[i].0) by {
        let q = choose|q: int| 0 <= q < ends.len() && ins[i].0 == ends[q] as int;
        let m = ms[q];
        assert(ends[q] == m.1);
        assert(b.subrange(m.0 as int, m.1 as int) == punctuation_markers()[m.2 as int]);
        assert(b.subrange(ins[i].0 - punctuation_markers()[m.2 as int].len(), ins[i].0) == punctuation_markers()[m.2 as int]);
    }
}

/// A punctuation marker stands at `s` in `b`.
pub open spec fn marker_at(b: Seq<u8>, s: int) -> bool {
    exists|m: int|
        0 <= m < punctuation_markers().len() && 0 <= s && s + 2 <= b.len() && #[trigger] punctuation_markers()[m]
            == b.subrange(s, s + 2)
}

proof fn lemma_marker_found_from(b: Seq<u8>, ms: Seq<(usize, usize, usize)>, k: int, s: int)
    requires
        sound_matches(punctuation_markers(), b, ms),
        earliest_matches(punctuation_markers(), b, ms),
        0 <= k <= ms.len(),
        search_start(ms, k) <= s,
        marker_at(b, s),
    ensures
        exists|q: int| 0 <= q < ms.len() && #[trigger] ms[q].1 == s + 2,
    decreases ms.len() - k,
{
    lemma_punctuation_bytes();
    let m = choose|m: int|
        0 <= m < punctuation_markers().len() && 0 <= s && s + 2 <= b.len() && #[trigger] punctuation_markers()[m]
            == b.subrange(s, s + 2);
    assert(occurs(punctuation_markers(), b, s, s + 2));
    assert(k < ms.len() && ms[k].1 <= s + 2);
    let mk = ms[k];
    if mk.1 == s + 2 {
        assert(ms[k].1 == s + 2);
    } else if mk.1 <= s {
        assert(search_start(ms, k + 1) == mk.1);
        lemma_marker_found_from(b, ms, k + 1, s);
    } else {
        let w = b.subrange(mk.0 as int, mk.1 as int);
        assert(w == punctuation_markers()[mk.2 as int]);
        assert(w.len() == 2);
        assert(w[1] == 32);
        assert(b[s] == w[1]);
        assert(b.subrange(s, s + 2)[0] == b[s]);
        assert(false);
    }
}

proof fn lemma_inserts_at_chance_one(b: Seq<u8>, ends: Seq<usize>, k: int, s: u64)
    requires
        0 <= k <= ends.len(),
    ensures
        decoration_inserts(b, ends, k, 1, s).len() == ends.len() - k,
        forall|i: int|
            0 <= i < ends.len() - k ==> #[trigger] decoration_inserts(b, ends, k, 1, s)[i].0 == ends[k + i] as int,
    decreases ends.len() - k,
{
    if k < ends.len() {
        let c = draw_choice(draw_below(s, 1).1, DECORATION_COUNT);
        lemma_inserts_at_chance_one(b, ends, k + 1, c.1);
        let ins = decoration_inserts(b, ends, k, 1, s);
        let rest = decoration_inserts(b, ends, k + 1, 1, c.1);
        assert(ins == seq![(ends[k] as int, symbol_of(c.0))] + rest);
        assert forall|i: int| 0 <= i < ends.len() - k implies #[trigger] ins[i].0 == ends[k + i] as int by {
            if i > 0 {
                assert(ins[i] == rest[i - 1]);
            }
        }
    }
}

/// With a chance of 1, a decoration goes right after every punctuation marker: for every
/// list of marker matches that a search can report and every generator state, the output
/// is `b` with one decoration put in at the end of each match, and every marker of `b` ends
/// at one of those matches.
pub proof fn lemma_decoration_every_marker(b: Seq<u8>, ms: Seq<(usize, usize, usize)>, s: u64)
    requires
        sound_matches(punctuation_markers(), b, ms),
        earliest_matches(punctuation_markers(), b, ms),
    ensures
        decorate_from(b, match_ends(ms), 0, 0, 1, s) == spliced(b, decoration_inserts(b, match_ends(ms), 0, 1, s), 0),
        decoration_inserts(b, match_ends(ms), 0, 1, s).len() == ms.len(),
        forall|i: int| 0 <= i < ms.len() ==> #[trigger] decoration_inserts(b, match_ends(ms), 0, 1, s)[i].0 == ms[i].1 as int,
        forall|p: int| #[trigger] marker_at(b, p) ==> exists|q: int| 0 <= q < ms.len() && #[trigger] ms[q].1 == p + 2,
{
    lemma_decorate_from(b, match_ends(ms), 0, 0, 1, s);
    lemma_inserts_at_chance_one(b, match_ends(ms), 0, s);
    assert forall|p: int| #[trigger] marker_at(b, p) implies exists|q: int| 0 <= q < ms.len() && #[trigger] ms[q].1 == p + 2 by {
        lemma_marker_found_from(b, ms, 0, p);
    }
}

/// Text without a punctuation marker comes through the decoration stage unchanged, whatever
/// the chance and the generator state.
pub proof fn lemma_no_marker_no_change(b: Seq<u8>, ms: Seq<(usize, usize, usize)>, chance: u8, s: u64)
    requires
        sound_matches(punctuation_markers(), b, ms),
        forall|i: int, j: int| !#[trigger] occurs(punctuation_markers(), b, i, j),
    ensures
        decorate_from(b, match_ends(ms), 0, 0, chance, s) == b,
{
    if ms.len() > 0 {
        assert(b.subrange(ms[0].0 as int, ms[0].1 as int) == punctuation_markers()[ms[0].2 as int]);
        assert(occurs(punctuation_markers(), b, ms[0].0 as int, ms[0].1 as int));
    }
    assert(b.subrange(0, b.len() as int) =~= b);
}

} // verus!
