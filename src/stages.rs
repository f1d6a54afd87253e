use crate::dict::{decoration, decoration_bytes, fallback_decoration, DECORATION_COUNT};
use crate::rng::{draw_below, draw_choice, Generator};
use vstd::prelude::*;

verus! {

pub const SPACE: u8 = 32;

pub const DASH: u8 = 45;

/// An ASCII letter.
pub open spec fn is_letter(c: u8) -> bool {
    (65 <= c && c <= 90) || (97 <= c && c <= 122)
}

/// `c` with an ASCII capital made small.
pub open spec fn lower_byte(c: u8) -> u8 {
    if 65 <= c && c <= 90 {
        (c + 32) as u8
    } else {
        c
    }
}

/// `b` with every ASCII capital made small.
pub open spec fn ascii_lowercase(b: Seq<u8>) -> Seq<u8> {
    b.map_values(|c: u8| lower_byte(c))
}

/// `c` with 'l' and 'r' turned into 'w'.
pub open spec fn w_byte(c: u8) -> u8 {
    if c == 108 || c == 114 {
        119
    } else {
        c
    }
}

/// `b` with every 'l' and 'r' turned into 'w'.
pub open spec fn w_replaced(b: Seq<u8>) -> Seq<u8> {
    b.map_values(|c: u8| w_byte(c))
}

/// Matches that lie in a text of length `len`, in order without overlapping, each naming
/// one of `n` replacements.
pub open spec fn ordered_spans(ms: Seq<(usize, usize, usize)>, len: int, n: int) -> bool {
    &&& forall|k: int| #![trigger ms[k]] 0 <= k < ms.len() ==> ms[k].0 <= ms[k].1 <= len && ms[k].2 < n
    &&& forall|k: int| 0 <= k < ms.len() - 1 ==> #[trigger] ms[k].1 <= ms[k + 1].0
}

/// `hay` from `prev` on, with the matches from the `k`-th on each replaced by the
/// replacement that it names.
pub open spec fn replace_from(
    hay: Seq<u8>,
    ms: Seq<(usize, usize, usize)>,
    repl: Seq<Seq<u8>>,
    k: int,
    prev: int,
) -> Seq<u8>
    decreases ms.len() - k,
{
    if k >= ms.len() {
        hay.subrange(prev, hay.len() as int)
    } else {
        hay.subrange(prev, ms[k].0 as int) + repl[ms[k].2 as int] + replace_from(
            hay,
            ms,
            repl,
            k + 1,
            ms[k].1 as int,
        )
    }
}

/// A word starts at `j`: a letter right after a space.
pub open spec fn word_start(b: Seq<u8>, j: int) -> bool {
    1 <= j < b.len() && b[j - 1] == SPACE && is_letter(b[j])
}

/// The stutter stage on `b` from index `j` on, with a 1-in-`chance` draw at each word start
/// from a generator in state `s`: a drawn zero turns the letter `x` into `x-x`.
pub open spec fn stutter_from(b: Seq<u8>, j: int, chance: u8, s: u64) -> Seq<u8>
    decreases b.len() - j,
{
    if j >= b.len() {
        seq![]
    } else if word_start(b, j) {
        let d = draw_below(s, chance);
        if drawn_zero(s, chance) {
            seq![b[j], DASH, b[j]] + stutter_from(b, j + 1, chance, d.1)
        } else {
            seq![b[j]] + stutter_from(b, j + 1, chance, d.1)
        }
    } else {
        seq![b[j]] + stutter_from(b, j + 1, chance, s)
    }
}

/// A 1-in-`chance` draw from a generator in state `s` comes out zero; a draw in `[0, 1)`
/// always does.
pub open spec fn drawn_zero(s: u64, chance: u8) -> bool {
    chance <= 1 || draw_below(s, chance).0 == 0
}

/// The decoration that a pick from the pool stands for.
pub open spec fn symbol_of(c: Option<usize>) -> Seq<u8> {
    match c {
        Some(i) => decoration(i as int),
        None => fallback_decoration(),
    }
}

/// The decoration stage on `b` from `prev` on, at the insertion points `ends` from the `k`-th
/// on: at each, a 1-in-`chance` draw from a generator in state `s`, and on a zero a decoration
/// drawn from the pool goes in there.
pub open spec fn decorate_from(b: Seq<u8>, ends: Seq<usize>, k: int, prev: int, chance: u8, s: u64) -> Seq<u8>
    decreases ends.len() - k,
{
    if k >= ends.len() {
        b.subrange(prev, b.len() as int)
    } else {
        let d = draw_below(s, chance);
        if !drawn_zero(s, chance) {
            decorate_from(b, ends, k + 1, prev, chance, d.1)
        } else {
            let c = draw_choice(d.1, DECORATION_COUNT);
            b.subrange(prev, ends[k] as int) + symbol_of(c.0) + decorate_from(
                b,
                ends,
                k + 1,
                ends[k] as int,
                chance,
                c.1,
            )
        }
    }
}

/// Appends `b[from..to]` to `out`.
fn push_range(out: &mut Vec<u8>, b: &Vec<u8>, from: usize, to: usize)
    requires
        from <= to <= b@.len(),
    ensures
        final(out)@ == old(out)@ + b@.subrange(from as int, to as int),
{
    let mut i = from;
    while i < to
        invariant
            from <= i <= to <= b@.len(),
            out@ == old(out)@ + b@.subrange(from as int, i as int),
        decreases to - i,
    {
        out.push(b[i]);
        i = i + 1;
        assert(out@ =~= old(out)@ + b@.subrange(from as int, i as int));
    }
}

/// Every ASCII capital of `b` made small.
pub fn lowercase_bytes(b: &Vec<u8>) -> (r: Vec<u8>)
    ensures
        r@ == ascii_lowercase(b@),
{
    let mut r: Vec<u8> = Vec::new();
    let mut i: usize = 0;
    while i < b.len()
        invariant
            i <= b@.len(),
            r@ == ascii_lowercase(b@.subrange(0, i as int)),
        decreases b@.len() - i,
    {
        let c = b[i];
        let l = if 65 <= c && c <= 90 { c + 32 } else { c };
        r.push(l);
        i = i + 1;
        assert(r@ =~= ascii_lowercase(b@.subrange(0, i as int)));
    }
    assert(b@.subrange(0, b@.len() as int) =~= b@);
    r
}

/// Every 'l' and 'r' of `b` turned into 'w'.
pub fn w_replace_bytes(b: &Vec<u8>) -> (r: Vec<u8>)
    ensures
        r@ == w_replaced(b@),
{
    let mut r: Vec<u8> = Vec::new();
    let mut i: usize = 0;
    while i < b.len()
        invariant
            i <= b@.len(),
            r@ == w_replaced(b@.subrange(0, i as int)),
        decreases b@.len() - i,
    {
        let c = b[i];
        let w = if c == 108 || c == 114 { 119 } else { c };
        r.push(w);
        i = i + 1;
        assert(r@ =~= w_replaced(b@.subrange(0, i as int)));
    }
    assert(b@.subrange(0, b@.len() as int) =~= b@);
    r
}

/// `hay` with each of the matches `ms` replaced by the entry of `repl` that it names.
pub fn replace_matches(hay: &Vec<u8>, ms: &Vec<(usize, usize, usize)>, repl: &Vec<Vec<u8>>) -> (r: Vec<u8>)
    requires
        ordered_spans(ms@, hay@.len() as int, repl@.len() as int),
    ensures
        r@ == replace_from(hay@, ms@, repl.deep_view(), 0, 0),
{
    let mut out: Vec<u8> = Vec::new();
    let mut prev: usize = 0;
    let mut k: usize = 0;
    while k < ms.len()
        invariant
            ordered_spans(ms@, hay@.len() as int, repl@.len() as int),
            k <= ms@.len(),
            prev <= hay@.len(),
            k < ms@.len() ==> prev <= ms@[k as int].0,
            out@ + replace_from(hay@, ms@, repl.deep_view(), k as int, prev as int)
                == replace_from(hay@, ms@, repl.deep_view(), 0, 0),
        decreases ms@.len() - k,
    {
        let (start, end, id) = ms[k];
        let ghost before = out@;
        push_range(&mut out, hay, prev, start);
        let rep = &repl[id];
        push_range(&mut out, rep, 0, rep.len());
        assert(rep@.subrange(0, rep@.len() as int) =~= rep@);
        assert(repl.deep_view()[id as int] == rep@);
        assert(out@ + replace_from(hay@, ms@, repl.deep_view(), k + 1, end as int) =~= before
            + replace_from(hay@, ms@, repl.deep_view(), k as int, prev as int));
        prev = end;
        k = k + 1;
        if k < ms.len() {
            assert(ms@[k - 1].1 <= ms@[k as int].0);
        }
    }
    push_range(&mut out, hay, prev, hay.len());
    out
}

/// The stutter stage: at each word start a 1-in-`chance` draw from `rng`; on a zero the
/// word's first letter `x` becomes `x-x`.
pub fn stutter_with(b: &Vec<u8>, chance: u8, rng: &mut Generator) -> (r: Vec<u8>)
    requires
        chance >= 1,
    ensures
        r@ == stutter_from(b@, 0, chance, old(rng).state),
{
    let mut out: Vec<u8> = Vec::new();
    let mut j: usize = 0;
    while j < b.len()
        invariant
            chance >= 1,
            j <= b@.len(),
            out@ + stutter_from(b@, j as int, chance, rng.state) == stutter_from(b@, 0, chance, old(rng).state),
        decreases b@.len() - j,
    {
        let ghost before = out@;
        let ghost s = rng.state;
        let c = b[j];
        if j >= 1 && b[j - 1] == SPACE && ((65 <= c && c <= 90) || (97 <= c && c <= 122)) {
            let d = rng.bounded(chance);
            if d == 0 {
                out.push(c);
                out.push(DASH);
            }
        }
        out.push(c);
        assert(out@ + stutter_from(b@, j + 1, chance, rng.state) =~= before + stutter_from(
            b@,
            j as int,
            chance,
            s,
        ));
        j = j + 1;
    }
    assert(out@ =~= stutter_from(b@, 0, chance, old(rng).state));
    out
}

/// The decoration stage: at each of the insertion points `ends`, in order, a 1-in-`chance`
/// draw from `rng`; on a zero a decoration drawn from the pool goes in there.
pub fn decorate_at(b: &Vec<u8>, ends: &Vec<usize>, chance: u8, rng: &mut Generator) -> (r: Vec<u8>)
    requires
        chance >= 1,
        forall|k: int| 0 <= k < ends@.len() ==> #[trigger] ends@[k] <= b@.len(),
        forall|k: int| 0 <= k < ends@.len() - 1 ==> #[trigger] ends@[k] <= ends@[k + 1],
    ensures
        r@ == decorate_from(b@, ends@, 0, 0, chance, old(rng).state),
{
    let mut out: Vec<u8> = Vec::new();
    let mut prev: usize = 0;
    let mut k: usize = 0;
    while k < ends.len()
        invariant
            chance >= 1,
            forall|k: int| 0 <= k < ends@.len() ==> #[trigger] ends@[k] <= b@.len(),
            forall|k: int| 0 <= k < ends@.len() - 1 ==> #[trigger] ends@[k] <= ends@[k + 1],
            k <= ends@.len(),
            prev <= b@.len(),
            k < ends@.len() ==> prev <= ends@[k as int],
            out@ + decorate_from(b@, ends@, k as int, prev as int, chance, rng.state)
                == decorate_from(b@, ends@, 0, 0, chance, old(rng).state),
        decreases ends@.len() - k,
    {
        let ghost before = out@;
        let ghost s = rng.state;
        let e = ends[k];
        let d = rng.bounded(chance);
        if d == 0 {
            let c = rng.choice(DECORATION_COUNT);
            push_range(&mut out, b, prev, e);
            let sym = match c {
                Some(i) => decoration_bytes(i),
                None => crate::dict::bytes_of("uwu"),
            };
            push_range(&mut out, &sym, 0, sym.len());
            assert(sym@.subrange(0, sym@.len() as int) =~= sym@);
            assert(out@ + decorate_from(b@, ends@, k + 1, e as int, chance, rng.state) =~= before
                + decorate_from(b@, ends@, k as int, prev as int, chance, s));
            prev = e;
        }
        k = k + 1;
        if k < ends.len() {
            assert(ends@[k - 1] <= ends@[k as int]);
        }
    }
    push_range(&mut out, b, prev, b.len());
    out
}

} // verus!
