use crate::builder::UwuBuilder;
use crate::dict::{lemma_tables_within_limits, expression_patterns, expression_patterns_table, expression_replacements,
    expression_replacements_table, punctuation_markers, punctuation_table};
use crate::error::UwuError;
use crate::matcher::{earliest_matches, search, sound_matches, standard_matches};
use crate::rng::{Generator, SEED};
use crate::stages::{
    ascii_lowercase, decorate_at, decorate_from, lowercase_bytes, replace_from, replace_matches,
    stutter_from, stutter_with, w_replace_bytes, w_replaced, ordered_spans, SPACE,
};
use vstd::prelude::*;
use vstd::string::*;
use vstd::utf8::*;

verus! {

/// What `String::from_utf8_lossy` makes of the bytes `b`.
pub uninterp spec fn lossy_text(b: Seq<u8>) -> Seq<char>;

/// The text that the bytes `b` encode, with each invalid sequence replaced.
pub open spec fn decoded_lossily(b: Seq<u8>) -> Seq<char> {
    if valid_utf8(b) {
        decode_utf8(b)
    } else {
        lossy_text(b)
    }
}

/// Relies on std's String::from_utf8_lossy: the text that the bytes encode, with each
/// invalid sequence replaced; valid UTF-8 is decoded as it is.
#[verifier::external_body]
fn text_from_bytes(b: &Vec<u8>) -> (r: String)
    ensures
        valid_utf8(b@) ==> r@ == decode_utf8(b@),
        !valid_utf8(b@) ==> r@ == lossy_text(b@),
{
    String::from_utf8_lossy(b.as_slice()).into_owned()
}

/// The settings of the transformation: which stages run, and how often the two random ones
/// act.
#[derive(Copy, Clone, Debug, PartialEq, Eq, Structural)]
pub struct Uwu {
    /// Enables the lowercase feature, e.g. 'Hello' becomes 'hello'. Beware that the other
    /// features may misbehave if this feature is disabled.
    pub lowercase: bool,
    /// Enables expression replacement, e.g. 'what' becomes 'nani'.
    pub expressions: bool,
    /// Enables replacement of 'l' and 'r' with 'w', e.g. 'lovely' becomes 'wovewy'.
    pub w_replace: bool,
    /// Enables stutter, e.g. 'hello' becomes 'h-hello'.
    pub stutter: bool,
    /// How frequent the stutter is: 1 stutters every word, 2 every second word on average.
    pub stutter_chance: u8,
    /// Enables adding emojis after punctuation, e.g. 'goodbye.' becomes 'goodbye. OwO'.
    pub emojis: bool,
    /// How frequent the emojis are: 1 adds one after every punctuation mark, 2 after every
    /// second one on average.
    pub emojis_chance: u8,
}

/// `b` with one space before and one after.
pub open spec fn padded(b: Seq<u8>) -> Seq<u8> {
    seq![SPACE] + b + seq![SPACE]
}

/// `b` without a trailing space, and then without a leading space, where there is one.
pub open spec fn trimmed(b: Seq<u8>) -> Seq<u8> {
    let t = if b.len() > 0 && b.last() == SPACE { b.drop_last() } else { b };
    if t.len() > 0 && t[0] == SPACE { t.subrange(1, t.len() as int) } else { t }
}

/// The end positions of `ms`.
pub open spec fn match_ends(ms: Seq<(usize, usize, usize)>) -> Seq<usize> {
    ms.map_values(|m: (usize, usize, usize)| m.1)
}

/// The expression stage on `b`.
pub open spec fn expressions_replaced(b: Seq<u8>) -> Seq<u8> {
    replace_from(b, standard_matches(expression_patterns(), b), expression_replacements(), 0, 0)
}

/// The decoration stage on `b`.
pub open spec fn decorated(b: Seq<u8>, chance: u8) -> Seq<u8> {
    decorate_from(b, match_ends(standard_matches(punctuation_markers(), b)), 0, 0, chance, SEED)
}

/// The bytes that the enabled stages of `c` make of `b`, in their fixed order, before the
/// padding comes off.
pub open spec fn staged_bytes(c: Uwu, b: Seq<u8>) -> Seq<u8> {
    let b0 = if c.lowercase { ascii_lowercase(b) } else { b };
    let b1 = padded(b0);
    let b2 = if c.expressions { expressions_replaced(b1) } else { b1 };
    let b3 = if c.w_replace { w_replaced(b2) } else { b2 };
    let b4 = if c.stutter { stutter_from(b3, 0, c.stutter_chance, SEED) } else { b3 };
    if c.emojis { decorated(b4, c.emojis_chance) } else { b4 }
}

/// The text that `c` makes of `text`.
pub open spec fn uwuified(c: Uwu, text: Seq<char>) -> Seq<char> {
    decoded_lossily(trimmed(staged_bytes(c, encode_utf8(text))))
}

/// `b` with one space before and one after.
fn pad(b: &[u8]) -> (r: Vec<u8>)
    ensures
        r@ == padded(b@),
{
    let mut buf: Vec<u8> = Vec::new();
    buf.push(SPACE);
    let mut i: usize = 0;
    while i < b.len()
        invariant
            i <= b@.len(),
            buf@ == seq![SPACE] + b@.subrange(0, i as int),
        decreases b@.len() - i,
    {
        buf.push(b[i]);
        i = i + 1;
        assert(buf@ =~= seq![SPACE] + b@.subrange(0, i as int));
    }
    buf.push(SPACE);
    assert(b@.subrange(0, b@.len() as int) =~= b@);
    assert(buf@ =~= padded(b@));
    buf
}

/// `buf` without one trailing and then one leading space, where there is one.
fn trim_padding(buf: &Vec<u8>) -> (r: Vec<u8>)
    ensures
        r@ == trimmed(buf@),
{
    let mut hi = buf.len();
    if hi > 0 && buf[hi - 1] == SPACE {
        hi = hi - 1;
    }
    let mut lo: usize = 0;
    if hi > 0 && buf[0] == SPACE {
        lo = 1;
    }
    let mut out: Vec<u8> = Vec::new();
    let mut j = lo;
    while j < hi
        invariant
            lo <= j <= hi <= buf@.len(),
            out@ == buf@.subrange(lo as int, j as int),
        decreases hi - j,
    {
        out.push(buf[j]);
        j = j + 1;
        assert(out@ =~= buf@.subrange(lo as int, j as int));
    }
    assert(out@ =~= trimmed(buf@));
    out
}

/// The end of each of the matches `ms`.
fn end_positions(ms: &Vec<(usize, usize, usize)>, len: usize) -> (r: Vec<usize>)
    requires
        ordered_spans(ms@, len as int, 3),
    ensures
        r@ == match_ends(ms@),
        forall|k: int| 0 <= k < r@.len() ==> #[trigger] r@[k] <= len,
        forall|k: int| 0 <= k < r@.len() - 1 ==> #[trigger] r@[k] <= r@[k + 1],
{
    let mut ends: Vec<usize> = Vec::new();
    let mut k: usize = 0;
    while k < ms.len()
        invariant
            k <= ms@.len(),
            ends@ == match_ends(ms@.subrange(0, k as int)),
        decreases ms@.len() - k,
    {
        ends.push(ms[k].1);
        k = k + 1;
        assert(ends@ =~= match_ends(ms@.subrange(0, k as int)));
    }
    assert(ms@.subrange(0, ms@.len() as int) =~= ms@);
    assert forall|k: int| 0 <= k < ends@.len() - 1 implies #[trigger] ends@[k] <= ends@[k + 1] by {
        assert(ms@[k].1 <= ms@[k + 1].0);
        assert(ms@[k + 1].0 <= ms@[k + 1].1);
    }
    assert forall|k: int| 0 <= k < ends@.len() implies #[trigger] ends@[k] <= len by {
        assert(ms@[k].1 <= len);
    }
    ends
}

impl Uwu {
    /// The chances of the enabled random stages are at least 1.
    pub open spec fn valid(&self) -> bool {
        &&& self.stutter ==> self.stutter_chance >= 1
        &&& self.emojis ==> self.emojis_chance >= 1
    }

    /// Every stage enabled, stutter on one word in 4 and an emoji after every punctuation mark.
    pub fn new() -> (r: Uwu)
        ensures
            r == Uwu::default_spec(),
    {
        Uwu {
            lowercase: true,
            expressions: true,
            w_replace: true,
            stutter: true,
            stutter_chance: 4,
            emojis: true,
            emojis_chance: 1,
        }
    }

    /// The settings that `new` gives.
    pub open spec fn default_spec() -> Uwu {
        Uwu {
            lowercase: true,
            expressions: true,
            w_replace: true,
            stutter: true,
            stutter_chance: 4,
            emojis: true,
            emojis_chance: 1,
        }
    }

    /// A builder with every stage off.
    pub fn builder() -> (r: UwuBuilder)
        ensures
            r == UwuBuilder::empty(),
    {
        UwuBuilder::new()
    }

    /// Converts `input` into its uwuified version.
    pub fn uwuify(&self, input: &str) -> (r: Result<String, UwuError>)
        requires
            self.valid(),
        ensures
            r is Ok,
            r->Ok_0@ == uwuified(*self, input@),
    {
        let bytes = input.as_bytes();
        let mut buf = pad(bytes);
        if self.lowercase {
            buf = lowercase_bytes(&buf);
            assert(buf@ =~= padded(ascii_lowercase(bytes@)));
        }
        let ghost b0 = if self.lowercase { ascii_lowercase(bytes@) } else { bytes@ };
        assert(buf@ == padded(b0));
        if self.expressions {
            buf = Self::do_expressions(buf)?;
        }
        if self.w_replace {
            buf = Self::do_w_replace(buf);
        }
        if self.stutter {
            buf = self.do_stutter(buf);
        }
        if self.emojis {
            buf = self.do_emojis(buf)?;
        }
        assert(buf@ == staged_bytes(*self, input.spec_bytes()));
        let out = trim_padding(&buf);
        let text = text_from_bytes(&out);
        assert(text@ == decoded_lossily(out@));
        Ok(text)
    }

    /// The expression stage: each match of the expression patterns replaced by its pair.
    pub fn do_expressions(input: Vec<u8>) -> (r: Result<Vec<u8>, UwuError>)
        ensures
            r is Ok,
            r->Ok_0@ == expressions_replaced(input@),
            sound_matches(expression_patterns(), input@, standard_matches(expression_patterns(), input@)),
            earliest_matches(expression_patterns(), input@, standard_matches(expression_patterns(), input@)),
    {
        proof {
            lemma_tables_within_limits();
        }
        let patterns = expression_patterns_table();
        let replacements = expression_replacements_table();
        let ms = search(&patterns, &input)?;
        assert(replacements.deep_view().len() == replacements@.len());
        assert(patterns.deep_view().len() == replacements.deep_view().len());
        assert(ordered_spans(ms@, input@.len() as int, replacements@.len() as int));
        Ok(replace_matches(&input, &ms, &replacements))
    }

    /// The letter substitution stage.
    pub fn do_w_replace(input: Vec<u8>) -> (r: Vec<u8>)
        ensures
            r@ == w_replaced(input@),
    {
        w_replace_bytes(&input)
    }

    /// The stutter stage, with a generator of its own.
    pub fn do_stutter(&self, input: Vec<u8>) -> (r: Vec<u8>)
        requires
            self.stutter_chance >= 1,
        ensures
            r@ == stutter_from(input@, 0, self.stutter_chance, SEED),
    {
        let mut rng = Self::create_rng();
        stutter_with(&input, self.stutter_chance, &mut rng)
    }

    /// The decoration stage, with a generator of its own.
    pub fn do_emojis(&self, input: Vec<u8>) -> (r: Result<Vec<u8>, UwuError>)
        requires
            self.emojis_chance >= 1,
        ensures
            r is Ok,
            r->Ok_0@ == decorated(input@, self.emojis_chance),
            sound_matches(punctuation_markers(), input@, standard_matches(punctuation_markers(), input@)),
            earliest_matches(punctuation_markers(), input@, standard_matches(punctuation_markers(), input@)),
    {
        proof {
            lemma_tables_within_limits();
        }
        let markers = punctuation_table();
        let ms = search(&markers, &input)?;
        let ghost m = punctuation_markers();
        assert(m.len() == 3);
        assert(ordered_spans(ms@, input@.len() as int, 3));
        let ends = end_positions(&ms, input.len());
        let mut rng = Self::create_rng();
        Ok(decorate_at(&input, &ends, self.emojis_chance, &mut rng))
    }

    /// A generator in the fixed starting state.
    fn create_rng() -> (r: Generator)
        ensures
            r.state == SEED,
    {
        Generator::with_seed(SEED)
    }
}

impl Default for Uwu {
    fn default() -> (r: Uwu)
        ensures
            r == Uwu::default_spec(),
    {
        Uwu::new()
    }
}

/// Converts `input` into its uwuified version with the default settings.
pub fn uwuify(input: &str) -> (r: Result<String, UwuError>)
    ensures
        r is Ok,
        r->Ok_0@ == uwuified(Uwu::default_spec(), input@),
{
    let uwu = Uwu::new();
    uwu.uwuify(input)
}

} // verus!
