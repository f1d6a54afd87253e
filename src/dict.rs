use vstd::prelude::*;
use crate::matcher::{non_empty, within_limits};
use vstd::string::*;
use vstd::utf8::*;

verus! {

/// The phrases that expression replacement looks for.
pub open spec fn expression_patterns() -> Seq<Seq<u8>> {
    seq![
        "small".spec_bytes(), "cute".spec_bytes(), "fluff".spec_bytes(), "love".spec_bytes(),
        "stupid".spec_bytes(), "what".spec_bytes(), "meow".spec_bytes(), " n".spec_bytes(),
        "\nn".spec_bytes(), "\tn".spec_bytes(), "qu".spec_bytes(),
    ]
}

/// The phrase that replaces each of `expression_patterns`, index for index.
pub open spec fn expression_replacements() -> Seq<Seq<u8>> {
    seq![
        "smol".spec_bytes(), "kawaii~".spec_bytes(), "floof".spec_bytes(), "luv".spec_bytes(),
        "baka".spec_bytes(), "nani".spec_bytes(), "nya~".spec_bytes(), " ny".spec_bytes(),
        " ny".spec_bytes(), " ny".spec_bytes(), "qwu".spec_bytes(),
    ]
}

/// The punctuation markers after which a decoration may go.
pub open spec fn punctuation_markers() -> Seq<Seq<u8>> {
    seq![", ".spec_bytes(), ". ".spec_bytes(), "! ".spec_bytes()]
}

/// The decoration at index `i` of the pool, each with its trailing space.
pub open spec fn decoration(i: int) -> Seq<u8> {
    if i == 0 {
        "rawr x3 ".spec_bytes()
    } else if i == 1 {
        "OwO ".spec_bytes()
    } else if i == 2 {
        "UwU ".spec_bytes()
    } else if i == 3 {
        "o.O ".spec_bytes()
    } else if i == 4 {
        "-.- ".spec_bytes()
    } else if i == 5 {
        ">w< ".spec_bytes()
    } else if i == 6 {
        "(⑅˘꒳˘) ".spec_bytes()
    } else if i == 7 {
        "(ꈍᴗꈍ) ".spec_bytes()
    } else if i == 8 {
        "(˘ω˘) ".spec_bytes()
    } else if i == 9 {
        "(U ᵕ U❁) ".spec_bytes()
    } else if i == 10 {
        "σωσ ".spec_bytes()
    } else if i == 11 {
        "òωó ".spec_bytes()
    } else if i == 12 {
        "(///ˬ///✿) ".spec_bytes()
    } else if i == 13 {
        "(U ﹏ U) ".spec_bytes()
    } else if i == 14 {
        "( ͡o ω ͡o ) ".spec_bytes()
    } else if i == 15 {
        "ʘwʘ ".spec_bytes()
    } else if i == 16 {
        ":3 ".spec_bytes()
    } else if i == 17 {
        "XD ".spec_bytes()
    } else if i == 18 {
        "nyaa~~ ".spec_bytes()
    } else if i == 19 {
        "mya ".spec_bytes()
    } else if i == 20 {
        ">_< ".spec_bytes()
    } else if i == 21 {
        "😳 ".spec_bytes()
    } else if i == 22 {
        "🥺 ".spec_bytes()
    } else if i == 23 {
        "😳😳😳 ".spec_bytes()
    } else if i == 24 {
        "rawr ".spec_bytes()
    } else if i == 25 {
        "^^ ".spec_bytes()
    } else if i == 26 {
        "^•ﻌ•^ ".spec_bytes()
    } else if i == 27 {
        "/(^•ω•^) ".spec_bytes()
    } else if i == 28 {
        "(✿oωo) ".spec_bytes()
    } else {
        "👉👈".spec_bytes()
    }
}

/// How many decorations there are to choose from. Each decoration is in the pool once: from
/// the fixed seed, a draw over these 30 puts "o.O " after the first mark of "master! suki!"
/// and "^•ﻌ•^ " after the second. With ":3 " in the pool twice (31 entries) the same draws
/// pick "o.O " and then "^^ ".
pub const DECORATION_COUNT: usize = 30;

/// The text put in when the decoration pool yields nothing.
pub open spec fn fallback_decoration() -> Seq<u8> {
    "uwu".spec_bytes()
}

/// A text of `n` characters takes between `n` and `4 * n` bytes in UTF-8.
proof fn lemma_encoded_len(chars: Seq<char>)
    ensures
        chars.len() <= encode_utf8(chars).len() <= 4 * chars.len(),
    decreases chars.len(),
{
    if chars.len() > 0 {
        lemma_encoded_len(chars.drop_first());
    }
}

/// The expression and punctuation tables hold no empty pattern and are far within the
/// limits of the matcher.
pub proof fn lemma_tables_within_limits()
    ensures
        within_limits(expression_patterns()),
        non_empty(expression_patterns()),
        within_limits(punctuation_markers()),
        non_empty(punctuation_markers()),
{
    reveal_strlit("small");
    lemma_encoded_len("small"@);
    reveal_strlit("cute");
    lemma_encoded_len("cute"@);
    reveal_strlit("fluff");
    lemma_encoded_len("fluff"@);
    reveal_strlit("love");
    lemma_encoded_len("love"@);
    reveal_strlit("stupid");
    lemma_encoded_len("stupid"@);
    reveal_strlit("what");
    lemma_encoded_len("what"@);
    reveal_strlit("meow");
    lemma_encoded_len("meow"@);
    reveal_strlit(" n");
    lemma_encoded_len(" n"@);
    reveal_strlit("\nn");
    lemma_encoded_len("\nn"@);
    reveal_strlit("\tn");
    lemma_encoded_len("\tn"@);
    reveal_strlit("qu");
    lemma_encoded_len("qu"@);
    reveal_strlit(", ");
    lemma_encoded_len(", "@);
    reveal_strlit(". ");
    lemma_encoded_len(". "@);
    reveal_strlit("! ");
    lemma_encoded_len("! "@);
}

/// An ASCII character takes one byte, its own code.
proof fn ascii_scalar(b: u8)
    requires
        b < 128,
    ensures
        encode_scalar(b as u32) == seq![b],
{
    assert(leading_byte_width_1(b as u32) == b) by (bit_vector)
        requires
            b < 128,
    ;
    assert(encode_scalar(b as u32) =~= seq![b]);
}

/// A two-character text of an ASCII character and a space takes those two bytes.
proof fn marker_bytes(s: &str, c: char, b: u8)
    requires
        s@ == seq![c, ' '],
        c as u32 == b as u32,
        b < 128,
    ensures
        s.spec_bytes() == seq![b, 32u8],
{
    reveal_with_fuel(encode_utf8, 3);
    let t = s@;
    assert(t.drop_first() =~= seq![' ']);
    assert(t.drop_first().drop_first() =~= Seq::<char>::empty());
    assert((' ' as u32) == 32);
    ascii_scalar(b);
    ascii_scalar(32);
    assert(s.spec_bytes() =~= seq![b, 32u8]);
}

/// The bytes of the punctuation markers: ", ", ". " and "! ".
pub proof fn lemma_punctuation_bytes()
    ensures
        punctuation_markers() == seq![seq![44u8, 32u8], seq![46u8, 32u8], seq![33u8, 32u8]],
{
    reveal_strlit(", ");
    reveal_strlit(". ");
    reveal_strlit("! ");
    assert(", "@ =~= seq![',', ' ']);
    assert(". "@ =~= seq!['.', ' ']);
    assert("! "@ =~= seq!['!', ' ']);
    marker_bytes(", ", ',', 44);
    marker_bytes(". ", '.', 46);
    marker_bytes("! ", '!', 33);
    assert(punctuation_markers() =~= seq![seq![44u8, 32u8], seq![46u8, 32u8], seq![33u8, 32u8]]);
}

/// The UTF-8 bytes of `s`.
pub fn bytes_of(s: &str) -> (r: Vec<u8>)
    ensures
        r@ == s.spec_bytes(),
{
    let b = s.as_bytes();
    let mut r: Vec<u8> = Vec::new();
    let mut i: usize = 0;
    while i < b.len()
        invariant
            b@ == s.spec_bytes(),
            i <= b@.len(),
            r@ == b@.subrange(0, i as int),
        decreases b@.len() - i,
    {
        r.push(b[i]);
        i = i + 1;
        assert(r@ =~= b@.subrange(0, i as int));
    }
    assert(r@ =~= b@);
    r
}

/// The table of `expression_patterns`.
pub fn expression_patterns_table() -> (r: Vec<Vec<u8>>)
    ensures
        r.deep_view() == expression_patterns(),
{
    let r = vec![
        bytes_of("small"), bytes_of("cute"), bytes_of("fluff"), bytes_of("love"),
        bytes_of("stupid"), bytes_of("what"), bytes_of("meow"), bytes_of(" n"),
        bytes_of("\nn"), bytes_of("\tn"), bytes_of("qu"),
    ];
    assert(r.deep_view() =~~= expression_patterns());
    r
}

/// The table of `expression_replacements`.
pub fn expression_replacements_table() -> (r: Vec<Vec<u8>>)
    ensures
        r.deep_view() == expression_replacements(),
{
    let r = vec![
        bytes_of("smol"), bytes_of("kawaii~"), bytes_of("floof"), bytes_of("luv"),
        bytes_of("baka"), bytes_of("nani"), bytes_of("nya~"), bytes_of(" ny"),
        bytes_of(" ny"), bytes_of(" ny"), bytes_of("qwu"),
    ];
    assert(r.deep_view() =~~= expression_replacements());
    r
}

/// The table of `punctuation_markers`.
pub fn punctuation_table() -> (r: Vec<Vec<u8>>)
    ensures
        r.deep_view() == punctuation_markers(),
{
    let r = vec![bytes_of(", "), bytes_of(". "), bytes_of("! ")];
    assert(r.deep_view() =~~= punctuation_markers());
    r
}

/// The bytes of `decoration(i)`.
pub fn decoration_bytes(i: usize) -> (r: Vec<u8>)
    requires
        i < DECORATION_COUNT,
    ensures
        r@ == decoration(i as int),
{
    if i == 0 {
        bytes_of("rawr x3 ")
    } else if i == 1 {
        bytes_of("OwO ")
    } else if i == 2 {
        bytes_of("UwU ")
    } else if i == 3 {
        bytes_of("o.O ")
    } else if i == 4 {
        bytes_of("-.- ")
    } else if i == 5 {
        bytes_of(">w< ")
    } else if i == 6 {
        bytes_of("(⑅˘꒳˘) ")
    } else if i == 7 {
        bytes_of("(ꈍᴗꈍ) ")
    } else if i == 8 {
        bytes_of("(˘ω˘) ")
    } else if i == 9 {
        bytes_of("(U ᵕ U❁) ")
    } else if i == 10 {
        bytes_of("σωσ ")
    } else if i == 11 {
        bytes_of("òωó ")
    } else if i == 12 {
        bytes_of("(///ˬ///✿) ")
    } else if i == 13 {
        bytes_of("(U ﹏ U) ")
    } else if i == 14 {
        bytes_of("( ͡o ω ͡o ) ")
    } else if i == 15 {
        bytes_of("ʘwʘ ")
    } else if i == 16 {
        bytes_of(":3 ")
    } else if i == 17 {
        bytes_of("XD ")
    } else if i == 18 {
        bytes_of("nyaa~~ ")
    } else if i == 19 {
        bytes_of("mya ")
    } else if i == 20 {
        bytes_of(">_< ")
    } else if i == 21 {
        bytes_of("😳 ")
    } else if i == 22 {
        bytes_of("🥺 ")
    } else if i == 23 {
        bytes_of("😳😳😳 ")
    } else if i == 24 {
        bytes_of("rawr ")
    } else if i == 25 {
        bytes_of("^^ ")
    } else if i == 26 {
        bytes_of("^•ﻌ•^ ")
    } else if i == 27 {
        bytes_of("/(^•ω•^) ")
    } else if i == 28 {
        bytes_of("(✿oωo) ")
    } else {
        bytes_of("👉👈")
    }
}

} // verus!
