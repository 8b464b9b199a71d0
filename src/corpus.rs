//! The word corpus: petname's default dictionary, its cardinality, random
//! phrases drawn from it, and title casing.
use vstd::prelude::*;

verus! {

/// Number of adjectives in petname's default (small) dictionary.
pub const ADJECTIVE_COUNT: u128 = 449;

/// Number of adverbs in petname's default (small) dictionary.
pub const ADVERB_COUNT: u128 = 261;

/// Number of names in petname's default (small) dictionary.
pub const NAME_COUNT: u128 = 456;

/// Why a name pool could not be built.
#[derive(Debug, Clone, Copy, PartialEq, Eq, Structural)]
pub enum PoolError {
    /// A pool of zero names was requested.
    EmptyPool,
    /// More unique names were requested than the corpus can form.
    InsufficientCorpus,
    /// Drawing kept repeating names already taken, long past what chance explains.
    DrawLimit,
}

/// `base` to the power `exp`.
pub open spec fn pow(base: nat, exp: nat) -> nat
    decreases exp,
{
    if exp == 0 {
        1
    } else {
        base * pow(base, (exp - 1) as nat)
    }
}

/// Number of distinct phrases of `words` words: one name, preceded by one
/// adjective, preceded by adverbs for the words beyond two.
pub open spec fn phrase_count(words: nat) -> nat {
    if words == 0 {
        0
    } else if words == 1 {
        NAME_COUNT as nat
    } else {
        pow(ADVERB_COUNT as nat, (words - 2) as nat) * (ADJECTIVE_COUNT as nat) * (NAME_COUNT as nat)
    }
}

/// The corpus cardinality for `words` words, as a `u128` that saturates.
pub open spec fn cardinality(words: nat) -> int {
    if phrase_count(words) > u128::MAX {
        u128::MAX as int
    } else {
        phrase_count(words) as int
    }
}

/// Text that can stand as one word of a phrase: non-empty, with no space.
pub open spec fn is_word(w: Seq<char>) -> bool {
    w.len() > 0 && forall|i: int| 0 <= i < w.len() ==> w[i] != ' '
}

/// `s` is `n` words joined by single spaces.
pub open spec fn is_phrase(s: Seq<char>, n: nat) -> bool
    decreases n,
{
    if n == 0 {
        s.len() == 0
    } else if n == 1 {
        is_word(s)
    } else {
        exists|k: int|
            0 < k < s.len() && s[k] == ' ' && is_word(#[trigger] s.subrange(0, k)) && is_phrase(
                s.subrange(k + 1, s.len() as int),
                (n - 1) as nat,
            )
    }
}

/// Relies on petname's `Petnames::default` (the small dictionary: 449
/// adjectives, 261 adverbs, 456 names) and `Petnames::cardinality`, which
/// multiplies the list lengths with saturation.
#[verifier::external_body]
fn petname_cardinality(words: u8) -> (r: u128)
    ensures
        r == cardinality(words as nat),
{
    petname::Petnames::default().cardinality(words)
}

/// How many distinct phrases of `words` words the corpus can form,
/// saturating at `u128::MAX`; 0 for no words.
pub fn corpus_cardinality(words: u8) -> (r: u128)
    ensures
        r == cardinality(words as nat),
        words == 0 ==> r == 0,
        words == 1 ==> r == NAME_COUNT,
        words == 2 ==> r == ADJECTIVE_COUNT * NAME_COUNT,
        words == 3 ==> r == ADVERB_COUNT * ADJECTIVE_COUNT * NAME_COUNT,
{
    let r = petname_cardinality(words);
    proof {
        if words == 2 {
            assert(pow(ADVERB_COUNT as nat, 0) == 1);
        }
        if words == 3 {
            assert(pow(ADVERB_COUNT as nat, 1) == ADVERB_COUNT) by {
                assert(pow(ADVERB_COUNT as nat, 0) == 1);
            }
        }
    }
    r
}

/// Relies on petname's `Petnames::default` and `Petnames::generate`: the
/// result is `words` dictionary words joined by one space, and the words of
/// the dictionary are non-empty and made of the letters `a` to `z` only.
#[verifier::external_body]
pub(crate) fn random_phrase(rng: &mut rand::rngs::SmallRng, words: u8) -> (r: String)
    ensures
        is_phrase(r@, words as nat),
        forall|i: int| 0 <= i < r@.len() ==> r@[i] == ' ' || 'a' <= #[trigger] r@[i] <= 'z',
{
    petname::Petnames::default().generate(rng, words, " ")
}

/// `c` upper-cased where it is a lower-case ASCII letter, else `c` itself.
pub open spec fn upper_ascii(c: char) -> char {
    if 'a' <= c <= 'z' {
        ((c as u32) - 32) as char
    } else {
        c
    }
}

/// `s` with the first character of each word upper-cased, where it is a
/// lower-case ASCII letter; every other character stays as it is.
pub open spec fn title_words(s: Seq<char>) -> Seq<char> {
    Seq::new(
        s.len(),
        |i: int|
            if i == 0 || s[i - 1] == ' ' {
                upper_ascii(s[i])
            } else {
                s[i]
            },
    )
}

fn upper_letter(c: char) -> (r: &'static str)
    requires
        'a' <= c <= 'z',
    ensures
        r@ == seq![upper_ascii(c)],
{
    proof {
        reveal_strlit("A");
        reveal_strlit("B");
        reveal_strlit("C");
        reveal_strlit("D");
        reveal_strlit("E");
        reveal_strlit("F");
        reveal_strlit("G");
        reveal_strlit("H");
        reveal_strlit("I");
        reveal_strlit("J");
        reveal_strlit("K");
        reveal_strlit("L");
        reveal_strlit("M");
        reveal_strlit("N");
        reveal_strlit("O");
        reveal_strlit("P");
        reveal_strlit("Q");
        reveal_strlit("R");
        reveal_strlit("S");
        reveal_strlit("T");
        reveal_strlit("U");
        reveal_strlit("V");
        reveal_strlit("W");
        reveal_strlit("X");
        reveal_strlit("Y");
        reveal_strlit("Z");
    }
    match c {
        'a' => "A",
        'b' => "B",
        'c' => "C",
        'd' => "D",
        'e' => "E",
        'f' => "F",
        'g' => "G",
        'h' => "H",
        'i' => "I",
        'j' => "J",
        'k' => "K",
        'l' => "L",
        'm' => "M",
        'n' => "N",
        'o' => "O",
        'p' => "P",
        'q' => "Q",
        'r' => "R",
        's' => "S",
        't' => "T",
        'u' => "U",
        'v' => "V",
        'w' => "W",
        'x' => "X",
        'y' => "Y",
        _ => "Z",
    }
}

/// `s` with the first letter of each word upper-cased.
pub fn title_case(s: &str) -> (r: String)
    ensures
        r@ == title_words(s@),
{
    let n = s.unicode_len();
    let mut out = String::new();
    let mut i: usize = 0;
    let mut at_word_start = true;
    while i < n
        invariant
            n == s@.len(),
            i <= n,
            out@ == title_words(s@).subrange(0, i as int),
            at_word_start == (i == 0 || s@[i - 1] == ' '),
        decreases n - i,
    {
        let c = s.get_char(i);
        if at_word_start && 'a' <= c && c <= 'z' {
            out.append(upper_letter(c));
        } else {
            out.append(s.substring_char(i, i + 1));
        }
        assert(out@ =~= title_words(s@).subrange(0, i + 1));
        at_word_start = c == ' ';
        i = i + 1;
    }
    assert(out@ =~= title_words(s@));
    out
}

/// In a phrase of lower-case words, title casing upper-cases the first
/// letter of each word and leaves every other character as it was.
pub proof fn lemma_title_words_capitalises(p: Seq<char>)
    requires
        forall|i: int| 0 <= i < p.len() ==> p[i] == ' ' || 'a' <= #[trigger] p[i] <= 'z',
    ensures
        title_words(p).len() == p.len(),
        forall|i: int|
            0 <= i < p.len() && (i == 0 || p[i - 1] == ' ') && p[i] != ' ' ==> 'A'
                <= #[trigger] title_words(p)[i] <= 'Z',
        forall|i: int|
            0 <= i < p.len() && !(i == 0 || p[i - 1] == ' ') ==> #[trigger] title_words(p)[i]
                == p[i],
        forall|i: int| 0 <= i < p.len() ==> (#[trigger] title_words(p)[i] == ' ' <==> p[i] == ' '),
{
}

} // verus!
