//! Laws of the generated identifiers: how many uppercase letters an
//! identifier carries, and how the three words stand in it.

use vstd::prelude::*;
use crate::Language;
use crate::cap_word;
use crate::is_generated_id;
use crate::joined;
use crate::capital::ascii_upper;
use crate::capital::capitalized;
use crate::capital::is_ascii_upper;
use crate::words::adjectives_spec;
use crate::words::is_ascii_lower;
use crate::words::lemma_adjectives_wf;
use crate::words::lemma_nouns_wf;
use crate::words::lemma_verbs_wf;
use crate::words::lower_word;
use crate::words::nouns_spec;
use crate::words::verbs_spec;

verus! {

/// The number of uppercase ASCII letters in a string.
pub open spec fn ascii_upper_count(w: Seq<char>) -> int
    decreases w.len(),
{
    if w.len() == 0 {
        0
    } else {
        (if is_ascii_upper(w[0]) {
            1int
        } else {
            0int
        }) + ascii_upper_count(w.subrange(1, w.len() as int))
    }
}

/// Counting uppercase ASCII letters distributes over concatenation.
pub proof fn lemma_upper_count_concat(a: Seq<char>, b: Seq<char>)
    ensures
        ascii_upper_count(a + b) == ascii_upper_count(a) + ascii_upper_count(b),
    decreases a.len(),
{
    if a.len() == 0 {
        assert(a + b =~= b);
    } else {
        assert((a + b).subrange(1, (a + b).len() as int) =~= a.subrange(1, a.len() as int) + b);
        assert((a + b)[0] == a[0]);
        lemma_upper_count_concat(a.subrange(1, a.len() as int), b);
    }
}

/// A string without uppercase ASCII letters counts zero of them.
pub proof fn lemma_no_upper_count_zero(w: Seq<char>)
    requires
        forall|i: int| 0 <= i < w.len() ==> !is_ascii_upper(#[trigger] w[i]),
    ensures
        ascii_upper_count(w) == 0,
    decreases w.len(),
{
    if w.len() > 0 {
        lemma_no_upper_count_zero(w.subrange(1, w.len() as int));
    }
}

/// A word of lowercase ASCII letters counts zero uppercase letters.
pub proof fn lemma_lower_word_no_upper(w: Seq<char>)
    requires
        forall|i: int| 0 <= i < w.len() ==> is_ascii_lower(#[trigger] w[i]),
    ensures
        ascii_upper_count(w) == 0,
{
    lemma_no_upper_count_zero(w);
}

/// Capitalizing a non-empty all-lowercase word yields exactly one uppercase
/// ASCII letter, at its head.
pub proof fn lemma_capitalized_lower_word_count(w: Seq<char>)
    requires
        lower_word(w),
    ensures
        ascii_upper_count(capitalized(w)) == 1,
{
    let head = seq![ascii_upper(w[0])];
    let tail = w.subrange(1, w.len() as int);
    assert(is_ascii_upper(ascii_upper(w[0])));
    lemma_upper_count_concat(head, tail);
    lemma_lower_word_no_upper(tail);
    assert(head.subrange(1, 1) =~= Seq::<char>::empty());
    assert(ascii_upper_count(Seq::<char>::empty()) == 0);
    assert(ascii_upper_count(head) == 1);
}

/// Law: joining with an empty separator concatenates the three words
/// directly, with no delimiter between them.
pub proof fn lemma_join_empty_separator(a: Seq<char>, n: Seq<char>, v: Seq<char>)
    ensures
        joined(a, n, v, Seq::<char>::empty()) == a + n + v,
{
    assert(joined(a, n, v, Seq::<char>::empty()) =~= a + n + v);
}

/// Law: a generated identifier is never empty, because every catalog word is
/// non-empty.
pub proof fn lemma_generated_id_non_empty(
    id: Seq<char>,
    sep: Seq<char>,
    should_capitalize: bool,
    language: Language,
)
    requires
        is_generated_id(id, sep, should_capitalize, language),
    ensures
        id.len() > 0,
{
    let (i, j, k) = choose|i: int, j: int, k: int|
        0 <= i < adjectives_spec(language).len()
        && 0 <= j < nouns_spec(language).len()
        && 0 <= k < verbs_spec(language).len()
        && id == joined(
            cap_word(#[trigger] adjectives_spec(language)[i], should_capitalize),
            cap_word(#[trigger] nouns_spec(language)[j], should_capitalize),
            cap_word(#[trigger] verbs_spec(language)[k], should_capitalize),
            sep,
        );
    lemma_adjectives_wf(language);
    let a = adjectives_spec(language)[i];
    assert(cap_word(a, should_capitalize).len() > 0);
}

/// Law: with capitalization off, a generated identifier is its three catalog
/// words joined verbatim, and each of those words, one per grammatical role,
/// contains no uppercase ASCII letter.
pub proof fn lemma_uncapitalized_id_parts(id: Seq<char>, sep: Seq<char>, language: Language)
    requires
        is_generated_id(id, sep, false, language),
    ensures
        exists|i: int, j: int, k: int|
            0 <= i < adjectives_spec(language).len()
            && 0 <= j < nouns_spec(language).len()
            && 0 <= k < verbs_spec(language).len()
            && id == joined(
                #[trigger] adjectives_spec(language)[i],
                #[trigger] nouns_spec(language)[j],
                #[trigger] verbs_spec(language)[k],
                sep,
            )
            && ascii_upper_count(adjectives_spec(language)[i]) == 0
            && ascii_upper_count(nouns_spec(language)[j]) == 0
            && ascii_upper_count(verbs_spec(language)[k]) == 0,
{
    let (i, j, k) = choose|i: int, j: int, k: int|
        0 <= i < adjectives_spec(language).len()
        && 0 <= j < nouns_spec(language).len()
        && 0 <= k < verbs_spec(language).len()
        && id == joined(
            cap_word(#[trigger] adjectives_spec(language)[i], false),
            cap_word(#[trigger] nouns_spec(language)[j], false),
            cap_word(#[trigger] verbs_spec(language)[k], false),
            sep,
        );
    lemma_adjectives_wf(language);
    lemma_nouns_wf(language);
    lemma_verbs_wf(language);
    lemma_lower_word_no_upper(adjectives_spec(language)[i]);
    lemma_lower_word_no_upper(nouns_spec(language)[j]);
    lemma_lower_word_no_upper(verbs_spec(language)[k]);
    assert(id == joined(
        adjectives_spec(language)[i],
        nouns_spec(language)[j],
        verbs_spec(language)[k],
        sep,
    ));
}

/// Law: with capitalization on and a separator free of uppercase ASCII
/// letters, a generated identifier contains exactly three uppercase ASCII
/// letters: the first letter of each of its three words.
pub proof fn lemma_capitalized_id_upper_count(id: Seq<char>, sep: Seq<char>, language: Language)
    requires
        is_generated_id(id, sep, true, language),
        ascii_upper_count(sep) == 0,
    ensures
        ascii_upper_count(id) == 3,
{
    let (i, j, k) = choose|i: int, j: int, k: int|
        0 <= i < adjectives_spec(language).len()
        && 0 <= j < nouns_spec(language).len()
        && 0 <= k < verbs_spec(language).len()
        && id == joined(
            cap_word(#[trigger] adjectives_spec(language)[i], true),
            cap_word(#[trigger] nouns_spec(language)[j], true),
            cap_word(#[trigger] verbs_spec(language)[k], true),
            sep,
        );
    lemma_adjectives_wf(language);
    lemma_nouns_wf(language);
    lemma_verbs_wf(language);
    let a = capitalized(adjectives_spec(language)[i]);
    let n = capitalized(nouns_spec(language)[j]);
    let v = capitalized(verbs_spec(language)[k]);
    lemma_capitalized_lower_word_count(adjectives_spec(language)[i]);
    lemma_capitalized_lower_word_count(nouns_spec(language)[j]);
    lemma_capitalized_lower_word_count(verbs_spec(language)[k]);
    lemma_upper_count_concat(a, sep);
    lemma_upper_count_concat(a + sep, n);
    lemma_upper_count_concat(a + sep + n, sep);
    lemma_upper_count_concat(a + sep + n + sep, v);
    assert(id == a + sep + n + sep + v);
}

} // verus!
