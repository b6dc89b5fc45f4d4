//! Human-readable identifiers made of three common English words.
//!
//! An identifier is built from one adjective, one noun and one verb, each
//! drawn at random from a fixed word catalog, optionally capitalized and
//! joined with a caller-supplied separator.

use rand::seq::SliceRandom;
use vstd::prelude::*;

pub mod capital;
pub mod laws;
pub mod words;

pub use capital::capitalize;

verus! {

/// The value to use when no separator is required between words.
pub const NO_SEPARATOR: &'static str = "";

/// The language to select words from.
#[derive(Clone, Copy, Debug, PartialEq, Eq, Structural)]
pub enum Language {
    /// English language words.
    En,
}

impl Default for Language {
    /// The canonical language used when none is specified.
    fn default() -> (r: Self)
        ensures
            r == Language::En,
    {
        Language::En
    }
}

impl Language {
    /// Resolves a user-supplied language tag: exactly the ISO code of a
    /// supported language, in all lowercase or all uppercase, is accepted;
    /// every other string is rejected with an error message.
    pub fn from_str(s: &str) -> (r: Result<Language, String>)
        ensures
            r is Ok <==> (s@ == "en"@ || s@ == "EN"@),
            r is Ok ==> r->Ok_0 == Language::En,
            r is Err ==> r->Err_0@ == "The string '"@ + s@
                + "' is not a valid identifier, or supported language"@,
    {
        let owned = String::from_str(s);
        if owned == String::from_str("en") || owned == String::from_str("EN") {
            Ok(Language::En)
        } else {
            let mut msg = String::from_str("The string '");
            msg.append(s);
            msg.append("' is not a valid identifier, or supported language");
            Err(msg)
        }
    }

    /// The ISO code of this language, as it is accepted by `from_str`.
    pub fn code(&self) -> (r: String)
        ensures
            r@ == "en"@,
    {
        String::from_str("en")
    }
}

/// A word as it appears in an identifier: capitalized when asked for,
/// verbatim otherwise.
pub open spec fn cap_word(w: Seq<char>, should_capitalize: bool) -> Seq<char> {
    if should_capitalize {
        capital::capitalized(w)
    } else {
        w
    }
}

/// Three words joined in fixed order with the separator between them.
pub open spec fn joined(a: Seq<char>, n: Seq<char>, v: Seq<char>, sep: Seq<char>) -> Seq<char> {
    a + sep + n + sep + v
}

/// True of a string that the generator can produce for the given separator,
/// capitalization choice and language: an adjective, a noun and a verb of
/// that language's catalog, each capitalized when asked for, joined in that
/// order with the separator between them.
pub open spec fn is_generated_id(
    id: Seq<char>,
    sep: Seq<char>,
    should_capitalize: bool,
    language: Language,
) -> bool {
    exists|i: int, j: int, k: int|
        0 <= i < words::adjectives_spec(language).len()
        && 0 <= j < words::nouns_spec(language).len()
        && 0 <= k < words::verbs_spec(language).len()
        && id == joined(
            cap_word(#[trigger] words::adjectives_spec(language)[i], should_capitalize),
            cap_word(#[trigger] words::nouns_spec(language)[j], should_capitalize),
            cap_word(#[trigger] words::verbs_spec(language)[k], should_capitalize),
            sep,
        )
}

/// Relies on rand::seq::SliceRandom::choose with rand::thread_rng: returns
/// Some of one element of the slice, or None exactly when the slice is empty.
#[verifier::external_body]
fn choose_from(list: &Vec<&'static str>) -> (r: Option<&'static str>)
    ensures
        match r {
            Some(w) => exists|i: int| 0 <= i < list@.len() && w == #[trigger] list@[i],
            None => list@.len() == 0,
        },
{
    list.as_slice().choose(&mut rand::thread_rng()).copied()
}

/// One word of the identifier: an element drawn at random from the given
/// non-empty list, capitalized when asked for.
fn drawn_word(list: &Vec<&'static str>, should_capitalize: bool) -> (r: String)
    requires
        list@.len() > 0,
    ensures
        exists|i: int| 0 <= i < list@.len()
            && r@ == cap_word((#[trigger] list@[i])@, should_capitalize),
{
    let w = match choose_from(list) {
        Some(w) => w,
        None => unreached(),
    };
    if should_capitalize {
        capitalize(w)
    } else {
        String::from_str(w)
    }
}

/// Generates a custom "human id" in a chosen language: one random adjective,
/// noun and verb of that language, each capitalized when asked for, joined
/// in that order with the separator between them.
pub fn custom_id_in_language(separator: &str, should_capitalize: bool, language: Language) -> (r:
    String)
    ensures
        is_generated_id(r@, separator@, should_capitalize, language),
{
    let adjective_list = words::adjectives(language);
    let noun_list = words::nouns(language);
    let verb_list = words::verbs(language);
    let adjective = drawn_word(&adjective_list, should_capitalize);
    let noun = drawn_word(&noun_list, should_capitalize);
    let verb = drawn_word(&verb_list, should_capitalize);
    let mut out = adjective;
    out.append(separator);
    out.append(noun.as_str());
    out.append(separator);
    out.append(verb.as_str());
    proof {
        let i = choose|i: int| 0 <= i < adjective_list@.len()
            && adjective@ == cap_word(adjective_list@[i]@, should_capitalize);
        let j = choose|j: int| 0 <= j < noun_list@.len()
            && noun@ == cap_word(noun_list@[j]@, should_capitalize);
        let k = choose|k: int| 0 <= k < verb_list@.len()
            && verb@ == cap_word(verb_list@[k]@, should_capitalize);
        assert(out@ == joined(
            cap_word(words::adjectives_spec(language)[i], should_capitalize),
            cap_word(words::nouns_spec(language)[j], should_capitalize),
            cap_word(words::verbs_spec(language)[k], should_capitalize),
            separator@,
        ));
    }
    out
}

/// Generates a custom "human id" in the canonical language: the separator
/// and the capitalization choice are the caller's.
pub fn custom_id(separator: &str, should_capitalize: bool) -> (r: String)
    ensures
        is_generated_id(r@, separator@, should_capitalize, Language::En),
{
    custom_id_in_language(separator, should_capitalize, Language::default())
}

/// Generates a "human id" with the default configuration: capitalized words
/// and no separator, in the canonical language.
pub fn id() -> (r: String)
    ensures
        is_generated_id(r@, Seq::<char>::empty(), true, Language::En),
{
    let r = custom_id(NO_SEPARATOR, true);
    proof {
        reveal_strlit("");
    }
    r
}

/// Generates a batch of identifiers, one per requested count, each produced
/// as by `custom_id_in_language` with the same arguments.
pub fn generate_many(count: u16, separator: &str, should_capitalize: bool, language: Language) -> (r:
    Vec<String>)
    ensures
        r@.len() == count as int,
        forall|n: int| 0 <= n < r@.len()
            ==> is_generated_id((#[trigger] r@[n])@, separator@, should_capitalize, language),
{
    let mut out: Vec<String> = Vec::new();
    let mut made: u16 = 0;
    while made < count
        invariant
            made <= count,
            out@.len() == made as int,
            forall|n: int| 0 <= n < out@.len()
                ==> is_generated_id((#[trigger] out@[n])@, separator@, should_capitalize, language),
        decreases count - made,
    {
        let one = custom_id_in_language(separator, should_capitalize, language);
        out.push(one);
        made = made + 1;
    }
    out
}

} // verus!
