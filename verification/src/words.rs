//! The word catalog: one fixed list of adjectives, nouns and verbs per
//! supported language.  Every word is a non-empty string of lowercase
//! ASCII letters.

use vstd::prelude::*;
use crate::Language;

verus! {

/// True of a lowercase ASCII letter.
pub open spec fn is_ascii_lower(c: char) -> bool {
    97 <= c as int <= 122
}

/// True of a non-empty word made only of lowercase ASCII letters.
pub open spec fn lower_word(w: Seq<char>) -> bool {
    w.len() > 0 && (forall|i: int| 0 <= i < w.len() ==> is_ascii_lower(#[trigger] w[i]))
}

/// The adjectives of the given language, in catalog order.
pub open spec fn adjectives_spec(language: Language) -> Seq<Seq<char>> {
    match language {
        Language::En => seq![
            "tame"@, "chatty"@, "hungry"@, "tangy"@, "khaki"@, "orange"@,
            "tidy"@, "olive"@, "brave"@, "calm"@, "eager"@, "fancy"@,
        ],
    }
}

/// The adjective list of the given language.
pub fn adjectives(language: Language) -> (r: Vec<&'static str>)
    ensures
        r@.len() == adjectives_spec(language).len(),
        forall|i: int| 0 <= i < r@.len() ==> (#[trigger] r@[i])@ == adjectives_spec(language)[i],
{
    match language {
        Language::En => {
            let v: Vec<&'static str> = vec![
                "tame", "chatty", "hungry", "tangy", "khaki", "orange",
                "tidy", "olive", "brave", "calm", "eager", "fancy",
            ];
            v
        },
    }
}

/// The nouns of the given language, in catalog order.
pub open spec fn nouns_spec(language: Language) -> Seq<Seq<char>> {
    match language {
        Language::En => seq![
            "lions"@, "wombats"@, "ducks"@, "flies"@, "aliens"@, "friends"@,
            "boxes"@, "turkeys"@, "lamps"@, "apples"@, "trains"@, "clouds"@,
        ],
    }
}

/// The noun list of the given language.
pub fn nouns(language: Language) -> (r: Vec<&'static str>)
    ensures
        r@.len() == nouns_spec(language).len(),
        forall|i: int| 0 <= i < r@.len() ==> (#[trigger] r@[i])@ == nouns_spec(language)[i],
{
    match language {
        Language::En => {
            let v: Vec<&'static str> = vec![
                "lions", "wombats", "ducks", "flies", "aliens", "friends",
                "boxes", "turkeys", "lamps", "apples", "trains", "clouds",
            ];
            v
        },
    }
}

/// The verbs of the given language, in catalog order.
pub open spec fn verbs_spec(language: Language) -> Seq<Seq<char>> {
    match language {
        Language::En => seq![
            "retire"@, "care"@, "listen"@, "hide"@, "repair"@, "relate"@,
            "occur"@, "offer"@, "dance"@, "jump"@, "sing"@, "wave"@,
        ],
    }
}

/// The verb list of the given language.
pub fn verbs(language: Language) -> (r: Vec<&'static str>)
    ensures
        r@.len() == verbs_spec(language).len(),
        forall|i: int| 0 <= i < r@.len() ==> (#[trigger] r@[i])@ == verbs_spec(language)[i],
{
    match language {
        Language::En => {
            let v: Vec<&'static str> = vec![
                "retire", "care", "listen", "hide", "repair", "relate",
                "occur", "offer", "dance", "jump", "sing", "wave",
            ];
            v
        },
    }
}

/// Every adjective of every language is a non-empty, all-lowercase word.
pub proof fn lemma_adjectives_wf(language: Language)
    ensures
        forall|i: int| 0 <= i < adjectives_spec(language).len()
            ==> lower_word(#[trigger] adjectives_spec(language)[i]),
{
    reveal_strlit("tame");
    reveal_strlit("chatty");
    reveal_strlit("hungry");
    reveal_strlit("tangy");
    reveal_strlit("khaki");
    reveal_strlit("orange");
    reveal_strlit("tidy");
    reveal_strlit("olive");
    reveal_strlit("brave");
    reveal_strlit("calm");
    reveal_strlit("eager");
    reveal_strlit("fancy");
    assert forall|i: int| 0 <= i < adjectives_spec(language).len()
        implies lower_word(#[trigger] adjectives_spec(language)[i]) by {
        assert(adjectives_spec(language)[i].len() > 0);
    }
}

/// Every noun of every language is a non-empty, all-lowercase word.
pub proof fn lemma_nouns_wf(language: Language)
    ensures
        forall|i: int| 0 <= i < nouns_spec(language).len()
            ==> lower_word(#[trigger] nouns_spec(language)[i]),
{
    reveal_strlit("lions");
    reveal_strlit("wombats");
    reveal_strlit("ducks");
    reveal_strlit("flies");
    reveal_strlit("aliens");
    reveal_strlit("friends");
    reveal_strlit("boxes");
    reveal_strlit("turkeys");
    reveal_strlit("lamps");
    reveal_strlit("apples");
    reveal_strlit("trains");
    reveal_strlit("clouds");
    assert forall|i: int| 0 <= i < nouns_spec(language).len()
        implies lower_word(#[trigger] nouns_spec(language)[i]) by {
        assert(nouns_spec(language)[i].len() > 0);
    }
}

/// Every verb of every language is a non-empty, all-lowercase word.
pub proof fn lemma_verbs_wf(language: Language)
    ensures
        forall|i: int| 0 <= i < verbs_spec(language).len()
            ==> lower_word(#[trigger] verbs_spec(language)[i]),
{
    reveal_strlit("retire");
    reveal_strlit("care");
    reveal_strlit("listen");
    reveal_strlit("hide");
    reveal_strlit("repair");
    reveal_strlit("relate");
    reveal_strlit("occur");
    reveal_strlit("offer");
    reveal_strlit("dance");
    reveal_strlit("jump");
    reveal_strlit("sing");
    reveal_strlit("wave");
    assert forall|i: int| 0 <= i < verbs_spec(language).len()
        implies lower_word(#[trigger] verbs_spec(language)[i]) by {
        assert(verbs_spec(language)[i].len() > 0);
    }
}

} // verus!
