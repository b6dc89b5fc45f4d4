use human_id::capitalize;
use human_id::custom_id;
use human_id::custom_id_in_language;
use human_id::generate_many;
use human_id::id;
use human_id::words::adjectives;
use human_id::words::nouns;
use human_id::words::verbs;
use human_id::Language;
use human_id::NO_SEPARATOR;

fn capitals<S>(s: S) -> usize
where
    S: Into<String>,
{
    s.into().chars().filter(|c| c.is_uppercase()).count()
}

#[test]
fn it_works_with_separator_and_no_capitalize() {
    let the_id = custom_id("-", false);

    let capitals = capitals(&the_id);
    assert_eq!(capitals, 0);

    let parts = the_id.split("-").collect::<Vec<&str>>();
    assert_eq!(parts.len(), 3);
    assert!(adjectives(Language::En).contains(&parts[0]));
    assert!(nouns(Language::En).contains(&parts[1]));
    assert!(verbs(Language::En).contains(&parts[2]));
}

#[test]
fn it_works_without_separator_and_capitalized() {
    let the_id = custom_id("", true);

    let capitals = capitals(&the_id);
    assert_eq!(capitals, 3);
}

#[test]
fn empty_separator_concatenates_three_catalog_words() {
    let the_id = custom_id("", false);

    let mut found = false;
    for a in adjectives(Language::En) {
        for n in nouns(Language::En) {
            for v in verbs(Language::En) {
                if format!("{}{}{}", a, n, v) == the_id {
                    found = true;
                }
            }
        }
    }
    assert!(found);
}

#[test]
fn chosen_language_draws_from_its_catalog() {
    let the_id = custom_id_in_language("/", false, Language::En);

    let parts = the_id.split("/").collect::<Vec<&str>>();
    assert_eq!(parts.len(), 3);
    assert!(adjectives(Language::En).contains(&parts[0]));
    assert!(nouns(Language::En).contains(&parts[1]));
    assert!(verbs(Language::En).contains(&parts[2]));
}

#[test]
fn default_id_has_three_capitals_and_no_separator() {
    let the_id = id();

    assert_eq!(capitals(&the_id), 3);
    assert!(!the_id.is_empty());
    assert!(the_id.chars().all(|c| c.is_ascii_alphabetic()));
}

#[test]
fn no_separator_is_the_empty_string() {
    assert_eq!(NO_SEPARATOR, "");
}

#[test]
fn count_of_five_gives_five_lines() {
    let ids = generate_many(5, "-", false, Language::En);
    assert_eq!(ids.len(), 5);
    let output = ids.join("\n");
    assert_eq!(output.lines().count(), 5);
    for line in output.lines() {
        assert_eq!(line.split("-").count(), 3);
    }
}

#[test]
fn count_of_zero_gives_no_output() {
    let ids = generate_many(0, "-", true, Language::En);
    assert!(ids.is_empty());
}

#[test]
fn capitalize_uppercases_only_the_first_letter() {
    assert_eq!(capitalize("tame"), "Tame");
    assert_eq!(capitalize("chatty"), "Chatty");
    assert_eq!(capitalize("a"), "A");
    assert_eq!(capitalize(""), "");
    assert_eq!(capitalize("Already"), "Already");
}

#[test]
fn capitalize_is_unicode_aware() {
    assert_eq!(capitalize("\u{fc}ber"), "\u{dc}ber");
    assert_eq!(capitalize("\u{e9}tude"), "\u{c9}tude");
}

#[test]
fn example_identifiers_are_possible() {
    assert!(adjectives(Language::En).contains(&"tame"));
    assert!(nouns(Language::En).contains(&"lions"));
    assert!(verbs(Language::En).contains(&"retire"));

    assert!(adjectives(Language::En).contains(&"chatty"));
    assert!(nouns(Language::En).contains(&"wombats"));
    assert!(verbs(Language::En).contains(&"care"));
    assert_eq!(
        format!(
            "{}{}{}",
            capitalize("chatty"),
            capitalize("wombats"),
            capitalize("care")
        ),
        "ChattyWombatsCare"
    );
}

#[test]
fn catalog_lists_are_non_empty_and_lowercase() {
    for list in [
        adjectives(Language::En),
        nouns(Language::En),
        verbs(Language::En),
    ] {
        assert!(!list.is_empty());
        for word in list {
            assert!(!word.is_empty());
            assert!(word.chars().all(|c| c.is_ascii_lowercase()));
        }
    }
}

#[test]
fn valid_language_tags_resolve() {
    assert_eq!(Language::from_str("en").unwrap(), Language::En);
    assert_eq!(Language::from_str("EN").unwrap(), Language::En);
}

#[test]
fn invalid_language_tag_is_rejected() {
    let err = Language::from_str("xx").unwrap_err();
    assert_eq!(
        err,
        "The string 'xx' is not a valid identifier, or supported language"
    );
    assert!(Language::from_str("").is_err());
    assert!(Language::from_str("En").is_err());
    assert!(Language::from_str("fr").is_err());
}

#[test]
fn language_default_and_code() {
    assert_eq!(Language::default(), Language::En);
    assert_eq!(Language::En.code(), "en");
}
