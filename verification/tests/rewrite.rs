use apollo_composition::rewrite::{chars_of, replace_all, rewrite_message};

const TEXTS: [&str; 12] = [
    "",
    "a",
    "aaa",
    "aaaa",
    "abcabc",
    "svc_a cannot reach svc_ab",
    "the subgraph \"connectors_Query_users_0\" and connectors_Query_user_0",
    "ababab",
    "x",
    "héllo wörld héllo",
    "日本語のテキスト日本",
    "aXbXc",
];

const WORDS: [&str; 12] =
    ["", "a", "aa", "ab", "abc", "svc_a", "bab", "X", "é", "héllo", "日本", "connectors_Query_users_0"];

#[test]
fn the_characters_of_a_text() {
    assert_eq!(chars_of("héy"), vec!['h', 'é', 'y']);
    assert_eq!(chars_of(""), Vec::<char>::new());
}

#[test]
fn replacing_agrees_with_the_standard_library() {
    for text in TEXTS {
        for from in WORDS {
            for to in WORDS {
                assert_eq!(
                    replace_all(text, from, to),
                    text.replace(from, to),
                    "{text:?} {from:?} {to:?}"
                );
            }
        }
    }
}

#[test]
fn every_occurrence_is_replaced() {
    assert_eq!(replace_all("svc_a needs svc_a", "svc_a", "billing"), "billing needs billing");
}

#[test]
fn occurrences_are_taken_from_the_left() {
    assert_eq!(replace_all("aaa", "aa", "b"), "ba");
    assert_eq!(replace_all("ababa", "aba", "x"), "xba");
}

#[test]
fn a_name_inside_a_longer_word_is_replaced_too() {
    assert_eq!(replace_all("svc_ab and xsvc_a", "svc_a", "billing"), "billingb and xbilling");
}

#[test]
fn a_text_without_the_name_is_unchanged() {
    assert_eq!(replace_all("nothing to see", "svc_a", "billing"), "nothing to see");
    assert_eq!(replace_all("sv", "svc_a", "billing"), "sv");
    assert_eq!(replace_all("", "svc_a", "billing"), "");
}

#[test]
fn the_empty_name_occurs_around_every_character() {
    assert_eq!(replace_all("abc", "", "-"), "-a-b-c-");
    assert_eq!(replace_all("", "", "-"), "-");
}

#[test]
fn a_message_is_rewritten_pair_by_pair() {
    let names = vec![
        ("svc_a".to_string(), "billing".to_string()),
        ("svc_b".to_string(), "users".to_string()),
    ];
    assert_eq!(
        rewrite_message("svc_a calls svc_b, svc_b calls svc_a".to_string(), &names),
        "billing calls users, users calls billing"
    );
    assert_eq!(rewrite_message("untouched".to_string(), &names), "untouched");
    assert_eq!(rewrite_message("svc_a".to_string(), &vec![]), "svc_a");
}

#[test]
fn a_later_pair_sees_what_an_earlier_pair_left() {
    let names =
        vec![("one".to_string(), "two".to_string()), ("two".to_string(), "three".to_string())];
    assert_eq!(rewrite_message("one two".to_string(), &names), "three three");
    let reversed =
        vec![("two".to_string(), "three".to_string()), ("one".to_string(), "two".to_string())];
    assert_eq!(rewrite_message("one two".to_string(), &reversed), "two three");
}
