use turbo_notes::note::found_in_texts;
use turbo_notes::strings::{all_distinct, copy_texts, holds_text, lowered_texts, position_of};

fn strings(items: &[&str]) -> Vec<String> {
    items.iter().map(|s| s.to_string()).collect()
}

#[test]
fn copy_texts_copies_each_string() {
    let v = strings(&["a", "", "héllo", "a"]);
    assert_eq!(copy_texts(&v), v);
    assert!(copy_texts(&Vec::new()).is_empty());
}

#[test]
fn lowered_texts_lowers_each_string() {
    assert_eq!(lowered_texts(&strings(&["Work", "HOME", "", "ÄÖ", "ok"])), strings(&["work", "home", "", "äö", "ok"]));
    assert!(lowered_texts(&Vec::new()).is_empty());
}

#[test]
fn position_of_gives_the_first_place() {
    let v = strings(&["a", "b", "a", "c"]);
    assert_eq!(position_of(&v, "a"), Some(0));
    assert_eq!(position_of(&v, "b"), Some(1));
    assert_eq!(position_of(&v, "c"), Some(3));
    assert_eq!(position_of(&v, "d"), None);
    assert_eq!(position_of(&v, "A"), None);
    assert_eq!(position_of(&v, ""), None);
    assert_eq!(position_of(&Vec::new(), "a"), None);
}

#[test]
fn holds_text_tells_whether_the_text_is_there() {
    let v = strings(&["a", "bc", ""]);
    assert!(holds_text(&v, "a"));
    assert!(holds_text(&v, "bc"));
    assert!(holds_text(&v, ""));
    assert!(!holds_text(&v, "b"));
    assert!(!holds_text(&v, "abc"));
    assert!(!holds_text(&Vec::new(), ""));
}

#[test]
fn all_distinct_tells_whether_a_text_occurs_twice() {
    assert!(all_distinct(&Vec::new()));
    assert!(all_distinct(&strings(&["a"])));
    assert!(all_distinct(&strings(&["a", "b", "A", ""])));
    assert!(!all_distinct(&strings(&["a", "a"])));
    assert!(!all_distinct(&strings(&["a", "b", "c", "b"])));
    assert!(!all_distinct(&strings(&["", "x", ""])));
}

#[test]
fn found_in_texts_looks_in_the_content_and_in_each_tag() {
    let tags = strings(&["home", "work"]);
    assert!(found_in_texts("buy milk", &tags, "milk"));
    assert!(found_in_texts("buy milk", &tags, "ome"));
    assert!(found_in_texts("buy milk", &tags, "work"));
    assert!(found_in_texts("buy milk", &tags, ""));
    assert!(found_in_texts("", &Vec::new(), ""));
    assert!(!found_in_texts("buy milk", &tags, "Milk"));
    assert!(!found_in_texts("buy milk", &tags, "homework"));
    assert!(!found_in_texts("buy milk", &Vec::new(), "home"));
}

#[test]
fn found_in_texts_matches_whole_characters_only() {
    assert!(!found_in_texts("é", &Vec::new(), "ө"));
    assert!(found_in_texts("aéb", &Vec::new(), "éb"));
}
