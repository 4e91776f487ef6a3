use turbo_notes::{Note, Timestamp};

fn at(secs: i64, nanos: u32) -> Timestamp {
    Timestamp::new(secs, nanos).expect("an instant of the calendar")
}

fn note(content: &str, secs: i64) -> Note {
    Note::created(content.to_string(), at(secs, 0))
}

fn tags_of(n: &Note) -> Vec<&str> {
    n.tags().iter().map(|t| t.as_str()).collect()
}

#[test]
fn new_note_has_content_and_no_tags() {
    let n = Note::new("buy milk".to_string());
    assert_eq!(n.content(), "buy milk");
    assert!(n.tags().is_empty());
}

#[test]
fn new_note_has_equal_timestamps() {
    let n = Note::new("buy milk".to_string());
    assert_eq!(n.created_at(), n.updated_at());
}

#[test]
fn new_note_reads_the_clock() {
    let before = chrono::Utc::now().timestamp();
    let n = Note::new("now".to_string());
    let after = chrono::Utc::now().timestamp();
    assert!(before <= n.created_at().secs());
    assert!(n.created_at().secs() <= after);
    assert!(n.created_at().nanos() < 1_000_000_000);
}

#[test]
fn new_note_id_is_the_nanoseconds_of_its_making() {
    let n = Note::new("id".to_string());
    let t = n.created_at();
    let expected = (t.secs() as i128) * 1_000_000_000 + t.nanos() as i128;
    assert_eq!(n.id().as_str(), expected.to_string());
    assert!(!n.id().is_empty());
}

#[test]
fn created_note_id_formula() {
    assert_eq!(Note::created("a".to_string(), at(1, 5)).id(), "1000000005");
    assert_eq!(Note::created("a".to_string(), at(0, 0)).id(), "0");
    assert_eq!(Note::created("a".to_string(), at(1431648000, 123456789)).id(), "1431648000123456789");
}

#[test]
fn created_note_id_before_the_epoch() {
    assert_eq!(Note::created("a".to_string(), at(-1, 0)).id(), "-1000000000");
    assert_eq!(Note::created("a".to_string(), at(-1, 999_999_999)).id(), "-1");
}

#[test]
fn created_note_id_at_the_limits_of_64_bits() {
    assert_eq!(
        Note::created("a".to_string(), at(9_223_372_036, 854_775_807)).id(),
        "9223372036854775807"
    );
    assert_eq!(Note::created("a".to_string(), at(9_223_372_036, 854_775_808)).id(), "0");
    assert_eq!(
        Note::created("a".to_string(), at(-9_223_372_037, 145_224_192)).id(),
        "-9223372036854775808"
    );
    assert_eq!(Note::created("a".to_string(), at(-9_223_372_037, 145_224_191)).id(), "0");
    assert_eq!(Note::created("a".to_string(), at(10_000_000_000, 0)).id(), "0");
}

#[test]
fn created_note_id_agrees_with_chrono() {
    for (secs, nanos) in [(0i64, 0u32), (59, 1_999_999_999), (-1, 1), (1_700_000_000, 42)] {
        let expected = chrono::DateTime::from_timestamp(secs, nanos)
            .unwrap()
            .timestamp_nanos_opt()
            .unwrap_or(0);
        assert_eq!(Note::created("a".to_string(), at(secs, nanos)).id().as_str(), expected.to_string());
    }
}

#[test]
fn update_content_replaces_text_and_bumps_updated_at() {
    let mut n = note("old", 100);
    n.update_content_at("new".to_string(), at(200, 1));
    assert_eq!(n.content(), "new");
    assert_eq!(n.created_at(), at(100, 0));
    assert_eq!(n.updated_at(), at(200, 1));
    assert_eq!(n.id(), "100000000000");
}

#[test]
fn update_content_never_puts_the_change_before_the_making() {
    let mut n = note("old", 100);
    n.update_content_at("new".to_string(), at(50, 0));
    assert_eq!(n.content(), "new");
    assert_eq!(n.created_at(), at(100, 0));
    assert_eq!(n.updated_at(), at(100, 0));
}

#[test]
fn update_content_with_the_clock() {
    let mut n = note("old", 100);
    n.update_content("new".to_string());
    assert_eq!(n.content(), "new");
    assert_eq!(n.created_at(), at(100, 0));
    assert!(n.created_at().at_or_before(&n.updated_at()));
    assert!(n.updated_at().secs() > 1_600_000_000);
}

#[test]
fn add_tag_appends_in_order() {
    let mut n = note("x", 100);
    n.add_tag_at("work".to_string(), at(101, 0));
    n.add_tag_at("home".to_string(), at(102, 0));
    assert_eq!(tags_of(&n), vec!["work", "home"]);
    assert_eq!(n.updated_at(), at(102, 0));
}

#[test]
fn add_tag_twice_is_a_no_op() {
    let mut n = note("x", 100);
    n.add_tag_at("work".to_string(), at(101, 0));
    n.add_tag_at("work".to_string(), at(500, 0));
    assert_eq!(tags_of(&n), vec!["work"]);
    assert_eq!(n.updated_at(), at(101, 0));
}

#[test]
fn add_tag_is_case_sensitive() {
    let mut n = note("x", 100);
    n.add_tag("work".to_string());
    n.add_tag("Work".to_string());
    assert_eq!(tags_of(&n), vec!["work", "Work"]);
}

#[test]
fn remove_tag_takes_it_away() {
    let mut n = note("x", 100);
    n.add_tag_at("a".to_string(), at(101, 0));
    n.add_tag_at("b".to_string(), at(102, 0));
    n.add_tag_at("c".to_string(), at(103, 0));
    n.remove_tag_at("b", at(104, 0));
    assert_eq!(tags_of(&n), vec!["a", "c"]);
    assert_eq!(n.updated_at(), at(104, 0));
}

#[test]
fn remove_absent_tag_is_a_no_op() {
    let mut n = note("x", 100);
    n.add_tag_at("a".to_string(), at(101, 0));
    n.remove_tag_at("zzz", at(900, 0));
    assert_eq!(tags_of(&n), vec!["a"]);
    assert_eq!(n.updated_at(), at(101, 0));
    n.remove_tag("A");
    assert_eq!(tags_of(&n), vec!["a"]);
    assert_eq!(n.updated_at(), at(101, 0));
}

#[test]
fn remove_tag_with_the_clock() {
    let mut n = note("x", 100);
    n.add_tag("a".to_string());
    n.remove_tag("a");
    assert!(n.tags().is_empty());
    assert!(n.created_at().at_or_before(&n.updated_at()));
}

#[test]
fn matches_search_in_content_without_regard_to_case() {
    let n = note("Buy MILK today", 1);
    assert!(n.matches_search("milk"));
    assert!(n.matches_search("MILK"));
    assert!(n.matches_search("y mi"));
    assert!(n.matches_search("Buy MILK today"));
    assert!(!n.matches_search("bread"));
    assert!(!n.matches_search("milk  today"));
}

#[test]
fn matches_search_in_tags() {
    let mut n = note("nothing here", 1);
    n.add_tag("Shopping".to_string());
    n.add_tag("home".to_string());
    assert!(n.matches_search("shop"));
    assert!(n.matches_search("HOME"));
    assert!(!n.matches_search("shophome"));
    assert!(!n.matches_search("work"));
}

#[test]
fn matches_search_empty_query_matches_everything() {
    assert!(note("anything", 1).matches_search(""));
    assert!(note("", 1).matches_search(""));
}

#[test]
fn matches_search_beyond_ascii() {
    let n = note("Grüße aus ÖSTERREICH", 1);
    assert!(n.matches_search("österreich"));
    assert!(n.matches_search("GRÜ"));
    assert!(n.matches_search("ü"));
    assert!(!n.matches_search("grusse"));
    assert!(!n.matches_search("o"));
}

#[test]
fn preview_of_short_content_is_the_content() {
    let n = note("short", 1);
    assert_eq!(n.preview(10), "short");
    assert_eq!(n.preview(5), "short");
    assert_eq!(n.preview(usize::MAX), "short");
}

#[test]
fn preview_cuts_and_marks_long_content() {
    let n = note("a long note", 1);
    assert_eq!(n.preview(6), "a long...");
    assert_eq!(n.preview(1), "a...");
    assert_eq!(n.preview(0), "...");
    assert_eq!(n.preview(10), "a long not...");
}

#[test]
fn preview_counts_characters_not_bytes() {
    let n = note("héllo wörld", 1);
    assert_eq!(n.preview(2), "hé...");
    assert_eq!(n.preview(8), "héllo wö...");
    assert_eq!(n.preview(11), "héllo wörld");
    let n = note("日本語のノート", 1);
    assert_eq!(n.preview(3), "日本語...");
    assert_eq!(n.preview(7), "日本語のノート");
    let n = note("🚀🚀🚀", 1);
    assert_eq!(n.preview(1), "🚀...");
    assert_eq!(n.preview(3), "🚀🚀🚀");
}

#[test]
fn preview_of_empty_content() {
    let n = note("", 1);
    assert_eq!(n.preview(0), "");
    assert_eq!(n.preview(5), "");
}

#[test]
fn from_parts_keeps_the_parts() {
    let n = Note::from_parts(
        "id-7".to_string(),
        "text".to_string(),
        at(10, 0),
        at(20, 0),
        vec!["a".to_string(), "b".to_string()],
    )
    .expect("a well-formed note");
    assert_eq!(n.id(), "id-7");
    assert_eq!(n.content(), "text");
    assert_eq!(n.created_at(), at(10, 0));
    assert_eq!(n.updated_at(), at(20, 0));
    assert_eq!(tags_of(&n), vec!["a", "b"]);
}

#[test]
fn from_parts_refuses_a_change_before_the_making() {
    assert!(Note::from_parts("i".to_string(), "t".to_string(), at(20, 0), at(10, 0), vec![]).is_none());
    assert!(Note::from_parts("i".to_string(), "t".to_string(), at(20, 1), at(20, 0), vec![]).is_none());
    assert!(Note::from_parts("i".to_string(), "t".to_string(), at(20, 0), at(20, 0), vec![]).is_some());
}

#[test]
fn from_parts_refuses_a_tag_that_occurs_twice() {
    let twice = vec!["a".to_string(), "b".to_string(), "a".to_string()];
    assert!(Note::from_parts("i".to_string(), "t".to_string(), at(1, 0), at(1, 0), twice).is_none());
    let once = vec!["a".to_string(), "b".to_string(), "A".to_string()];
    assert!(Note::from_parts("i".to_string(), "t".to_string(), at(1, 0), at(1, 0), once).is_some());
}

#[test]
fn clone_copies_every_part() {
    let mut n = note("text", 10);
    n.add_tag_at("a".to_string(), at(11, 0));
    let c = n.clone();
    assert_eq!(c.id(), n.id());
    assert_eq!(c.content(), n.content());
    assert_eq!(c.created_at(), n.created_at());
    assert_eq!(c.updated_at(), n.updated_at());
    assert_eq!(c.tags(), n.tags());
}
