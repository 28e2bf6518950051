use gloss_word::mode::Mode;
use gloss_word::slicer::{marker, slice_document};
use gloss_word::text::{chars_of, concatenate, matches_at, replace_literal};

#[test]
fn definition_slice_stops_at_marker() {
    let page = "<p>kept</p><div id=\"Thesaurus\"><p>dropped</p>";
    assert_eq!(slice_document(page, Mode::Definition), "<p>kept</p>");
}

#[test]
fn definition_slice_without_marker_is_whole_page() {
    let page = "<p>kept</p><div id=\"Thesaurus\"";
    assert_eq!(slice_document(page, Mode::Definition), page);
    assert_eq!(slice_document("", Mode::Definition), "");
}

#[test]
fn definition_slice_stops_at_first_of_two_markers() {
    let page = "a<div id=\"Thesaurus\">b<div id=\"Thesaurus\">c";
    assert_eq!(slice_document(page, Mode::Definition), "a");
}

#[test]
fn definition_slice_of_page_that_starts_with_marker_is_empty() {
    let page = "<div id=\"Thesaurus\">rest";
    assert_eq!(slice_document(page, Mode::Definition), "");
}

#[test]
fn definition_slice_counts_characters_not_bytes() {
    let page = "at·a·vism — «x»<div id=\"Thesaurus\">ī′";
    assert_eq!(slice_document(page, Mode::Definition), "at·a·vism — «x»");
}

#[test]
fn definition_slice_excludes_the_marker_itself() {
    let page = "head<div id=\"Thesaurus\">tail";
    let slice = slice_document(page, Mode::Definition);
    assert!(!slice.contains(marker()));
    assert!(page.starts_with(slice.as_str()));
}

#[test]
fn etymology_slice_is_whole_page() {
    let page = "<p>kept</p><div id=\"Thesaurus\"><p>also kept</p>";
    assert_eq!(slice_document(page, Mode::Etymology), page);
}

#[test]
fn marker_is_the_thesaurus_container() {
    assert_eq!(marker(), "<div id=\"Thesaurus\">");
}

#[test]
fn chars_of_gives_each_character() {
    assert_eq!(chars_of("aī′"), vec!['a', 'ī', '′']);
    assert_eq!(chars_of(""), Vec::<char>::new());
}

#[test]
fn matches_at_looks_at_one_position() {
    let text = chars_of("abcabc");
    let pattern = chars_of("bc");
    assert!(!matches_at(&text, &pattern, 0));
    assert!(matches_at(&text, &pattern, 1));
    assert!(matches_at(&text, &pattern, 4));
    assert!(!matches_at(&text, &pattern, 5));
    assert!(!matches_at(&text, &pattern, 7));
    assert!(matches_at(&text, &chars_of(""), 6));
}

#[test]
fn replace_literal_replaces_from_the_left_without_overlap() {
    assert_eq!(replace_literal("aaa", "aa", "b"), "ba");
    assert_eq!(replace_literal("a b  c", " ", "%20"), "a%20b%20%20c");
    assert_eq!(replace_literal("abc", "x", "y"), "abc");
    assert_eq!(replace_literal("abc", "abcd", "y"), "abc");
    assert_eq!(replace_literal("abc", "abc", ""), "");
}

#[test]
fn replace_literal_with_empty_pattern_keeps_text() {
    assert_eq!(replace_literal("abc", "", "y"), "abc");
}

#[test]
fn concatenate_joins_in_order_with_nothing_between() {
    let pieces = vec!["<h2>a</h2>".to_string(), String::new(), "<hr>".to_string()];
    assert_eq!(concatenate(&pieces), "<h2>a</h2><hr>");
    assert_eq!(concatenate(&Vec::new()), "");
}
