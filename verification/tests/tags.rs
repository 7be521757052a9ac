use ropey::Rope;
use treelix::document::{uri_or_id, DocumentId, PathOrId, Uri, UriOrDocumentId};
use treelix::query::{
    cursor_node_in_text, cursor_query_range, events_in_text, find_name_at_cursor,
    has_name_at_cursor, tags_iter, ByteRange, CapturedNode, QueryEvent,
};
use treelix::tag::{TagKind, TagRole};
use treelix::text::{listed, push_numeral, same};

fn node(capture: &str, start_byte: u32, end_byte: u32) -> CapturedNode {
    CapturedNode { capture: capture.to_string(), start_byte, end_byte }
}

fn matched(nodes: Vec<CapturedNode>) -> QueryEvent {
    QueryEvent::Match(Some(nodes))
}

fn scratch() -> UriOrDocumentId {
    UriOrDocumentId::Id(DocumentId { index: 7 })
}

const KINDS: [(TagRole, TagKind, &str); 14] = [
    (TagRole::Definition, TagKind::Class, "definition.class"),
    (TagRole::Definition, TagKind::Constant, "definition.constant"),
    (TagRole::Definition, TagKind::Enum, "definition.enum"),
    (TagRole::Definition, TagKind::Field, "definition.field"),
    (TagRole::Definition, TagKind::Function, "definition.function"),
    (TagRole::Definition, TagKind::Interface, "definition.interface"),
    (TagRole::Definition, TagKind::Macro, "definition.macro"),
    (TagRole::Definition, TagKind::Module, "definition.module"),
    (TagRole::Definition, TagKind::Section, "definition.section"),
    (TagRole::Definition, TagKind::Struct, "definition.struct"),
    (TagRole::Definition, TagKind::Type, "definition.type"),
    (TagRole::Reference, TagKind::Call, "reference.call"),
    (TagRole::Reference, TagKind::ClassRef, "reference.class"),
    (TagRole::Reference, TagKind::ImplementationRef, "reference.implementation"),
];

#[test]
fn capture_names_and_labels_are_one_notation() {
    for (role, kind, name) in KINDS {
        assert_eq!(TagKind::from_capture_name(name), Some((role, kind)));
        assert_eq!(format!("{}.{}", role.as_str(), kind.as_str()), name);
    }
}

#[test]
fn other_capture_names_announce_nothing() {
    for name in [
        "",
        ".",
        "name",
        "doc",
        "definition",
        "definition.",
        "definition.call",
        "definition.class.x",
        "Definition.class",
        "reference.function",
        "reference.enum",
        "local.definition.class",
        "definition_class",
        "d\u{e9}finition.class",
    ] {
        assert_eq!(TagKind::from_capture_name(name), None, "{name}");
    }
}

#[test]
fn strings_are_told_apart() {
    assert!(same("", ""));
    assert!(same("na\u{ef}ve", "na\u{ef}ve"));
    assert!(!same("naive", "na\u{ef}ve"));
    assert!(!same("abc", "abd"));
    assert!(!same("abc", "ab"));
    let list = vec!["rust".to_string(), "go".to_string()];
    assert!(listed(&list, "go"));
    assert!(!listed(&list, "g"));
    assert!(!listed(&Vec::new(), ""));
}

#[test]
fn numerals_are_decimal() {
    for n in [0usize, 7, 10, 42, 1000, 18_446_744_073_709_551_615] {
        let mut out = "n=".to_string();
        push_numeral(&mut out, n);
        assert_eq!(out, format!("n={n}"));
    }
}

#[test]
fn a_match_becomes_a_tag() {
    // "é" takes two bytes, so characters and bytes part ways on the first line.
    let text = Rope::from_str("// \u{e9}t\u{e9}\nfn main() {\n    run();\n}\n");
    assert_eq!(text.len_bytes(), 34);
    let events = vec![matched(vec![node("definition.function", 9, 33), node("name", 12, 16)])];
    let tags = tags_iter(&events, &text, &scratch());
    assert_eq!(tags.len(), 1);
    assert_eq!(tags[0].kind, TagKind::Function);
    assert_eq!(tags[0].role, TagRole::Definition);
    assert_eq!(tags[0].name, "main");
    assert_eq!((tags[0].start, tags[0].end), (10, 14));
    assert_eq!((tags[0].start_line, tags[0].end_line), (1, 3));
    assert!(matches!(tags[0].doc, UriOrDocumentId::Id(DocumentId { index: 7 })));
}

#[test]
fn a_match_without_name_is_named_by_its_tag() {
    let text = Rope::from_str("call(); other");
    let events = vec![matched(vec![node("reference.call", 0, 4)])];
    let tags = tags_iter(&events, &text, &scratch());
    assert_eq!(tags.len(), 1);
    assert_eq!(tags[0].kind, TagKind::Call);
    assert_eq!(tags[0].name, "call");
    assert_eq!((tags[0].start, tags[0].end), (0, 4));
    assert_eq!((tags[0].start_line, tags[0].end_line), (0, 0));
}

#[test]
fn the_last_captures_of_a_match_count() {
    let text = Rope::from_str("aa bb cc dd");
    let events = vec![matched(vec![
        node("name", 0, 2),
        node("definition.class", 0, 5),
        node("definition.struct", 3, 8),
        node("name", 9, 11),
        node("doc", 6, 8),
    ])];
    let tags = tags_iter(&events, &text, &scratch());
    assert_eq!(tags.len(), 1);
    assert_eq!(tags[0].kind, TagKind::Struct);
    assert_eq!(tags[0].name, "dd");
}

#[test]
fn tags_come_in_order_and_other_events_are_passed_over() {
    let text = Rope::from_str("a b c");
    let events = vec![
        QueryEvent::EnterInjection,
        matched(vec![node("definition.enum", 4, 5)]),
        matched(vec![node("name", 0, 1)]),
        QueryEvent::ExitInjection,
        matched(vec![]),
        matched(vec![node("definition.type", 0, 1)]),
    ];
    let tags = tags_iter(&events, &text, &scratch());
    let names: Vec<&str> = tags.iter().map(|tag| tag.name.as_str()).collect();
    assert_eq!(names, ["c", "a"]);
}

#[test]
fn only_line_feeds_break_lines() {
    let text = Rope::from_str("a\rb\u{2028}c\r\nd");
    let at = text.len_bytes() as u32 - 1;
    let events = vec![matched(vec![node("definition.field", at, at + 1)])];
    let tags = tags_iter(&events, &text, &scratch());
    assert_eq!(tags[0].name, "d");
    assert_eq!(tags[0].start_line, 1);
}

#[test]
fn an_offset_within_a_character_belongs_to_it() {
    let text = Rope::from_str("\u{e9}\u{e9}x");
    let events = vec![matched(vec![node("definition.macro", 1, 3)])];
    let tags = tags_iter(&events, &text, &scratch());
    assert_eq!((tags[0].start, tags[0].end), (0, 1));
    assert_eq!(tags[0].name, "\u{e9}");
}

#[test]
fn the_query_range_is_that_of_the_child_of_the_root() {
    let range = |start, end| ByteRange { start, end };
    assert_eq!(cursor_query_range(&vec![range(0, 90)]), range(0, 90));
    assert_eq!(cursor_query_range(&vec![range(5, 20), range(0, 90)]), range(5, 20));
    assert_eq!(
        cursor_query_range(&vec![range(7, 9), range(6, 12), range(5, 20), range(0, 90)]),
        range(5, 20)
    );
}

#[test]
fn the_cursor_must_be_on_the_name() {
    let text = Rope::from_str("fn main() {}");
    let events = vec![matched(vec![node("definition.function", 0, 12), node("name", 3, 7)])];
    assert_eq!(find_name_at_cursor(&events, &text, 2), None);
    assert_eq!(find_name_at_cursor(&events, &text, 3), Some("main".to_string()));
    assert_eq!(find_name_at_cursor(&events, &text, 6), Some("main".to_string()));
    assert_eq!(find_name_at_cursor(&events, &text, 7), None);
}

#[test]
fn without_a_name_the_cursor_must_be_on_the_tag() {
    let text = Rope::from_str("one two");
    let events = vec![matched(vec![
        node("doc", 0, 7),
        node("reference.call", 0, 3),
        node("reference.class", 4, 7),
    ])];
    assert_eq!(find_name_at_cursor(&events, &text, 1), Some("one".to_string()));
    assert_eq!(find_name_at_cursor(&events, &text, 3), None);
    assert_eq!(find_name_at_cursor(&events, &text, 5), Some("two".to_string()));
}

#[test]
fn the_first_match_at_the_cursor_names_the_tag() {
    let text = Rope::from_str("alpha beta");
    let events = vec![
        QueryEvent::Match(None),
        matched(vec![node("name", 0, 5)]),
        QueryEvent::EnterInjection,
        matched(vec![node("definition.field", 0, 10), node("name", 6, 10), node("name", 0, 2)]),
        matched(vec![node("reference.call", 0, 2)]),
        matched(vec![node("reference.call", 0, 5)]),
    ];
    assert_eq!(find_name_at_cursor(&events, &text, 0), Some("al".to_string()));
    assert_eq!(find_name_at_cursor(&events, &text, 3), Some("alpha".to_string()));
    assert_eq!(find_name_at_cursor(&events, &text, 8), Some("beta".to_string()));
    assert_eq!(find_name_at_cursor(&events, &text, 5), None);
}

#[test]
fn the_name_at_the_cursor_is_the_name_of_the_tag() {
    let text = Rope::from_str("struct Point;");
    let events = vec![matched(vec![node("definition.struct", 0, 13), node("name", 7, 12)])];
    let tags = tags_iter(&events, &text, &scratch());
    assert_eq!(find_name_at_cursor(&events, &text, 9).as_deref(), Some(tags[0].name.as_str()));
}

#[test]
fn tags_end_on_no_earlier_line_than_they_start_on() {
    let text = Rope::from_str("fn a() {\n}\n\nfn b() {}\n");
    let events = vec![
        matched(vec![node("definition.function", 0, 10), node("name", 3, 4)]),
        matched(vec![node("definition.function", 12, 21), node("name", 15, 16)]),
    ];
    let lines: Vec<(usize, usize)> = tags_iter(&events, &text, &scratch())
        .iter()
        .map(|tag| (tag.start_line, tag.end_line))
        .collect();
    assert_eq!(lines, [(0, 1), (3, 3)]);
}

#[test]
fn the_cursor_is_within_the_tag_even_if_its_node_ends_in_a_character() {
    let text = Rope::from_str("ab\u{e9}");
    let events = vec![matched(vec![node("definition.constant", 0, 3)])];
    assert_eq!(find_name_at_cursor(&events, &text, 1).unwrap(), "ab");
    let tags = tags_iter(&events, &text, &scratch());
    assert_eq!((text.char_to_byte(tags[0].start), text.char_to_byte(tags[0].end)), (0, 2));
}

#[test]
fn matches_are_held_against_the_text() {
    let text = Rope::from_str("fn main");
    let fitting = |nodes| events_in_text(&vec![QueryEvent::EnterInjection, matched(nodes)], &text);
    assert!(fitting(vec![node("definition.function", 0, 7), node("name", 3, 7)]));
    assert!(fitting(vec![node("name", 3, 9)]));
    assert!(!fitting(vec![node("definition.function", 0, 8)]));
    assert!(!fitting(vec![node("definition.function", 0, 7), node("name", 3, 8)]));
    assert!(!fitting(vec![node("definition.function", 0, 7), node("name", 7, 3)]));
    assert!(!events_in_text(&vec![QueryEvent::Match(None)], &text));
    assert!(events_in_text(&vec![QueryEvent::ExitInjection], &text));
}

#[test]
fn the_name_at_the_cursor_is_held_against_the_text() {
    let text = Rope::from_str("fn main");
    let inside = vec![matched(vec![node("definition.function", 0, 7), node("name", 3, 7)])];
    assert!(has_name_at_cursor(&inside, 3));
    assert!(!has_name_at_cursor(&inside, 2));
    assert!(cursor_node_in_text(&inside, &text, 3));
    let outside = vec![matched(vec![node("definition.function", 0, 7), node("name", 3, 8)])];
    assert!(!cursor_node_in_text(&outside, &text, 3));
    assert!(cursor_node_in_text(&outside, &text, 2));
}

#[test]
fn documents_go_by_location_or_identity() {
    let id = DocumentId { index: 3 };
    let file = Uri { path: Some("/w/a.rs".to_string()), text: "file:///w/a.rs".to_string() };
    let other = Uri { path: None, text: "git:a.rs".to_string() };
    assert!(matches!(uri_or_id(&None, id), UriOrDocumentId::Id(DocumentId { index: 3 })));
    let doc = uri_or_id(&Some(file), id);
    assert!(matches!(doc.path_or_id(), Some(PathOrId::Path("/w/a.rs"))));
    assert!(matches!(doc.clone().path_or_id(), Some(PathOrId::Path("/w/a.rs"))));
    assert!(uri_or_id(&Some(other), id).path_or_id().is_none());
    assert!(matches!(
        UriOrDocumentId::Id(id).path_or_id(),
        Some(PathOrId::Id(DocumentId { index: 3 }))
    ));
}
