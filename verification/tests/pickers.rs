use std::path::Path;

use grep_searcher::sinks::UTF8;
use ropey::Rope;
use treelix::cache::SyntaxCache;
use treelix::delivery::Delivery;
use treelix::document::{DocumentId, PathOrId, Uri, UriOrDocumentId};
use treelix::goto::{
    cursor_byte, spawn_workspace_tag_scan, syntax_goto_definition, syntax_goto_references,
    GotoDocument, GotoSyntax, ScanStart,
};
use treelix::path::{path_listed, same_path, FilePath};
use treelix::picker::{
    jump_target, kind_column, label_column, open_failure, path_column, place_column, preview,
    shown_path, shown_place, TagPicker,
};
use treelix::query::{CapturedNode, QueryEvent};
use treelix::scan::{FileScan, ScanAction};
use treelix::select::TagFilter;
use treelix::symbols::{syntax_symbol_picker, OpenDocument, PickerError};
use treelix::tag::{Tag, TagKind, TagRole};
use treelix::walk::{
    build_goto_walk_builder, entry_filter, file_searcher, visit_entry, walk_state,
    workspace_lookup, FilePickerConfig, OpenPaths, Visit, WalkEntry, WalkState, WorkspaceLookup,
};
use treelix::workspace::{
    syntax_workspace_symbol_picker, QueryAction, QueryStart, WorkspacePicker, WorkspaceQuery,
};

fn node(capture: &str, start_byte: u32, end_byte: u32) -> CapturedNode {
    CapturedNode { capture: capture.to_string(), start_byte, end_byte }
}

fn matched(capture: &str, start_byte: u32, end_byte: u32) -> QueryEvent {
    QueryEvent::Match(Some(vec![node(capture, start_byte, end_byte)]))
}

fn uri(path: &str) -> Uri {
    Uri { path: Some(path.to_string()), text: format!("file://{path}") }
}

fn file_path(path: &str) -> FilePath {
    let components = Path::new(path).components();
    FilePath { components: components.map(|c| c.as_os_str().as_encoded_bytes().to_vec()).collect() }
}

fn tag(name: &str, start: usize, end: usize, doc: UriOrDocumentId) -> Tag {
    Tag {
        kind: TagKind::Function,
        role: TagRole::Definition,
        name: name.to_string(),
        start,
        end,
        start_line: 4,
        end_line: 6,
        doc,
    }
}

fn scratch() -> UriOrDocumentId {
    UriOrDocumentId::Id(DocumentId { index: 1 })
}

/// `alpha` and `Beta` are defined, `alpha` is called.
fn sample_text() -> Rope {
    Rope::from_str("alpha Beta alpha")
}

fn sample_events() -> Vec<QueryEvent> {
    vec![
        matched("definition.function", 0, 5),
        matched("definition.class", 6, 10),
        matched("reference.call", 11, 16),
    ]
}

fn sample(uri: Option<Uri>, events: Option<Vec<QueryEvent>>) -> OpenDocument {
    OpenDocument { id: DocumentId { index: 9 }, uri, text: sample_text(), events }
}

fn config() -> FilePickerConfig {
    FilePickerConfig {
        hidden: true,
        parents: true,
        ignore: true,
        follow_symlinks: true,
        git_ignore: true,
        git_global: true,
        git_exclude: true,
        max_depth: None,
        deduplicate_links: true,
    }
}

fn workspace_picker(smart_case: bool) -> WorkspacePicker<&'static str> {
    let root = "/w".to_string();
    syntax_workspace_symbol_picker(&config(), smart_case, None, root, "/w", None, "/c/ignore")
}

fn search(smart_case: bool, query: &str) -> WorkspaceQuery {
    match workspace_picker(smart_case).state.begin_query(query) {
        QueryStart::Search(running) => running,
        _ => panic!("{query} is a query"),
    }
}

fn names(tags: &[Tag]) -> Vec<&str> {
    tags.iter().map(|tag| tag.name.as_str()).collect()
}

#[test]
fn the_symbol_picker_lists_definitions() {
    let document = sample(Some(uri("/w/a.rs")), Some(sample_events()));
    let tags = syntax_symbol_picker(&document).unwrap();
    assert_eq!(names(&tags), ["alpha", "Beta"]);
    assert!(matches!(tags[0].doc, UriOrDocumentId::Id(DocumentId { index: 9 })));
}

#[test]
fn the_symbol_picker_needs_a_syntax_tree() {
    let error = syntax_symbol_picker(&sample(None, None)).unwrap_err();
    assert_eq!(error, PickerError::NoSyntaxTree);
    assert_eq!(error.message(), "Syntax tree is not available on this buffer");
}

#[test]
fn the_workspace_picker_is_set_up() {
    let picker = syntax_workspace_symbol_picker(
        &config(),
        true,
        Some('a'),
        "/w".to_string(),
        "/w",
        Some("/real/w"),
        "/c/ignore",
    );
    assert_eq!(picker.register, 'a');
    assert_eq!(picker.debounce, 275);
    assert_eq!(picker.state.search_root, "/w");
    assert_eq!(picker.entry_filter.absolute_root, "/real/w");
    assert!(picker.entry_filter.deduplicate_links);
    assert!(picker.state.smart_case);
    assert!(picker.state.syntax_cache.needs_parse(&file_path("/w/a.rs")));
    assert_eq!(workspace_picker(false).register, '/');
    assert_eq!(workspace_picker(false).entry_filter.absolute_root, "/w");
}

#[test]
fn short_queries_are_ignored() {
    let state = workspace_picker(false).state;
    for query in ["", "ab", "\u{e9}", "(("] {
        assert!(matches!(state.begin_query(query), QueryStart::Ignored), "{query}");
    }
    // Bytes are counted, not characters.
    assert!(matches!(state.begin_query("\u{e9}a"), QueryStart::Search(_)));
    assert!(matches!(state.begin_query("abc"), QueryStart::Search(_)));
}

#[test]
fn a_query_that_is_no_pattern_is_rejected() {
    match workspace_picker(false).state.begin_query("a(b") {
        QueryStart::Rejected(message) => assert!(message.len() > 0),
        _ => panic!("an open group is no pattern"),
    }
}

fn offered(query: &mut WorkspaceQuery, documents: &Vec<OpenDocument>) -> Vec<String> {
    let mut names = Vec::new();
    let mut action = query.look_through(documents);
    while let QueryAction::Offer(tag) = action {
        names.push(tag.name);
        action = query.answered(true);
    }
    assert!(matches!(action, QueryAction::CheckRoot));
    names
}

#[test]
fn a_query_finds_definitions_in_open_documents() {
    let documents = vec![
        sample(None, Some(sample_events())),
        sample(None, None),
        sample(Some(uri("/w/b.rs")), Some(sample_events())),
    ];
    assert_eq!(offered(&mut search(false, "alp"), &documents), ["alpha", "alpha"]);
    assert_eq!(
        offered(&mut search(false, "[a-z]{4}"), &documents),
        ["alpha", "alpha"]
    );
    assert_eq!(
        offered(&mut search(false, "\\w{4}"), &documents),
        ["alpha", "Beta", "alpha", "Beta"]
    );
}

#[test]
fn smart_case_disregards_case_in_open_documents() {
    let documents = vec![sample(None, Some(sample_events()))];
    assert_eq!(offered(&mut search(false, "beta"), &documents), Vec::<String>::new());
    assert_eq!(offered(&mut search(true, "beta"), &documents), ["Beta"]);
    assert_eq!(offered(&mut search(true, "BETA"), &documents), ["Beta"]);
}

#[test]
fn a_name_is_matched_where_it_stands() {
    let documents = vec![sample(None, Some(sample_events()))];
    // The text around a name is no part of it, but can be looked at.
    assert_eq!(offered(&mut search(false, "alpha Beta"), &documents), Vec::<String>::new());
    assert_eq!(offered(&mut search(false, "^...."), &documents), ["alpha"]);
    assert_eq!(offered(&mut search(false, "\\bBeta\\b"), &documents), ["Beta"]);
}

#[test]
fn tags_of_open_documents_go_by_location() {
    let documents = vec![
        sample(Some(uri("/w/b.rs")), Some(sample_events())),
        sample(None, Some(sample_events())),
    ];
    let mut query = search(false, "Beta");
    match query.look_through(&documents) {
        QueryAction::Offer(tag) => {
            assert!(matches!(tag.doc.path_or_id(), Some(PathOrId::Path("/w/b.rs"))))
        }
        _ => panic!("there is a tag"),
    }
    match query.answered(true) {
        QueryAction::Offer(tag) => assert!(matches!(
            tag.doc.path_or_id(),
            Some(PathOrId::Id(DocumentId { index: 9 }))
        )),
        _ => panic!("there is another tag"),
    }
}

#[test]
fn a_closed_picker_ends_the_query() {
    let documents = vec![sample(None, Some(sample_events()))];
    let mut query = search(false, "\\w{4}");
    assert!(matches!(query.look_through(&documents), QueryAction::Offer(_)));
    let action = query.answered(false);
    assert!(matches!(action, QueryAction::Finish));
    assert_eq!(action.error(), None);
    assert!(matches!(query.answered(true), QueryAction::Finish));
}

#[test]
fn a_query_goes_on_to_the_workspace() {
    let query = search(true, "alpha");
    let missing = query.root_checked(false);
    assert!(matches!(missing, QueryAction::MissingRoot));
    assert_eq!(missing.error(), Some("Current working directory does not exist"));
    match query.root_checked(true) {
        QueryAction::Walk { matcher, .. } => {
            assert_eq!(matches_in(&matcher, b"one ALPHA two\n"), 1);
            assert_eq!(matches_in(&matcher, b"one\n"), 0);
        }
        _ => panic!("the query can be grepped for"),
    }
}

#[test]
fn smart_case_in_files_regards_capitals() {
    match search(true, "Alpha").root_checked(true) {
        QueryAction::Walk { matcher, .. } => {
            assert_eq!(matches_in(&matcher, b"alpha\n"), 0);
            assert_eq!(matches_in(&matcher, b"Alpha\n"), 1);
        }
        _ => panic!("the query can be grepped for"),
    }
    match search(false, "alpha").root_checked(true) {
        QueryAction::Walk { matcher, .. } => assert_eq!(matches_in(&matcher, b"ALPHA\n"), 0),
        _ => panic!("the query can be grepped for"),
    }
}

#[test]
fn a_query_that_cannot_be_grepped_for_ends() {
    // Whether this can be grepped for is decided by `grep_regex` alone.
    let query = WorkspaceQuery {
        query: "a(b".to_string(),
        smart_case: false,
        filter: TagFilter::Definitions,
        delivery: Delivery::new(Vec::new()),
    };
    let action = query.root_checked(true);
    assert!(matches!(action, QueryAction::BadPattern(_)));
    assert_eq!(action.error(), Some("Failed to compile regex"));
}

fn matches_in(matcher: &grep_regex::RegexMatcher, content: &[u8]) -> usize {
    let mut count = 0;
    let mut searcher = file_searcher();
    searcher
        .search_slice(
            matcher,
            content,
            UTF8(|_, _| {
                count += 1;
                Ok(true)
            }),
        )
        .unwrap();
    count
}

#[test]
fn the_searcher_quits_at_nul() {
    match search(false, "alpha").root_checked(true) {
        QueryAction::Walk { matcher, searcher } => {
            assert_eq!(matches_in(&matcher, b"alpha\nalpha\n"), 2);
            assert_eq!(matches_in(&matcher, b"\x00\nalpha\n"), 0);
            assert_eq!(searcher.binary_detection().quit_byte(), Some(0));
        }
        _ => panic!("the query can be grepped for"),
    }
    assert_eq!(file_searcher().binary_detection().quit_byte(), Some(0));
}

#[test]
fn a_delivery_ends_with_a_refusal() {
    let tags = vec![tag("a", 0, 1, scratch()), tag("b", 1, 2, scratch()), tag("c", 2, 3, scratch())];
    let mut delivery = Delivery::new(tags);
    assert_eq!(delivery.offer().unwrap().name, "a");
    delivery.answer(true);
    assert_eq!(delivery.offer().unwrap().name, "b");
    assert!(!delivery.is_closed());
    delivery.answer(false);
    assert!(delivery.is_closed());
    assert!(delivery.offer().is_none());
    delivery.answer(true);
    assert!(delivery.is_closed());
}

#[test]
fn a_delivery_is_completed_by_acceptance() {
    let mut delivery = Delivery::new(vec![tag("a", 0, 1, scratch()), tag("b", 1, 2, scratch())]);
    let mut names = Vec::new();
    while let Some(tag) = delivery.offer() {
        names.push(tag.name);
        delivery.answer(true);
    }
    assert_eq!(names, ["a", "b"]);
    assert!(!delivery.is_closed());
}

#[test]
fn open_and_unreadable_entries_are_skipped() {
    let open = OpenPaths::collect(&vec![
        Some(file_path("/w/a.rs")),
        None,
        Some(file_path("/w/b.rs")),
        Some(file_path("/w/a.rs")),
    ]);
    let found = |path: &str, is_file| WalkEntry::Found { path: file_path(path), is_file };
    assert_eq!(visit_entry(&WalkEntry::Unreadable, &open), Visit::Skip);
    assert_eq!(visit_entry(&found("/w/c.rs", false), &open), Visit::Skip);
    assert_eq!(visit_entry(&found("/w/a.rs", true), &open), Visit::Skip);
    assert_eq!(visit_entry(&found("/w/b.rs", true), &open), Visit::Skip);
    assert_eq!(visit_entry(&found("/w/c.rs", true), &open), Visit::Search);
    // Paths are compared by their components.
    assert_eq!(visit_entry(&found("/w/./a.rs", true), &open), Visit::Skip);
    assert_eq!(visit_entry(&found("/w//b.rs", true), &open), Visit::Skip);
    assert_eq!(visit_entry(&found("/w/x/../a.rs", true), &open), Visit::Search);
    assert!(open.contains(&file_path("/w/a.rs/")));
    assert_eq!(walk_state(true), WalkState::Quit);
    assert_eq!(walk_state(false), WalkState::Continue);
}

#[test]
fn walks_are_set_up_as_configured() {
    let walk = build_goto_walk_builder(&config(), "/nowhere/to/be/found", "/c/ignore");
    let entries: Vec<_> = walk.build().collect();
    assert_eq!(entries.len(), 1);
    match &entries[0] {
        Err(error) => assert!(error.to_string().contains("/nowhere/to/be/found")),
        Ok(_) => panic!("there is no such directory"),
    }
    let plain = format!("{walk:?}");
    for (changed, other) in [
        ("hidden", FilePickerConfig { hidden: false, ..config() }),
        ("parents", FilePickerConfig { parents: false, ..config() }),
        ("ignore", FilePickerConfig { ignore: false, ..config() }),
        ("git_ignore", FilePickerConfig { git_ignore: false, ..config() }),
        ("git_global", FilePickerConfig { git_global: false, ..config() }),
        ("git_exclude", FilePickerConfig { git_exclude: false, ..config() }),
        ("max_depth", FilePickerConfig { max_depth: Some(2), ..config() }),
        ("follow_links", FilePickerConfig { follow_symlinks: false, ..config() }),
    ] {
        let walk = build_goto_walk_builder(&other, "/nowhere/to/be/found", "/c/ignore");
        assert_ne!(format!("{walk:?}"), plain, "{changed}");
    }
    assert!(plain.contains("/c/ignore"));
    assert!(plain.contains(".helix/ignore"));
}

#[test]
fn the_entry_filter_falls_back_to_the_search_root() {
    let filter = entry_filter(&config(), "/w", None);
    assert_eq!(filter.absolute_root, "/w");
    assert!(filter.deduplicate_links);
    let filter = entry_filter(
        &FilePickerConfig { deduplicate_links: false, ..config() },
        "/w",
        Some("/x"),
    );
    assert_eq!(filter.absolute_root, "/x");
    assert!(!filter.deduplicate_links);
}

#[test]
fn the_workspace_is_that_of_the_file() {
    match workspace_lookup(&Some("/w/a.rs".to_string())) {
        WorkspaceLookup::Containing(path) => assert_eq!(path, "/w/a.rs"),
        WorkspaceLookup::Current => panic!("the document has a file"),
    }
    assert!(matches!(workspace_lookup(&None), WorkspaceLookup::Current));
}

#[test]
fn a_file_is_parsed_once_for_all_searches() {
    let mut cache = SyntaxCache::new();
    let scan = FileScan::new(file_path("/w/a.rs"), UriOrDocumentId::Uri(uri("/w/a.rs")));
    assert!(matches!(scan.matched_cached(&cache), ScanAction::Parse));
    match scan.parsed_cached(&mut cache, Some((sample_text(), 5))) {
        ScanAction::RunQuery((text, 5)) => assert_eq!(text, sample_text()),
        _ => panic!("the file was parsed"),
    }
    let again = FileScan::new(file_path("/w/./a.rs"), UriOrDocumentId::Uri(uri("/w/a.rs")));
    match again.matched_cached(&cache) {
        ScanAction::RunQuery((text, 5)) => assert_eq!(text, sample_text()),
        _ => panic!("the file was parsed before"),
    }
    let other = FileScan::new(file_path("/w/b.rs"), UriOrDocumentId::Uri(uri("/w/b.rs")));
    assert!(matches!(other.matched_cached(&cache), ScanAction::Parse));
    assert!(matches!(other.parsed_cached(&mut cache, None), ScanAction::StopSearch));
    assert!(matches!(other.matched_cached(&cache), ScanAction::StopSearch));
    assert!(!cache.needs_parse(&file_path("/w/b.rs")));
    assert!(matches!(cache.recall(&file_path("/w/b.rs")), Some(None)));
    assert!(cache.recall(&file_path("/w/c.rs")).is_none());
    for path in ["/w/d.rs", "/w/a.rs", "/w/e.rs", "/w/b.rs"] {
        let scan = FileScan::new(file_path(path), UriOrDocumentId::Uri(uri(path)));
        if matches!(scan.matched_cached(&cache), ScanAction::Parse) {
            scan.parsed_cached(&mut cache, Some((sample_text(), 7)));
        }
    }
    assert!(matches!(scan.matched_cached(&cache), ScanAction::RunQuery((_, 5))));
    assert!(matches!(other.matched_cached(&cache), ScanAction::StopSearch));
    cache.remember(file_path("/w/b.rs"), Some((sample_text(), 6)));
    assert!(matches!(cache.recall(&file_path("/w/b.rs")), Some(Some((_, 6)))));
}

#[test]
fn a_goto_scan_parses_at_the_first_match() {
    let mut scan = FileScan::new(file_path("/w/a.rs"), UriOrDocumentId::Uri(uri("/w/a.rs")));
    assert!(matches!(scan.matched(), ScanAction::Parse));
    assert!(matches!(scan.matched(), ScanAction::StopSearch));
    assert!(matches!(scan.parsed(None), ScanAction::StopSearch));
    assert!(matches!(scan.parsed(Some((sample_text(), 2))), ScanAction::RunQuery((_, 2))));
    assert_eq!(scan.finish(), WalkState::Continue);
}

#[test]
fn a_scan_hands_over_tags_until_one_is_refused() {
    let filter = TagFilter::Definitions;
    let mut scan = FileScan::new(file_path("/w/a.rs"), UriOrDocumentId::Uri(uri("/w/a.rs")));
    match scan.queried(&sample_events(), &sample_text(), &filter) {
        ScanAction::Offer(tag) => {
            assert_eq!(tag.name, "alpha");
            assert!(matches!(tag.doc.path_or_id(), Some(PathOrId::Path("/w/a.rs"))));
        }
        _ => panic!("there is a tag"),
    }
    match scan.answered(true) {
        ScanAction::Offer(tag) => assert_eq!(tag.name, "Beta"),
        _ => panic!("there is another tag"),
    }
    assert_eq!(scan.finish(), WalkState::Continue);
    assert!(matches!(scan.answered(false), ScanAction::StopSearch));
    assert_eq!(scan.finish(), WalkState::Quit);
}

fn goto_document(cursor: usize) -> GotoDocument {
    GotoDocument {
        id: DocumentId { index: 9 },
        uri: Some(uri("/w/a.rs")),
        path: Some("/w/a.rs".to_string()),
        text: sample_text(),
        cursor,
        syntax: Some(GotoSyntax { around_cursor: sample_events(), everywhere: sample_events() }),
    }
}

#[test]
fn goto_leads_from_a_reference_to_its_definition() {
    let plan = syntax_goto_definition(&goto_document(12)).unwrap();
    assert_eq!(plan.name, "alpha");
    assert_eq!(plan.role, TagRole::Definition);
    assert_eq!(plan.in_file.len(), 1);
    assert_eq!((plan.in_file[0].start, plan.in_file[0].end), (0, 5));
    assert!(matches!(plan.in_file[0].doc.path_or_id(), Some(PathOrId::Path("/w/a.rs"))));
    assert_eq!(plan.status, "Searching for definition of 'alpha'...");
    assert!(matches!(plan.workspace, WorkspaceLookup::Containing(path) if path == "/w/a.rs"));
}

#[test]
fn goto_leads_from_a_definition_to_its_references() {
    let plan = syntax_goto_references(&goto_document(0)).unwrap();
    assert_eq!(plan.role, TagRole::Reference);
    assert_eq!(plan.in_file.len(), 1);
    assert_eq!((plan.in_file[0].start, plan.in_file[0].end), (11, 16));
    assert_eq!(plan.status, "Searching for references of 'alpha'...");
}

#[test]
fn goto_finds_the_definition_under_the_cursor() {
    let plan = syntax_goto_definition(&goto_document(7)).unwrap();
    assert_eq!(names(&plan.in_file), ["Beta"]);
    let none = syntax_goto_references(&goto_document(7)).unwrap();
    assert!(none.in_file.is_empty());
}

#[test]
fn goto_needs_a_tag_and_a_syntax_tree() {
    let no_tag = syntax_goto_definition(&goto_document(5)).err().unwrap();
    assert_eq!(no_tag, PickerError::NoTagAtCursor);
    assert_eq!(no_tag.message(), "No tag at cursor");
    let mut document = goto_document(0);
    document.syntax = None;
    let no_tree = syntax_goto_references(&document).err().unwrap();
    assert_eq!(no_tree, PickerError::NoSyntaxTree);
}

#[test]
fn a_document_is_checked_before_goto() {
    assert!(goto_document(12).check());
    assert!(goto_document(16).check());
    assert!(!goto_document(17).check());
    let mut no_tree = goto_document(16);
    no_tree.syntax = None;
    assert!(no_tree.check());
    no_tree.cursor = 17;
    assert!(!no_tree.check());
    let outside = || vec![matched("definition.function", 0, 17)];
    let mut document = goto_document(0);
    document.syntax = Some(GotoSyntax { around_cursor: outside(), everywhere: sample_events() });
    assert!(!document.check());
    document.syntax = Some(GotoSyntax { around_cursor: sample_events(), everywhere: outside() });
    assert!(!document.check());
    document.syntax = Some(GotoSyntax { around_cursor: Vec::new(), everywhere: outside() });
    assert!(document.check());
}

#[test]
fn an_open_document_is_checked() {
    assert!(sample(None, None).check());
    assert!(sample(None, Some(sample_events())).check());
    assert!(!sample(None, Some(vec![QueryEvent::Match(None)])).check());
    assert!(!sample(None, Some(vec![matched("definition.type", 16, 17)])).check());
}

#[test]
fn the_cursor_is_counted_in_bytes() {
    let text = Rope::from_str("\u{e9}\u{1f333}x");
    assert_eq!(cursor_byte(&text, 0), 0);
    assert_eq!(cursor_byte(&text, 1), 2);
    assert_eq!(cursor_byte(&text, 2), 6);
    assert_eq!(cursor_byte(&text, 3), 7);
}

#[test]
fn a_goto_scan_greps_for_the_name() {
    let plan = syntax_goto_definition(&goto_document(12)).unwrap();
    assert!(matches!(spawn_workspace_tag_scan(&plan, false), ScanStart::MissingRoot));
    match spawn_workspace_tag_scan(&plan, true) {
        ScanStart::Scan(scan) => {
            assert_eq!(matches_in(&scan.matcher, b"x alpha\nALPHA\n"), 1);
            assert!(scan.filter.accepts(&sample_text(), &tag("alpha", 0, 5, scratch())));
            assert!(!scan.filter.accepts(&sample_text(), &tag("alphabet", 0, 5, scratch())));
        }
        _ => panic!("the name can be grepped for"),
    }
}

#[test]
fn a_goto_scan_takes_the_name_literally() {
    for (name, line, other) in [
        ("$x", "let $x = 1;\n", "x\n"),
        ("f(", "a f(b)\n", "f\n"),
        ("operator+", "T operator+(T);\n", "operatorr\n"),
        ("a.b", "a.b\n", "axb\n"),
        ("Alpha", "Alpha\n", "alpha\n"),
    ] {
        let mut plan = syntax_goto_definition(&goto_document(12)).unwrap();
        plan.name = name.to_string();
        match spawn_workspace_tag_scan(&plan, true) {
            ScanStart::Scan(scan) => {
                assert_eq!(matches_in(&scan.matcher, line.as_bytes()), 1, "{name}");
                assert_eq!(matches_in(&scan.matcher, other.as_bytes()), 0, "{name}");
            }
            _ => panic!("any name can be grepped for"),
        }
    }
}

#[test]
fn a_name_that_is_too_long_cannot_be_grepped_for() {
    let mut plan = syntax_goto_definition(&goto_document(12)).unwrap();
    plan.name = "ab".repeat(4 << 20);
    assert!(matches!(spawn_workspace_tag_scan(&plan, true), ScanStart::BadPattern(_)));
}

#[test]
fn a_query_is_grepped_for_as_a_regex() {
    match search(false, "al.ha").root_checked(true) {
        QueryAction::Walk { matcher, .. } => assert_eq!(matches_in(&matcher, b"alpha\n"), 1),
        _ => panic!("the query can be grepped for"),
    }
}

#[test]
fn paths_are_compared_by_components() {
    assert!(same_path(&file_path("/w/a"), &file_path("/w/./a/")));
    assert!(!same_path(&file_path("/w/a"), &file_path("/w/a/b")));
    assert!(!same_path(&file_path("/w/a"), &file_path("w/a")));
    assert!(!same_path(&file_path("/w/a"), &file_path("/w/b")));
    let paths = vec![file_path("/w/a"), file_path("/w/b")];
    assert!(path_listed(&paths, &file_path("//w//b")));
    assert!(!path_listed(&paths, &file_path("/w")));
    assert!(same_path(&paths[0].clone(), &paths[0]));
}

fn scanned(doc: UriOrDocumentId) -> Vec<(String, usize, usize)> {
    let mut scan = FileScan::new(file_path("/w/a.rs"), doc);
    let mut tags = Vec::new();
    let mut action = scan.queried(&sample_events(), &sample_text(), &TagFilter::Definitions);
    while let ScanAction::Offer(tag) = action {
        tags.push((tag.name, tag.start, tag.end));
        action = scan.answered(true);
    }
    tags
}

#[test]
fn files_with_the_same_contents_give_the_same_tags() {
    let tags = scanned(UriOrDocumentId::Uri(uri("/w/a.rs")));
    assert_eq!(tags, [("alpha".to_string(), 0, 5), ("Beta".to_string(), 6, 10)]);
    assert_eq!(scanned(UriOrDocumentId::Uri(uri("/w/b.rs"))), tags);
}

#[test]
fn the_cursor_is_within_the_tag_that_it_names() {
    let text = sample_text();
    for cursor in [6, 7, 9] {
        let plan = syntax_goto_definition(&goto_document(cursor)).unwrap();
        let tag = &plan.in_file[0];
        assert_eq!(tag.name, plan.name);
        assert!(text.char_to_byte(tag.start) <= cursor && cursor < text.char_to_byte(tag.end));
    }
}

#[test]
fn columns_show_kind_and_label() {
    let tag = tag("main", 0, 4, scratch());
    assert_eq!(kind_column(&tag), "function");
    assert_eq!(label_column(&tag), "definition.function");
}

#[test]
fn the_path_column_is_relative_to_the_search_root() {
    let inside = tag("main", 0, 4, UriOrDocumentId::Uri(uri("/w/src/a.rs")));
    let outside = tag("main", 0, 4, UriOrDocumentId::Uri(uri("/other/a.rs")));
    let no_file =
        tag("main", 0, 4, UriOrDocumentId::Uri(Uri { path: None, text: "git:a".to_string() }));
    let unsaved = tag("main", 0, 4, scratch());
    assert_eq!(path_column(&inside, "/w", "[scratch]"), "src/a.rs");
    assert_eq!(path_column(&inside, "/w/sr", "[scratch]"), "/w/src/a.rs");
    assert_eq!(path_column(&inside, "/", "[scratch]"), "w/src/a.rs");
    assert_eq!(path_column(&inside, "/w/src/a.rs", "[scratch]"), "");
    assert_eq!(path_column(&inside, "/w/src/a.rs/b", "[scratch]"), "/w/src/a.rs");
    let relative = tag("main", 0, 4, UriOrDocumentId::Uri(uri("w/src/a.rs")));
    assert_eq!(path_column(&relative, "w", "[scratch]"), "src/a.rs");
    assert_eq!(path_column(&relative, "w/src/a.rs", "[scratch]"), "");
    assert_eq!(path_column(&relative, "w/s", "[scratch]"), "w/src/a.rs");
    assert_eq!(path_column(&relative, "/w", "[scratch]"), "w/src/a.rs");
    assert_eq!(path_column(&relative, "/", "[scratch]"), "w/src/a.rs");
    assert_eq!(path_column(&inside, "w", "[scratch]"), "/w/src/a.rs");
    let colon = tag("main", 0, 4, UriOrDocumentId::Uri(uri("/w/b:c/../.d/a:b")));
    assert_eq!(path_column(&colon, "/w/b:c", "[scratch]"), "../.d/a:b");
    assert_eq!(place_column(&relative, "w", "[scratch]"), "src/a.rs:5");
    assert_eq!(path_column(&outside, "/w", "[scratch]"), "/other/a.rs");
    assert_eq!(path_column(&no_file, "/w", "[scratch]"), "git:a");
    assert_eq!(path_column(&unsaved, "/w", "[scratch]"), "[scratch]");
    assert_eq!(place_column(&inside, "/w", "[scratch]"), "src/a.rs:5");
    assert_eq!(place_column(&outside, "/w", "[scratch]"), "/other/a.rs:5");
    assert_eq!(place_column(&no_file, "/w", "[scratch]"), "git:a");
    assert_eq!(place_column(&unsaved, "/w", "[scratch]"), "[scratch]");
    assert_eq!(shown_path(&inside, Some("x"), "[scratch]"), "x");
    assert_eq!(shown_path(&inside, None, "[scratch]"), "/w/src/a.rs");
    assert_eq!(shown_place(&inside, Some("x"), "[scratch]"), "x:5");
}

#[test]
fn previews_show_the_lines_of_a_tag() {
    let inside = tag("main", 0, 4, UriOrDocumentId::Uri(uri("/w/a.rs")));
    assert!(matches!(preview(&inside), Some((PathOrId::Path("/w/a.rs"), (4, 6)))));
    let no_file =
        tag("main", 0, 4, UriOrDocumentId::Uri(Uri { path: None, text: "git:a".to_string() }));
    assert!(preview(&no_file).is_none());
    assert!(matches!(jump_target(&inside), PathOrId::Path("/w/a.rs")));
    assert!(matches!(
        jump_target(&tag("main", 0, 4, scratch())),
        PathOrId::Id(DocumentId { index: 1 })
    ));
}

#[test]
fn a_jump_selects_the_name() {
    let text = sample_text();
    let tags = syntax_symbol_picker(&sample(None, Some(sample_events()))).unwrap();
    for tag in &tags {
        for picker in [TagPicker::Symbols, TagPicker::Workspace, TagPicker::Goto] {
            let (start, end) = picker.jump(tag, text.len_chars()).unwrap();
            assert_eq!(text.slice(start..end).to_string(), tag.name);
        }
    }
}

#[test]
fn a_jump_to_a_place_that_is_gone_is_refused() {
    let tag = tag("main", 3, 7, scratch());
    for gone in [0, 3, 6] {
        assert_eq!(
            TagPicker::Workspace.jump(&tag, gone),
            Err("The location you jumped to does not exist anymore because the file has changed.")
        );
        assert_eq!(
            TagPicker::Goto.jump(&tag, gone),
            Err("The location you jumped to no longer exists because the file has changed.")
        );
        assert_eq!(TagPicker::Symbols.jump(&tag, gone), Ok((3, 7)));
    }
    assert_eq!(TagPicker::Workspace.jump(&tag, 7), Ok((3, 7)));
    // An empty name at the end of the text.
    let empty = Tag { start: 7, end: 7, ..tag };
    assert!(TagPicker::Goto.jump(&empty, 7).is_err());
}

#[test]
fn a_file_that_cannot_be_opened_is_reported() {
    assert_eq!(
        open_failure("File(\"/w/a.rs\")", "permission denied"),
        "Failed to open file 'File(\"/w/a.rs\")': permission denied"
    );
}
