//! Going from the name at the cursor to its definitions or references.

use vstd::prelude::*;
use vstd::utf8::*;
use grep_regex::RegexMatcher;
use grep_searcher::Searcher;
use ropey::Rope;
use crate::document::{
    known_by, optional_text, optional_uri, uri_or_id, DocumentId, Uri, UriOrDocumentId,
};
use crate::pattern::{build_matcher, built_matcher};
use crate::query::{
    at_most_one, cursor_is_on_node, cursor_node_in_text, event_views, events_fit, events_in_text,
    find_name_at_cursor, has_name_at_cursor, is_name, is_tag, match_at_cursor,
    name_at_cursor_is_tag_name, node_at_cursor, node_text, tag_of_event_is_listed, tag_of_match,
    node_views, tag_node, tags_iter, EventView, NodeView, QueryEvent,
};
use crate::rope::{byte_len, byte_of_char, rope_text};
use crate::select::{same_filter, select_tags, selected, selection_is_exact, TagFilter};
use crate::symbols::PickerError;
use crate::tag::{tag_views, Tag, TagRole, TagView};
use crate::walk::{built_searcher, file_searcher, workspace_lookup, WorkspaceLookup};

verus! {

/// The byte that the cursor is at, as tree-sitter counts it: in 32 bits.
pub open spec fn cursor_byte_of(text: Seq<char>, cursor: int) -> int {
    byte_of_char(text, cursor) as int % 0x1_0000_0000
}

/// The byte that the cursor is at, as tree-sitter counts it.
pub fn cursor_byte(text: &Rope, cursor: usize) -> (r: u32)
    requires
        cursor <= rope_text(*text).len(),
    ensures
        r == cursor_byte_of(rope_text(*text), cursor as int),
{
    let byte: u64 = text.char_to_byte(cursor) as u64;
    assert(byte as u32 == byte % 0x1_0000_0000) by (bit_vector);
    #[verifier::truncate]
    (byte as u32)
}

/// What the tags query yields on a document.
pub struct GotoSyntax {
    /// On the range to query for the tag at the cursor.
    pub around_cursor: Vec<QueryEvent>,
    /// On the whole document.
    pub everywhere: Vec<QueryEvent>,
}

/// The document in front of the user.
pub struct GotoDocument {
    pub id: DocumentId,
    pub uri: Option<Uri>,
    pub path: Option<String>,
    pub text: Rope,
    /// The cursor, in characters.
    pub cursor: usize,
    pub syntax: Option<GotoSyntax>,
}

impl GotoDocument {
    /// The node that names the tag at the cursor.
    pub open spec fn node(self) -> Option<NodeView> {
        match self.syntax {
            Some(syntax) => node_at_cursor(
                event_views(syntax.around_cursor@),
                cursor_byte_of(rope_text(self.text), self.cursor as int),
            ),
            None => None,
        }
    }

    /// Whether the cursor and the matches fit the text.
    pub open spec fn fits(self) -> bool {
        &&& self.cursor <= rope_text(self.text).len()
        &&& self.node() matches Some(node) ==> {
            &&& node.end <= byte_len(rope_text(self.text))
            &&& events_fit(rope_text(self.text), event_views(self.syntax->0.everywhere@))
        }
    }

    /// Whether the cursor and the matches fit the text.
    pub fn check(&self) -> (r: bool)
        ensures
            r == self.fits(),
    {
        if self.cursor > self.text.len_chars() {
            return false;
        }
        match &self.syntax {
            Some(syntax) => {
                let byte: u32 = cursor_byte(&self.text, self.cursor);
                !has_name_at_cursor(&syntax.around_cursor, byte) || (cursor_node_in_text(
                    &syntax.around_cursor,
                    &self.text,
                    byte,
                ) && events_in_text(&syntax.everywhere, &self.text))
            },
            None => true,
        }
    }
}

/// Where to go from the name at the cursor.
pub struct GotoPlan {
    pub name: String,
    pub role: TagRole,
    /// The tags in this document.
    pub in_file: Vec<Tag>,
    /// The workspace to scan for the others.
    pub workspace: WorkspaceLookup,
    /// What the status line says meanwhile.
    pub status: String,
}

/// What the status line says while tags are searched for.
pub open spec fn status_text(role_label: Seq<char>, name: Seq<char>) -> Seq<char> {
    "Searching for "@ + role_label + " of '"@ + name + "'..."@
}

/// Whether a plan leads from a name to the tags of a role with that name.
pub open spec fn plan_for(
    plan: GotoPlan,
    document: GotoDocument,
    role: TagRole,
    role_label: Seq<char>,
    name: Seq<char>,
) -> bool {
    &&& plan.name@ == name
    &&& plan.role == role
    &&& tag_views(plan.in_file@) == selected(
        rope_text(document.text),
        event_views(document.syntax->0.everywhere@),
        known_by(optional_uri(document.uri), document.id),
        TagFilter::Named { role, name: plan.name },
    )
    &&& match optional_text(document.path) {
        Some(path) => plan.workspace matches WorkspaceLookup::Containing(file) && file@ == path,
        None => plan.workspace is Current,
    }
    &&& plan.status@ == status_text(role_label, name)
}

/// Finds the name at the cursor, and plans the way to the tags of a role with that name.
pub fn syntax_goto_tags(document: &GotoDocument, role: TagRole, role_label: &str) -> (r: Result<
    GotoPlan,
    PickerError,
>)
    requires
        document.fits(),
    ensures
        document.syntax is None ==> r == Err::<GotoPlan, _>(PickerError::NoSyntaxTree),
        document.syntax is Some ==> match document.node() {
            Some(node) => r matches Ok(plan) && plan_for(
                plan,
                *document,
                role,
                role_label@,
                node_text(rope_text(document.text), node),
            ),
            None => r == Err::<GotoPlan, _>(PickerError::NoTagAtCursor),
        },
{
    let byte: u32 = cursor_byte(&document.text, document.cursor);
    let syntax = match &document.syntax {
        Some(syntax) => syntax,
        None => {
            return Err(PickerError::NoSyntaxTree);
        },
    };
    let name = match find_name_at_cursor(&syntax.around_cursor, &document.text, byte) {
        Some(name) => name,
        None => {
            return Err(PickerError::NoTagAtCursor);
        },
    };
    let doc = uri_or_id(&document.uri, document.id);
    let filter = TagFilter::Named { role, name: name.clone() };
    let in_file = select_tags(&syntax.everywhere, &document.text, &doc, &filter);
    let mut status = "Searching for ".to_owned();
    status.append(role_label);
    status.append(" of '");
    status.append(name.as_str());
    status.append("'...");
    Ok(GotoPlan { name, role, in_file, workspace: workspace_lookup(&document.path), status })
}

/// Plans the way from the name at the cursor to its definitions.
pub fn syntax_goto_definition(document: &GotoDocument) -> (r: Result<GotoPlan, PickerError>)
    requires
        document.fits(),
    ensures
        document.syntax is None ==> r == Err::<GotoPlan, _>(PickerError::NoSyntaxTree),
        document.syntax is Some ==> match document.node() {
            Some(node) => r matches Ok(plan) && plan_for(
                plan,
                *document,
                TagRole::Definition,
                "definition"@,
                node_text(rope_text(document.text), node),
            ),
            None => r == Err::<GotoPlan, _>(PickerError::NoTagAtCursor),
        },
{
    syntax_goto_tags(document, TagRole::Definition, "definition")
}

/// Plans the way from the name at the cursor to its references.
pub fn syntax_goto_references(document: &GotoDocument) -> (r: Result<GotoPlan, PickerError>)
    requires
        document.fits(),
    ensures
        document.syntax is None ==> r == Err::<GotoPlan, _>(PickerError::NoSyntaxTree),
        document.syntax is Some ==> match document.node() {
            Some(node) => r matches Ok(plan) && plan_for(
                plan,
                *document,
                TagRole::Reference,
                "references"@,
                node_text(rope_text(document.text), node),
            ),
            None => r == Err::<GotoPlan, _>(PickerError::NoTagAtCursor),
        },
{
    syntax_goto_tags(document, TagRole::Reference, "references")
}

/// Going to the definitions or the references of a name, from where the name itself is tagged as
/// one, leads back there too: the tag under the cursor is among those found in the document. The
/// match that the cursor is on is to capture one tag and at most one name, and to be found again
/// on the whole document.
pub proof fn goto_finds_tag_at_cursor(
    plan: GotoPlan,
    document: GotoDocument,
    role: TagRole,
    role_label: Seq<char>,
    node: NodeView,
    i: int,
    nodes: Seq<NodeView>,
)
    requires
        document.fits(),
        document.node() == Some(node),
        plan_for(plan, document, role, role_label, node_text(rope_text(document.text), node)),
        0 <= i < event_views(document.syntax->0.everywhere@).len(),
        event_views(document.syntax->0.everywhere@)[i] == EventView::Match(Some(nodes)),
        match_at_cursor(
            nodes,
            cursor_byte_of(rope_text(document.text), document.cursor as int),
        ) == Some(node),
        at_most_one(nodes, |n: NodeView| is_tag(n)),
        at_most_one(nodes, |n: NodeView| is_name(n)),
    ensures
        tag_of_match(
            rope_text(document.text),
            nodes,
            known_by(optional_uri(document.uri), document.id),
        ) matches Some(tag) && (tag.role == role ==> tag_views(plan.in_file@).contains(tag)),
{
    let text = rope_text(document.text);
    let events = event_views(document.syntax->0.everywhere@);
    let doc = known_by(optional_uri(document.uri), document.id);
    name_at_cursor_is_tag_name(
        text,
        nodes,
        doc,
        cursor_byte_of(text, document.cursor as int),
    );
    tag_of_event_is_listed(text, events, doc, i);
    let tag = tag_of_match(text, nodes, doc).unwrap();
    selection_is_exact(text, events, doc, TagFilter::Named { role, name: plan.name }, tag);
}

/// A scan of a workspace for the tags of a role with a name.
pub struct TagScan {
    /// The files in which the searcher finds this are parsed.
    pub matcher: RegexMatcher,
    pub searcher: Searcher,
    /// The tags that are looked for.
    pub filter: TagFilter,
}

/// How the scan of a workspace starts.
pub enum ScanStart {
    /// There is no workspace to scan.
    MissingRoot,
    /// The name cannot be grepped for, for the reason given.
    BadPattern(grep_regex::Error),
    /// The scan can be run.
    Scan(TagScan),
}

/// Prepares the scan of a workspace for a plan's name and role. Files are grepped for the name as
/// it is written, so that none that holds it is left out: a character that means something in a
/// regex means itself here, and case counts.
pub fn spawn_workspace_tag_scan(plan: &GotoPlan, root_exists: bool) -> (r: ScanStart)
    ensures
        !root_exists ==> r is MissingRoot,
        root_exists ==> match built_matcher(plan.name@, false, true) {
            Ok(matcher) => r matches ScanStart::Scan(scan) && scan.matcher == matcher
                && scan.searcher == built_searcher(0) && scan.filter == (TagFilter::Named {
                role: plan.role,
                name: plan.name,
            }),
            Err(error) => r == ScanStart::BadPattern(error),
        },
{
    if !root_exists {
        return ScanStart::MissingRoot;
    }
    match build_matcher(plan.name.as_str(), false, true) {
        Ok(matcher) => ScanStart::Scan(
            TagScan {
                matcher,
                searcher: file_searcher(),
                filter: TagFilter::Named { role: plan.role, name: plan.name.clone() },
            },
        ),
        Err(error) => ScanStart::BadPattern(error),
    }
}

/// The cursor's byte is the number of bytes that encode the characters before it, cut down to 32
/// bits.
pub proof fn cursor_is_counted_in_bytes(text: Rope, cursor: usize, r: u32)
    requires
        call_ensures(cursor_byte, (&text, cursor), r),
        cursor <= rope_text(text).len(),
    ensures
        r == encode_utf8(rope_text(text).take(cursor as int)).len() % 0x1_0000_0000,
{
}

/// Whether a plan leads from a document to its tags `all` of a role that have the name at the
/// cursor, and there is one exactly if there is such a name.
spec fn leads_to_tags(
    document: GotoDocument,
    found: Option<String>,
    all: Vec<Tag>,
    role: TagRole,
    status_start: Seq<char>,
    r: Result<GotoPlan, PickerError>,
) -> bool {
    match found {
        None => r matches Err(error) && error == PickerError::NoTagAtCursor,
        Some(name) => r matches Ok(plan) && {
            &&& plan.name@ == name@
            &&& plan.role == role
            &&& tag_views(plan.in_file@) == tag_views(all@).filter(
                |tag: TagView| tag.role == role && tag.name == name@,
            )
            &&& plan.status@ == status_start + name@ + "'..."@
            &&& match document.path {
                Some(path) => plan.workspace matches WorkspaceLookup::Containing(file) && file@
                    == path@,
                None => plan.workspace is Current,
            }
        },
    }
}

proof fn goto_leads_to_tags(
    document: GotoDocument,
    syntax: GotoSyntax,
    doc: UriOrDocumentId,
    byte: u32,
    found: Option<String>,
    all: Vec<Tag>,
    role: TagRole,
    role_label: Seq<char>,
    status_start: Seq<char>,
    r: Result<GotoPlan, PickerError>,
)
    requires
        document.syntax == Some(syntax),
        match document.node() {
            Some(node) => r matches Ok(plan) && plan_for(
                plan,
                document,
                role,
                role_label,
                node_text(rope_text(document.text), node),
            ),
            None => r == Err::<GotoPlan, _>(PickerError::NoTagAtCursor),
        },
        status_start == "Searching for "@ + role_label + " of '"@,
        call_ensures(cursor_byte, (&document.text, document.cursor), byte),
        call_ensures(find_name_at_cursor, (&syntax.around_cursor, &document.text, byte), found),
        call_ensures(tags_iter, (&syntax.everywhere, &document.text, &doc), all),
        match document.uri {
            Some(uri) => doc@ == UriOrDocumentId::Uri(uri)@,
            None => doc == UriOrDocumentId::Id(document.id),
        },
    ensures
        leads_to_tags(document, found, all, role, status_start, r),
{
    if let Ok(plan) = r {
        same_filter(
            tag_views(all@),
            |tag: TagView|
                (TagFilter::Named { role, name: plan.name }).admits(rope_text(document.text), tag),
            |tag: TagView| tag.role == role && tag.name == plan.name@,
        );
        assert(plan.status@ =~= status_start + plan.name@ + "'..."@);
    }
}

/// Going to definitions takes the name at the cursor and finds the document's definitions with
/// that name, in order, be it the name of a definition or of a reference. The document's tags are
/// those that go by its location, or by its identity where it has none.
pub proof fn goto_definition_finds_definitions(
    document: GotoDocument,
    syntax: GotoSyntax,
    doc: UriOrDocumentId,
    byte: u32,
    found: Option<String>,
    all: Vec<Tag>,
    r: Result<GotoPlan, PickerError>,
)
    requires
        call_ensures(syntax_goto_definition, (&document,), r),
        document.syntax == Some(syntax),
        call_ensures(cursor_byte, (&document.text, document.cursor), byte),
        call_ensures(find_name_at_cursor, (&syntax.around_cursor, &document.text, byte), found),
        call_ensures(tags_iter, (&syntax.everywhere, &document.text, &doc), all),
        match document.uri {
            Some(uri) => doc@ == UriOrDocumentId::Uri(uri)@,
            None => doc == UriOrDocumentId::Id(document.id),
        },
    ensures
        found is None ==> r == Err::<GotoPlan, _>(PickerError::NoTagAtCursor),
        found matches Some(name) ==> r matches Ok(plan) && {
            &&& plan.name@ == name@
            &&& plan.role == TagRole::Definition
            &&& tag_views(plan.in_file@) == tag_views(all@).filter(
                |tag: TagView| tag.role == TagRole::Definition && tag.name == name@,
            )
            &&& plan.status@ == "Searching for definition of '"@ + name@ + "'..."@
            &&& document.path matches Some(path) ==> (plan.workspace matches
                WorkspaceLookup::Containing(file) && file@ == path@)
            &&& document.path is None ==> plan.workspace is Current
        },
{
    reveal_strlit("Searching for ");
    reveal_strlit("definition");
    reveal_strlit(" of '");
    reveal_strlit("Searching for definition of '");
    assert("Searching for definition of '"@ =~= "Searching for "@ + "definition"@ + " of '"@);
    goto_leads_to_tags(
        document,
        syntax,
        doc,
        byte,
        found,
        all,
        TagRole::Definition,
        "definition"@,
        "Searching for definition of '"@,
        r,
    );
}

/// Going to references takes the name at the cursor and finds the document's references with that
/// name, in order, be it the name of a definition or of a reference. The document's tags are those
/// that go by its location, or by its identity where it has none.
pub proof fn goto_references_finds_references(
    document: GotoDocument,
    syntax: GotoSyntax,
    doc: UriOrDocumentId,
    byte: u32,
    found: Option<String>,
    all: Vec<Tag>,
    r: Result<GotoPlan, PickerError>,
)
    requires
        call_ensures(syntax_goto_references, (&document,), r),
        document.syntax == Some(syntax),
        call_ensures(cursor_byte, (&document.text, document.cursor), byte),
        call_ensures(find_name_at_cursor, (&syntax.around_cursor, &document.text, byte), found),
        call_ensures(tags_iter, (&syntax.everywhere, &document.text, &doc), all),
        match document.uri {
            Some(uri) => doc@ == UriOrDocumentId::Uri(uri)@,
            None => doc == UriOrDocumentId::Id(document.id),
        },
    ensures
        found is None ==> r == Err::<GotoPlan, _>(PickerError::NoTagAtCursor),
        found matches Some(name) ==> r matches Ok(plan) && {
            &&& plan.name@ == name@
            &&& plan.role == TagRole::Reference
            &&& tag_views(plan.in_file@) == tag_views(all@).filter(
                |tag: TagView| tag.role == TagRole::Reference && tag.name == name@,
            )
            &&& plan.status@ == "Searching for references of '"@ + name@ + "'..."@
            &&& document.path matches Some(path) ==> (plan.workspace matches
                WorkspaceLookup::Containing(file) && file@ == path@)
            &&& document.path is None ==> plan.workspace is Current
        },
{
    reveal_strlit("Searching for ");
    reveal_strlit("references");
    reveal_strlit(" of '");
    reveal_strlit("Searching for references of '");
    assert("Searching for references of '"@ =~= "Searching for "@ + "references"@ + " of '"@);
    goto_leads_to_tags(
        document,
        syntax,
        doc,
        byte,
        found,
        all,
        TagRole::Reference,
        "references"@,
        "Searching for references of '"@,
        r,
    );
}

/// Without a syntax tree there is nowhere to go.
pub proof fn goto_needs_syntax_tree(
    document: GotoDocument,
    definitions: Result<GotoPlan, PickerError>,
    references: Result<GotoPlan, PickerError>,
)
    requires
        call_ensures(syntax_goto_definition, (&document,), definitions),
        call_ensures(syntax_goto_references, (&document,), references),
        document.syntax is None,
    ensures
        definitions == Err::<GotoPlan, _>(PickerError::NoSyntaxTree),
        references == Err::<GotoPlan, _>(PickerError::NoSyntaxTree),
{
}

/// A document with its cursor within the text, and with every match of both queries within the
/// text and not reversed, is one to go from.
pub proof fn documents_within_text_fit(document: GotoDocument)
    requires
        document.cursor <= rope_text(document.text).len(),
        document.syntax matches Some(syntax) ==> {
            &&& events_fit(rope_text(document.text), event_views(syntax.everywhere@))
            &&& forall|i: int|
                0 <= i < syntax.around_cursor@.len() ==> (
                #[trigger] syntax.around_cursor@[i] matches QueryEvent::Match(Some(nodes))
                    ==> forall|k: int|
                    0 <= k < nodes@.len() ==> (#[trigger] nodes@[k]).end_byte <= encode_utf8(
                        rope_text(document.text),
                    ).len())
        },
    ensures
        document.fits(),
{
    if let Some(syntax) = document.syntax {
        let views = event_views(syntax.around_cursor@);
        let byte = cursor_byte_of(rope_text(document.text), document.cursor as int);
        cursor_is_on_node(views, byte);
        if let Some(node) = document.node() {
            let i = choose|i: int|
                0 <= i < views.len() && (#[trigger] views[i] matches EventView::Match(Some(nodes))
                    && nodes.contains(node) && tag_node(nodes) is Some && match_at_cursor(
                    nodes,
                    byte,
                ) == Some(node));
            assert(views[i] == syntax.around_cursor@[i]@);
            if let QueryEvent::Match(Some(nodes)) = syntax.around_cursor@[i] {
                let read = node_views(nodes@);
                let k = choose|k: int| 0 <= k < read.len() && read[k] == node;
                assert(nodes@[k].end_byte <= encode_utf8(rope_text(document.text)).len());
            }
        }
    }
}

/// The scan of a workspace looks for the plan's role and name, in files that hold the name as it is
/// written and are not binary; and it takes place if there is a workspace and the name can be
/// grepped for.
pub proof fn scan_looks_for_plan(plan: GotoPlan, root_exists: bool, r: ScanStart)
    requires
        call_ensures(spawn_workspace_tag_scan, (&plan, root_exists), r),
    ensures
        r is MissingRoot <==> !root_exists,
        r is Scan <==> root_exists && built_matcher(plan.name@, false, true) is Ok,
        r matches ScanStart::BadPattern(error) ==> built_matcher(plan.name@, false, true) == Err::<
            RegexMatcher,
            _,
        >(error),
        r matches ScanStart::Scan(scan) ==> {
            &&& built_matcher(plan.name@, false, true) == Ok::<_, grep_regex::Error>(scan.matcher)
            &&& scan.searcher == built_searcher(0)
            &&& scan.filter == (TagFilter::Named { role: plan.role, name: plan.name })
        },
{
}

} // verus!
