//! The symbol picker: the definitions of a document.

use vstd::prelude::*;
use ropey::Rope;
use crate::document::{known_by, optional_uri, DocView, DocumentId, Uri, UriOrDocumentId};
use crate::query::{event_views, events_fit, events_in_text, tags_iter, EventView, QueryEvent};
use crate::rope::rope_text;
use crate::select::{same_filter, select_tags, selected, TagFilter};
use crate::tag::{tag_views, Tag, TagRole, TagView};

verus! {

/// A document of the editor.
pub struct OpenDocument {
    pub id: DocumentId,
    pub uri: Option<Uri>,
    pub text: Rope,
    /// What the tags query yields on the document, where there is a syntax tree.
    pub events: Option<Vec<QueryEvent>>,
}

/// The value of an [`OpenDocument`]. Its tags go by `doc`.
pub struct OpenView {
    pub id: DocumentId,
    pub doc: DocView,
    pub text: Seq<char>,
    pub events: Option<Seq<EventView>>,
}

impl View for OpenDocument {
    type V = OpenView;

    open spec fn view(&self) -> OpenView {
        OpenView {
            id: self.id,
            doc: known_by(optional_uri(self.uri), self.id),
            text: rope_text(self.text),
            events: match self.events {
                Some(events) => Some(event_views(events@)),
                None => None,
            },
        }
    }
}

/// Whether the matches in a document fit its text.
pub open spec fn document_fits(document: OpenView) -> bool {
    document.events matches Some(events) ==> events_fit(document.text, events)
}

impl OpenDocument {
    /// Whether the matches in the document fit its text.
    pub fn check(&self) -> (r: bool)
        ensures
            r == document_fits(self@),
    {
        match &self.events {
            Some(events) => events_in_text(events, &self.text),
            None => true,
        }
    }
}

/// Why a picker does not open.
#[derive(Debug, Clone, Copy, PartialEq, Eq, Structural)]
pub enum PickerError {
    NoSyntaxTree,
    NoTagAtCursor,
}

impl PickerError {
    /// What the status line says.
    pub fn message(self) -> (r: &'static str)
        ensures
            r@ == (match self {
                PickerError::NoSyntaxTree => "Syntax tree is not available on this buffer"@,
                PickerError::NoTagAtCursor => "No tag at cursor"@,
            }),
    {
        match self {
            PickerError::NoSyntaxTree => "Syntax tree is not available on this buffer",
            PickerError::NoTagAtCursor => "No tag at cursor",
        }
    }
}

/// The items of the symbol picker on a document: its definitions, in order. Without a syntax tree
/// the picker does not open. The items go by the document's identity, whatever its location.
pub fn syntax_symbol_picker(document: &OpenDocument) -> (r: Result<Vec<Tag>, PickerError>)
    requires
        document_fits(document@),
    ensures
        match document@.events {
            Some(events) => r matches Ok(tags) && tag_views(tags@) == selected(
                document@.text,
                events,
                DocView::Id(document@.id),
                TagFilter::Definitions,
            ),
            None => r matches Err(error) && error == PickerError::NoSyntaxTree,
        },
{
    match &document.events {
        Some(events) => Ok(
            select_tags(
                events,
                &document.text,
                &UriOrDocumentId::Id(document.id),
                &TagFilter::Definitions,
            ),
        ),
        None => Err(PickerError::NoSyntaxTree),
    }
}

/// The symbol picker lists a tag exactly if it is one of the document's tags and defines
/// something, whatever its kind. The tags come in the document's order, and each as often as the
/// document has it. The document's tags are those that go by its identity.
pub proof fn symbol_picker_lists_definitions(
    document: OpenDocument,
    events: Vec<QueryEvent>,
    all: Vec<Tag>,
    r: Result<Vec<Tag>, PickerError>,
)
    requires
        call_ensures(syntax_symbol_picker, (&document,), r),
        document.events == Some(events),
        call_ensures(
            tags_iter,
            (&events, &document.text, &UriOrDocumentId::Id(document.id)),
            all,
        ),
    ensures
        r matches Ok(items) && {
            &&& tag_views(items@) == tag_views(all@).filter(
                |tag: TagView| tag.role == TagRole::Definition,
            )
            &&& forall|tag: TagView|
                tag_views(items@).contains(tag) <==> (#[trigger] tag_views(all@).contains(tag)
                    && tag.role == TagRole::Definition)
        },
{
    let items = r->Ok_0;
    let defines = |tag: TagView| tag.role == TagRole::Definition;
    let listed = tag_views(all@).filter(defines);
    same_filter(
        tag_views(all@),
        |tag: TagView| TagFilter::Definitions.admits(rope_text(document.text), tag),
        defines,
    );
    assert forall|tag: TagView|
        listed.contains(tag) <==> (#[trigger] tag_views(all@).contains(tag) && tag.role
            == TagRole::Definition) by {
        if listed.contains(tag) {
            let k = choose|k: int| 0 <= k < listed.len() && listed[k] == tag;
            tag_views(all@).lemma_filter_pred(defines, k);
            tag_views(all@).lemma_filter_contains_rev(defines, tag);
        }
        if tag_views(all@).contains(tag) && tag.role == TagRole::Definition {
            let i = choose|i: int| 0 <= i < tag_views(all@).len() && tag_views(all@)[i] == tag;
            tag_views(all@).lemma_filter_contains(defines, i);
        }
    }
}

/// The symbol picker opens exactly if there is a syntax tree.
pub proof fn symbol_picker_needs_syntax_tree(
    document: OpenDocument,
    r: Result<Vec<Tag>, PickerError>,
)
    requires
        call_ensures(syntax_symbol_picker, (&document,), r),
    ensures
        r is Ok <==> document.events is Some,
        r matches Err(error) ==> error == PickerError::NoSyntaxTree,
{
}

/// A document is read as it is: its text, its matches, its identity, and its location where it has
/// one.
pub proof fn document_is_read_as_it_is(document: OpenDocument)
    ensures
        document@.text == rope_text(document.text),
        document@.id == document.id,
        match document.events {
            Some(events) => document@.events == Some(event_views(events@)),
            None => document@.events is None,
        },
        match document.uri {
            Some(uri) => document@.doc == DocView::Uri(uri@),
            None => document@.doc == DocView::Id(document.id),
        },
        document_fits(document@) <==> (document.events matches Some(events) ==> events_fit(
            rope_text(document.text),
            event_views(events@),
        )),
{
}

/// What the status line says if a picker does not open.
pub proof fn errors_are_explained(error: PickerError, r: &'static str)
    requires
        call_ensures(PickerError::message, (error,), r),
    ensures
        error == PickerError::NoSyntaxTree ==> r@ == "Syntax tree is not available on this buffer"@,
        error == PickerError::NoTagAtCursor ==> r@ == "No tag at cursor"@,
{
}

} // verus!
