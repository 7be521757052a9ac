//! What a tag belongs to: a file, or a buffer that has none.

use vstd::prelude::*;

verus! {

/// The identity of an open document.
#[derive(Debug, Clone, Copy, PartialEq, Eq, Structural)]
pub struct DocumentId {
    pub index: usize,
}

/// A location outside the editor: its file path, where it names a file, and its text.
#[derive(Debug)]
pub struct Uri {
    pub path: Option<String>,
    pub text: String,
}

/// The value of a [`Uri`].
pub struct UriView {
    pub path: Option<Seq<char>>,
    pub text: Seq<char>,
}

/// The characters of an optional string.
pub open spec fn optional_text(s: Option<String>) -> Option<Seq<char>> {
    match s {
        Some(t) => Some(t@),
        None => None,
    }
}

impl View for Uri {
    type V = UriView;

    open spec fn view(&self) -> UriView {
        UriView { path: optional_text(self.path), text: self.text@ }
    }
}

impl Clone for Uri {
    fn clone(&self) -> (r: Self)
        ensures
            r == *self,
    {
        let path = match &self.path {
            Some(path) => Some(path.clone()),
            None => None,
        };
        Uri { path, text: self.text.clone() }
    }
}

impl Uri {
    /// The file path, where the location names a file.
    pub fn as_path(&self) -> (r: Option<&str>)
        ensures
            r is Some <==> self@.path is Some,
            r matches Some(path) ==> self@.path == Some(path@),
    {
        match &self.path {
            Some(path) => Some(path.as_str()),
            None => None,
        }
    }
}

/// A document that a tag was found in. Documents with a location go by it; the identity is for
/// scratch buffers, and for the document in front of the user.
#[derive(Debug)]
pub enum UriOrDocumentId {
    Uri(Uri),
    Id(DocumentId),
}

/// The value of a [`UriOrDocumentId`].
pub enum DocView {
    Uri(UriView),
    Id(DocumentId),
}

impl View for UriOrDocumentId {
    type V = DocView;

    open spec fn view(&self) -> DocView {
        match self {
            UriOrDocumentId::Uri(uri) => DocView::Uri(uri@),
            UriOrDocumentId::Id(id) => DocView::Id(*id),
        }
    }
}

impl Clone for UriOrDocumentId {
    fn clone(&self) -> (r: Self)
        ensures
            r == *self,
    {
        match self {
            UriOrDocumentId::Uri(uri) => UriOrDocumentId::Uri(uri.clone()),
            UriOrDocumentId::Id(id) => UriOrDocumentId::Id(*id),
        }
    }
}

/// Where a preview is read from.
#[derive(Debug)]
pub enum PathOrId<'a> {
    Id(DocumentId),
    Path(&'a str),
}

/// The value of a [`PathOrId`].
pub enum PreviewView {
    Id(DocumentId),
    Path(Seq<char>),
}

impl View for PathOrId<'_> {
    type V = PreviewView;

    open spec fn view(&self) -> PreviewView {
        match self {
            PathOrId::Id(id) => PreviewView::Id(*id),
            PathOrId::Path(path) => PreviewView::Path(path@),
        }
    }
}

/// Where a document is previewed from: an open document by its identity, a location by its file
/// path, and a location that names no file not at all.
pub open spec fn preview_of(doc: DocView) -> Option<PreviewView> {
    match doc {
        DocView::Id(id) => Some(PreviewView::Id(id)),
        DocView::Uri(uri) => match uri.path {
            Some(path) => Some(PreviewView::Path(path)),
            None => None,
        },
    }
}

impl UriOrDocumentId {
    /// Where this document is previewed from.
    pub fn path_or_id(&self) -> (r: Option<PathOrId<'_>>)
        ensures
            r is Some <==> preview_of(self@) is Some,
            r matches Some(place) ==> preview_of(self@) == Some(place@),
    {
        match self {
            UriOrDocumentId::Id(id) => Some(PathOrId::Id(*id)),
            UriOrDocumentId::Uri(uri) => match uri.as_path() {
                Some(path) => Some(PathOrId::Path(path)),
                None => None,
            },
        }
    }
}

/// What an open document is known by: its location, or its identity where it has none.
pub open spec fn known_by(uri: Option<UriView>, id: DocumentId) -> DocView {
    match uri {
        Some(uri) => DocView::Uri(uri),
        None => DocView::Id(id),
    }
}

/// The value of an optional location.
pub open spec fn optional_uri(uri: Option<Uri>) -> Option<UriView> {
    match uri {
        Some(uri) => Some(uri@),
        None => None,
    }
}

/// What an open document is known by.
pub fn uri_or_id(uri: &Option<Uri>, id: DocumentId) -> (r: UriOrDocumentId)
    ensures
        r@ == known_by(optional_uri(*uri), id),
{
    match uri {
        Some(uri) => UriOrDocumentId::Uri(uri.clone()),
        None => UriOrDocumentId::Id(id),
    }
}

/// Documents are told apart by all that they hold: locations by their path and their text, and
/// scratch buffers by their identity.
pub proof fn documents_are_told_by_contents(a: UriOrDocumentId, b: UriOrDocumentId)
    ensures
        a@ == b@ <==> (match (a, b) {
            (UriOrDocumentId::Uri(x), UriOrDocumentId::Uri(y)) => x.text@ == y.text@ && (match (
                x.path,
                y.path,
            ) {
                (Some(p), Some(q)) => p@ == q@,
                (None, None) => true,
                _ => false,
            }),
            (UriOrDocumentId::Id(x), UriOrDocumentId::Id(y)) => x == y,
            _ => false,
        }),
{
}

/// An open document that has a location goes by it, whatever its identity; one that has none goes
/// by its identity.
pub proof fn location_comes_before_identity(
    uri: Option<Uri>,
    id: DocumentId,
    r: UriOrDocumentId,
)
    requires
        call_ensures(uri_or_id, (&uri, id), r),
    ensures
        match uri {
            Some(uri) => r@ == UriOrDocumentId::Uri(uri)@,
            None => r == UriOrDocumentId::Id(id),
        },
{
}

/// A file is previewed from its path, an open document from itself, and a location that names no
/// file is not previewed.
pub proof fn preview_is_read_from_document(doc: UriOrDocumentId, r: Option<PathOrId<'_>>)
    requires
        call_ensures(UriOrDocumentId::path_or_id, (&doc,), r),
    ensures
        match doc {
            UriOrDocumentId::Id(id) => r == Some(PathOrId::Id(id)),
            UriOrDocumentId::Uri(uri) => match uri.path {
                Some(path) => r matches Some(PathOrId::Path(from)) && from@ == path@,
                None => r is None,
            },
        },
{
}

/// The path of a location is the one that it holds.
pub proof fn location_gives_its_path(uri: Uri, r: Option<&str>)
    requires
        call_ensures(Uri::as_path, (&uri,), r),
    ensures
        match uri.path {
            Some(path) => r matches Some(found) && found@ == path@,
            None => r is None,
        },
{
}

} // verus!
