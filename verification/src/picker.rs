//! What the pickers show of a tag, and where choosing one leads.

use vstd::prelude::*;
use crate::document::{optional_text, preview_of, DocView, PathOrId, UriOrDocumentId};
use crate::path::{is_plain, is_stripped, rest_is_what_follows_directory, strip_prefix};
use crate::query::{events_fit, tag_in_text, tags_in_text, tags_of, EventView};
use crate::tag::{label, Tag, TagView};
use crate::text::{numeral, numeral_stands_for_number, push_numeral, value};

verus! {

/// The kind column of the symbol pickers: the name of the tag's kind.
pub fn kind_column(tag: &Tag) -> (r: &'static str)
    ensures
        r@ == tag.kind.name(),
{
    tag.kind.as_str()
}

/// The kind column of the goto picker: the names of the tag's role and kind, with a dot between.
pub fn label_column(tag: &Tag) -> (r: String)
    ensures
        r@ == label(tag.role, tag.kind),
{
    let mut shown = tag.role.as_str().to_owned();
    shown.append(".");
    shown.append(tag.kind.as_str());
    shown
}

/// What the path column of the workspace symbol picker shows of a document, given its path
/// without the search root: that, or the whole path if it is not under the search root; the text
/// of a location that names no file; and the name for scratch buffers.
pub open spec fn path_text(
    doc: DocView,
    stripped: Option<Seq<char>>,
    scratch_name: Seq<char>,
) -> Seq<char> {
    match doc {
        DocView::Uri(uri) => match (uri.path, stripped) {
            (Some(_), Some(stripped)) => stripped,
            (Some(path), None) => path,
            (None, _) => uri.text,
        },
        DocView::Id(_) => scratch_name,
    }
}

/// The path column of the workspace symbol picker, given the tag's path without the search root.
pub fn shown_path(tag: &Tag, stripped: Option<&str>, scratch_name: &str) -> (r: String)
    ensures
        r@ == path_text(
            tag@.doc,
            match stripped {
                Some(stripped) => Some(stripped@),
                None => None,
            },
            scratch_name@,
        ),
{
    match &tag.doc {
        UriOrDocumentId::Uri(uri) => match uri.as_path() {
            Some(path) => match stripped {
                Some(stripped) => stripped.to_owned(),
                None => path.to_owned(),
            },
            None => uri.text.clone(),
        },
        // This picker only uses `Id` for scratch buffers for better display.
        UriOrDocumentId::Id(_) => scratch_name.to_owned(),
    }
}

/// Whether this is what the path of a document is without the search root. A document that has no
/// path has none without the search root either.
pub open spec fn is_relative(
    doc: DocView,
    search_root: Seq<char>,
    stripped: Option<Seq<char>>,
) -> bool {
    match doc {
        DocView::Uri(uri) => match uri.path {
            Some(path) => is_stripped(path, search_root, stripped),
            None => stripped is None,
        },
        DocView::Id(_) => stripped is None,
    }
}

/// The tag's path without the search root, if it is a path under the search root.
fn stripped_path(tag: &Tag, search_root: &str) -> (r: Option<String>)
    ensures
        is_relative(tag@.doc, search_root@, optional_text(r)),
{
    match &tag.doc {
        UriOrDocumentId::Uri(uri) => match uri.as_path() {
            Some(path) => strip_prefix(path, search_root),
            None => None,
        },
        UriOrDocumentId::Id(_) => None,
    }
}

/// The path column of the workspace symbol picker: the tag's path relative to the search root.
pub fn path_column(tag: &Tag, search_root: &str, scratch_name: &str) -> (r: String)
    ensures
        exists|stripped: Option<Seq<char>>|
            is_relative(tag@.doc, search_root@, stripped) && r@ == #[trigger] path_text(
                tag@.doc,
                stripped,
                scratch_name@,
            ),
{
    match stripped_path(tag, search_root) {
        Some(stripped) => {
            let shown = shown_path(tag, Some(stripped.as_str()), scratch_name);
            assert(shown@ == path_text(tag@.doc, Some(stripped@), scratch_name@));
            shown
        },
        None => {
            let shown = shown_path(tag, None, scratch_name);
            assert(shown@ == path_text(tag@.doc, None, scratch_name@));
            shown
        },
    }
}

/// What the path column of the goto picker shows of a tag: as the workspace symbol picker, with
/// the number of the tag's first line, counted from one, after a path.
pub open spec fn place_text(
    tag: TagView,
    stripped: Option<Seq<char>>,
    scratch_name: Seq<char>,
) -> Seq<char> {
    let path = path_text(tag.doc, stripped, scratch_name);
    if tag.doc matches DocView::Uri(uri) && uri.path is Some {
        path + ":"@ + numeral((tag.start_line + 1) as nat)
    } else {
        path
    }
}

/// The path column of the goto picker, given the tag's path without the search root.
pub fn shown_place(tag: &Tag, stripped: Option<&str>, scratch_name: &str) -> (r: String)
    requires
        tag.start_line < usize::MAX,
    ensures
        r@ == place_text(
            tag@,
            match stripped {
                Some(stripped) => Some(stripped@),
                None => None,
            },
            scratch_name@,
        ),
{
    let mut shown = shown_path(tag, stripped, scratch_name);
    if let UriOrDocumentId::Uri(uri) = &tag.doc {
        if uri.as_path().is_some() {
            shown.append(":");
            push_numeral(&mut shown, tag.start_line + 1);
        }
    }
    shown
}

/// The path column of the goto picker: the tag's path relative to the search root, and its line.
pub fn place_column(tag: &Tag, search_root: &str, scratch_name: &str) -> (r: String)
    requires
        tag.start_line < usize::MAX,
    ensures
        exists|stripped: Option<Seq<char>>|
            is_relative(tag@.doc, search_root@, stripped) && r@ == #[trigger] place_text(
                tag@,
                stripped,
                scratch_name@,
            ),
{
    match stripped_path(tag, search_root) {
        Some(stripped) => {
            let shown = shown_place(tag, Some(stripped.as_str()), scratch_name);
            assert(shown@ == place_text(tag@, Some(stripped@), scratch_name@));
            shown
        },
        None => {
            let shown = shown_place(tag, None, scratch_name);
            assert(shown@ == place_text(tag@, None, scratch_name@));
            shown
        },
    }
}

/// The preview of a tag: where it is read from, and the tag's first and last line. A tag at a
/// location that names no file has none.
pub fn preview(tag: &Tag) -> (r: Option<(PathOrId<'_>, (usize, usize))>)
    ensures
        match preview_of(tag@.doc) {
            Some(place) => r matches Some((from, lines)) && from@ == place && lines == (
                tag.start_line,
                tag.end_line,
            ),
            None => r is None,
        },
{
    match tag.doc.path_or_id() {
        Some(place) => Some((place, (tag.start_line, tag.end_line))),
        None => None,
    }
}

/// The document that a tag leads to: an open one, or the file at a path.
pub fn jump_target(tag: &Tag) -> (r: PathOrId<'_>)
    requires
        preview_of(tag@.doc) is Some,
    ensures
        preview_of(tag@.doc) == Some(r@),
{
    tag.doc.path_or_id().unwrap()
}

/// What the status line says if a tag's file cannot be opened.
pub fn open_failure(uri: &str, error: &str) -> (r: String)
    ensures
        r@ == "Failed to open file '"@ + uri@ + "': "@ + error@,
{
    let mut message = "Failed to open file '".to_owned();
    message.append(uri);
    message.append("': ");
    message.append(error);
    message
}

/// The pickers of tags.
#[derive(Debug, Clone, Copy, PartialEq, Eq, Structural)]
pub enum TagPicker {
    Symbols,
    Workspace,
    Goto,
}

/// Whether a tag's range is gone from a text of `len_chars` characters.
pub open spec fn is_stale(tag: TagView, len_chars: int) -> bool {
    tag.start >= len_chars || tag.end > len_chars
}

impl TagPicker {
    /// The range to select in the document that a tag leads to, in characters, or what the status
    /// line says instead. The pickers that look beyond the focused document make sure that the
    /// range is still there.
    pub fn jump(self, tag: &Tag, len_chars: usize) -> (r: Result<(usize, usize), &'static str>)
        ensures
            r is Err <==> self != TagPicker::Symbols && is_stale(tag@, len_chars as int),
            r matches Ok(range) ==> range == (tag.start, tag.end),
            r matches Err(message) ==> message@ == (if self == TagPicker::Workspace {
                "The location you jumped to does not exist anymore because the file has changed."@
            } else {
                "The location you jumped to no longer exists because the file has changed."@
            }),
    {
        let stale = tag.start >= len_chars || tag.end > len_chars;
        match self {
            TagPicker::Workspace if stale => Err(
                "The location you jumped to does not exist anymore because the file has changed.",
            ),
            TagPicker::Goto if stale => Err(
                "The location you jumped to no longer exists because the file has changed.",
            ),
            _ => Ok((tag.start, tag.end)),
        }
    }
}

/// A tag leads back to its name as long as the text has not changed: its range is still there,
/// and the name is what stands there. The one exception is an empty name at the very end of the
/// text.
pub proof fn jump_reaches_name(
    text: Seq<char>,
    events: Seq<EventView>,
    doc: DocView,
    i: int,
)
    requires
        events_fit(text, events),
        0 <= i < tags_of(text, events, doc).len(),
    ensures
        ({
            let tag = tags_of(text, events, doc)[i];
            &&& is_stale(tag, text.len() as int) <==> tag.start == text.len()
            &&& tag.name == text.subrange(tag.start, tag.end)
            &&& tag.name.len() > 0 ==> !is_stale(tag, text.len() as int)
        }),
{
    tags_in_text(text, events, doc);
    assert(tag_in_text(text, tags_of(text, events, doc)[i], doc));
}

/// The kind columns show the names of a tag's kind, and of its role and kind.
pub proof fn kind_columns_show_names(tag: Tag, kind: &'static str, shown: String)
    requires
        call_ensures(kind_column, (&tag,), kind),
        call_ensures(label_column, (&tag,), shown),
    ensures
        kind@ == tag.kind.name(),
        shown@ == tag.role.name() + "."@ + tag.kind.name(),
{
}

/// The path column shows the stripped path of a tag's file, or its path where none was stripped;
/// the text of a location that names no file; and the name for scratch buffers. The goto picker
/// adds a colon and the line, counted from one, to the path of a file and to nothing else.
pub proof fn path_columns_show_document(
    tag: Tag,
    stripped: Option<&str>,
    scratch_name: &str,
    path: String,
    place: String,
)
    requires
        call_ensures(shown_path, (&tag, stripped, scratch_name), path),
        call_ensures(shown_place, (&tag, stripped, scratch_name), place),
    ensures
        match tag.doc {
            UriOrDocumentId::Uri(uri) => match uri.path {
                Some(file) => {
                    &&& stripped matches Some(rest) ==> path@ == rest@
                    &&& stripped is None ==> path@ == file@
                    &&& exists|digits: Seq<char>| #[trigger]
                        value(digits) == tag.start_line + 1 && is_numeral(digits) && place@ == path@
                            + ":"@ + digits
                },
                None => path@ == uri.text@ && place@ == path@,
            },
            UriOrDocumentId::Id(_) => path@ == scratch_name@ && place@ == path@,
        },
{
    let digits = numeral((tag.start_line + 1) as nat);
    numeral_stands_for_number((tag.start_line + 1) as nat);
    assert(value(digits) == tag.start_line + 1 && is_numeral(digits));
}

/// Whether a text is a decimal numeral without leading zeros.
pub open spec fn is_numeral(digits: Seq<char>) -> bool {
    &&& digits.len() > 0
    &&& forall|i: int| 0 <= i < digits.len() ==> '0' <= #[trigger] digits[i] <= '9'
    &&& digits.len() > 1 ==> digits[0] != '0'
}

/// A file below the search root is shown by its path from there, for ordinary paths; and one that
/// is not below it by its whole path.
pub proof fn path_column_is_relative(
    tag: Tag,
    file: String,
    search_root: &str,
    scratch_name: &str,
    rest: Seq<char>,
    r: String,
)
    requires
        call_ensures(path_column, (&tag, search_root, scratch_name), r),
        tag.doc matches UriOrDocumentId::Uri(uri) && uri.path == Some(file),
        is_plain(file@),
        is_plain(search_root@),
    ensures
        file@ == search_root@.push('/') + rest && search_root@ != seq!['/'] ==> r@ == rest,
        file@ == search_root@ ==> r@.len() == 0,
        search_root@ == seq!['/'] && file@ == search_root@ + rest ==> r@ == rest,
        file@ != search_root@ && !search_root@.push('/').is_prefix_of(file@) && search_root@
            != seq!['/'] ==> r@ == file@,
{
    rest_is_what_follows_directory(file@, search_root@, rest);
    if file@ == search_root@.push('/') + rest {
        assert(search_root@.push('/') =~= file@.take(search_root@.len() as int + 1));
        assert(file@.skip(search_root@.len() as int + 1) =~= rest);
    }
    if search_root@ == seq!['/'] && file@ == search_root@ + rest {
        assert(file@.drop_first() =~= rest);
        assert(file@[0] == '/');
        if rest.len() == 0 {
            assert(file@ =~= search_root@);
        }
    }
}

/// A tag is previewed by the lines that it starts and ends on, from the file or document that it
/// is in; and that is where a jump to it leads.
pub proof fn preview_shows_lines_of_tag(
    tag: Tag,
    r: Option<(PathOrId<'_>, (usize, usize))>,
)
    requires
        call_ensures(preview, (&tag,), r),
    ensures
        match tag.doc {
            UriOrDocumentId::Id(id) => r == Some(
                (PathOrId::Id(id), (tag.start_line, tag.end_line)),
            ),
            UriOrDocumentId::Uri(uri) => match uri.path {
                Some(path) => r matches Some((PathOrId::Path(from), lines)) && from@ == path@
                    && lines == (tag.start_line, tag.end_line),
                None => r is None,
            },
        },
{
}

/// A jump leads to the file or the document that the tag is in.
pub proof fn jump_leads_to_document(tag: Tag, r: PathOrId<'_>)
    requires
        call_ensures(jump_target, (&tag,), r),
    ensures
        tag.doc matches UriOrDocumentId::Id(id) ==> r == PathOrId::<'_>::Id(id),
        tag.doc matches UriOrDocumentId::Uri(uri) ==> (uri.path matches Some(path) ==> (r matches
            PathOrId::Path(to) && to@ == path@)),
{
}

/// A jump selects the tag's range. The pickers that look beyond the focused document refuse it
/// exactly if the range starts at or past the end of the text, or ends past it.
pub proof fn jump_selects_range_of_tag(
    picker: TagPicker,
    tag: Tag,
    len_chars: usize,
    r: Result<(usize, usize), &'static str>,
)
    requires
        call_ensures(TagPicker::jump, (picker, &tag, len_chars), r),
    ensures
        r matches Ok(range) ==> range == (tag.start, tag.end),
        picker == TagPicker::Symbols ==> r is Ok,
        picker != TagPicker::Symbols ==> (r is Ok <==> tag.start < len_chars && tag.end
            <= len_chars),
{
}

/// The goto picker shows a file below the search root by its path from there, for ordinary paths,
/// and one that is not below it by its whole path; and after it the line, counted from one.
pub proof fn place_column_is_relative(
    tag: Tag,
    file: String,
    search_root: &str,
    scratch_name: &str,
    rest: Seq<char>,
    r: String,
)
    requires
        call_ensures(place_column, (&tag, search_root, scratch_name), r),
        tag.doc matches UriOrDocumentId::Uri(uri) && uri.path == Some(file),
        is_plain(file@),
        is_plain(search_root@),
    ensures
        exists|path: Seq<char>, digits: Seq<char>|
            {
                &&& r@ == #[trigger] (path + ":"@ + digits)
                &&& is_numeral(digits)
                &&& value(digits) == tag.start_line + 1
                &&& file@ == search_root@.push('/') + rest && search_root@ != seq!['/'] ==> path
                    == rest
                &&& file@ == search_root@ ==> path.len() == 0
                &&& search_root@ == seq!['/'] && file@ == search_root@ + rest ==> path == rest
                &&& file@ != search_root@ && !search_root@.push('/').is_prefix_of(file@)
                    && search_root@ != seq!['/'] ==> path == file@
            },
{
    let digits = numeral((tag.start_line + 1) as nat);
    numeral_stands_for_number((tag.start_line + 1) as nat);
    let stripped = choose|stripped: Option<Seq<char>>|
        is_relative(tag@.doc, search_root@, stripped) && r@ == #[trigger] place_text(
            tag@,
            stripped,
            scratch_name@,
        );
    let path = path_text(tag@.doc, stripped, scratch_name@);
    assert(r@ == path + ":"@ + digits);
    rest_is_what_follows_directory(file@, search_root@, rest);
    if file@ == search_root@.push('/') + rest {
        assert(search_root@.push('/') =~= file@.take(search_root@.len() as int + 1));
        assert(file@.skip(search_root@.len() as int + 1) =~= rest);
    }
    if search_root@ == seq!['/'] && file@ == search_root@ + rest {
        assert(file@.drop_first() =~= rest);
        assert(file@[0] == '/');
        if rest.len() == 0 {
            assert(file@ =~= search_root@);
        }
    }
}

/// What the status line says if a file cannot be opened, or if the place that a tag leads to is
/// gone.
pub proof fn failed_jumps_are_explained(
    uri: &str,
    error: &str,
    opening: String,
    picker: TagPicker,
    tag: Tag,
    len_chars: usize,
    jump: Result<(usize, usize), &'static str>,
)
    requires
        call_ensures(open_failure, (uri, error), opening),
        call_ensures(TagPicker::jump, (picker, &tag, len_chars), jump),
    ensures
        opening@ == "Failed to open file '"@ + uri@ + "': "@ + error@,
        jump matches Err(message) ==> {
            &&& picker == TagPicker::Workspace ==> message@
                == "The location you jumped to does not exist anymore because the file has changed."@
            &&& picker == TagPicker::Goto ==> message@
                == "The location you jumped to no longer exists because the file has changed."@
        },
{
}

} // verus!
