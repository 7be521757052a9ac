//! Which tags of a document a picker shows.

use vstd::prelude::*;
use vstd::utf8::*;
use regex_cursor::engines::meta::Regex;
use ropey::Rope;
use crate::document::{DocView, UriOrDocumentId};
use crate::pattern::{is_match, regex_matches};
use crate::query::{
    event_views, events_fit, match_tag, node_views, tag_in_text, tag_of_match_in_text,
    tags_in_text, tags_iter, tags_of, EventView, QueryEvent,
};
use crate::rope::{byte_of_char, byte_of_char_ordered, rope_text};
use crate::tag::{tag_views, Tag, TagRole, TagView};
use crate::text::same;

verus! {

/// What a picker asks of a tag.
pub enum TagFilter {
    /// That it defines something.
    Definitions,
    /// That it has this role and this name.
    Named { role: TagRole, name: String },
    /// That it defines something, and that its name matches.
    Matching(Regex),
}

impl TagFilter {
    /// The role that is asked for.
    pub open spec fn role(self) -> TagRole {
        match self {
            TagFilter::Named { role, .. } => role,
            _ => TagRole::Definition,
        }
    }

    /// Whether a tag of a text is what is asked for.
    pub open spec fn admits(self, text: Seq<char>, tag: TagView) -> bool {
        match self {
            TagFilter::Definitions => tag.role == TagRole::Definition,
            TagFilter::Named { role, name } => tag.role == role && tag.name == name@,
            TagFilter::Matching(regex) => tag.role == TagRole::Definition && regex_matches(
                regex,
                text,
                byte_of_char(text, tag.start) as int,
                byte_of_char(text, tag.end) as int,
            ),
        }
    }

    /// Whether a tag of a text is what is asked for.
    pub fn accepts(&self, text: &Rope, tag: &Tag) -> (r: bool)
        requires
            self is Matching ==> tag.start <= tag.end <= rope_text(*text).len(),
        ensures
            r == self.admits(rope_text(*text), tag@),
    {
        match self {
            TagFilter::Definitions => tag.role == TagRole::Definition,
            TagFilter::Named { role, name } => tag.role == *role && same(
                tag.name.as_str(),
                name.as_str(),
            ),
            TagFilter::Matching(regex) => {
                if tag.role == TagRole::Definition {
                    proof {
                        byte_of_char_ordered(
                            rope_text(*text),
                            tag.start as int,
                            tag.end as int,
                        );
                    }
                    let start: usize = text.char_to_byte(tag.start);
                    let end: usize = text.char_to_byte(tag.end);
                    is_match(regex, text, start, end)
                } else {
                    false
                }
            },
        }
    }
}

/// The tags of a document that a filter admits, in the order of their matches.
pub open spec fn selected(
    text: Seq<char>,
    events: Seq<EventView>,
    doc: DocView,
    filter: TagFilter,
) -> Seq<TagView> {
    tags_of(text, events, doc).filter(|tag: TagView| filter.admits(text, tag))
}

/// The tags of a document that a filter admits, in the order of their matches.
pub fn select_tags(
    events: &Vec<QueryEvent>,
    text: &Rope,
    doc: &UriOrDocumentId,
    filter: &TagFilter,
) -> (r: Vec<Tag>)
    requires
        events_fit(rope_text(*text), event_views(events@)),
    ensures
        tag_views(r@) == selected(rope_text(*text), event_views(events@), doc@, *filter),
{
    let ghost chars = rope_text(*text);
    let ghost views = event_views(events@);
    let ghost admitted = |tag: TagView| filter.admits(chars, tag);
    let mut tags: Vec<Tag> = Vec::new();
    let mut i: usize = 0;
    assert(views.take(0) =~= Seq::<EventView>::empty());
    assert(tag_views(tags@) =~= tags_of(chars, views.take(0), doc@).filter(admitted));
    while i < events.len()
        invariant
            i <= events@.len(),
            chars == rope_text(*text),
            views == event_views(events@),
            admitted == (|tag: TagView| filter.admits(chars, tag)),
            events_fit(chars, views),
            tag_views(tags@) == tags_of(chars, views.take(i as int), doc@).filter(admitted),
        decreases events@.len() - i,
    {
        let ghost before = tags@;
        let ghost earlier = tags_of(chars, views.take(i as int), doc@);
        proof {
            assert(views.take(i + 1).drop_last() =~= views.take(i as int));
            assert(views.take(i + 1).last() == views[i as int]);
            assert(views[i as int] == events@[i as int]@);
        }
        if let QueryEvent::Match(Some(nodes)) = &events[i] {
            if let Some(tag) = match_tag(text, nodes, doc) {
                proof {
                    tag_of_match_in_text(chars, node_views(nodes@), doc@);
                    earlier.lemma_filter_push(tag@, admitted);
                }
                if filter.accepts(text, &tag) {
                    tags.push(tag);
                    assert(tag_views(tags@) =~= tag_views(before).push(tag@));
                }
            }
        }
        i = i + 1;
    }
    assert(views.take(events@.len() as int) =~= views);
    tags
}

/// Every tag that is selected is one of the document's tags, lies in its text, and is what was
/// asked for; and every one of the document's tags that is what was asked for is selected.
pub proof fn selection_is_exact(
    text: Seq<char>,
    events: Seq<EventView>,
    doc: DocView,
    filter: TagFilter,
    tag: TagView,
)
    requires
        events_fit(text, events),
    ensures
        selected(text, events, doc, filter).contains(tag) <==> (tags_of(text, events, doc).contains(
            tag,
        ) && filter.admits(text, tag)),
        selected(text, events, doc, filter).contains(tag) ==> tag_in_text(text, tag, doc),
{
    let all = tags_of(text, events, doc);
    let admitted = |t: TagView| filter.admits(text, t);
    tags_in_text(text, events, doc);
    if selected(text, events, doc, filter).contains(tag) {
        let k = choose|k: int| 0 <= k < all.filter(admitted).len() && all.filter(admitted)[k] == tag;
        all.lemma_filter_pred(admitted, k);
        all.lemma_filter_contains_rev(admitted, tag);
    }
    if all.contains(tag) && filter.admits(text, tag) {
        let i = choose|i: int| 0 <= i < all.len() && all[i] == tag;
        all.lemma_filter_contains(admitted, i);
    }
}

/// A tag as it would be in another document.
pub open spec fn moved(tag: TagView, doc: DocView) -> TagView {
    TagView { doc, ..tag }
}

/// Tags as they would be in another document.
pub open spec fn all_moved(tags: Seq<TagView>, doc: DocView) -> Seq<TagView> {
    tags.map_values(|tag: TagView| moved(tag, doc))
}

/// The tags of a document that have a role.
pub open spec fn with_role(
    text: Seq<char>,
    events: Seq<EventView>,
    doc: DocView,
    role: TagRole,
) -> Seq<TagView> {
    tags_of(text, events, doc).filter(|tag: TagView| tag.role == role)
}

proof fn filter_moved(
    tags: Seq<TagView>,
    doc: DocView,
    p: spec_fn(TagView) -> bool,
    q: spec_fn(TagView) -> bool,
)
    requires
        forall|i: int| 0 <= i < tags.len() ==> q(moved(#[trigger] tags[i], doc)) == p(tags[i]),
    ensures
        all_moved(tags, doc).filter(q) == all_moved(tags.filter(p), doc),
    decreases tags.len(),
{
    if tags.len() == 0 {
        reveal(Seq::filter);
        assert(all_moved(tags, doc).filter(q) =~= all_moved(tags.filter(p), doc));
    } else {
        let earlier = tags.drop_last();
        let last = tags.last();
        assert forall|i: int| 0 <= i < earlier.len() implies q(moved(#[trigger] earlier[i], doc))
            == p(earlier[i]) by {
            assert(earlier[i] == tags[i]);
        }
        filter_moved(earlier, doc, p, q);
        assert(last == tags[tags.len() - 1]);
        assert(tags =~= earlier.push(last));
        assert(all_moved(tags, doc) =~= all_moved(earlier, doc).push(moved(last, doc)));
        earlier.lemma_filter_push(last, p);
        all_moved(earlier, doc).lemma_filter_push(moved(last, doc), q);
        assert(all_moved(earlier.filter(p).push(last), doc) =~= all_moved(
            earlier.filter(p),
            doc,
        ).push(moved(last, doc)));
    }
}

proof fn filter_twice(
    tags: Seq<TagView>,
    p: spec_fn(TagView) -> bool,
    q: spec_fn(TagView) -> bool,
)
    requires
        forall|tag: TagView| #[trigger] p(tag) ==> q(tag),
    ensures
        tags.filter(q).filter(p) == tags.filter(p),
    decreases tags.len(),
{
    if tags.len() == 0 {
        reveal(Seq::filter);
        assert(tags.filter(q).filter(p) =~= tags.filter(p));
    } else {
        let earlier = tags.drop_last();
        let last = tags.last();
        filter_twice(earlier, p, q);
        assert(tags =~= earlier.push(last));
        earlier.lemma_filter_push(last, p);
        earlier.lemma_filter_push(last, q);
        earlier.filter(q).lemma_filter_push(last, p);
    }
}

/// Two documents with the same tags of the role that is asked for have the same tags selected,
/// but for the document that they belong to. Their texts come into it only where a regex looks
/// at what stands around a name; the regex is to find the same there.
pub proof fn selection_goes_by_tags(
    text: Seq<char>,
    events: Seq<EventView>,
    doc: DocView,
    other_text: Seq<char>,
    other_events: Seq<EventView>,
    other: DocView,
    filter: TagFilter,
)
    requires
        with_role(other_text, other_events, other, filter.role()) == all_moved(
            with_role(text, events, doc, filter.role()),
            other,
        ),
        forall|i: int|
            0 <= i < with_role(text, events, doc, filter.role()).len() ==> filter.admits(
                other_text,
                #[trigger] with_role(text, events, doc, filter.role())[i],
            ) == filter.admits(text, with_role(text, events, doc, filter.role())[i]),
    ensures
        selected(other_text, other_events, other, filter) == all_moved(
            selected(text, events, doc, filter),
            other,
        ),
{
    let role = filter.role();
    let has_role = |tag: TagView| tag.role == role;
    let here = |tag: TagView| filter.admits(text, tag);
    let there = |tag: TagView| filter.admits(other_text, tag);
    let tags = with_role(text, events, doc, role);
    filter_twice(tags_of(text, events, doc), here, has_role);
    filter_twice(tags_of(other_text, other_events, other), there, has_role);
    assert forall|i: int| 0 <= i < tags.len() implies there(moved(#[trigger] tags[i], other))
        == here(tags[i]) by {
        assert(filter.admits(other_text, moved(tags[i], other)) == filter.admits(
            other_text,
            tags[i],
        ));
    }
    filter_moved(tags, other, here, there);
}

/// What is selected in a document depends on its text and matches: of another document with the
/// same it is the same, but for the document that the tags belong to.
pub proof fn selection_goes_by_contents(
    text: Seq<char>,
    events: Seq<EventView>,
    doc: DocView,
    other: DocView,
    filter: TagFilter,
)
    ensures
        tags_of(text, events, other) == all_moved(tags_of(text, events, doc), other),
        selected(text, events, other, filter) == all_moved(
            selected(text, events, doc, filter),
            other,
        ),
    decreases events.len(),
{
    if events.len() > 0 {
        selection_goes_by_contents(text, events.drop_last(), doc, other, filter);
    }
    assert(tags_of(text, events, other) =~= all_moved(tags_of(text, events, doc), other));
    let has_role = |tag: TagView| tag.role == filter.role();
    filter_moved(tags_of(text, events, doc), other, has_role, has_role);
    selection_goes_by_tags(text, events, doc, text, events, other, filter);
}

/// A filter goes by a tag's role, and by its name where it has one to go by: by the characters of
/// the name, or by what a regex finds in the bytes that encode the name. A tag's kind and document
/// are never asked for.
pub proof fn filter_goes_by_role_and_name(filter: TagFilter, text: Rope, tag: Tag, r: bool)
    requires
        call_ensures(TagFilter::accepts, (&filter, &text, &tag), r),
        0 <= tag.start <= tag.end <= rope_text(text).len(),
    ensures
        r <==> match filter {
            TagFilter::Definitions => tag.role == TagRole::Definition,
            TagFilter::Named { role, name } => tag.role == role && tag.name@ == name@,
            TagFilter::Matching(regex) => tag.role == TagRole::Definition && regex_matches(
                regex,
                rope_text(text),
                encode_utf8(rope_text(text).take(tag.start as int)).len() as int,
                encode_utf8(rope_text(text).take(tag.end as int)).len() as int,
            ),
        },
{
}

/// Selecting definitions keeps the document's tags that have that role, whatever their kind, in
/// their order and as often as they occur, and leaves out all others.
pub proof fn definitions_are_all_selected(
    events: Vec<QueryEvent>,
    text: Rope,
    doc: UriOrDocumentId,
    all: Vec<Tag>,
    r: Vec<Tag>,
)
    requires
        call_ensures(tags_iter, (&events, &text, &doc), all),
        call_ensures(select_tags, (&events, &text, &doc, &TagFilter::Definitions), r),
    ensures
        tag_views(r@) == tag_views(all@).filter(|tag: TagView| tag.role == TagRole::Definition),
{
    same_filter(
        tag_views(all@),
        |tag: TagView| TagFilter::Definitions.admits(rope_text(text), tag),
        |tag: TagView| tag.role == TagRole::Definition,
    );
}

/// Selecting by name keeps the document's tags that have the role and the name, in their order and
/// as often as they occur, and leaves out all others.
pub proof fn named_tags_are_all_selected(
    events: Vec<QueryEvent>,
    text: Rope,
    doc: UriOrDocumentId,
    role: TagRole,
    name: String,
    all: Vec<Tag>,
    r: Vec<Tag>,
)
    requires
        call_ensures(tags_iter, (&events, &text, &doc), all),
        call_ensures(select_tags, (&events, &text, &doc, &TagFilter::Named { role, name }), r),
    ensures
        tag_views(r@) == tag_views(all@).filter(
            |tag: TagView| tag.role == role && tag.name == name@,
        ),
{
    same_filter(
        tag_views(all@),
        |tag: TagView| (TagFilter::Named { role, name }).admits(rope_text(text), tag),
        |tag: TagView| tag.role == role && tag.name == name@,
    );
}

/// Selecting by a regex keeps the document's definitions in whose names it finds a match, in their
/// order and as often as they occur, and leaves out all other tags.
pub proof fn matching_definitions_are_all_selected(
    events: Vec<QueryEvent>,
    text: Rope,
    doc: UriOrDocumentId,
    regex: Regex,
    all: Vec<Tag>,
    r: Vec<Tag>,
)
    requires
        call_ensures(tags_iter, (&events, &text, &doc), all),
        call_ensures(select_tags, (&events, &text, &doc, &TagFilter::Matching(regex)), r),
    ensures
        tag_views(r@) == tag_views(all@).filter(
            |tag: TagView|
                tag.role == TagRole::Definition && regex_matches(
                    regex,
                    rope_text(text),
                    encode_utf8(rope_text(text).take(tag.start)).len() as int,
                    encode_utf8(rope_text(text).take(tag.end)).len() as int,
                ),
        ),
{
    same_filter(
        tag_views(all@),
        |tag: TagView| TagFilter::Matching(regex).admits(rope_text(text), tag),
        |tag: TagView|
            tag.role == TagRole::Definition && regex_matches(
                regex,
                rope_text(text),
                encode_utf8(rope_text(text).take(tag.start)).len() as int,
                encode_utf8(rope_text(text).take(tag.end)).len() as int,
            ),
    );
}

pub(crate) proof fn same_filter(
    tags: Seq<TagView>,
    p: spec_fn(TagView) -> bool,
    q: spec_fn(TagView) -> bool,
)
    requires
        forall|tag: TagView| #[trigger] p(tag) == q(tag),
    ensures
        tags.filter(p) == tags.filter(q),
    decreases tags.len(),
{
    reveal(Seq::filter);
    if tags.len() > 0 {
        same_filter(tags.drop_last(), p, q);
        assert(p(tags.last()) == q(tags.last()));
    }
}

} // verus!
