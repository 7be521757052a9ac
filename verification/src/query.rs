//! Matches of a tags query, and the tags in them.

use vstd::prelude::*;
use vstd::utf8::*;
use ropey::Rope;
use crate::document::{DocView, UriOrDocumentId};
use crate::rope::{
    byte_belongs_to_one_char, byte_len, byte_of_char, byte_of_char_ordered, byte_within_char,
    char_of_byte, char_of_byte_bounded, char_of_byte_in_text, char_of_byte_ordered, encodes,
    line_counts_line_feeds, line_feeds, line_of_char, line_of_char_ordered, rope_text,
    slice_to_string,
};
use crate::tag::{
    capture_name_is_label, name_capture_is_no_tag, tag_of_capture, tag_views, Tag, TagKind, TagRole,
    TagView,
};
use crate::text::same;

verus! {

/// A node that a query captured: the capture's name, and the node's byte range.
#[derive(Debug)]
pub struct CapturedNode {
    pub capture: String,
    pub start_byte: u32,
    pub end_byte: u32,
}

/// The value of a [`CapturedNode`].
pub struct NodeView {
    pub capture: Seq<char>,
    pub start: int,
    pub end: int,
}

impl View for CapturedNode {
    type V = NodeView;

    open spec fn view(&self) -> NodeView {
        NodeView {
            capture: self.capture@,
            start: self.start_byte as int,
            end: self.end_byte as int,
        }
    }
}

/// What running a tags query yields, one at a time.
#[derive(Debug)]
pub enum QueryEvent {
    /// The query goes on in a layer of another language.
    EnterInjection,
    /// The query goes on in the layer around.
    ExitInjection,
    /// A match, with the nodes it captured. The capture names are those of the tags query of the
    /// layer's language; without such a query there are none to give.
    Match(Option<Vec<CapturedNode>>),
}

/// The value of a [`QueryEvent`].
pub enum EventView {
    Injection,
    Match(Option<Seq<NodeView>>),
}

/// The values of a list of nodes.
pub open spec fn node_views(nodes: Seq<CapturedNode>) -> Seq<NodeView> {
    nodes.map_values(|n: CapturedNode| n@)
}

impl View for QueryEvent {
    type V = EventView;

    open spec fn view(&self) -> EventView {
        match self {
            QueryEvent::Match(Some(nodes)) => EventView::Match(Some(node_views(nodes@))),
            QueryEvent::Match(None) => EventView::Match(None),
            _ => EventView::Injection,
        }
    }
}

/// The values of a list of events.
pub open spec fn event_views(events: Seq<QueryEvent>) -> Seq<EventView> {
    events.map_values(|e: QueryEvent| e@)
}

/// Whether a node was captured as a tag.
pub open spec fn is_tag(node: NodeView) -> bool {
    tag_of_capture(node.capture) is Some
}

/// Whether a node was captured as the name of a tag.
pub open spec fn is_name(node: NodeView) -> bool {
    node.capture == "name"@
}

/// The last node that satisfies `p`.
pub open spec fn last_node(nodes: Seq<NodeView>, p: spec_fn(NodeView) -> bool) -> Option<NodeView>
    decreases nodes.len(),
{
    if nodes.len() == 0 {
        None
    } else if p(nodes.last()) {
        Some(nodes.last())
    } else {
        last_node(nodes.drop_last(), p)
    }
}

/// The first node that satisfies `p`.
pub open spec fn first_node(nodes: Seq<NodeView>, p: spec_fn(NodeView) -> bool) -> Option<NodeView>
    decreases nodes.len(),
{
    if nodes.len() == 0 {
        None
    } else if p(nodes[0]) {
        Some(nodes[0])
    } else {
        first_node(nodes.drop_first(), p)
    }
}

/// The node that a match tags: the last one captured as a tag.
pub open spec fn tag_node(nodes: Seq<NodeView>) -> Option<NodeView> {
    last_node(nodes, |n: NodeView| is_tag(n))
}

/// The node that names what a match tags: the last one captured as a name, and otherwise the
/// tagged node itself.
pub open spec fn naming_node(nodes: Seq<NodeView>, tagged: NodeView) -> NodeView {
    match last_node(nodes, |n: NodeView| is_name(n)) {
        Some(name) => name,
        None => tagged,
    }
}

/// Whether the byte ranges that a match's tag is made from lie in the text, with the name's range
/// the right way round.
pub open spec fn match_fits(text: Seq<char>, nodes: Seq<NodeView>) -> bool {
    match tag_node(nodes) {
        Some(tagged) => {
            let name = naming_node(nodes, tagged);
            &&& tagged.start <= byte_len(text)
            &&& tagged.end <= byte_len(text)
            &&& name.start <= byte_len(text)
            &&& name.end <= byte_len(text)
            &&& char_of_byte(text, name.start) <= char_of_byte(text, name.end)
        },
        None => true,
    }
}

/// The tag in a match: its role and kind from the tagged node, its name and character range from
/// the naming node, its lines from the tagged node. A match that tags nothing holds none.
pub open spec fn tag_of_match(text: Seq<char>, nodes: Seq<NodeView>, doc: DocView) -> Option<
    TagView,
> {
    match tag_node(nodes) {
        Some(tagged) => {
            let (role, kind) = tag_of_capture(tagged.capture).unwrap();
            let name = naming_node(nodes, tagged);
            let start = char_of_byte(text, name.start) as int;
            let end = char_of_byte(text, name.end) as int;
            Some(
                TagView {
                    kind,
                    role,
                    name: text.subrange(start, end),
                    start,
                    end,
                    start_line: line_of_char(
                        text,
                        char_of_byte(text, tagged.start) as int,
                    ) as int,
                    end_line: line_of_char(text, char_of_byte(text, tagged.end) as int) as int,
                    doc,
                },
            )
        },
        None => None,
    }
}

/// The places of the tagged node, with its role and kind, and of the node captured as a name.
fn find_captures(nodes: &Vec<CapturedNode>) -> (r: (
    Option<(TagRole, TagKind, usize)>,
    Option<usize>,
))
    ensures
        match r.0 {
            Some((role, kind, k)) => {
                &&& k < nodes@.len()
                &&& tag_node(node_views(nodes@)) == Some(nodes@[k as int]@)
                &&& tag_of_capture(nodes@[k as int]@.capture) == Some((role, kind))
            },
            None => tag_node(node_views(nodes@)) is None,
        },
        match r.1 {
            Some(k) => k < nodes@.len() && last_node(
                node_views(nodes@),
                |n: NodeView| is_name(n),
            ) == Some(nodes@[k as int]@),
            None => last_node(node_views(nodes@), |n: NodeView| is_name(n)) is None,
        },
{
    let ghost views = node_views(nodes@);
    let ghost tag_test = |n: NodeView| is_tag(n);
    let ghost name_test = |n: NodeView| is_name(n);
    // Find the @definition.*/@reference.* and optional @name captures in this match.
    let mut tag_capture: Option<(TagRole, TagKind, usize)> = None;
    let mut name_capture: Option<usize> = None;
    let mut i: usize = 0;
    assert(views.take(0) =~= Seq::<NodeView>::empty());
    while i < nodes.len()
        invariant
            i <= nodes@.len(),
            views == node_views(nodes@),
            tag_test == (|n: NodeView| is_tag(n)),
            name_test == (|n: NodeView| is_name(n)),
            match tag_capture {
                Some((role, kind, k)) => {
                    &&& k < i
                    &&& last_node(views.take(i as int), tag_test) == Some(views[k as int])
                    &&& tag_of_capture(views[k as int].capture) == Some((role, kind))
                },
                None => last_node(views.take(i as int), tag_test) is None,
            },
            match name_capture {
                Some(k) => k < i && last_node(views.take(i as int), name_test) == Some(
                    views[k as int],
                ),
                None => last_node(views.take(i as int), name_test) is None,
            },
        decreases nodes@.len() - i,
    {
        proof {
            name_capture_is_no_tag();
            assert(views.take(i + 1).drop_last() =~= views.take(i as int));
            assert(views.take(i + 1).last() == nodes@[i as int]@);
        }
        if let Some((role, kind)) = TagKind::from_capture_name(nodes[i].capture.as_str()) {
            tag_capture = Some((role, kind, i));
        } else if same(nodes[i].capture.as_str(), "name") {
            name_capture = Some(i);
        }
        i = i + 1;
    }
    assert(views.take(nodes@.len() as int) =~= views);
    (tag_capture, name_capture)
}

/// Whether the byte ranges that a match's tag is made from lie in the text.
fn match_in_text(text: &Rope, nodes: &Vec<CapturedNode>) -> (r: bool)
    ensures
        r == match_fits(rope_text(*text), node_views(nodes@)),
{
    match find_captures(nodes) {
        (Some((_, _, tagged)), name) => {
            let named: usize = match name {
                Some(k) => k,
                None => tagged,
            };
            let len: usize = text.len_bytes();
            let start: usize = nodes[named].start_byte as usize;
            let end: usize = nodes[named].end_byte as usize;
            nodes[tagged].start_byte as usize <= len && nodes[tagged].end_byte as usize <= len
                && start <= len && end <= len && text.byte_to_char(start) <= text.byte_to_char(end)
        },
        (None, _) => true,
    }
}

/// The tag in a match, if the match tags anything.
pub fn match_tag(text: &Rope, nodes: &Vec<CapturedNode>, doc: &UriOrDocumentId) -> (r: Option<Tag>)
    requires
        match_fits(rope_text(*text), node_views(nodes@)),
    ensures
        r is Some <==> tag_of_match(rope_text(*text), node_views(nodes@), doc@) is Some,
        r matches Some(tag) ==> tag_of_match(rope_text(*text), node_views(nodes@), doc@) == Some(
            tag@,
        ),
{
    let ghost chars = rope_text(*text);
    match find_captures(nodes) {
        (Some((role, kind, tagged)), name) => {
            let named: usize = match name {
                Some(k) => k,
                None => tagged,
            };
            proof {
                char_of_byte_in_text(chars, nodes@[named as int].end_byte as int);
                char_of_byte_in_text(chars, nodes@[tagged as int].start_byte as int);
                char_of_byte_in_text(chars, nodes@[tagged as int].end_byte as int);
            }
            let name_start: usize = text.byte_to_char(nodes[named].start_byte as usize);
            let name_end: usize = text.byte_to_char(nodes[named].end_byte as usize);
            let tag_start: usize = text.byte_to_char(nodes[tagged].start_byte as usize);
            let tag_end: usize = text.byte_to_char(nodes[tagged].end_byte as usize);
            Some(
                Tag {
                    kind,
                    role,
                    name: slice_to_string(text, name_start, name_end),
                    start: name_start,
                    end: name_end,
                    start_line: text.char_to_line(tag_start),
                    end_line: text.char_to_line(tag_end),
                    doc: doc.clone(),
                },
            )
        },
        (None, _) => None,
    }
}

/// A node found from the end is one of the nodes, and satisfies what was asked.
proof fn last_node_found(nodes: Seq<NodeView>, p: spec_fn(NodeView) -> bool)
    ensures
        last_node(nodes, p) matches Some(n) ==> p(n) && nodes.contains(n),
        last_node(nodes, p) is None ==> forall|i: int| 0 <= i < nodes.len() ==> !p(nodes[i]),
    decreases nodes.len(),
{
    if nodes.len() > 0 {
        if p(nodes.last()) {
            assert(nodes[nodes.len() - 1] == nodes.last());
        } else {
            last_node_found(nodes.drop_last(), p);
            if let Some(n) = last_node(nodes.drop_last(), p) {
                let i = choose|i: int| 0 <= i < nodes.len() - 1 && nodes.drop_last()[i] == n;
                assert(nodes[i] == n);
            }
            assert forall|i: int|
                last_node(nodes, p) is None && 0 <= i < nodes.len() implies !p(nodes[i]) by {
                if i < nodes.len() - 1 {
                    assert(nodes.drop_last()[i] == nodes[i]);
                }
            }
        }
    }
}

/// A node found from the front is one of the nodes, and satisfies what was asked.
proof fn first_node_found(nodes: Seq<NodeView>, p: spec_fn(NodeView) -> bool)
    ensures
        first_node(nodes, p) matches Some(n) ==> p(n) && nodes.contains(n),
        first_node(nodes, p) is None ==> forall|i: int| 0 <= i < nodes.len() ==> !p(nodes[i]),
    decreases nodes.len(),
{
    if nodes.len() > 0 {
        if !p(nodes[0]) {
            first_node_found(nodes.drop_first(), p);
            if let Some(n) = first_node(nodes.drop_first(), p) {
                let i = choose|i: int| 0 <= i < nodes.len() - 1 && nodes.drop_first()[i] == n;
                assert(nodes[i + 1] == n);
            }
            assert forall|i: int|
                first_node(nodes, p) is None && 0 <= i < nodes.len() implies !p(nodes[i]) by {
                if i > 0 {
                    assert(nodes.drop_first()[i - 1] == nodes[i]);
                }
            }
        }
    }
}

/// What holds of a tag that was found in a text.
pub open spec fn tag_in_text(text: Seq<char>, tag: TagView, doc: DocView) -> bool {
    &&& 0 <= tag.start <= tag.end <= text.len()
    &&& tag.name == text.subrange(tag.start, tag.end)
    &&& 0 <= tag.start_line <= line_feeds(text)
    &&& 0 <= tag.end_line <= line_feeds(text)
    &&& tag.role == tag.kind.role()
    &&& tag.doc == doc
}

/// Whether no node of a match ends before it starts.
pub open spec fn nodes_ordered(nodes: Seq<NodeView>) -> bool {
    forall|i: int| 0 <= i < nodes.len() ==> (#[trigger] nodes[i]).start <= nodes[i].end
}

/// The tag in a match lies in the text: its range is the right way round and within bounds, its
/// name is the text at that range, its lines are lines of the text, its role is the one that goes
/// with its kind, and it belongs to the document. It ends on no earlier line than it starts on if
/// its nodes do not end before they start.
pub proof fn tag_of_match_in_text(text: Seq<char>, nodes: Seq<NodeView>, doc: DocView)
    requires
        match_fits(text, nodes),
    ensures
        tag_of_match(text, nodes, doc) matches Some(tag) ==> {
            &&& tag_in_text(text, tag, doc)
            &&& nodes_ordered(nodes) ==> tag.start_line <= tag.end_line
        },
{
    if let Some(tagged) = tag_node(nodes) {
        let (role, kind) = tag_of_capture(tagged.capture).unwrap();
        let start = char_of_byte(text, tagged.start) as int;
        let end = char_of_byte(text, tagged.end) as int;
        last_node_found(nodes, |n: NodeView| is_tag(n));
        capture_name_is_label(tagged.capture, role, kind);
        char_of_byte_in_text(text, naming_node(nodes, tagged).end);
        char_of_byte_in_text(text, tagged.start);
        char_of_byte_in_text(text, tagged.end);
        line_of_char_ordered(text, start, text.len() as int);
        line_of_char_ordered(text, end, text.len() as int);
        assert(text.take(text.len() as int) =~= text);
        if tagged.start <= tagged.end {
            char_of_byte_ordered(text, tagged.start, tagged.end);
            line_of_char_ordered(text, start, end);
        }
    }
}

/// Whether every match comes from a tags query, and fits the text.
pub open spec fn events_fit(text: Seq<char>, events: Seq<EventView>) -> bool {
    forall|i: int|
        0 <= i < events.len() ==> match #[trigger] events[i] {
            EventView::Match(Some(nodes)) => match_fits(text, nodes),
            EventView::Match(None) => false,
            EventView::Injection => true,
        }
}

/// Whether every match comes from a tags query, and fits the text.
pub fn events_in_text(events: &Vec<QueryEvent>, text: &Rope) -> (r: bool)
    ensures
        r == events_fit(rope_text(*text), event_views(events@)),
{
    let ghost views = event_views(events@);
    let mut i: usize = 0;
    while i < events.len()
        invariant
            i <= events@.len(),
            views == event_views(events@),
            forall|j: int|
                0 <= j < i ==> match #[trigger] views[j] {
                    EventView::Match(Some(nodes)) => match_fits(rope_text(*text), nodes),
                    EventView::Match(None) => false,
                    EventView::Injection => true,
                },
        decreases events@.len() - i,
    {
        assert(views[i as int] == events@[i as int]@);
        match &events[i] {
            QueryEvent::Match(Some(nodes)) => if !match_in_text(text, nodes) {
                return false;
            },
            QueryEvent::Match(None) => {
                return false;
            },
            _ => {},
        }
        i = i + 1;
    }
    true
}

/// The tag in an event: that of a match that tags something.
pub open spec fn tag_of_event(text: Seq<char>, event: EventView, doc: DocView) -> Option<TagView> {
    match event {
        EventView::Match(Some(nodes)) => tag_of_match(text, nodes, doc),
        _ => None,
    }
}

/// The tags of a document, in the order of their matches.
pub open spec fn tags_of(text: Seq<char>, events: Seq<EventView>, doc: DocView) -> Seq<TagView>
    decreases events.len(),
{
    if events.len() == 0 {
        Seq::empty()
    } else {
        let before = tags_of(text, events.drop_last(), doc);
        match tag_of_event(text, events.last(), doc) {
            Some(tag) => before.push(tag),
            None => before,
        }
    }
}

/// The tags of a document, in the order of their matches.
pub fn tags_iter(events: &Vec<QueryEvent>, text: &Rope, doc: &UriOrDocumentId) -> (r: Vec<Tag>)
    requires
        events_fit(rope_text(*text), event_views(events@)),
    ensures
        tag_views(r@) == tags_of(rope_text(*text), event_views(events@), doc@),
{
    let ghost chars = rope_text(*text);
    let ghost views = event_views(events@);
    let mut tags: Vec<Tag> = Vec::new();
    let mut i: usize = 0;
    assert(views.take(0) =~= Seq::<EventView>::empty());
    assert(tag_views(tags@) =~= tags_of(chars, views.take(0), doc@));
    while i < events.len()
        invariant
            i <= events@.len(),
            chars == rope_text(*text),
            views == event_views(events@),
            events_fit(chars, views),
            tag_views(tags@) == tags_of(chars, views.take(i as int), doc@),
        decreases events@.len() - i,
    {
        proof {
            assert(views.take(i + 1).drop_last() =~= views.take(i as int));
            assert(views.take(i + 1).last() == views[i as int]);
            assert(views[i as int] == events@[i as int]@);
        }
        if let QueryEvent::Match(Some(nodes)) = &events[i] {
            if let Some(tag) = match_tag(text, nodes, doc) {
                let ghost before = tags@;
                tags.push(tag);
                assert(tag_views(tags@) =~= tag_views(before).push(tag@));
            }
        }
        i = i + 1;
    }
    assert(views.take(events@.len() as int) =~= views);
    tags
}

/// Whether no node of any match ends before it starts.
pub open spec fn events_ordered(events: Seq<EventView>) -> bool {
    forall|i: int|
        0 <= i < events.len() ==> (#[trigger] events[i] matches EventView::Match(Some(nodes))
            ==> nodes_ordered(nodes))
}

/// Every tag of a document lies in its text, and none ends on an earlier line than it starts on if
/// no node ends before it starts.
pub proof fn tags_in_text(text: Seq<char>, events: Seq<EventView>, doc: DocView)
    requires
        events_fit(text, events),
    ensures
        forall|i: int|
            0 <= i < tags_of(text, events, doc).len() ==> tag_in_text(
                text,
                #[trigger] tags_of(text, events, doc)[i],
                doc,
            ),
        events_ordered(events) ==> forall|i: int|
            0 <= i < tags_of(text, events, doc).len() ==> (#[trigger] tags_of(
                text,
                events,
                doc,
            )[i]).start_line <= tags_of(text, events, doc)[i].end_line,
    decreases events.len(),
{
    if events.len() > 0 {
        let earlier = events.drop_last();
        assert(events_fit(text, earlier)) by {
            assert forall|i: int| 0 <= i < earlier.len() implies match #[trigger] earlier[i] {
                EventView::Match(Some(nodes)) => match_fits(text, nodes),
                EventView::Match(None) => false,
                EventView::Injection => true,
            } by {
                assert(earlier[i] == events[i]);
            }
        }
        tags_in_text(text, earlier, doc);
        assert(events.last() == events[events.len() - 1]);
        if let EventView::Match(Some(nodes)) = events.last() {
            tag_of_match_in_text(text, nodes, doc);
        }
        let before = tags_of(text, earlier, doc);
        let all = tags_of(text, events, doc);
        assert forall|i: int| 0 <= i < all.len() implies tag_in_text(text, #[trigger] all[i], doc) by {
            if i < before.len() {
                assert(all[i] == before[i]);
            }
        }
        if events_ordered(events) {
            assert(events_ordered(earlier)) by {
                assert forall|i: int| 0 <= i < earlier.len() implies (#[trigger] earlier[i] matches
                    EventView::Match(Some(nodes)) ==> nodes_ordered(nodes)) by {
                    assert(earlier[i] == events[i]);
                }
            }
            assert forall|i: int| 0 <= i < all.len() implies (#[trigger] all[i]).start_line
                <= all[i].end_line by {
                if i < before.len() {
                    assert(all[i] == before[i]);
                }
            }
        }
    }
}

/// The tag of each event is among the tags of the document.
pub proof fn tag_of_event_is_listed(text: Seq<char>, events: Seq<EventView>, doc: DocView, i: int)
    requires
        0 <= i < events.len(),
    ensures
        tag_of_event(text, events[i], doc) matches Some(tag) ==> tags_of(
            text,
            events,
            doc,
        ).contains(tag),
    decreases events.len(),
{
    let before = tags_of(text, events.drop_last(), doc);
    let all = tags_of(text, events, doc);
    if let Some(tag) = tag_of_event(text, events[i], doc) {
        if i == events.len() - 1 {
            assert(all.last() == tag);
        } else {
            assert(events.drop_last()[i] == events[i]);
            tag_of_event_is_listed(text, events.drop_last(), doc, i);
            let k = choose|k: int| 0 <= k < before.len() && before[k] == tag;
            assert(all[k] == tag);
        }
    }
}

/// A byte range of a document.
#[derive(Debug, Clone, Copy, PartialEq, Eq, Structural)]
pub struct ByteRange {
    pub start: u32,
    pub end: u32,
}

/// The range to query for the tag at the cursor: that of the root's child that the cursor is in,
/// so that patterns whose anchor node starts before the cursor are still found, and that of the
/// root where the cursor is in no child. `lineage` runs from the deepest named node at the cursor
/// up to the root.
pub fn cursor_query_range(lineage: &Vec<ByteRange>) -> (r: ByteRange)
    requires
        lineage@.len() > 0,
    ensures
        lineage@.len() == 1 ==> r == lineage@[0],
        lineage@.len() > 1 ==> r == lineage@[lineage@.len() - 2],
{
    if lineage.len() == 1 {
        lineage[0]
    } else {
        lineage[lineage.len() - 2]
    }
}

/// Whether a byte is in a node.
pub open spec fn covers(node: NodeView, byte: int) -> bool {
    node.start <= byte < node.end
}

/// The node of a match whose text names the tag at the cursor. In a match that tags something,
/// that is the first node captured as a name, if the cursor is on it; where no node is captured
/// as a name, it is the first tagged node that the cursor is on.
pub open spec fn match_at_cursor(nodes: Seq<NodeView>, byte: int) -> Option<NodeView> {
    if first_node(nodes, |n: NodeView| is_tag(n)) is None {
        None
    } else {
        match first_node(nodes, |n: NodeView| is_name(n)) {
            Some(name) => if covers(name, byte) {
                Some(name)
            } else {
                None
            },
            None => first_node(nodes, |n: NodeView| is_tag(n) && covers(n, byte)),
        }
    }
}

/// The node whose text names the tag at the cursor: that of the first match that has one.
pub open spec fn node_at_cursor(events: Seq<EventView>, byte: int) -> Option<NodeView>
    decreases events.len(),
{
    if events.len() == 0 {
        None
    } else {
        let here = match events[0] {
            EventView::Match(Some(nodes)) => match_at_cursor(nodes, byte),
            _ => None,
        };
        if here is Some {
            here
        } else {
            node_at_cursor(events.drop_first(), byte)
        }
    }
}

/// The text of a node.
pub open spec fn node_text(text: Seq<char>, node: NodeView) -> Seq<char> {
    text.subrange(char_of_byte(text, node.start) as int, char_of_byte(text, node.end) as int)
}

/// The index of the node that names the tag at the cursor, within a match.
fn index_at_cursor(nodes: &Vec<CapturedNode>, cursor_byte: u32) -> (r: Option<usize>)
    ensures
        match r {
            Some(k) => k < nodes@.len() && covers(nodes@[k as int]@, cursor_byte as int)
                && match_at_cursor(node_views(nodes@), cursor_byte as int) == Some(
                nodes@[k as int]@,
            ),
            None => match_at_cursor(node_views(nodes@), cursor_byte as int) is None,
        },
{
    let ghost views = node_views(nodes@);
    let ghost tag_test = |n: NodeView| is_tag(n);
    let ghost name_test = |n: NodeView| is_name(n);
    let ghost hit_test = |n: NodeView| is_tag(n) && covers(n, cursor_byte as int);
    // Find the @name node for this match (may be absent in old-style patterns), whether there is
    // a tag at all, and the first tag that the cursor is on.
    let mut name: Option<usize> = None;
    let mut has_tag: bool = false;
    let mut hit: Option<usize> = None;
    let mut i: usize = nodes.len();
    assert(views.skip(views.len() as int) =~= Seq::<NodeView>::empty());
    while i > 0
        invariant
            i <= nodes@.len(),
            views == node_views(nodes@),
            tag_test == (|n: NodeView| is_tag(n)),
            name_test == (|n: NodeView| is_name(n)),
            hit_test == (|n: NodeView| is_tag(n) && covers(n, cursor_byte as int)),
            has_tag == (first_node(views.skip(i as int), tag_test) is Some),
            match name {
                Some(k) => i <= k < nodes@.len() && first_node(views.skip(i as int), name_test)
                    == Some(views[k as int]),
                None => first_node(views.skip(i as int), name_test) is None,
            },
            match hit {
                Some(k) => {
                    &&& i <= k < nodes@.len()
                    &&& first_node(views.skip(i as int), hit_test) == Some(views[k as int])
                    &&& covers(views[k as int], cursor_byte as int)
                },
                None => first_node(views.skip(i as int), hit_test) is None,
            },
        decreases i,
    {
        i = i - 1;
        proof {
            assert(views.skip(i as int).drop_first() =~= views.skip(i + 1));
            assert(views.skip(i as int)[0] == nodes@[i as int]@);
        }
        if TagKind::from_capture_name(nodes[i].capture.as_str()).is_some() {
            has_tag = true;
            if nodes[i].start_byte <= cursor_byte && cursor_byte < nodes[i].end_byte {
                hit = Some(i);
            }
        }
        if same(nodes[i].capture.as_str(), "name") {
            name = Some(i);
        }
    }
    assert(views.skip(0) =~= views);
    if !has_tag {
        return None;
    }
    match name {
        // New-style: cursor must be on the @name node.
        Some(k) => if nodes[k].start_byte <= cursor_byte && cursor_byte < nodes[k].end_byte {
            Some(k)
        } else {
            None
        },
        // Old-style: no @name; cursor must be on the tag capture itself.
        None => hit,
    }
}

/// The place of the node that names the tag at the cursor: the event's, and the node's within it.
fn place_at_cursor(events: &Vec<QueryEvent>, cursor_byte: u32) -> (r: Option<(usize, usize)>)
    ensures
        match r {
            Some((i, k)) => i < events@.len() && (events@[i as int] matches QueryEvent::Match(
                Some(nodes),
            ) && k < nodes@.len() && covers(nodes@[k as int]@, cursor_byte as int)
                && node_at_cursor(event_views(events@), cursor_byte as int) == Some(
                nodes@[k as int]@,
            )),
            None => node_at_cursor(event_views(events@), cursor_byte as int) is None,
        },
{
    let ghost views = event_views(events@);
    let mut i: usize = 0;
    assert(views.skip(0) =~= views);
    while i < events.len()
        invariant
            i <= events@.len(),
            views == event_views(events@),
            node_at_cursor(views, cursor_byte as int) == node_at_cursor(
                views.skip(i as int),
                cursor_byte as int,
            ),
        decreases events@.len() - i,
    {
        proof {
            assert(views.skip(i as int).drop_first() =~= views.skip(i + 1));
            assert(views.skip(i as int)[0] == events@[i as int]@);
        }
        if let QueryEvent::Match(Some(nodes)) = &events[i] {
            if let Some(k) = index_at_cursor(nodes, cursor_byte) {
                return Some((i, k));
            }
        }
        i = i + 1;
    }
    None
}

/// Whether there is a name at the cursor.
pub fn has_name_at_cursor(events: &Vec<QueryEvent>, cursor_byte: u32) -> (r: bool)
    ensures
        r == (node_at_cursor(event_views(events@), cursor_byte as int) is Some),
{
    place_at_cursor(events, cursor_byte).is_some()
}

/// Whether the node that names the tag at the cursor, if there is one, ends within the text.
pub fn cursor_node_in_text(events: &Vec<QueryEvent>, text: &Rope, cursor_byte: u32) -> (r: bool)
    ensures
        r == (node_at_cursor(event_views(events@), cursor_byte as int) matches Some(node)
            ==> node.end <= byte_len(rope_text(*text))),
{
    if let Some((i, k)) = place_at_cursor(events, cursor_byte) {
        if let QueryEvent::Match(Some(nodes)) = &events[i] {
            return nodes[k].end_byte as usize <= text.len_bytes();
        }
    }
    true
}

/// Returns the `@name` text of the tag match at `cursor_byte`, or `None` if the cursor is not on
/// a tagged construct. `events` is what the tags query yields on [`cursor_query_range`].
pub fn find_name_at_cursor(events: &Vec<QueryEvent>, text: &Rope, cursor_byte: u32) -> (r: Option<
    String,
>)
    requires
        node_at_cursor(event_views(events@), cursor_byte as int) matches Some(node) ==> node.end
            <= byte_len(rope_text(*text)),
    ensures
        match node_at_cursor(event_views(events@), cursor_byte as int) {
            Some(node) => r matches Some(name) && name@ == node_text(rope_text(*text), node),
            None => r is None,
        },
{
    if let Some((i, k)) = place_at_cursor(events, cursor_byte) {
        if let QueryEvent::Match(Some(nodes)) = &events[i] {
            proof {
                let node = nodes@[k as int]@;
                char_of_byte_in_text(rope_text(*text), node.end);
                char_of_byte_ordered(rope_text(*text), node.start, node.end);
            }
            let start: usize = text.byte_to_char(nodes[k].start_byte as usize);
            let end: usize = text.byte_to_char(nodes[k].end_byte as usize);
            return Some(slice_to_string(text, start, end));
        }
    }
    None
}

/// Whether at most one node satisfies `p`.
pub open spec fn at_most_one(nodes: Seq<NodeView>, p: spec_fn(NodeView) -> bool) -> bool {
    forall|i: int, j: int|
        0 <= i < j < nodes.len() ==> !(#[trigger] p(nodes[i]) && #[trigger] p(nodes[j]))
}

proof fn only_node_found(nodes: Seq<NodeView>, p: spec_fn(NodeView) -> bool)
    requires
        at_most_one(nodes, p),
    ensures
        first_node(nodes, p) == last_node(nodes, p),
{
    first_node_found(nodes, p);
    last_node_found(nodes, p);
    if let (Some(first), Some(last)) = (first_node(nodes, p), last_node(nodes, p)) {
        let i = choose|i: int| 0 <= i < nodes.len() && nodes[i] == first;
        let j = choose|j: int| 0 <= j < nodes.len() && nodes[j] == last;
        assert(p(nodes[i]) && p(nodes[j]));
    } else if let Some(first) = first_node(nodes, p) {
        let i = choose|i: int| 0 <= i < nodes.len() && nodes[i] == first;
        assert(p(nodes[i]));
    } else if let Some(last) = last_node(nodes, p) {
        let j = choose|j: int| 0 <= j < nodes.len() && nodes[j] == last;
        assert(p(nodes[j]));
    }
}

/// The name at the cursor is the text of a node that the cursor is on, captured as a name or as
/// a tag by one of the matches, and that match tags something and has this name at the cursor. If
/// there is no name at the cursor, no match has one.
pub proof fn cursor_is_on_node(events: Seq<EventView>, byte: int)
    ensures
        node_at_cursor(events, byte) is None ==> forall|i: int|
            0 <= i < events.len() ==> (#[trigger] events[i] matches EventView::Match(Some(nodes))
                ==> match_at_cursor(nodes, byte) is None),
        node_at_cursor(events, byte) matches Some(node) ==> covers(node, byte) && (is_name(node)
            || is_tag(node)) && exists|i: int|
            0 <= i < events.len() && (#[trigger] events[i] matches EventView::Match(Some(nodes))
                && nodes.contains(node) && tag_node(nodes) is Some && match_at_cursor(nodes, byte)
                == Some(node)),
    decreases events.len(),
{
    if events.len() > 0 {
        if let EventView::Match(Some(nodes)) = events[0] {
            first_node_found(nodes, |n: NodeView| is_tag(n));
            first_node_found(nodes, |n: NodeView| is_name(n));
            first_node_found(nodes, |n: NodeView| is_tag(n) && covers(n, byte));
            last_node_found(nodes, |n: NodeView| is_tag(n));
        }
        let rest = events.drop_first();
        cursor_is_on_node(rest, byte);
        if let Some(node) = node_at_cursor(rest, byte) {
            let i = choose|i: int|
                0 <= i < rest.len() && (#[trigger] rest[i] matches EventView::Match(Some(nodes))
                    && nodes.contains(node) && tag_node(nodes) is Some && match_at_cursor(
                    nodes,
                    byte,
                ) == Some(node));
            assert(rest[i] == events[i + 1]);
        } else {
            assert forall|i: int|
                node_at_cursor(events, byte) is None && 0 <= i < events.len() implies (
            #[trigger] events[i] matches EventView::Match(Some(nodes)) ==> match_at_cursor(
                nodes,
                byte,
            ) is None) by {
                if i > 0 {
                    assert(rest[i - 1] == events[i]);
                }
            }
        }
    }
}

/// The name at the cursor is the name of the tag in the match that the cursor is on, if that match
/// captures one tag and at most one name. The tag's range is that of the node at the cursor.
pub proof fn name_at_cursor_is_tag_name(
    text: Seq<char>,
    nodes: Seq<NodeView>,
    doc: DocView,
    byte: int,
)
    requires
        at_most_one(nodes, |n: NodeView| is_tag(n)),
        at_most_one(nodes, |n: NodeView| is_name(n)),
    ensures
        match_at_cursor(nodes, byte) matches Some(node) ==> (tag_of_match(text, nodes, doc) matches
            Some(tag) && tag.name == node_text(text, node) && tag.start == char_of_byte(
            text,
            node.start,
        ) && tag.end == char_of_byte(text, node.end)),
{
    let tag_test = |n: NodeView| is_tag(n);
    let hit_test = |n: NodeView| is_tag(n) && covers(n, byte);
    only_node_found(nodes, tag_test);
    only_node_found(nodes, |n: NodeView| is_name(n));
    if match_at_cursor(nodes, byte) is Some {
        first_node_found(nodes, hit_test);
        first_node_found(nodes, tag_test);
        if first_node(nodes, |n: NodeView| is_name(n)) is None {
            let hit = first_node(nodes, hit_test).unwrap();
            let first = first_node(nodes, tag_test).unwrap();
            let i = choose|i: int| 0 <= i < nodes.len() && nodes[i] == hit;
            let j = choose|j: int| 0 <= j < nodes.len() && nodes[j] == first;
            assert(tag_test(nodes[i]) && tag_test(nodes[j]));
        }
    }
}

/// The name at the cursor is the name of a tag of the document, and the cursor is within the
/// range of that tag. The matches around the cursor are to be among those of the whole document
/// and to capture at most one tag and one name each, and the node at the cursor is not to end
/// within the very character that the cursor is on.
pub proof fn name_at_cursor_is_tagged(
    text: Seq<char>,
    around_cursor: Seq<EventView>,
    everywhere: Seq<EventView>,
    doc: DocView,
    byte: int,
    node: NodeView,
)
    requires
        0 <= byte,
        node_at_cursor(around_cursor, byte) == Some(node),
        char_of_byte(text, byte) < char_of_byte(text, node.end),
        forall|i: int|
            0 <= i < around_cursor.len() ==> (#[trigger] around_cursor[i] matches EventView::Match(
                Some(nodes),
            ) ==> everywhere.contains(around_cursor[i]) && at_most_one(
                nodes,
                |n: NodeView| is_tag(n),
            ) && at_most_one(nodes, |n: NodeView| is_name(n))),
    ensures
        exists|tag: TagView| #[trigger]
            tags_of(text, everywhere, doc).contains(tag) && tag.name == node_text(text, node)
                && byte_of_char(text, tag.start) <= byte < byte_of_char(text, tag.end),
{
    cursor_is_on_node(around_cursor, byte);
    let i = choose|i: int|
        0 <= i < around_cursor.len() && (#[trigger] around_cursor[i] matches EventView::Match(
            Some(nodes),
        ) && nodes.contains(node) && tag_node(nodes) is Some && match_at_cursor(nodes, byte)
            == Some(node));
    if let EventView::Match(Some(nodes)) = around_cursor[i] {
        name_at_cursor_is_tag_name(text, nodes, doc, byte);
        let tag = tag_of_match(text, nodes, doc).unwrap();
        let k = choose|k: int| 0 <= k < everywhere.len() && everywhere[k] == around_cursor[i];
        tag_of_event_is_listed(text, everywhere, doc, k);
        let first = char_of_byte(text, byte) as int;
        byte_within_char(text, if node.start >= 0 { node.start } else { 0 });
        byte_within_char(text, byte);
        char_of_byte_bounded(text, node.end);
        byte_of_char_ordered(text, first + 1, tag.end);
        assert(tags_of(text, everywhere, doc).contains(tag));
    }
}

/// The last node that satisfies `p` is the one after which none does.
proof fn last_node_is(nodes: Seq<NodeView>, p: spec_fn(NodeView) -> bool, k: int)
    requires
        0 <= k < nodes.len(),
        p(nodes[k]),
        forall|i: int| k < i < nodes.len() ==> !p(#[trigger] nodes[i]),
    ensures
        last_node(nodes, p) == Some(nodes[k]),
    decreases nodes.len(),
{
    if k < nodes.len() - 1 {
        assert(nodes.last() == nodes[nodes.len() - 1]);
        let earlier = nodes.drop_last();
        assert forall|i: int| k < i < earlier.len() implies !p(#[trigger] earlier[i]) by {
            assert(earlier[i] == nodes[i]);
        }
        last_node_is(earlier, p, k);
    }
}

/// The first node that satisfies `p` is the one before which none does.
proof fn first_node_is(nodes: Seq<NodeView>, p: spec_fn(NodeView) -> bool, k: int)
    requires
        0 <= k < nodes.len(),
        p(nodes[k]),
        forall|i: int| 0 <= i < k ==> !p(#[trigger] nodes[i]),
    ensures
        first_node(nodes, p) == Some(nodes[k]),
    decreases nodes.len(),
{
    if k > 0 {
        assert(!p(nodes[0]));
        let rest = nodes.drop_first();
        assert forall|i: int| 0 <= i < k - 1 implies !p(#[trigger] rest[i]) by {
            assert(rest[i] == nodes[i + 1]);
        }
        first_node_is(rest, p, k - 1);
    }
}

/// A captured node is read as it is: its capture's name, and the bytes where it starts and ends.
pub proof fn nodes_are_read_as_they_are(nodes: Seq<CapturedNode>)
    ensures
        node_views(nodes).len() == nodes.len(),
        forall|i: int|
            0 <= i < nodes.len() ==> (#[trigger] node_views(nodes)[i]).capture == nodes[i].capture@
                && node_views(nodes)[i].start == nodes[i].start_byte && node_views(nodes)[i].end
                == nodes[i].end_byte,
{
}

/// Events are read one by one: a match by its nodes, and injections as no match.
pub proof fn events_are_read_as_they_are(events: Seq<QueryEvent>)
    ensures
        event_views(events).len() == events.len(),
        forall|i: int|
            0 <= i < events.len() ==> (#[trigger] event_views(events)[i] == match events[i] {
                QueryEvent::Match(Some(nodes)) => EventView::Match(Some(node_views(nodes@))),
                QueryEvent::Match(None) => EventView::Match(None),
                _ => EventView::Injection,
            }),
{
}

/// The tag of a match has the role and kind of node `t`, the last one captured as a tag, and the
/// name and range of node `n`, the last one captured as a name, or node `t` itself where there is
/// none. Its lines are those that node `t` starts and ends on: as many as there are line feeds
/// before the characters that these bytes belong to.
pub proof fn tag_comes_from_captured_nodes(
    text: Rope,
    nodes: Vec<CapturedNode>,
    doc: UriOrDocumentId,
    r: Option<Tag>,
    t: int,
    n: int,
    name_start: int,
    name_end: int,
    tag_start: int,
    tag_end: int,
)
    requires
        call_ensures(match_tag, (&text, &nodes, &doc), r),
        0 <= t < nodes@.len(),
        0 <= n < nodes@.len(),
        tag_of_capture(nodes@[t].capture@) is Some,
        forall|i: int|
            t < i < nodes@.len() ==> tag_of_capture((#[trigger] nodes@[i]).capture@) is None,
        n != t ==> nodes@[n].capture@ == "name"@ && forall|i: int|
            n < i < nodes@.len() ==> (#[trigger] nodes@[i]).capture@ != "name"@,
        n == t ==> forall|i: int|
            0 <= i < nodes@.len() ==> (#[trigger] nodes@[i]).capture@ != "name"@,
        encodes(rope_text(text), nodes@[n].start_byte as int, name_start),
        encodes(rope_text(text), nodes@[n].end_byte as int, name_end),
        encodes(rope_text(text), nodes@[t].start_byte as int, tag_start),
        encodes(rope_text(text), nodes@[t].end_byte as int, tag_end),
    ensures
        r matches Some(tag) && {
            &&& tag_of_capture(nodes@[t].capture@) == Some((tag.role, tag.kind))
            &&& tag.start == name_start
            &&& tag.end == name_end
            &&& tag.name@ == rope_text(text).subrange(name_start, name_end)
            &&& tag.start_line == rope_text(text).take(tag_start).filter(
                |c: char| c == '\n',
            ).len()
            &&& tag.end_line == rope_text(text).take(tag_end).filter(|c: char| c == '\n').len()
            &&& tag.doc@ == doc@
        },
{
    let views = node_views(nodes@);
    let chars = rope_text(text);
    assert forall|i: int| t < i < views.len() implies !is_tag(#[trigger] views[i]) by {
        assert(views[i] == nodes@[i]@);
        assert(tag_of_capture(nodes@[i].capture@) is None);
    }
    last_node_is(views, |x: NodeView| is_tag(x), t);
    if n != t {
        assert forall|i: int| n < i < views.len() implies !is_name(#[trigger] views[i]) by {
            assert(views[i] == nodes@[i]@);
            assert(nodes@[i].capture@ != "name"@);
        }
        last_node_is(views, |x: NodeView| is_name(x), n);
    } else {
        last_node_found(views, |x: NodeView| is_name(x));
        if let Some(found) = last_node(views, |x: NodeView| is_name(x)) {
            let i = choose|i: int| 0 <= i < views.len() && views[i] == found;
            assert(nodes@[i].capture@ != "name"@);
        }
    }
    byte_belongs_to_one_char(chars, nodes@[n].start_byte as int, name_start);
    byte_belongs_to_one_char(chars, nodes@[n].end_byte as int, name_end);
    byte_belongs_to_one_char(chars, nodes@[t].start_byte as int, tag_start);
    byte_belongs_to_one_char(chars, nodes@[t].end_byte as int, tag_end);
    line_counts_line_feeds(chars, tag_start);
    line_counts_line_feeds(chars, tag_end);
}

/// A match without a node captured as a tag holds no tag.
pub proof fn no_tag_without_capture(
    text: Rope,
    nodes: Vec<CapturedNode>,
    doc: UriOrDocumentId,
    r: Option<Tag>,
)
    requires
        call_ensures(match_tag, (&text, &nodes, &doc), r),
        forall|i: int|
            0 <= i < nodes@.len() ==> tag_of_capture((#[trigger] nodes@[i]).capture@) is None,
    ensures
        r is None,
{
    let views = node_views(nodes@);
    last_node_found(views, |x: NodeView| is_tag(x));
    if let Some(found) = last_node(views, |x: NodeView| is_tag(x)) {
        let i = choose|i: int| 0 <= i < views.len() && views[i] == found;
        assert(tag_of_capture(nodes@[i].capture@) is None);
    }
}

/// A match whose byte ranges lie in the text, none of them reversed, is one that a tag can be made
/// from; and so are all the matches of a query on the text.
pub proof fn matches_within_text_fit(text: Seq<char>, events: Seq<QueryEvent>)
    requires
        forall|i: int|
            0 <= i < events.len() ==> (#[trigger] events[i] matches QueryEvent::Match(found)
                ==> found is Some && forall|k: int|
                0 <= k < found->0@.len() ==> (#[trigger] found->0@[k]).start_byte
                    <= found->0@[k].end_byte <= encode_utf8(text).len()),
    ensures
        events_fit(text, event_views(events)),
{
    let views = event_views(events);
    assert forall|i: int| 0 <= i < views.len() implies match #[trigger] views[i] {
        EventView::Match(Some(nodes)) => match_fits(text, nodes),
        EventView::Match(None) => false,
        EventView::Injection => true,
    } by {
        assert(views[i] == events[i]@);
        if let QueryEvent::Match(Some(nodes)) = events[i] {
            let nodes_read = node_views(nodes@);
            last_node_found(nodes_read, |x: NodeView| is_tag(x));
            last_node_found(nodes_read, |x: NodeView| is_name(x));
            if let Some(tagged) = tag_node(nodes_read) {
                let t = choose|t: int| 0 <= t < nodes_read.len() && nodes_read[t] == tagged;
                assert(nodes@[t].start_byte <= nodes@[t].end_byte <= encode_utf8(text).len());
                let name = naming_node(nodes_read, tagged);
                assert(nodes_read.contains(name));
                let n = choose|n: int| 0 <= n < nodes_read.len() && nodes_read[n] == name;
                assert(nodes@[n].start_byte <= nodes@[n].end_byte <= encode_utf8(text).len());
                char_of_byte_ordered(text, name.start, name.end);
            }
        }
    }
}

proof fn tags_of_append(text: Seq<char>, a: Seq<EventView>, b: Seq<EventView>, doc: DocView)
    ensures
        tags_of(text, a + b, doc) == tags_of(text, a, doc) + tags_of(text, b, doc),
    decreases b.len(),
{
    if b.len() == 0 {
        assert(a + b =~= a);
        assert(tags_of(text, a, doc) + tags_of(text, b, doc) =~= tags_of(text, a, doc));
    } else {
        tags_of_append(text, a, b.drop_last(), doc);
        assert((a + b).drop_last() =~= a + b.drop_last());
        assert(tags_of(text, a + b, doc) =~= tags_of(text, a, doc) + tags_of(text, b, doc));
    }
}

/// The tags of some matches and then some more are those of the first, followed by those of the
/// others: tags come in the order of their matches, and no match has a say in the tags of another.
pub proof fn tags_come_match_by_match(
    first: Vec<QueryEvent>,
    others: Vec<QueryEvent>,
    all: Vec<QueryEvent>,
    text: Rope,
    doc: UriOrDocumentId,
    first_tags: Vec<Tag>,
    other_tags: Vec<Tag>,
    all_tags: Vec<Tag>,
)
    requires
        all@ == first@ + others@,
        call_ensures(tags_iter, (&first, &text, &doc), first_tags),
        call_ensures(tags_iter, (&others, &text, &doc), other_tags),
        call_ensures(tags_iter, (&all, &text, &doc), all_tags),
    ensures
        tag_views(all_tags@) == tag_views(first_tags@) + tag_views(other_tags@),
        all_tags@.len() == first_tags@.len() + other_tags@.len(),
{
    assert(event_views(all@) =~= event_views(first@) + event_views(others@));
    tags_of_append(rope_text(text), event_views(first@), event_views(others@), doc@);
    assert(tag_views(all_tags@).len() == all_tags@.len());
}

/// The tags of a single match are the tag in it, if there is one; injections have none.
pub proof fn tags_of_one_event(
    events: Vec<QueryEvent>,
    text: Rope,
    doc: UriOrDocumentId,
    nodes: Vec<CapturedNode>,
    found: Option<Tag>,
    r: Vec<Tag>,
)
    requires
        events@.len() == 1,
        call_ensures(tags_iter, (&events, &text, &doc), r),
        call_ensures(match_tag, (&text, &nodes, &doc), found),
    ensures
        events@[0] == QueryEvent::Match(Some(nodes)) ==> match found {
            Some(tag) => r@.len() == 1 && r@[0]@ == tag@,
            None => r@.len() == 0,
        },
        !(events@[0] is Match) ==> r@.len() == 0,
{
    let views = event_views(events@);
    reveal_with_fuel(tags_of, 2);
    assert(views.last() == events@[0]@);
    assert(views.drop_last() =~= Seq::<EventView>::empty());
    assert(tag_views(r@).len() == r@.len());
    if r@.len() > 0 {
        assert(tag_views(r@)[0] == r@[0]@);
    }
}

/// Whether node `k` of a match names the tag at a byte: the match captures a tag, and node `k` is
/// the first one captured as a name and holds the byte; or no node is captured as a name, and node
/// `k` is the first one captured as a tag that holds the byte.
pub open spec fn names_tag_at(nodes: Seq<CapturedNode>, byte: int, k: int) -> bool {
    &&& 0 <= k < nodes.len()
    &&& nodes[k].start_byte <= byte < nodes[k].end_byte
    &&& exists|t: int| 0 <= t < nodes.len() && tag_of_capture((#[trigger] nodes[t]).capture@) is Some
    &&& {
        ||| {
            &&& nodes[k].capture@ == "name"@
            &&& forall|i: int| 0 <= i < k ==> (#[trigger] nodes[i]).capture@ != "name"@
        }
        ||| {
            &&& forall|i: int| 0 <= i < nodes.len() ==> (#[trigger] nodes[i]).capture@ != "name"@
            &&& tag_of_capture(nodes[k].capture@) is Some
            &&& forall|i: int|
                0 <= i < k && (#[trigger] nodes[i]).start_byte <= byte < nodes[i].end_byte
                    ==> tag_of_capture(nodes[i].capture@) is None
        }
    }
}

/// Whether an event is a match with a node that names the tag at a byte.
pub open spec fn event_names_tag_at(event: QueryEvent, byte: int) -> bool {
    event matches QueryEvent::Match(Some(nodes)) && exists|k: int| names_tag_at(nodes@, byte, k)
}

proof fn named_in_match(nodes: Seq<CapturedNode>, byte: int, k: int)
    requires
        names_tag_at(nodes, byte, k),
    ensures
        match_at_cursor(node_views(nodes), byte) == Some(nodes[k]@),
{
    let views = node_views(nodes);
    let t = choose|t: int|
        0 <= t < nodes.len() && tag_of_capture((#[trigger] nodes[t]).capture@) is Some;
    first_node_found(views, |x: NodeView| is_tag(x));
    assert(is_tag(views[t]));
    if nodes[k].capture@ == "name"@ {
        assert forall|i: int| 0 <= i < k implies !is_name(#[trigger] views[i]) by {
            assert(nodes[i].capture@ != "name"@);
        }
        first_node_is(views, |x: NodeView| is_name(x), k);
    } else {
        first_node_found(views, |x: NodeView| is_name(x));
        if let Some(found) = first_node(views, |x: NodeView| is_name(x)) {
            let i = choose|i: int| 0 <= i < views.len() && views[i] == found;
            assert(nodes[i].capture@ != "name"@);
        }
        assert forall|i: int| 0 <= i < k implies !(is_tag(#[trigger] views[i]) && covers(
            views[i],
            byte,
        )) by {
            assert(views[i] == nodes[i]@);
            assert(nodes[i].start_byte == views[i].start);
        }
        first_node_is(views, |x: NodeView| is_tag(x) && covers(x, byte), k);
    }
}

proof fn unnamed_in_match(nodes: Seq<CapturedNode>, byte: int)
    requires
        forall|k: int| !names_tag_at(nodes, byte, k),
    ensures
        match_at_cursor(node_views(nodes), byte) is None,
{
    let views = node_views(nodes);
    let tag_test = |x: NodeView| is_tag(x);
    let name_test = |x: NodeView| is_name(x);
    let hit_test = |x: NodeView| is_tag(x) && covers(x, byte);
    first_node_found(views, tag_test);
    first_node_found(views, name_test);
    first_node_found(views, hit_test);
    if let Some(tagged) = first_node(views, tag_test) {
        let t = choose|t: int| 0 <= t < views.len() && views[t] == tagged;
        assert(tag_of_capture(nodes[t].capture@) is Some);
        if first_node(views, name_test) is Some {
            let k = first_index(views, name_test);
            if covers(views[k], byte) {
                assert forall|i: int| 0 <= i < k implies (#[trigger] nodes[i]).capture@ != "name"@ by {
                    assert(!name_test(views[i]));
                }
                assert(names_tag_at(nodes, byte, k));
            }
        } else if first_node(views, hit_test) is Some {
            let k = first_index(views, hit_test);
            assert forall|i: int| 0 <= i < nodes.len() implies (#[trigger] nodes[i]).capture@
                != "name"@ by {
                assert(!name_test(views[i]));
            }
            assert forall|i: int|
                0 <= i < k && (#[trigger] nodes[i]).start_byte <= byte
                    < nodes[i].end_byte implies tag_of_capture(nodes[i].capture@) is None by {
                assert(!hit_test(views[i]));
            }
            assert(names_tag_at(nodes, byte, k));
        }
    }
}

proof fn first_index(nodes: Seq<NodeView>, p: spec_fn(NodeView) -> bool) -> (k: int)
    requires
        first_node(nodes, p) is Some,
    ensures
        0 <= k < nodes.len(),
        first_node(nodes, p) == Some(nodes[k]),
        p(nodes[k]),
        forall|i: int| 0 <= i < k ==> !p(#[trigger] nodes[i]),
    decreases nodes.len(),
{
    if p(nodes[0]) {
        0
    } else {
        let k = first_index(nodes.drop_first(), p);
        assert forall|i: int| 0 <= i < k + 1 implies !p(#[trigger] nodes[i]) by {
            if i > 0 {
                assert(nodes.drop_first()[i - 1] == nodes[i]);
            }
        }
        k + 1
    }
}

proof fn node_at_cursor_is_first(events: Seq<EventView>, byte: int, i: int, node: NodeView)
    requires
        0 <= i < events.len(),
        events[i] matches EventView::Match(Some(nodes)) && match_at_cursor(nodes, byte) == Some(
            node,
        ),
        forall|j: int|
            0 <= j < i ==> (#[trigger] events[j] matches EventView::Match(Some(nodes))
                ==> match_at_cursor(nodes, byte) is None),
    ensures
        node_at_cursor(events, byte) == Some(node),
    decreases events.len(),
{
    if i > 0 {
        let rest = events.drop_first();
        assert(events[0] matches EventView::Match(Some(nodes)) ==> match_at_cursor(nodes, byte)
            is None);
        assert forall|j: int| 0 <= j < i - 1 implies (#[trigger] rest[j] matches EventView::Match(
            Some(nodes),
        ) ==> match_at_cursor(nodes, byte) is None) by {
            assert(rest[j] == events[j + 1]);
        }
        node_at_cursor_is_first(rest, byte, i - 1, node);
    }
}

/// The name at the cursor is the text of node `k` of match `i`, the node that names the tag at the
/// cursor in the first match that has one. It does not matter whether the tag is a definition or
/// a reference.
pub proof fn name_at_cursor_is_text_of_node(
    events: Vec<QueryEvent>,
    text: Rope,
    cursor_byte: u32,
    r: Option<String>,
    i: int,
    nodes: Vec<CapturedNode>,
    k: int,
    start: int,
    end: int,
)
    requires
        call_ensures(find_name_at_cursor, (&events, &text, cursor_byte), r),
        0 <= i < events@.len(),
        events@[i] == QueryEvent::Match(Some(nodes)),
        names_tag_at(nodes@, cursor_byte as int, k),
        forall|j: int|
            0 <= j < i ==> !event_names_tag_at(#[trigger] events@[j], cursor_byte as int),
        encodes(rope_text(text), nodes@[k].start_byte as int, start),
        encodes(rope_text(text), nodes@[k].end_byte as int, end),
    ensures
        r matches Some(name) && name@ == rope_text(text).subrange(start, end),
{
    let views = event_views(events@);
    let byte = cursor_byte as int;
    named_in_match(nodes@, byte, k);
    assert(views[i] == events@[i]@);
    assert forall|j: int| 0 <= j < i implies (#[trigger] views[j] matches EventView::Match(
        Some(found),
    ) ==> match_at_cursor(found, byte) is None) by {
        assert(views[j] == events@[j]@);
        assert(!event_names_tag_at(events@[j], byte));
        if let QueryEvent::Match(Some(others)) = events@[j] {
            unnamed_in_match(others@, byte);
        }
    }
    node_at_cursor_is_first(views, byte, i, nodes@[k]@);
    byte_belongs_to_one_char(rope_text(text), nodes@[k].start_byte as int, start);
    byte_belongs_to_one_char(rope_text(text), nodes@[k].end_byte as int, end);
}

/// There is a name at the cursor exactly if some match has a node that names the tag there.
pub proof fn name_at_cursor_exists(
    events: Vec<QueryEvent>,
    text: Rope,
    cursor_byte: u32,
    r: Option<String>,
    has: bool,
)
    requires
        call_ensures(find_name_at_cursor, (&events, &text, cursor_byte), r),
        call_ensures(has_name_at_cursor, (&events, cursor_byte), has),
    ensures
        r is Some <==> exists|i: int|
            0 <= i < events@.len() && event_names_tag_at(
                #[trigger] events@[i],
                cursor_byte as int,
            ),
        has <==> r is Some,
{
    let views = event_views(events@);
    let byte = cursor_byte as int;
    cursor_is_on_node(views, byte);
    if exists|i: int| 0 <= i < events@.len() && event_names_tag_at(#[trigger] events@[i], byte) {
        let i = choose|i: int|
            0 <= i < events@.len() && event_names_tag_at(#[trigger] events@[i], byte);
        if let QueryEvent::Match(Some(nodes)) = events@[i] {
            let k = choose|k: int| names_tag_at(nodes@, byte, k);
            named_in_match(nodes@, byte, k);
            assert(views[i] == events@[i]@);
        }
    } else {
        if node_at_cursor(views, byte) is Some {
            let node = node_at_cursor(views, byte).unwrap();
            let i = choose|i: int|
                0 <= i < views.len() && (#[trigger] views[i] matches EventView::Match(Some(nodes))
                    && nodes.contains(node) && tag_node(nodes) is Some && match_at_cursor(
                    nodes,
                    byte,
                ) == Some(node));
            assert(views[i] == events@[i]@);
            assert(!event_names_tag_at(events@[i], byte));
            if let QueryEvent::Match(Some(nodes)) = events@[i] {
                unnamed_in_match(nodes@, byte);
            }
        }
    }
}

/// A match that captures any tag, definition or reference alike, and whose first name holds the
/// cursor, puts a name at the cursor.
pub proof fn name_under_cursor_is_found(
    events: Vec<QueryEvent>,
    text: Rope,
    cursor_byte: u32,
    r: Option<String>,
    i: int,
    nodes: Vec<CapturedNode>,
    t: int,
    n: int,
)
    requires
        call_ensures(find_name_at_cursor, (&events, &text, cursor_byte), r),
        0 <= i < events@.len(),
        events@[i] == QueryEvent::Match(Some(nodes)),
        0 <= t < nodes@.len(),
        tag_of_capture(nodes@[t].capture@) is Some,
        0 <= n < nodes@.len(),
        nodes@[n].capture@ == "name"@,
        forall|j: int| 0 <= j < n ==> (#[trigger] nodes@[j]).capture@ != "name"@,
        nodes@[n].start_byte <= cursor_byte < nodes@[n].end_byte,
    ensures
        r is Some,
{
    let byte = cursor_byte as int;
    let views = event_views(events@);
    assert(names_tag_at(nodes@, byte, n));
    named_in_match(nodes@, byte, n);
    cursor_is_on_node(views, byte);
    assert(views[i] == events@[i]@);
}

/// The range that is queried for the tag at the cursor is the one just below the root, and that of
/// the root where there is no other.
pub proof fn queried_range_is_child_of_root(lineage: Vec<ByteRange>, r: ByteRange)
    requires
        lineage@.len() > 0,
        call_ensures(cursor_query_range, (&lineage,), r),
    ensures
        lineage@.len() == 1 ==> r == lineage@.last(),
        lineage@.len() > 1 ==> r == lineage@.drop_last().last(),
{
}

} // verus!
