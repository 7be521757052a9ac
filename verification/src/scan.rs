//! Scanning a file of a workspace for tags, once grepping it has found a match.
//!
//! It is only important if a file matches, not where: the file is parsed, its tags go to the
//! picker, and the search of the file stops.

use vstd::prelude::*;
use ropey::Rope;
use crate::cache::{parsed_view, CacheView, Parsed, SyntaxCache};
use crate::delivery::{
    refusal_ends_delivery, tags_are_handed_over_in_order, Delivery, DeliveryView,
};
use crate::document::{DocView, UriOrDocumentId};
use crate::path::FilePath;
use crate::query::{event_views, events_fit, EventView, QueryEvent};
use crate::rope::rope_text;
use crate::select::{
    all_moved, select_tags, selected, selection_goes_by_tags, with_role, TagFilter,
};
use crate::tag::{tag_views, Tag, TagView};
use crate::walk::{walk_state, WalkState};

verus! {

/// A file under scan.
pub struct FileScan {
    pub path: FilePath,
    /// What the file's tags belong to.
    pub doc: UriOrDocumentId,
    /// Whether a match was seen.
    pub processed: bool,
    /// The tags that are still to go to the picker.
    pub delivery: Delivery,
}

/// What has to be done next.
pub enum ScanAction {
    /// Parse the file.
    Parse,
    /// Run the tags query on a syntax tree and its text.
    RunQuery(Parsed),
    /// Hand a tag to the picker.
    Offer(Tag),
    /// Stop searching the file.
    StopSearch,
}

/// What is done about a file that was parsed, or could not be: the tags query is run, or the scan
/// moves on.
pub open spec fn use_parsed(action: ScanAction, file: Option<(Seq<char>, u64)>) -> bool {
    match file {
        Some(file) => action matches ScanAction::RunQuery(parsed) && parsed_view(Some(parsed))
            == Some(file),
        None => action is StopSearch,
    }
}

/// What is done about a match, given the files that were parsed before: the file is parsed if none
/// of them is it.
pub open spec fn use_cache(action: ScanAction, cache: CacheView, path: Seq<Seq<u8>>) -> bool {
    if cache.contains_key(path) {
        use_parsed(action, cache[path])
    } else {
        action is Parse
    }
}

/// Whether an action is the next one of a delivery: to hand over the next tag, and to stop once
/// none is left or the picker has closed.
pub open spec fn is_next(action: ScanAction, delivery: DeliveryView) -> bool {
    match delivery.next() {
        Some(next) => action matches ScanAction::Offer(tag) && tag@ == next,
        None => action is StopSearch,
    }
}

fn after_parse(file: Option<Parsed>) -> (r: ScanAction)
    ensures
        use_parsed(r, parsed_view(file)),
{
    match file {
        Some(parsed) => ScanAction::RunQuery(parsed),
        None => ScanAction::StopSearch,
    }
}

impl FileScan {
    /// A file in which no match was seen yet.
    pub fn new(path: FilePath, doc: UriOrDocumentId) -> (r: Self)
        ensures
            r.path == path,
            r.doc == doc,
            !r.processed,
            r.delivery@.pending.len() == 0,
            !r.delivery@.closed,
    {
        FileScan { path, doc, processed: false, delivery: Delivery::new(Vec::new()) }
    }

    /// Takes note of a match in a scan that keeps what it parses: a file that was parsed before is
    /// not parsed again.
    pub fn matched_cached(&self, cache: &SyntaxCache) -> (r: ScanAction)
        ensures
            use_cache(r, cache@, self.path@),
    {
        if cache.needs_parse(&self.path) {
            return ScanAction::Parse;
        }
        match cache.recall(&self.path) {
            Some(file) => after_parse(file),
            None => ScanAction::StopSearch,
        }
    }

    /// Goes on once the file was parsed, in a scan that keeps what it parses. That the file could
    /// not be parsed is kept too.
    pub fn parsed_cached(&self, cache: &mut SyntaxCache, file: Option<Parsed>) -> (r: ScanAction)
        ensures
            final(cache)@ == old(cache)@.insert(self.path@, parsed_view(file)),
            use_parsed(r, parsed_view(file)),
    {
        cache.remember(self.path.clone(), file);
        self.matched_cached(cache)
    }

    /// Takes note of a match in a scan that keeps nothing: the file is parsed at the first match,
    /// and never again.
    pub fn matched(&mut self) -> (r: ScanAction)
        ensures
            r == (if old(self).processed {
                ScanAction::StopSearch
            } else {
                ScanAction::Parse
            }),
            *final(self) == (FileScan { processed: true, ..*old(self) }),
    {
        if self.processed {
            ScanAction::StopSearch
        } else {
            self.processed = true;
            ScanAction::Parse
        }
    }

    /// Goes on once the file was parsed, in a scan that keeps nothing.
    pub fn parsed(&self, file: Option<Parsed>) -> (r: ScanAction)
        ensures
            use_parsed(r, parsed_view(file)),
    {
        after_parse(file)
    }

    fn go_on(&mut self) -> (r: ScanAction)
        ensures
            is_next(r, old(self).delivery@),
            final(self).delivery@ == old(self).delivery@.offered(),
            final(self).path == old(self).path,
            final(self).doc == old(self).doc,
            final(self).processed == old(self).processed,
    {
        match self.delivery.offer() {
            Some(tag) => ScanAction::Offer(tag),
            None => ScanAction::StopSearch,
        }
    }

    /// Goes on once the tags query was run: the tags that the scan looks for go to the picker.
    pub fn queried(&mut self, events: &Vec<QueryEvent>, text: &Rope, filter: &TagFilter) -> (r:
        ScanAction)
        requires
            events_fit(rope_text(*text), event_views(events@)),
        ensures
            ({
                let found = DeliveryView {
                    pending: selected(
                        rope_text(*text),
                        event_views(events@),
                        old(self).doc@,
                        *filter,
                    ),
                    closed: false,
                };
                &&& is_next(r, found)
                &&& final(self).delivery@ == found.offered()
            }),
            final(self).path == old(self).path,
            final(self).doc == old(self).doc,
            final(self).processed == old(self).processed,
    {
        self.delivery = Delivery::new(select_tags(events, text, &self.doc, filter));
        self.go_on()
    }

    /// Goes on once the picker has accepted or refused a tag.
    pub fn answered(&mut self, accepted: bool) -> (r: ScanAction)
        ensures
            is_next(r, old(self).delivery@.answered(accepted)),
            final(self).delivery@ == old(self).delivery@.answered(accepted).offered(),
            final(self).path == old(self).path,
            final(self).doc == old(self).doc,
            final(self).processed == old(self).processed,
    {
        self.delivery.answer(accepted);
        self.go_on()
    }

    /// Whether the walk goes on after this file: unless the picker has closed.
    pub fn finish(&self) -> (r: WalkState)
        ensures
            r == (if self.delivery@.closed {
                WalkState::Quit
            } else {
                WalkState::Continue
            }),
    {
        walk_state(self.delivery.is_closed())
    }
}

/// A file that a search comes upon: its path, and what comes of parsing it.
pub type Find = (Seq<Seq<u8>>, Option<(Seq<char>, u64)>);

/// The cache after a search has come upon a file: parsed and kept if it was not before.
pub open spec fn cache_with(cache: CacheView, find: Find) -> CacheView {
    if cache.contains_key(find.0) {
        cache
    } else {
        cache.insert(find.0, find.1)
    }
}

/// The cache after searches have come upon these files, in this order.
pub open spec fn cache_after(cache: CacheView, finds: Seq<Find>) -> CacheView
    decreases finds.len(),
{
    if finds.len() == 0 {
        cache
    } else {
        cache_with(cache_after(cache, finds.drop_last()), finds.last())
    }
}

/// What is kept of a file stays as it is, whatever files searches come upon later; and nothing is
/// kept of a file that was not come upon.
pub proof fn cache_keeps(cache: CacheView, finds: Seq<Find>, path: Seq<Seq<u8>>)
    ensures
        cache.contains_key(path) ==> cache_after(cache, finds).contains_key(path) && cache_after(
            cache,
            finds,
        )[path] == cache[path],
        cache_after(cache, finds).contains_key(path) ==> cache.contains_key(path) || exists|i: int|
            0 <= i < finds.len() && (#[trigger] finds[i]).0 == path,
    decreases finds.len(),
{
    if finds.len() > 0 {
        let earlier = finds.drop_last();
        cache_keeps(cache, earlier, path);
        if exists|i: int| 0 <= i < earlier.len() && (#[trigger] earlier[i]).0 == path {
            let i = choose|i: int| 0 <= i < earlier.len() && (#[trigger] earlier[i]).0 == path;
            assert(finds[i].0 == path);
        }
        assert(finds.last() == finds[finds.len() - 1]);
    }
}

/// A file is parsed once, however many searches come upon it, and whether or not it could be
/// parsed. The first time a search comes upon it, it is parsed; what came of that is used from
/// then on, whatever files searches come upon in between, itself among them.
pub proof fn file_is_parsed_once(
    cache: CacheView,
    before: Seq<Find>,
    path: Seq<Seq<u8>>,
    file: Option<(Seq<char>, u64)>,
    later: Seq<Find>,
    action: ScanAction,
)
    requires
        !cache.contains_key(path),
        forall|i: int| 0 <= i < before.len() ==> (#[trigger] before[i]).0 != path,
    ensures
        ({
            let at_first = cache_after(cache, before);
            let then = cache_with(at_first, (path, file));
            let at_last = cache_after(then, later);
            &&& use_cache(action, at_first, path) <==> action is Parse
            &&& then == at_first.insert(path, file)
            &&& use_cache(action, then, path) <==> use_parsed(action, file)
            &&& use_cache(action, at_last, path) <==> use_parsed(action, file)
            &&& use_parsed(action, file) ==> !(action is Parse)
        }),
{
    cache_keeps(cache, before, path);
    cache_keeps(cache_with(cache_after(cache, before), (path, file)), later, path);
}

proof fn delivered_alike(pending: Seq<TagView>, other: DocView, closed: bool, answers: Seq<bool>)
    ensures
        ({
            let end = (DeliveryView { pending, closed }).after(answers);
            (DeliveryView { pending: all_moved(pending, other), closed }).after(answers) == (
            DeliveryView { pending: all_moved(end.pending, other), closed: end.closed })
        }),
    decreases answers.len(),
{
    if answers.len() > 0 && pending.len() > 0 && !closed {
        assert(all_moved(pending, other).drop_first() =~= all_moved(pending.drop_first(), other));
        delivered_alike(pending.drop_first(), other, !answers[0], answers.drop_first());
    }
}

/// It only counts whether a file matches, not where or how often. Two files that match and have
/// the same tags of the role that is looked for are handed to a picker alike: the same tags, in
/// the same order and each once, but for the file that they belong to; and a picker that closes
/// does so at the same point. A regex that looks at what stands around a name is to find the same
/// in both.
pub proof fn matching_files_are_scanned_alike(
    text: Seq<char>,
    events: Seq<EventView>,
    doc: DocView,
    other_text: Seq<char>,
    other_events: Seq<EventView>,
    other: DocView,
    filter: TagFilter,
    answers: Seq<bool>,
)
    requires
        with_role(other_text, other_events, other, filter.role()) == all_moved(
            with_role(text, events, doc, filter.role()),
            other,
        ),
        forall|i: int|
            0 <= i < with_role(text, events, doc, filter.role()).len() ==> filter.admits(
                other_text,
                #[trigger] with_role(text, events, doc, filter.role())[i],
            ) == filter.admits(text, with_role(text, events, doc, filter.role())[i]),
    ensures
        ({
            let pending = selected(text, events, doc, filter);
            let other_pending = selected(other_text, other_events, other, filter);
            let end = (DeliveryView { pending, closed: false }).after(answers);
            let other_end = (DeliveryView { pending: other_pending, closed: false }).after(answers);
            &&& other_pending == all_moved(pending, other)
            &&& other_end.pending == all_moved(end.pending, other)
            &&& other_end.closed == end.closed
        }),
{
    selection_goes_by_tags(text, events, doc, other_text, other_events, other, filter);
    delivered_alike(selected(text, events, doc, filter), other, false, answers);
}

/// A match in a file leads to parsing it if nothing is known of it; to the tags query on what was
/// parsed, if it was; and to nothing if it could not be.
pub proof fn match_leads_to_parse_or_query(
    scan: FileScan,
    cache: SyntaxCache,
    recalled: Option<Option<Parsed>>,
    r: ScanAction,
)
    requires
        call_ensures(SyntaxCache::recall, (&cache, &scan.path), recalled),
        call_ensures(FileScan::matched_cached, (&scan, &cache), r),
    ensures
        match recalled {
            None => r is Parse,
            Some(None) => r is StopSearch,
            Some(Some(file)) => r matches ScanAction::RunQuery(parsed) && rope_text(parsed.0)
                == rope_text(file.0) && parsed.1 == file.1,
        },
{
}

/// A file that was parsed is queried, and one that could not be is passed over.
pub proof fn parsed_file_is_queried(scan: FileScan, file: Option<Parsed>, r: ScanAction)
    requires
        call_ensures(FileScan::parsed, (&scan, file), r),
    ensures
        match file {
            Some(file) => r matches ScanAction::RunQuery(parsed) && rope_text(parsed.0)
                == rope_text(file.0) && parsed.1 == file.1,
            None => r is StopSearch,
        },
{
}

/// The tags of a file go to the picker in order: once the first `k` are accepted, the next action
/// is to hand over the one after them, and once all are, to stop searching the file.
pub proof fn tags_of_file_are_handed_over(
    tags: Seq<TagView>,
    answers: Seq<bool>,
    k: int,
    action: ScanAction,
)
    requires
        0 <= k <= tags.len(),
        answers.len() == k,
        forall|i: int| 0 <= i < k ==> answers[i],
        is_next(action, (DeliveryView { pending: tags, closed: false }).after(answers)),
    ensures
        k < tags.len() ==> (action matches ScanAction::Offer(tag) && tag@ == tags[k]),
        k == tags.len() ==> action is StopSearch,
{
    tags_are_handed_over_in_order(tags, answers, k);
}

/// A refusal stops the search of a file: no tag is handed over after it.
pub proof fn refusal_stops_scan(
    tags: Seq<TagView>,
    answers: Seq<bool>,
    refused: int,
    action: ScanAction,
)
    requires
        0 <= refused < answers.len(),
        refused < tags.len(),
        !answers[refused],
        forall|i: int| 0 <= i < refused ==> answers[i],
        is_next(action, (DeliveryView { pending: tags, closed: false }).after(answers)),
    ensures
        action is StopSearch,
{
    refusal_ends_delivery(tags, answers, refused);
}

/// A walk quits after a file exactly if the picker refused one of its tags.
pub proof fn walk_quits_after_refusal(scan: FileScan, closed: bool, r: WalkState)
    requires
        call_ensures(FileScan::finish, (&scan,), r),
        call_ensures(Delivery::is_closed, (&scan.delivery,), closed),
    ensures
        r == WalkState::Quit <==> closed,
        r == WalkState::Continue <==> !closed,
{
}

/// A file is parsed at its first match, and not at later ones.
pub proof fn first_match_leads_to_parse(scan: &mut FileScan, r: ScanAction)
    requires
        call_ensures(FileScan::matched, (scan,), r),
    ensures
        r is Parse <==> !old(scan).processed,
        r is StopSearch <==> old(scan).processed,
        final(scan).processed,
        final(scan).path == old(scan).path,
        final(scan).doc == old(scan).doc,
        final(scan).delivery == old(scan).delivery,
{
}

/// What came of parsing a file is kept for it, and is used: the file is queried if it was parsed,
/// and passed over if it could not be.
pub proof fn parsed_file_is_kept_and_queried(
    scan: FileScan,
    cache: &mut SyntaxCache,
    file: Option<Parsed>,
    r: ScanAction,
)
    requires
        call_ensures(FileScan::parsed_cached, (&scan, cache, file), r),
    ensures
        final(cache)@.contains_key(scan.path@),
        match file {
            Some(file) => final(cache)@[scan.path@] == Some((rope_text(file.0), file.1)) && (
            r matches ScanAction::RunQuery(parsed) && rope_text(parsed.0) == rope_text(file.0)
                && parsed.1 == file.1),
            None => final(cache)@[scan.path@] is None && r is StopSearch,
        },
        forall|path: Seq<Seq<u8>>|
            path != scan.path@ ==> (#[trigger] final(cache)@.contains_key(path) <==> old(
                cache,
            )@.contains_key(path)) && final(cache)@[path] == old(cache)@[path],
{
}

/// A query on a file hands over the first of the tags that are selected in it, and leaves the
/// others to go; if there is none, the search of the file stops.
pub proof fn queried_file_hands_over_first_tag(
    scan: &mut FileScan,
    events: Vec<QueryEvent>,
    text: Rope,
    filter: TagFilter,
    tags: Vec<Tag>,
    r: ScanAction,
)
    requires
        call_ensures(FileScan::queried, (scan, &events, &text, &filter), r),
        call_ensures(select_tags, (&events, &text, &old(scan).doc, &filter), tags),
    ensures
        tags@.len() == 0 ==> r is StopSearch,
        tags@.len() > 0 ==> (r matches ScanAction::Offer(tag) && tag@ == tags@[0]@)
            && final(scan).delivery@.pending == tag_views(tags@).skip(1),
        !final(scan).delivery@.closed,
        final(scan).doc == old(scan).doc,
{
    assert(tag_views(tags@).len() == tags@.len());
    if tags@.len() > 0 {
        assert(tag_views(tags@)[0] == tags@[0]@);
        assert(tag_views(tags@).drop_first() =~= tag_views(tags@).skip(1));
    }
}

/// An accepted tag is followed by the next one, and a refused tag by none.
pub proof fn answer_leads_to_next_tag(scan: &mut FileScan, accepted: bool, r: ScanAction)
    requires
        call_ensures(FileScan::answered, (scan, accepted), r),
        !old(scan).delivery@.closed,
    ensures
        accepted && old(scan).delivery@.pending.len() > 0 ==> (r matches ScanAction::Offer(tag)
            && tag@ == old(scan).delivery@.pending[0]) && final(scan).delivery@.pending == old(
            scan,
        ).delivery@.pending.skip(1),
        accepted && old(scan).delivery@.pending.len() == 0 ==> r is StopSearch,
        !accepted ==> r is StopSearch,
        final(scan).delivery@.closed <==> !accepted,
{
    if old(scan).delivery@.pending.len() > 0 {
        assert(old(scan).delivery@.pending.drop_first() =~= old(scan).delivery@.pending.skip(1));
    }
}

} // verus!
