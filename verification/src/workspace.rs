//! The workspace symbol picker: the definitions in open documents, and in the files of a workspace.

use vstd::prelude::*;
use vstd::utf8::*;
use grep_regex::RegexMatcher;
use grep_searcher::Searcher;
use ignore::WalkBuilder;
use regex_cursor::engines::meta::Regex;
use crate::cache::{CacheView, SyntaxCache};
use crate::delivery::{
    acceptance_completes_delivery, refusal_ends_delivery, tags_are_handed_over_in_order, Delivery,
    DeliveryView,
};
use crate::document::{uri_or_id, UriOrDocumentId};
use crate::path::FilePath;
use crate::pattern::{build_matcher, build_regex, built_matcher, built_regex};
use crate::query::QueryEvent;
use crate::rope::byte_len;
use crate::select::{select_tags, selected, TagFilter};
use crate::symbols::{document_fits, OpenDocument, OpenView};
use crate::tag::{tag_views, Tag, TagView};
use crate::walk::{
    build_goto_walk_builder, built_searcher, entry_filter, file_searcher, prepared_walk,
    walk_settings, EntryFilter, FilePickerConfig, WalkView,
};

verus! {

/// What the workspace symbol picker keeps while it is open.
pub struct WorkspaceSearchState {
    pub walk: WalkBuilder,
    pub smart_case: bool,
    pub search_root: String,
    /// A cache of files that have been parsed in prior searches.
    pub syntax_cache: SyntaxCache,
}

/// The workspace symbol picker, ready to open.
pub struct WorkspacePicker<P> {
    pub state: WorkspaceSearchState,
    /// What the walk is filtered by.
    pub entry_filter: EntryFilter<P>,
    /// The register that the queries are kept in.
    pub register: char,
    /// How long to wait for the query to change before it is run, in milliseconds.
    pub debounce: u64,
}

/// Sets up the workspace symbol picker for the workspace at `search_root`. The entry filter takes
/// that path in a form of its own, which is `filter_root`.
pub fn syntax_workspace_symbol_picker<P>(
    config: &FilePickerConfig,
    smart_case: bool,
    register: Option<char>,
    search_root: String,
    filter_root: P,
    canonical_root: Option<P>,
    user_ignore: &str,
) -> (r: WorkspacePicker<P>)
    ensures
        r.state.walk == prepared_walk(walk_settings(*config, search_root@, user_ignore@)),
        r.entry_filter.absolute_root == (match canonical_root {
            Some(path) => path,
            None => filter_root,
        }),
        r.entry_filter.deduplicate_links == config.deduplicate_links,
        r.state.smart_case == smart_case,
        r.state.search_root@ == search_root@,
        r.state.syntax_cache@ == CacheView::empty(),
        r.register == (match register {
            Some(c) => c,
            None => '/',
        }),
        r.debounce == 275,
{
    let state = WorkspaceSearchState {
        walk: build_goto_walk_builder(config, search_root.as_str(), user_ignore),
        smart_case,
        search_root,
        syntax_cache: SyntaxCache::new(),
    };
    let register = match register {
        Some(c) => c,
        None => '/',
    };
    let entry_filter = entry_filter(config, filter_root, canonical_root);
    WorkspacePicker { state, entry_filter, register, debounce: 275 }
}

/// The tags of a document that a filter admits, none where there is no syntax tree.
pub open spec fn document_tags(document: OpenView, filter: TagFilter) -> Seq<TagView> {
    match document.events {
        Some(events) => selected(document.text, events, document.doc, filter),
        None => Seq::empty(),
    }
}

/// The tags of open documents that a filter admits, document by document.
pub open spec fn documents_tags(documents: Seq<OpenDocument>, filter: TagFilter) -> Seq<TagView>
    decreases documents.len(),
{
    if documents.len() == 0 {
        Seq::empty()
    } else {
        documents_tags(documents.drop_last(), filter) + document_tags(documents.last()@, filter)
    }
}

/// The tags of open documents that a filter admits, document by document.
pub fn open_documents_tags(documents: &Vec<OpenDocument>, filter: &TagFilter) -> (r: Vec<Tag>)
    requires
        forall|i: int| 0 <= i < documents@.len() ==> document_fits(#[trigger] documents@[i]@),
    ensures
        tag_views(r@) == documents_tags(documents@, *filter),
{
    let mut tags: Vec<Tag> = Vec::new();
    let mut i: usize = 0;
    assert(documents@.take(0) =~= Seq::<OpenDocument>::empty());
    assert(tag_views(tags@) =~= documents_tags(documents@.take(0), *filter));
    while i < documents.len()
        invariant
            i <= documents@.len(),
            forall|j: int| 0 <= j < documents@.len() ==> document_fits(#[trigger] documents@[j]@),
            tag_views(tags@) == documents_tags(documents@.take(i as int), *filter),
        decreases documents@.len() - i,
    {
        let ghost before = tags@;
        proof {
            assert(documents@.take(i + 1).drop_last() =~= documents@.take(i as int));
            assert(documents@.take(i + 1).last() == documents@[i as int]);
            assert(document_fits(documents@[i as int]@));
        }
        if let Some(events) = &documents[i].events {
            let doc = uri_or_id(&documents[i].uri, documents[i].id);
            let mut more = select_tags(events, &documents[i].text, &doc, filter);
            let ghost added = more@;
            tags.append(&mut more);
            assert(tag_views(tags@) =~= tag_views(before) + tag_views(added));
        }
        assert(tag_views(tags@) =~= documents_tags(documents@.take(i + 1), *filter));
        i = i + 1;
    }
    assert(documents@.take(documents@.len() as int) =~= documents@);
    tags
}

/// How a query starts.
pub enum QueryStart {
    /// It is too short to be run.
    Ignored,
    /// It is no pattern, for the reason given.
    Rejected(String),
    /// The open documents are looked through.
    Search(WorkspaceQuery),
}

/// A query that is being run.
pub struct WorkspaceQuery {
    pub query: String,
    pub smart_case: bool,
    /// The tags that it asks for.
    pub filter: TagFilter,
    /// The tags of open documents that are still to go to the picker.
    pub delivery: Delivery,
}

/// What has to be done next to run a query.
pub enum QueryAction {
    /// Hand a tag to the picker.
    Offer(Tag),
    /// See whether the search root exists.
    CheckRoot,
    /// Nothing more, because the picker has closed.
    Finish,
    /// Nothing more, because there is no workspace to walk.
    MissingRoot,
    /// Nothing more, because the query cannot be grepped for, for the reason given.
    BadPattern(grep_regex::Error),
    /// Clear the status line, walk the workspace and parse the files in which the searcher finds
    /// this.
    Walk { matcher: RegexMatcher, searcher: Searcher },
}

impl QueryAction {
    /// The error that a query ends with here, if it does.
    pub fn error(&self) -> (r: Option<&'static str>)
        ensures
            match self {
                QueryAction::MissingRoot => r matches Some(m) && m@
                    == "Current working directory does not exist"@,
                QueryAction::BadPattern(_) => r matches Some(m) && m@ == "Failed to compile regex"@,
                _ => r is None,
            },
    {
        match self {
            QueryAction::MissingRoot => Some("Current working directory does not exist"),
            QueryAction::BadPattern(_) => Some("Failed to compile regex"),
            _ => None,
        }
    }
}

/// Whether an action is the next one of a delivery: to hand over the next tag; once all are handed
/// over, to go on to the workspace; and nothing more once the picker has closed.
pub open spec fn is_next(action: QueryAction, delivery: DeliveryView) -> bool {
    match delivery.next() {
        Some(next) => action matches QueryAction::Offer(tag) && tag@ == next,
        None => if delivery.closed {
            action is Finish
        } else {
            action is CheckRoot
        },
    }
}

impl WorkspaceSearchState {
    /// Reads a query. One of fewer than three bytes is not run; any other is a regex for the names
    /// of definitions, which disregards case if smart case is on.
    pub fn begin_query(&self, query: &str) -> (r: QueryStart)
        ensures
            byte_len(query@) < 3 <==> r is Ignored,
            byte_len(query@) >= 3 ==> match built_regex(query@, self.smart_case) {
                Ok(regex) => r matches QueryStart::Search(running) && running.query@ == query@
                    && running.smart_case == self.smart_case && running.filter
                    == TagFilter::Matching(regex) && running.delivery@.pending.len() == 0
                    && !running.delivery@.closed,
                Err(reason) => r matches QueryStart::Rejected(message) && message@ == reason,
            },
    {
        if query.as_bytes().len() < 3 {
            return QueryStart::Ignored;
        }
        match build_regex(query, self.smart_case) {
            Ok(regex) => QueryStart::Search(
                WorkspaceQuery {
                    query: query.to_owned(),
                    smart_case: self.smart_case,
                    filter: TagFilter::Matching(regex),
                    delivery: Delivery::new(Vec::new()),
                },
            ),
            Err(message) => QueryStart::Rejected(message),
        }
    }
}

impl WorkspaceQuery {
    fn go_on(&mut self) -> (r: QueryAction)
        ensures
            is_next(r, old(self).delivery@),
            final(self).delivery@ == old(self).delivery@.offered(),
            final(self).query == old(self).query,
            final(self).smart_case == old(self).smart_case,
            final(self).filter == old(self).filter,
    {
        match self.delivery.offer() {
            Some(tag) => QueryAction::Offer(tag),
            None => if self.delivery.is_closed() {
                QueryAction::Finish
            } else {
                QueryAction::CheckRoot
            },
        }
    }

    /// Looks for the tags in the open documents.
    pub fn look_through(&mut self, documents: &Vec<OpenDocument>) -> (r: QueryAction)
        requires
            forall|i: int| 0 <= i < documents@.len() ==> document_fits(#[trigger] documents@[i]@),
        ensures
            ({
                let found = DeliveryView {
                    pending: documents_tags(documents@, old(self).filter),
                    closed: false,
                };
                &&& is_next(r, found)
                &&& final(self).delivery@ == found.offered()
            }),
            final(self).query == old(self).query,
            final(self).smart_case == old(self).smart_case,
            final(self).filter == old(self).filter,
    {
        self.delivery = Delivery::new(open_documents_tags(documents, &self.filter));
        self.go_on()
    }

    /// Goes on once the picker has accepted or refused a tag.
    pub fn answered(&mut self, accepted: bool) -> (r: QueryAction)
        ensures
            is_next(r, old(self).delivery@.answered(accepted)),
            final(self).delivery@ == old(self).delivery@.answered(accepted).offered(),
            final(self).query == old(self).query,
            final(self).smart_case == old(self).smart_case,
            final(self).filter == old(self).filter,
    {
        self.delivery.answer(accepted);
        self.go_on()
    }

    /// Goes on to the files of the workspace, if there is one: they are grepped for the query, as
    /// a regex and with smart case where that is on.
    pub fn root_checked(&self, root_exists: bool) -> (r: QueryAction)
        ensures
            !root_exists ==> r == QueryAction::MissingRoot,
            root_exists ==> match built_matcher(self.query@, self.smart_case, false) {
                Ok(matcher) => r == (QueryAction::Walk { matcher, searcher: built_searcher(0) }),
                Err(error) => r == QueryAction::BadPattern(error),
            },
    {
        if !root_exists {
            return QueryAction::MissingRoot;
        }
        match build_matcher(self.query.as_str(), self.smart_case, false) {
            Ok(matcher) => QueryAction::Walk { matcher, searcher: file_searcher() },
            Err(error) => QueryAction::BadPattern(error),
        }
    }
}

/// A picker that closes while it is handed the tags of open documents ends the query: the
/// workspace is not walked for it.
pub proof fn closed_picker_ends_query(
    tags: Seq<TagView>,
    answers: Seq<bool>,
    refused: int,
    action: QueryAction,
)
    requires
        0 <= refused < answers.len(),
        refused < tags.len(),
        !answers[refused],
        forall|i: int| 0 <= i < refused ==> answers[i],
        is_next(action, (DeliveryView { pending: tags, closed: false }).after(answers)),
    ensures
        action is Finish,
{
    refusal_ends_delivery(tags, answers, refused);
}

/// A picker that stays open is handed all the tags of open documents, and then the query goes on
/// to the workspace.
pub proof fn open_picker_goes_on(tags: Seq<TagView>, answers: Seq<bool>, action: QueryAction)
    requires
        tags.len() <= answers.len(),
        forall|i: int| 0 <= i < tags.len() ==> answers[i],
        is_next(action, (DeliveryView { pending: tags, closed: false }).after(answers)),
    ensures
        action is CheckRoot,
{
    acceptance_completes_delivery(tags, answers);
}

/// A query is run if its encoding has at least three bytes and it is a regex. It then asks for
/// definitions whose names the regex matches, and the regex disregards case if smart case is on.
pub proof fn queries_of_three_bytes_are_run(
    state: WorkspaceSearchState,
    query: &str,
    r: QueryStart,
)
    requires
        call_ensures(WorkspaceSearchState::begin_query, (&state, query), r),
    ensures
        r is Ignored <==> encode_utf8(query@).len() < 3,
        encode_utf8(query@).len() >= 3 ==> {
            &&& r is Search <==> built_regex(query@, state.smart_case) is Ok
            &&& r matches QueryStart::Rejected(message) ==> built_regex(query@, state.smart_case)
                == Err::<Regex, _>(message@)
            &&& r matches QueryStart::Search(running) ==> running.query@ == query@
                && running.smart_case == state.smart_case && (running.filter matches
                TagFilter::Matching(regex) && built_regex(query@, state.smart_case) == Ok::<
                _,
                Seq<char>,
            >(regex))
        },
{
}

/// The picker is set up for its search root: the walk, the filter of its entries, smart case and
/// the register are those that were asked for, nothing is parsed yet, and the register is `/`
/// where none was asked for.
pub proof fn workspace_picker_is_set_up<P>(
    config: FilePickerConfig,
    smart_case: bool,
    register: Option<char>,
    search_root: String,
    filter_root: P,
    canonical_root: Option<P>,
    user_ignore: &str,
    path: FilePath,
    r: WorkspacePicker<P>,
)
    requires
        call_ensures(
            syntax_workspace_symbol_picker::<P>,
            (
                &config,
                smart_case,
                register,
                search_root,
                filter_root,
                canonical_root,
                user_ignore,
            ),
            r,
        ),
    ensures
        exists|settings: WalkView| #[trigger]
            prepared_walk(settings) == r.state.walk && settings.root == search_root@
                && settings.hidden == config.hidden && settings.parents == config.parents
                && settings.ignore == config.ignore && settings.follow_links
                == config.follow_symlinks && settings.git_ignore == config.git_ignore
                && settings.git_global == config.git_global && settings.git_exclude
                == config.git_exclude && settings.max_depth == config.max_depth
                && settings.user_ignore == user_ignore@ && settings.workspace_ignore
                == ".helix/ignore"@,
        canonical_root matches Some(root) ==> r.entry_filter.absolute_root == root,
        canonical_root is None ==> r.entry_filter.absolute_root == filter_root,
        r.entry_filter.deduplicate_links == config.deduplicate_links,
        r.state.smart_case == smart_case,
        r.state.search_root@ == search_root@,
        !r.state.syntax_cache@.contains_key(path@),
        register matches Some(c) ==> r.register == c,
        register is None ==> r.register == '/',
        r.debounce == 275,
{
}

proof fn documents_tags_append(
    a: Seq<OpenDocument>,
    b: Seq<OpenDocument>,
    filter: TagFilter,
)
    ensures
        documents_tags(a + b, filter) == documents_tags(a, filter) + documents_tags(b, filter),
    decreases b.len(),
{
    if b.len() == 0 {
        assert(a + b =~= a);
        assert(documents_tags(a, filter) + documents_tags(b, filter) =~= documents_tags(a, filter));
    } else {
        documents_tags_append(a, b.drop_last(), filter);
        assert((a + b).drop_last() =~= a + b.drop_last());
        assert((a + b).last() == b.last());
        assert(documents_tags(a + b, filter) =~= documents_tags(a, filter) + documents_tags(
            b,
            filter,
        ));
    }
}

/// Open documents are looked through one after the other: the tags of some and then some more are
/// those of the first, followed by those of the others.
pub proof fn documents_are_looked_through_in_order(
    first: Vec<OpenDocument>,
    others: Vec<OpenDocument>,
    all: Vec<OpenDocument>,
    filter: TagFilter,
    first_tags: Vec<Tag>,
    other_tags: Vec<Tag>,
    all_tags: Vec<Tag>,
)
    requires
        all@ == first@ + others@,
        call_ensures(open_documents_tags, (&first, &filter), first_tags),
        call_ensures(open_documents_tags, (&others, &filter), other_tags),
        call_ensures(open_documents_tags, (&all, &filter), all_tags),
    ensures
        tag_views(all_tags@) == tag_views(first_tags@) + tag_views(other_tags@),
{
    documents_tags_append(first@, others@, filter);
}

/// An open document with a syntax tree gives the tags that the filter selects in it, as tags of
/// its location, or of its identity where it has none; and one without gives none.
pub proof fn tags_of_one_document(
    documents: Vec<OpenDocument>,
    doc: UriOrDocumentId,
    filter: TagFilter,
    events: Vec<QueryEvent>,
    tags: Vec<Tag>,
    r: Vec<Tag>,
)
    requires
        documents@.len() == 1,
        call_ensures(open_documents_tags, (&documents, &filter), r),
        documents@[0].events == Some(events) ==> call_ensures(
            select_tags,
            (&events, &documents@[0].text, &doc, &filter),
            tags,
        ),
        match documents@[0].uri {
            Some(uri) => doc@ == UriOrDocumentId::Uri(uri)@,
            None => doc == UriOrDocumentId::Id(documents@[0].id),
        },
    ensures
        documents@[0].events == Some(events) ==> tag_views(r@) == tag_views(tags@),
        documents@[0].events is None ==> r@.len() == 0,
{
    reveal_with_fuel(documents_tags, 2);
    assert(documents@.drop_last() =~= Seq::<OpenDocument>::empty());
    assert(documents@.last() == documents@[0]);
    assert(tag_views(r@) =~= document_tags(documents@[0]@, filter));
    assert(tag_views(r@).len() == r@.len());
}

/// The tags of open documents go to the picker in order: once the first `k` are accepted, the next
/// action is to hand over the one after them.
pub proof fn tags_of_documents_are_handed_over(
    tags: Seq<TagView>,
    answers: Seq<bool>,
    k: int,
    action: QueryAction,
)
    requires
        0 <= k < tags.len(),
        answers.len() == k,
        forall|i: int| 0 <= i < k ==> answers[i],
        is_next(action, (DeliveryView { pending: tags, closed: false }).after(answers)),
    ensures
        action matches QueryAction::Offer(tag) && tag@ == tags[k],
{
    tags_are_handed_over_in_order(tags, answers, k);
}

/// The files of a workspace are walked if there is one and the query can be grepped for, as a
/// regex, with smart case where it is on, and up to a NUL byte; any other outcome is an error.
pub proof fn workspace_is_walked_if_it_exists(
    query: WorkspaceQuery,
    root_exists: bool,
    r: QueryAction,
    error: Option<&'static str>,
)
    requires
        call_ensures(WorkspaceQuery::root_checked, (&query, root_exists), r),
        call_ensures(QueryAction::error, (&r,), error),
    ensures
        r is MissingRoot <==> !root_exists,
        r is Walk <==> root_exists && built_matcher(query.query@, query.smart_case, false) is Ok,
        r matches QueryAction::Walk { matcher, searcher } ==> built_matcher(
            query.query@,
            query.smart_case,
            false,
        ) == Ok::<_, grep_regex::Error>(matcher) && searcher == built_searcher(0),
        error is None <==> r is Walk,
        error matches Some(message) ==> message@ == (if root_exists {
            "Failed to compile regex"@
        } else {
            "Current working directory does not exist"@
        }),
{
}

/// Looking through open documents hands over the first of their tags that the query asks for, and
/// leaves the others to go; if there is none, the query goes on to the workspace.
pub proof fn documents_hand_over_first_tag(
    query: &mut WorkspaceQuery,
    documents: Vec<OpenDocument>,
    tags: Vec<Tag>,
    r: QueryAction,
)
    requires
        call_ensures(WorkspaceQuery::look_through, (query, &documents), r),
        call_ensures(open_documents_tags, (&documents, &old(query).filter), tags),
    ensures
        tags@.len() == 0 ==> r is CheckRoot,
        tags@.len() > 0 ==> (r matches QueryAction::Offer(tag) && tag@ == tags@[0]@)
            && final(query).delivery@.pending == tag_views(tags@).skip(1),
        !final(query).delivery@.closed,
        final(query).filter == old(query).filter,
        final(query).query == old(query).query,
        final(query).smart_case == old(query).smart_case,
{
    assert(tag_views(tags@).len() == tags@.len());
    if tags@.len() > 0 {
        assert(tag_views(tags@)[0] == tags@[0]@);
        assert(tag_views(tags@).drop_first() =~= tag_views(tags@).skip(1));
    }
}

/// An accepted tag is followed by the next one, and the last one by the workspace. A refused tag
/// ends the query.
pub proof fn answer_leads_on(query: &mut WorkspaceQuery, accepted: bool, r: QueryAction)
    requires
        call_ensures(WorkspaceQuery::answered, (query, accepted), r),
        !old(query).delivery@.closed,
    ensures
        accepted && old(query).delivery@.pending.len() > 0 ==> (r matches QueryAction::Offer(tag)
            && tag@ == old(query).delivery@.pending[0]) && final(query).delivery@.pending == old(
            query,
        ).delivery@.pending.skip(1),
        accepted && old(query).delivery@.pending.len() == 0 ==> r is CheckRoot,
        !accepted ==> r is Finish,
        final(query).delivery@.closed <==> !accepted,
        final(query).filter == old(query).filter,
        final(query).query == old(query).query,
        final(query).smart_case == old(query).smart_case,
{
    if old(query).delivery@.pending.len() > 0 {
        assert(old(query).delivery@.pending.drop_first() =~= old(
            query,
        ).delivery@.pending.skip(1));
    }
}

} // verus!
