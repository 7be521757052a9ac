//! Walking a workspace: how the walk is set up, and which of its entries are searched.

use vstd::prelude::*;
use grep_searcher::{BinaryDetection, Searcher, SearcherBuilder};
use ignore::WalkBuilder;
use crate::document::optional_text;
use crate::path::{
    has_components, optional_path, path_listed, path_views, paths_are_told_by_components, FilePath,
};

verus! {

/// `ignore`'s `WalkBuilder`, a directory walk that is set up but not under way.
#[verifier::external_type_specification]
#[verifier::external_body]
pub struct ExWalkBuilder(WalkBuilder);

/// `grep_searcher`'s `Searcher`, which looks for matches in files.
#[verifier::external_type_specification]
#[verifier::external_body]
pub struct ExSearcher(Searcher);

/// The file picker's settings, as far as a walk goes by them.
#[derive(Debug, Clone, Copy, PartialEq, Eq, Structural)]
pub struct FilePickerConfig {
    pub hidden: bool,
    pub parents: bool,
    pub ignore: bool,
    pub follow_symlinks: bool,
    pub git_ignore: bool,
    pub git_global: bool,
    pub git_exclude: bool,
    pub max_depth: Option<usize>,
    pub deduplicate_links: bool,
}

/// Everything that a walk is set up with.
#[derive(Debug)]
pub struct WalkSettings {
    pub root: String,
    pub hidden: bool,
    pub parents: bool,
    pub ignore: bool,
    pub follow_links: bool,
    pub git_ignore: bool,
    pub git_global: bool,
    pub git_exclude: bool,
    pub max_depth: Option<usize>,
    /// The ignore file among the user's configuration.
    pub user_ignore: String,
    /// The ignore file of the workspace.
    pub workspace_ignore: String,
}

/// The value of [`WalkSettings`].
pub struct WalkView {
    pub root: Seq<char>,
    pub hidden: bool,
    pub parents: bool,
    pub ignore: bool,
    pub follow_links: bool,
    pub git_ignore: bool,
    pub git_global: bool,
    pub git_exclude: bool,
    pub max_depth: Option<usize>,
    pub user_ignore: Seq<char>,
    pub workspace_ignore: Seq<char>,
}

impl View for WalkSettings {
    type V = WalkView;

    open spec fn view(&self) -> WalkView {
        WalkView {
            root: self.root@,
            hidden: self.hidden,
            parents: self.parents,
            ignore: self.ignore,
            follow_links: self.follow_links,
            git_ignore: self.git_ignore,
            git_global: self.git_global,
            git_exclude: self.git_exclude,
            max_depth: self.max_depth,
            user_ignore: self.user_ignore@,
            workspace_ignore: self.workspace_ignore@,
        }
    }
}

/// The ignore file of a workspace.
pub const WORKSPACE_IGNORE: &'static str = ".helix/ignore";

/// The walk that `ignore` sets up for some settings.
pub uninterp spec fn prepared_walk(settings: WalkView) -> WalkBuilder;

/// `WalkBuilder::new` of `ignore`, then the builder's method for each setting, and
/// `add_custom_ignore_filename` for the two ignore files, the user's first. The builder only
/// keeps what it is given, so it depends on the settings alone.
#[verifier::external_body]
fn prepare_walk(settings: &WalkSettings) -> (r: WalkBuilder)
    ensures
        r == prepared_walk(settings@),
{
    let mut walk = WalkBuilder::new(&settings.root);
    walk.hidden(settings.hidden)
        .parents(settings.parents)
        .ignore(settings.ignore)
        .follow_links(settings.follow_links)
        .git_ignore(settings.git_ignore)
        .git_global(settings.git_global)
        .git_exclude(settings.git_exclude)
        .max_depth(settings.max_depth)
        .add_custom_ignore_filename(&settings.user_ignore)
        .add_custom_ignore_filename(&settings.workspace_ignore);
    walk
}

/// The settings of a walk under `root`.
pub open spec fn walk_settings(
    config: FilePickerConfig,
    root: Seq<char>,
    user_ignore: Seq<char>,
) -> WalkView {
    WalkView {
        root,
        hidden: config.hidden,
        parents: config.parents,
        ignore: config.ignore,
        follow_links: config.follow_symlinks,
        git_ignore: config.git_ignore,
        git_global: config.git_global,
        git_exclude: config.git_exclude,
        max_depth: config.max_depth,
        user_ignore,
        workspace_ignore: WORKSPACE_IGNORE@,
    }
}

/// Sets up the walk under `search_root`.
pub fn build_goto_walk_builder(
    config: &FilePickerConfig,
    search_root: &str,
    user_ignore: &str,
) -> (r: WalkBuilder)
    ensures
        r == prepared_walk(walk_settings(*config, search_root@, user_ignore@)),
{
    let settings = WalkSettings {
        root: search_root.to_owned(),
        hidden: config.hidden,
        parents: config.parents,
        ignore: config.ignore,
        follow_links: config.follow_symlinks,
        git_ignore: config.git_ignore,
        git_global: config.git_global,
        git_exclude: config.git_exclude,
        max_depth: config.max_depth,
        user_ignore: user_ignore.to_owned(),
        workspace_ignore: WORKSPACE_IGNORE.to_owned(),
    };
    prepare_walk(&settings)
}

/// What the picker's entry filter is given besides each entry. The root is a path, in whatever
/// form the filter takes one.
#[derive(Debug)]
pub struct EntryFilter<P> {
    pub absolute_root: P,
    pub deduplicate_links: bool,
}

/// The picker's entry filter goes by the canonical form of the search root, and by the search
/// root itself where that form cannot be had.
pub fn entry_filter<P>(config: &FilePickerConfig, search_root: P, canonical: Option<P>) -> (r:
    EntryFilter<P>)
    ensures
        r.absolute_root == (match canonical {
            Some(path) => path,
            None => search_root,
        }),
        r.deduplicate_links == config.deduplicate_links,
{
    let absolute_root = match canonical {
        Some(path) => path,
        None => search_root,
    };
    EntryFilter { absolute_root, deduplicate_links: config.deduplicate_links }
}

/// The searcher that `grep_searcher` builds, which quits at a byte that marks binary data.
pub uninterp spec fn built_searcher(quit_byte: u8) -> Searcher;

/// `SearcherBuilder::build` of `grep_searcher`, with binary detection by `BinaryDetection::quit`
/// and otherwise the defaults. It depends on the byte alone.
#[verifier::external_body]
fn build_searcher(quit_byte: u8) -> (r: Searcher)
    ensures
        r == built_searcher(quit_byte),
{
    SearcherBuilder::new().binary_detection(BinaryDetection::quit(quit_byte)).build()
}

/// The searcher for files of a workspace: it takes a NUL byte for the mark of binary data, and
/// quits there.
pub fn file_searcher() -> (r: Searcher)
    ensures
        r == built_searcher(0),
{
    build_searcher(0)
}

/// Which workspace to search.
#[derive(Debug)]
pub enum WorkspaceLookup {
    /// The one that a file is in.
    Containing(String),
    /// The one that the editor was started in.
    Current,
}

/// The workspace of the focused document: the one its file is in, so that two projects open in
/// splits are told apart, and the current one where it has no file.
pub fn workspace_lookup(path: &Option<String>) -> (r: WorkspaceLookup)
    ensures
        match optional_text(*path) {
            Some(path) => r matches WorkspaceLookup::Containing(file) && file@ == path,
            None => r is Current,
        },
{
    match path {
        Some(path) => WorkspaceLookup::Containing(path.clone()),
        None => WorkspaceLookup::Current,
    }
}

/// What a walk comes upon.
#[derive(Debug)]
pub enum WalkEntry {
    /// Something that could not be read.
    Unreadable,
    /// A path, and whether a file is there.
    Found { path: FilePath, is_file: bool },
}

/// What to do with an entry.
#[derive(Debug, Clone, Copy, PartialEq, Eq, Structural)]
pub enum Visit {
    Skip,
    Search,
}

/// Whether an entry is searched: if it is a file, and no document has it open. Open documents
/// are looked through before the walk.
pub open spec fn is_searched(entry: WalkEntry, open: Set<Seq<Seq<u8>>>) -> bool {
    match entry {
        WalkEntry::Unreadable => false,
        WalkEntry::Found { path, is_file } => is_file && !open.contains(path@),
    }
}

/// What to do with an entry, given the paths of the open documents.
pub fn visit_entry(entry: &WalkEntry, open: &OpenPaths) -> (r: Visit)
    ensures
        r == (if is_searched(*entry, open@) {
            Visit::Search
        } else {
            Visit::Skip
        }),
{
    match entry {
        WalkEntry::Unreadable => Visit::Skip,
        WalkEntry::Found { path, is_file } => if *is_file && !open.contains(path) {
            Visit::Search
        } else {
            Visit::Skip
        },
    }
}

/// The paths of the open documents. None occurs twice.
pub struct OpenPaths {
    paths: Vec<FilePath>,
}

impl View for OpenPaths {
    type V = Set<Seq<Seq<u8>>>;

    closed spec fn view(&self) -> Set<Seq<Seq<u8>>> {
        path_views(self.paths@).to_set()
    }
}

impl OpenPaths {
    #[verifier::type_invariant]
    closed spec fn distinct(self) -> bool {
        path_views(self.paths@).no_duplicates()
    }

    /// The paths of documents, leaving out documents that have none.
    pub fn collect(documents: &Vec<Option<FilePath>>) -> (r: Self)
        ensures
            forall|path: Seq<Seq<u8>>|
                r@.contains(path) <==> exists|i: int|
                    0 <= i < documents@.len() && optional_path(#[trigger] documents@[i]) == Some(
                        path,
                    ),
    {
        let mut paths: Vec<FilePath> = Vec::new();
        let mut i: usize = 0;
        while i < documents.len()
            invariant
                i <= documents@.len(),
                path_views(paths@).no_duplicates(),
                forall|path: Seq<Seq<u8>>|
                    path_views(paths@).contains(path) <==> exists|j: int|
                        0 <= j < i && optional_path(#[trigger] documents@[j]) == Some(path),
            decreases documents@.len() - i,
        {
            let ghost before = paths@;
            if let Some(path) = &documents[i] {
                if !path_listed(&paths, path) {
                    paths.push(path.clone());
                    assert(path_views(paths@) =~= path_views(before).push(path@));
                }
            }
            proof {
                assert forall|path: Seq<Seq<u8>>|
                    path_views(paths@).contains(path) <==> exists|j: int|
                        0 <= j < i + 1 && optional_path(#[trigger] documents@[j]) == Some(path) by {
                    if path_views(paths@).contains(path) {
                        if path_views(before).contains(path) {
                            let j = choose|j: int|
                                0 <= j < i && optional_path(#[trigger] documents@[j]) == Some(path);
                            assert(optional_path(documents@[j]) == Some(path));
                        } else {
                            assert(optional_path(documents@[i as int]) == Some(path));
                        }
                    }
                    if exists|j: int|
                        0 <= j < i + 1 && optional_path(#[trigger] documents@[j]) == Some(path) {
                        let j = choose|j: int|
                            0 <= j < i + 1 && optional_path(#[trigger] documents@[j]) == Some(path);
                        if j < i {
                            assert(path_views(before).contains(path));
                            let k = choose|k: int|
                                0 <= k < path_views(before).len() && path_views(before)[k] == path;
                            assert(path_views(paths@)[k] == path);
                        } else if path_views(before).contains(path) {
                        } else {
                            assert(path_views(paths@).last() == path);
                        }
                    }
                }
            }
            i = i + 1;
        }
        OpenPaths { paths }
    }

    /// Whether a document has this file open.
    pub fn contains(&self, path: &FilePath) -> (r: bool)
        ensures
            r == self@.contains(path@),
    {
        path_listed(&self.paths, path)
    }
}

/// Whether a walk goes on.
#[derive(Debug, Clone, Copy, PartialEq, Eq, Structural)]
pub enum WalkState {
    Continue,
    Quit,
}

/// A walk goes on unless the picker has closed.
pub fn walk_state(closed: bool) -> (r: WalkState)
    ensures
        r == (if closed {
            WalkState::Quit
        } else {
            WalkState::Continue
        }),
{
    if closed {
        WalkState::Quit
    } else {
        WalkState::Continue
    }
}

/// A walk's settings are read as they are.
pub proof fn settings_are_read_as_they_are(settings: WalkSettings)
    ensures
        settings@.root == settings.root@,
        settings@.hidden == settings.hidden,
        settings@.parents == settings.parents,
        settings@.ignore == settings.ignore,
        settings@.follow_links == settings.follow_links,
        settings@.git_ignore == settings.git_ignore,
        settings@.git_global == settings.git_global,
        settings@.git_exclude == settings.git_exclude,
        settings@.max_depth == settings.max_depth,
        settings@.user_ignore == settings.user_ignore@,
        settings@.workspace_ignore == settings.workspace_ignore@,
{
}

/// A walk starts at the search root, and each of its switches is set as the file picker's switch
/// of that name is. Besides the user's ignore file it obeys that of the workspace.
pub proof fn walk_is_set_up_as_configured(
    config: FilePickerConfig,
    search_root: &str,
    user_ignore: &str,
    r: WalkBuilder,
)
    requires
        call_ensures(build_goto_walk_builder, (&config, search_root, user_ignore), r),
    ensures
        exists|settings: WalkView| #[trigger]
            prepared_walk(settings) == r && settings.root == search_root@ && settings.hidden
                == config.hidden && settings.parents == config.parents && settings.ignore
                == config.ignore && settings.follow_links == config.follow_symlinks
                && settings.git_ignore == config.git_ignore && settings.git_global
                == config.git_global && settings.git_exclude == config.git_exclude
                && settings.max_depth == config.max_depth && settings.user_ignore == user_ignore@
                && settings.workspace_ignore == ".helix/ignore"@,
{
}

/// Two walks that are set up alike come from settings that agree in all that a walk goes by: no
/// switch stands for another, and none is left out.
pub proof fn walk_depends_on_every_setting(
    a: FilePickerConfig,
    b: FilePickerConfig,
    root: Seq<char>,
    user_ignore: Seq<char>,
)
    ensures
        walk_settings(a, root, user_ignore) == walk_settings(b, root, user_ignore) <==> (a.hidden
            == b.hidden && a.parents == b.parents && a.ignore == b.ignore && a.follow_symlinks
            == b.follow_symlinks && a.git_ignore == b.git_ignore && a.git_global == b.git_global
            && a.git_exclude == b.git_exclude && a.max_depth == b.max_depth),
{
}

/// The entry filter goes by the canonical root where there is one, else by the search root, and
/// follows the file picker on links.
pub proof fn entry_filter_prefers_canonical_root<P>(
    config: FilePickerConfig,
    search_root: P,
    canonical: Option<P>,
    r: EntryFilter<P>,
)
    requires
        call_ensures(entry_filter::<P>, (&config, search_root, canonical), r),
    ensures
        canonical matches Some(path) ==> r.absolute_root == path,
        canonical is None ==> r.absolute_root == search_root,
        r.deduplicate_links == config.deduplicate_links,
{
}

/// Files are searched up to a NUL byte.
pub proof fn searcher_quits_at_nul(r: Searcher)
    requires
        call_ensures(file_searcher, (), r),
    ensures
        r == built_searcher(0),
{
}

/// The workspace is looked up from the document's file, and is the current one where there is no
/// file.
pub proof fn workspace_is_that_of_file(path: Option<String>, r: WorkspaceLookup)
    requires
        call_ensures(workspace_lookup, (&path,), r),
    ensures
        path matches Some(file) ==> (r matches WorkspaceLookup::Containing(from) && from@ == file@),
        path is None ==> r is Current,
{
}

/// What a walk comes upon is searched exactly if it is a file, and none of the open documents has
/// a path with the same components.
pub proof fn closed_files_are_searched(
    documents: Vec<Option<FilePath>>,
    open: OpenPaths,
    entry: WalkEntry,
    r: Visit,
)
    requires
        call_ensures(OpenPaths::collect, (&documents,), open),
        call_ensures(visit_entry, (&entry, &open), r),
    ensures
        r == Visit::Search <==> (entry matches WalkEntry::Found { path, is_file } && is_file
            && forall|i: int|
            0 <= i < documents@.len() ==> (#[trigger] documents@[i] matches Some(other)
                ==> !has_components(other, path))),
        r == Visit::Skip || r == Visit::Search,
{
    if let WalkEntry::Found { path, is_file } = entry {
        assert forall|i: int|
            0 <= i < documents@.len() implies (#[trigger] documents@[i] matches Some(other)
            ==> (has_components(other, path) <==> other@ == path@)) by {
            if let Some(other) = documents@[i] {
                paths_are_told_by_components(other, path);
            }
        }
        if open@.contains(path@) {
            let i = choose|i: int|
                0 <= i < documents@.len() && optional_path(#[trigger] documents@[i]) == Some(path@);
            assert(documents@[i] is Some);
        } else {
            assert forall|i: int| 0 <= i < documents@.len() implies (
            #[trigger] documents@[i] matches Some(other) ==> !has_components(other, path)) by {
                assert(optional_path(documents@[i]) != Some(path@));
            }
        }
    }
}

/// Whether a file is open goes by the components of paths.
pub proof fn open_paths_are_those_of_documents(
    documents: Vec<Option<FilePath>>,
    open: OpenPaths,
    path: FilePath,
    r: bool,
)
    requires
        call_ensures(OpenPaths::collect, (&documents,), open),
        call_ensures(OpenPaths::contains, (&open, &path), r),
    ensures
        r <==> exists|i: int|
            0 <= i < documents@.len() && (#[trigger] documents@[i] matches Some(other)
                && has_components(other, path)),
{
    if r {
        let i = choose|i: int|
            0 <= i < documents@.len() && optional_path(#[trigger] documents@[i]) == Some(path@);
        paths_are_told_by_components(documents@[i].unwrap(), path);
        assert(documents@[i] is Some);
    }
    if exists|i: int|
        0 <= i < documents@.len() && (#[trigger] documents@[i] matches Some(other)
            && has_components(other, path)) {
        let i = choose|i: int|
            0 <= i < documents@.len() && (#[trigger] documents@[i] matches Some(other)
                && has_components(other, path));
        paths_are_told_by_components(documents@[i].unwrap(), path);
        assert(optional_path(documents@[i]) == Some(path@));
    }
}

/// A walk goes on as long as the picker is open.
pub proof fn walk_quits_with_picker(closed: bool, r: WalkState)
    requires
        call_ensures(walk_state, (closed,), r),
    ensures
        r == WalkState::Quit <==> closed,
        r == WalkState::Continue <==> !closed,
{
}

} // verus!
