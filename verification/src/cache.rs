//! The files that a workspace search has parsed.

use vstd::prelude::*;
use dashmap::DashMap;
use ropey::Rope;
use crate::path::{bytes_of, has_components, paths_are_told_by_components, FilePath};
use crate::rope::rope_text;

verus! {

/// `dashmap::DashMap`, a map that is made for sharing between threads. Here each is in one pair
/// of hands at a time, and what it holds is [`cached`].
#[verifier::external_type_specification]
#[verifier::external_body]
#[verifier::reject_recursive_types(K)]
#[verifier::reject_recursive_types(V)]
#[verifier::reject_recursive_types(S)]
pub struct ExDashMap<K, V, S>(DashMap<K, V, S>);

/// A parsed file: its text, and the number that the syntax tree is kept under.
pub type Parsed = (Rope, u64);

/// What a cache holds: for each path, the file's text and syntax tree, or that it could not be
/// parsed.
pub type CacheView = Map<Seq<Seq<u8>>, Option<(Seq<char>, u64)>>;

/// The value of a file that was parsed, or could not be.
pub open spec fn parsed_view(file: Option<(Rope, u64)>) -> Option<(Seq<char>, u64)> {
    match file {
        Some((text, syntax)) => Some((rope_text(text), syntax)),
        None => None,
    }
}

/// What a map of files holds. Its keys are the components of paths.
pub uninterp spec fn cached(map: DashMap<Vec<Vec<u8>>, Option<(Rope, u64)>>) -> Map<
    Seq<Seq<u8>>,
    Option<(Seq<char>, u64)>,
>;

/// `DashMap::default`: an empty map.
#[verifier::external_body]
fn empty_map() -> (r: DashMap<Vec<Vec<u8>>, Option<(Rope, u64)>>)
    ensures
        cached(r) == CacheView::empty(),
{
    DashMap::default()
}

/// `DashMap::contains_key`: whether a path has an entry.
#[verifier::external_body]
fn contains_key(map: &DashMap<Vec<Vec<u8>>, Option<(Rope, u64)>>, path: &Vec<Vec<u8>>) -> (r:
    bool)
    ensures
        r == cached(*map).contains_key(bytes_of(path@)),
{
    map.contains_key(path)
}

/// `DashMap::insert`: gives a path an entry, in place of the one it had.
#[verifier::external_body]
fn insert(
    map: &mut DashMap<Vec<Vec<u8>>, Option<(Rope, u64)>>,
    path: Vec<Vec<u8>>,
    file: Option<(Rope, u64)>,
)
    ensures
        cached(*final(map)) == cached(*old(map)).insert(bytes_of(path@), parsed_view(file)),
{
    map.insert(path, file);
}

/// `DashMap::get`, and a clone of the value that it gives access to: the entry of a path, if it
/// has one. The clone of a rope holds the same text.
#[verifier::external_body]
fn get(map: &DashMap<Vec<Vec<u8>>, Option<(Rope, u64)>>, path: &Vec<Vec<u8>>) -> (r: Option<
    Option<(Rope, u64)>,
>)
    ensures
        match r {
            Some(file) => cached(*map).contains_key(bytes_of(path@)) && cached(*map)[bytes_of(
                path@,
            )] == parsed_view(file),
            None => !cached(*map).contains_key(bytes_of(path@)),
        },
{
    map.get(path).map(|entry| entry.value().clone())
}

/// A cache of files that have been parsed in prior searches.
pub struct SyntaxCache {
    files: DashMap<Vec<Vec<u8>>, Option<(Rope, u64)>>,
}

impl View for SyntaxCache {
    type V = CacheView;

    closed spec fn view(&self) -> CacheView {
        cached(self.files)
    }
}

impl SyntaxCache {
    /// A cache of no files.
    pub fn new() -> (r: Self)
        ensures
            r@ == CacheView::empty(),
    {
        SyntaxCache { files: empty_map() }
    }

    /// Whether a file has to be parsed, because no earlier search did.
    pub fn needs_parse(&self, path: &FilePath) -> (r: bool)
        ensures
            r == !self@.contains_key(path@),
    {
        !contains_key(&self.files, &path.components)
    }

    /// Saves what came of parsing a file, for future queries.
    pub fn remember(&mut self, path: FilePath, file: Option<Parsed>)
        ensures
            final(self)@ == old(self)@.insert(path@, parsed_view(file)),
    {
        insert(&mut self.files, path.components, file);
    }

    /// What came of parsing a file, if it was parsed.
    pub fn recall(&self, path: &FilePath) -> (r: Option<Option<Parsed>>)
        ensures
            match r {
                Some(file) => self@.contains_key(path@) && self@[path@] == parsed_view(file),
                None => !self@.contains_key(path@),
            },
    {
        get(&self.files, &path.components)
    }
}

/// A parsed file is read as it is: its text, and its syntax tree's number.
pub proof fn parsed_files_are_read_as_they_are(file: Option<Parsed>)
    ensures
        file matches Some(parsed) ==> parsed_view(file) == Some((rope_text(parsed.0), parsed.1)),
        file is None ==> parsed_view(file) is None,
{
}

/// A new cache has nothing in it, so that every file has to be parsed.
pub proof fn new_cache_is_empty(cache: SyntaxCache, path: FilePath, needed: bool)
    requires
        call_ensures(SyntaxCache::new, (), cache),
        call_ensures(SyntaxCache::needs_parse, (&cache, &path), needed),
    ensures
        needed,
{
}

/// A file has to be parsed exactly if nothing is recalled of it.
pub proof fn unknown_files_need_parsing(
    cache: SyntaxCache,
    path: FilePath,
    needed: bool,
    recalled: Option<Option<Parsed>>,
)
    requires
        call_ensures(SyntaxCache::needs_parse, (&cache, &path), needed),
        call_ensures(SyntaxCache::recall, (&cache, &path), recalled),
    ensures
        needed <==> recalled is None,
{
}

/// What is saved of a file is kept under its path, and nothing else in the cache changes.
pub proof fn remembering_changes_one_file(
    cache: &mut SyntaxCache,
    path: FilePath,
    file: Option<Parsed>,
    other: FilePath,
)
    requires
        call_ensures(SyntaxCache::remember, (cache, path, file), ()),
    ensures
        final(cache)@.contains_key(path@),
        match file {
            Some(parsed) => final(cache)@[path@] == Some((rope_text(parsed.0), parsed.1)),
            None => final(cache)@[path@] is None,
        },
        !has_components(path, other) ==> (final(cache)@.contains_key(other@) <==> old(
            cache,
        )@.contains_key(other@)) && (old(cache)@.contains_key(other@) ==> final(cache)@[other@]
            == old(cache)@[other@]),
{
    paths_are_told_by_components(path, other);
}

} // verus!
