//! File paths: how they are compared, and what is left of one below a directory.

use vstd::prelude::*;
use crate::document::optional_text;

verus! {

/// A file path by its components, each as the bytes that the platform spells it with. Two paths
/// are one if their components are: how often a separator is repeated does not count, nor does a
/// `.` that stands for nothing.
#[derive(Debug)]
pub struct FilePath {
    pub components: Vec<Vec<u8>>,
}

/// The bytes of each component of a list.
pub open spec fn bytes_of(components: Seq<Vec<u8>>) -> Seq<Seq<u8>> {
    components.map_values(|c: Vec<u8>| c@)
}

impl View for FilePath {
    type V = Seq<Seq<u8>>;

    open spec fn view(&self) -> Seq<Seq<u8>> {
        bytes_of(self.components@)
    }
}

impl Clone for FilePath {
    fn clone(&self) -> (r: Self)
        ensures
            r@ == self@,
    {
        let mut components: Vec<Vec<u8>> = Vec::new();
        let mut i: usize = 0;
        while i < self.components.len()
            invariant
                i <= self.components@.len(),
                bytes_of(components@) == self@.take(i as int),
            decreases self.components@.len() - i,
        {
            let ghost before = components@;
            let component = self.components[i].clone();
            assert(component@ =~= self@[i as int]);
            components.push(component);
            assert(bytes_of(components@) =~= bytes_of(before).push(component@));
            assert(self@.take(i + 1) =~= self@.take(i as int).push(self@[i as int]));
            i = i + 1;
        }
        assert(self@.take(self@.len() as int) =~= self@);
        FilePath { components }
    }
}

fn same_bytes(a: &Vec<u8>, b: &Vec<u8>) -> (r: bool)
    ensures
        r == (a@ == b@),
{
    if a.len() != b.len() {
        return false;
    }
    let mut i: usize = 0;
    while i < a.len()
        invariant
            i <= a@.len(),
            a@.len() == b@.len(),
            forall|j: int| 0 <= j < i ==> a@[j] == b@[j],
        decreases a@.len() - i,
    {
        if a[i] != b[i] {
            return false;
        }
        i = i + 1;
    }
    assert(a@ =~= b@);
    true
}

/// Whether two paths are one.
pub fn same_path(a: &FilePath, b: &FilePath) -> (r: bool)
    ensures
        r == (a@ == b@),
{
    if a.components.len() != b.components.len() {
        assert(a@.len() != b@.len());
        return false;
    }
    let mut i: usize = 0;
    while i < a.components.len()
        invariant
            i <= a@.len(),
            a@.len() == a.components@.len(),
            b@.len() == b.components@.len(),
            a@.len() == b@.len(),
            forall|j: int| 0 <= j < i ==> a@[j] == b@[j],
        decreases a@.len() - i,
    {
        assert(a@[i as int] == a.components@[i as int]@);
        assert(b@[i as int] == b.components@[i as int]@);
        if !same_bytes(&a.components[i], &b.components[i]) {
            return false;
        }
        i = i + 1;
    }
    assert(a@ =~= b@);
    true
}

/// The values of a list of paths.
pub open spec fn path_views(paths: Seq<FilePath>) -> Seq<Seq<Seq<u8>>> {
    paths.map_values(|p: FilePath| p@)
}

/// The value of an optional path.
pub open spec fn optional_path(path: Option<FilePath>) -> Option<Seq<Seq<u8>>> {
    match path {
        Some(path) => Some(path@),
        None => None,
    }
}

/// Whether `wanted` occurs in a list of paths.
pub fn path_listed(paths: &Vec<FilePath>, wanted: &FilePath) -> (r: bool)
    ensures
        r == path_views(paths@).contains(wanted@),
{
    let mut i: usize = 0;
    while i < paths.len()
        invariant
            i <= paths@.len(),
            forall|j: int| 0 <= j < i ==> paths@[j]@ != wanted@,
        decreases paths@.len() - i,
    {
        if same_path(&paths[i], wanted) {
            assert(path_views(paths@)[i as int] == wanted@);
            return true;
        }
        i = i + 1;
    }
    assert(forall|j: int| 0 <= j < paths@.len() ==> #[trigger] path_views(paths@)[j] == paths@[j]@);
    false
}

/// Whether a text is made of names with single slashes between them, without a backslash and
/// without a name that is just a dot.
pub open spec fn plain_names(text: Seq<char>) -> bool {
    &&& text.len() > 0
    &&& text.last() != '/'
    &&& forall|i: int|
        0 <= i < text.len() ==> {
            &&& #[trigger] text[i] != '\\'
            &&& (i == 0 || text[i - 1] == '/') ==> {
                &&& text[i] != '/'
                &&& text[i] == '.' ==> i + 1 < text.len() && text[i + 1] != '/'
            }
        }
}

/// Whether a path is the root, or plain names below it.
pub open spec fn is_rooted(path: Seq<char>) -> bool {
    &&& path.len() > 0
    &&& path[0] == '/'
    &&& path.len() > 1 ==> plain_names(path.drop_first())
}

/// Whether a path is plain names below no root. A colon could set off a drive there.
pub open spec fn is_relative_plain(path: Seq<char>) -> bool {
    plain_names(path) && !path.contains(':')
}

/// Whether every platform reads a path alike: as names below the root, or below no root.
pub open spec fn is_plain(path: Seq<char>) -> bool {
    is_rooted(path) || is_relative_plain(path)
}

/// What is left of a plain path below a plain directory: nothing of the directory itself, and
/// none if the path is not below it.
pub open spec fn below(path: Seq<char>, directory: Seq<char>) -> Option<Seq<char>> {
    if path == directory {
        Some(Seq::empty())
    } else if directory == seq!['/'] && path[0] == '/' {
        Some(path.drop_first())
    } else if directory.push('/').is_prefix_of(path) {
        Some(path.skip(directory.len() as int + 1))
    } else {
        None
    }
}

/// What is known of a path without a base that it starts with: it is a piece of the path; and it
/// is what is left below the base where both are plain.
pub open spec fn is_stripped(
    path: Seq<char>,
    base: Seq<char>,
    stripped: Option<Seq<char>>,
) -> bool {
    &&& stripped matches Some(rest) ==> exists|from: int, to: int|
        0 <= from <= to <= path.len() && rest == #[trigger] path.subrange(from, to)
    &&& is_plain(path) && is_plain(base) ==> stripped == below(path, base)
}

/// `Path::strip_prefix` of std, with the stripped path as a string: the path without a base that
/// it starts with, and nothing if it does not start with that. It goes by whole components, and
/// gives a piece of the path itself. Slashes separate components on Unix and on Windows alike, so
/// the result is exact where nothing else in the two paths is read in a way of its own by one
/// platform; of other paths only the first is said.
#[verifier::external_body]
pub(crate) fn strip_prefix(path: &str, base: &str) -> (r: Option<String>)
    ensures
        is_stripped(path@, base@, optional_text(r)),
{
    let stripped = std::path::Path::new(path).strip_prefix(base).ok()?;
    Some(stripped.to_string_lossy().into_owned())
}

/// Whether two paths have the same components, byte by byte.
pub open spec fn has_components(a: FilePath, b: FilePath) -> bool {
    &&& a.components@.len() == b.components@.len()
    &&& forall|i: int|
        0 <= i < a.components@.len() ==> (#[trigger] a.components@[i])@ == b.components@[i]@
}

/// Paths are told apart by their components and by nothing else.
pub proof fn paths_are_told_by_components(a: FilePath, b: FilePath)
    ensures
        a@ == b@ <==> has_components(a, b),
{
    if a@ == b@ {
        assert(a@.len() == a.components@.len() && b@.len() == b.components@.len());
        assert forall|i: int| 0 <= i < a.components@.len() implies (
        #[trigger] a.components@[i])@ == b.components@[i]@ by {
            assert(a@[i] == a.components@[i]@);
            assert(b@[i] == b.components@[i]@);
        }
    }
    if has_components(a, b) {
        assert forall|i: int| 0 <= i < a@.len() implies a@[i] == b@[i] by {
            assert(a.components@[i]@ == b.components@[i]@);
        }
        assert(a@ =~= b@);
    }
}

/// Comparing paths compares their components, and looking for one in a list compares it with each.
pub proof fn paths_are_compared_by_components(
    paths: Vec<FilePath>,
    a: FilePath,
    b: FilePath,
    same: bool,
    found: bool,
)
    requires
        call_ensures(same_path, (&a, &b), same),
        call_ensures(path_listed, (&paths, &a), found),
    ensures
        same <==> has_components(a, b),
        found <==> exists|i: int| 0 <= i < paths@.len() && has_components(#[trigger] paths@[i], a),
{
    paths_are_told_by_components(a, b);
    let views = path_views(paths@);
    if found {
        let i = choose|i: int| 0 <= i < views.len() && views[i] == a@;
        paths_are_told_by_components(paths@[i], a);
        assert(has_components(paths@[i], a));
    }
    if exists|i: int| 0 <= i < paths@.len() && has_components(#[trigger] paths@[i], a) {
        let i = choose|i: int| 0 <= i < paths@.len() && has_components(#[trigger] paths@[i], a);
        paths_are_told_by_components(paths@[i], a);
        assert(views[i] == a@);
    }
}

/// What is left of a path below a directory: a path that is the directory, a slash and a rest
/// leaves the rest; the directory itself leaves nothing; below the root all but the slash is left;
/// and nothing else is below a directory.
pub proof fn rest_is_what_follows_directory(
    path: Seq<char>,
    directory: Seq<char>,
    rest: Seq<char>,
)
    ensures
        directory.len() > 1 ==> {
            &&& path == directory.push('/') + rest ==> below(path, directory) == Some(rest)
            &&& path != directory && below(path, directory) == Some(rest) ==> path
                == directory.push('/') + rest
        },
        below(directory, directory) == Some(Seq::<char>::empty()),
        path == seq!['/'] + rest && rest.len() > 0 ==> below(path, seq!['/']) == Some(rest),
        directory.len() == 1 && directory[0] != '/' && path == directory.push('/') + rest
            ==> below(path, directory) == Some(rest),
{
    if path == directory.push('/') + rest {
        assert(directory.push('/') =~= path.take(directory.len() as int + 1));
        assert(path.skip(directory.len() as int + 1) =~= rest);
        assert(path.len() > directory.len());
    }
    if directory.push('/').is_prefix_of(path) {
        assert(path =~= directory.push('/') + path.skip(directory.len() as int + 1));
    }
    if path == seq!['/'] + rest && rest.len() > 0 {
        assert(path.drop_first() =~= rest);
        assert(path.len() > 1);
    }
}

/// Names without backslashes, dots and colons, with single slashes between them, are plain,
/// whether they are below the root or not.
pub proof fn ordinary_paths_are_plain(names: Seq<char>)
    requires
        names.len() > 0,
        names[0] != '/',
        names.last() != '/',
        forall|i: int|
            0 <= i < names.len() ==> #[trigger] names[i] != '\\' && names[i] != '.' && names[i] != ':',
        forall|i: int| 0 < i < names.len() && names[i - 1] == '/' ==> #[trigger] names[i] != '/',
    ensures
        is_plain(names),
        is_plain(seq!['/'] + names),
        is_plain(seq!['/']),
{
    assert((seq!['/'] + names).drop_first() =~= names);
    assert(!names.contains(':'));
}

} // verus!
