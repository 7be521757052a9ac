//! The maintenance tasks: which one to run, and each of its steps.

use vstd::prelude::*;
use crate::text::{listed, same, texts};

pub mod docgen;
pub mod install;
pub mod querycheck;
pub mod themecheck;

verus! {

/// A maintenance task.
#[derive(Debug, Clone, Copy, PartialEq, Eq, Structural)]
pub enum Task {
    PrintHelp,
    Docgen,
    QueryCheck,
    ThemeCheck,
    Install,
}

/// The task of a name. No name asks for help.
pub open spec fn task_named(name: Option<Seq<char>>) -> Option<Task> {
    match name {
        None => Some(Task::PrintHelp),
        Some(name) => if name == "docgen"@ {
            Some(Task::Docgen)
        } else if name == "query-check"@ {
            Some(Task::QueryCheck)
        } else if name == "theme-check"@ {
            Some(Task::ThemeCheck)
        } else if name == "install"@ {
            Some(Task::Install)
        } else {
            None
        },
    }
}

/// The task that the first argument names, or what is wrong with it.
pub fn select_task(name: &Option<String>) -> (r: Result<Task, String>)
    ensures
        match task_named(crate::document::optional_text(*name)) {
            Some(task) => r == Ok::<Task, String>(task),
            None => r matches Err(message) && message@ == "Invalid task name: "@ + name->0@,
        },
{
    match name {
        None => Ok(Task::PrintHelp),
        Some(name) => if same(name.as_str(), "docgen") {
            Ok(Task::Docgen)
        } else if same(name.as_str(), "query-check") {
            Ok(Task::QueryCheck)
        } else if same(name.as_str(), "theme-check") {
            Ok(Task::ThemeCheck)
        } else if same(name.as_str(), "install") {
            Ok(Task::Install)
        } else {
            let mut message = "Invalid task name: ".to_owned();
            message.append(name.as_str());
            Err(message)
        },
    }
}

/// What the help says.
pub const HELP: &'static str = "
Usage: Run with `cargo xtask <task>`, eg. `cargo xtask docgen`.

    Tasks:
        docgen                     Generate files to be included in the mdbook output.
        query-check [languages]    Check that tree-sitter queries are valid for the given
                                   languages, or all languages if none are specified.
        theme-check [themes]       Check that the theme files in runtime/themes/ are valid for the
                                   given themes, or all themes if none are specified.
        install                    Build a release 'helix' binary + runtime in ../bin/ following
                                   the official packaging guide (sets HELIX_DEFAULT_RUNTIME so
                                   it works like a normal install without needing HELIX_RUNTIME).
";

/// The text to print for help.
pub fn print_help() -> (r: &'static str)
    ensures
        r@ == HELP@,
{
    HELP
}

/// Whether a check covers an item: if the item was asked for, or nothing was.
pub open spec fn is_requested(requested: Seq<Seq<char>>, item: Seq<char>) -> bool {
    requested.len() == 0 || requested.contains(item)
}

/// The index of the first item at or after `from` that a check covers, and one past the last item
/// if there is none.
pub open spec fn next_requested(items: Seq<Seq<char>>, requested: Seq<Seq<char>>, from: int) -> int
    decreases items.len() - from,
{
    if from >= items.len() || is_requested(requested, items[from]) {
        from
    } else {
        next_requested(items, requested, from + 1)
    }
}

/// The index of the first item at or after `from` that a check covers, and one past the last item
/// if there is none.
pub fn skip_to_requested(items: &Vec<String>, requested: &Vec<String>, from: usize) -> (r: usize)
    requires
        from <= items@.len(),
    ensures
        r == next_requested(texts(items@), texts(requested@), from as int),
        from <= r <= items@.len(),
        r < items@.len() ==> is_requested(texts(requested@), items@[r as int]@),
{
    let mut i: usize = from;
    while i < items.len() && !(requested.len() == 0 || listed(requested, items[i].as_str()))
        invariant
            from <= i <= items@.len(),
            next_requested(texts(items@), texts(requested@), from as int) == next_requested(
                texts(items@),
                texts(requested@),
                i as int,
            ),
        decreases items@.len() - i,
    {
        i = i + 1;
    }
    i
}

/// The item found is covered, and none before it is.
pub proof fn next_requested_is_first(items: Seq<Seq<char>>, requested: Seq<Seq<char>>, from: int)
    requires
        0 <= from <= items.len(),
    ensures
        ({
            let found = next_requested(items, requested, from);
            &&& from <= found <= items.len()
            &&& found < items.len() ==> is_requested(requested, items[found])
            &&& forall|i: int| from <= i < found ==> !is_requested(requested, #[trigger] items[i])
        }),
    decreases items.len() - from,
{
    if from < items.len() && !is_requested(requested, items[from]) {
        next_requested_is_first(items, requested, from + 1);
    }
}

/// Each task has one name, no name asks for help, and any other name is refused and repeated.
pub proof fn tasks_go_by_name(name: Option<String>, r: Result<Task, String>)
    requires
        call_ensures(select_task, (&name,), r),
    ensures
        r == Ok::<Task, String>(Task::PrintHelp) <==> name is None,
        r == Ok::<Task, String>(Task::Docgen) <==> (name matches Some(n) && n@ == "docgen"@),
        r == Ok::<Task, String>(Task::QueryCheck) <==> (name matches Some(n) && n@
            == "query-check"@),
        r == Ok::<Task, String>(Task::ThemeCheck) <==> (name matches Some(n) && n@
            == "theme-check"@),
        r == Ok::<Task, String>(Task::Install) <==> (name matches Some(n) && n@ == "install"@),
        r matches Err(message) ==> (name matches Some(n) && message@ == "Invalid task name: "@
            + n@),
{
    reveal_strlit("docgen");
    reveal_strlit("query-check");
    reveal_strlit("theme-check");
    reveal_strlit("install");
    assert("docgen"@.len() == 6 && "install"@.len() == 7);
    assert("query-check"@[0] == 'q' && "theme-check"@[0] == 't');
    assert("query-check"@.len() == 11 && "theme-check"@.len() == 11);
}

/// A check covers every item that is any of those asked for, and every item at all if none was;
/// and it covers no other.
pub proof fn check_covers_all_requested(requested: Seq<Seq<char>>, item: Seq<char>)
    ensures
        forall|k: int|
            0 <= k < requested.len() && #[trigger] requested[k] == item ==> is_requested(
                requested,
                item,
            ),
        requested.len() == 0 ==> is_requested(requested, item),
        is_requested(requested, item) && requested.len() > 0 ==> exists|k: int|
            0 <= k < requested.len() && #[trigger] requested[k] == item,
{
}

/// Skipping ahead passes over items only if something was asked for and they are none of it, and
/// stops at the first item that is any of what was asked for, or at the end.
pub proof fn skipping_stops_at_requested(
    items: Vec<String>,
    requested: Vec<String>,
    from: usize,
    r: usize,
)
    requires
        from <= items@.len(),
        call_ensures(skip_to_requested, (&items, &requested, from), r),
    ensures
        from <= r <= items@.len(),
        requested@.len() == 0 ==> r == from,
        forall|i: int, k: int|
            from <= i < r && 0 <= k < requested@.len() ==> (#[trigger] items@[i])@ != (
            #[trigger] requested@[k])@,
        r < items@.len() && requested@.len() > 0 ==> exists|k: int|
            0 <= k < requested@.len() && (#[trigger] requested@[k])@ == items@[r as int]@,
{
    let wanted = texts(requested@);
    let names = texts(items@);
    next_requested_is_first(names, wanted, from as int);
    assert forall|i: int, k: int|
        from <= i < r && 0 <= k < requested@.len() implies (#[trigger] items@[i])@ != (
    #[trigger] requested@[k])@ by {
        assert(!is_requested(wanted, names[i]));
        check_covers_all_requested(wanted, names[i]);
        assert(wanted[k] == requested@[k]@);
    }
    if r < items@.len() && requested@.len() > 0 {
        check_covers_all_requested(wanted, items@[r as int]@);
        let k = choose|k: int| 0 <= k < wanted.len() && wanted[k] == items@[r as int]@;
        assert(requested@[k]@ == items@[r as int]@);
    }
    if requested@.len() == 0 && from < items@.len() {
        assert(is_requested(wanted, names[from as int]));
    }
}

} // verus!
