//! Checking that the tree-sitter queries of the languages are valid.

use vstd::prelude::*;
use crate::tasks::{
    check_covers_all_requested, is_requested, next_requested, next_requested_is_first,
    skip_to_requested,
};
use crate::text::texts;

verus! {

/// What is printed when a check succeeds.
pub const SUCCESS: &'static str = "Query check succeeded";

/// What is compiled for a language, in order.
#[derive(Debug, Clone, Copy, PartialEq, Eq, Structural)]
pub enum QueryStage {
    Syntax,
    Indent,
    Textobject,
    Tag,
    Rainbow,
}

/// What has to be done next. Languages go by their place in the list.
#[derive(Debug, Clone, Copy, PartialEq, Eq, Structural)]
pub enum QueryCheckAction {
    /// Compile a query, or the syntax configuration that they rest on.
    Compile { language: usize, stage: QueryStage },
    /// Nothing more: all is valid.
    Succeed,
    /// Nothing more: the last thing compiled is not valid.
    Fail,
}

/// What came of compiling something.
#[derive(Debug, Clone, Copy, PartialEq, Eq, Structural)]
pub enum Compiled {
    /// It is valid, if it is there at all.
    Valid,
    /// The language has no syntax configuration.
    NoSyntax,
    /// It is not valid.
    Invalid,
}

/// The action that begins with the first language at or after `from` that the check covers.
pub open spec fn check_from(
    languages: Seq<Seq<char>>,
    requested: Seq<Seq<char>>,
    from: int,
) -> QueryCheckAction {
    let language = next_requested(languages, requested, from);
    if language < languages.len() {
        QueryCheckAction::Compile { language: language as usize, stage: QueryStage::Syntax }
    } else {
        QueryCheckAction::Succeed
    }
}

/// What is compiled after a valid stage of a language.
pub open spec fn following(stage: QueryStage) -> Option<QueryStage> {
    match stage {
        QueryStage::Syntax => Some(QueryStage::Indent),
        QueryStage::Indent => Some(QueryStage::Textobject),
        QueryStage::Textobject => Some(QueryStage::Tag),
        QueryStage::Tag => Some(QueryStage::Rainbow),
        QueryStage::Rainbow => None,
    }
}

/// What has to be done once a stage of a language was compiled: the next stage, then the next
/// language. A language without syntax configuration has no further stages, and the first thing
/// that is not valid ends the check.
pub open spec fn check_step(
    languages: Seq<Seq<char>>,
    requested: Seq<Seq<char>>,
    language: usize,
    stage: QueryStage,
    outcome: Compiled,
) -> QueryCheckAction {
    match outcome {
        Compiled::Invalid => QueryCheckAction::Fail,
        Compiled::NoSyntax => check_from(languages, requested, language + 1),
        Compiled::Valid => match following(stage) {
            Some(stage) => QueryCheckAction::Compile { language, stage },
            None => check_from(languages, requested, language + 1),
        },
    }
}

/// Begins a check of the languages that were asked for, or of all if none was.
pub fn begin_querycheck(languages: &Vec<String>, requested: &Vec<String>) -> (r: QueryCheckAction)
    ensures
        r == check_from(texts(languages@), texts(requested@), 0),
        r matches QueryCheckAction::Compile { language, stage } ==> language < languages@.len(),
{
    let language: usize = skip_to_requested(languages, requested, 0);
    if language < languages.len() {
        QueryCheckAction::Compile { language, stage: QueryStage::Syntax }
    } else {
        QueryCheckAction::Succeed
    }
}

/// Goes on with a check once a stage of a language was compiled.
pub fn querycheck(
    languages: &Vec<String>,
    requested: &Vec<String>,
    language: usize,
    stage: QueryStage,
    outcome: Compiled,
) -> (r: QueryCheckAction)
    requires
        language < languages@.len(),
        outcome == Compiled::NoSyntax ==> stage == QueryStage::Syntax,
    ensures
        r == check_step(texts(languages@), texts(requested@), language, stage, outcome),
        r matches QueryCheckAction::Compile { language: next, stage: _ } ==> next < languages@.len(),
{
    match outcome {
        Compiled::Invalid => {
            return QueryCheckAction::Fail;
        },
        Compiled::NoSyntax => {},
        Compiled::Valid => match stage {
            QueryStage::Syntax => {
                return QueryCheckAction::Compile { language, stage: QueryStage::Indent };
            },
            QueryStage::Indent => {
                return QueryCheckAction::Compile { language, stage: QueryStage::Textobject };
            },
            QueryStage::Textobject => {
                return QueryCheckAction::Compile { language, stage: QueryStage::Tag };
            },
            QueryStage::Tag => {
                return QueryCheckAction::Compile { language, stage: QueryStage::Rainbow };
            },
            QueryStage::Rainbow => {},
        },
    }
    let count: usize = languages.len();
    let next: usize = skip_to_requested(languages, requested, language + 1);
    if next < count {
        QueryCheckAction::Compile { language: next, stage: QueryStage::Syntax }
    } else {
        QueryCheckAction::Succeed
    }
}

/// The action after at most `fuel` more steps, if `compile` is what comes of compiling each stage
/// of each language.
pub open spec fn check_run(
    languages: Seq<Seq<char>>,
    requested: Seq<Seq<char>>,
    compile: spec_fn(int, QueryStage) -> Compiled,
    action: QueryCheckAction,
    fuel: nat,
) -> QueryCheckAction
    decreases fuel,
{
    match action {
        QueryCheckAction::Compile { language, stage } => if fuel == 0 {
            action
        } else {
            check_run(
                languages,
                requested,
                compile,
                check_step(
                    languages,
                    requested,
                    language,
                    stage,
                    compile(language as int, stage),
                ),
                (fuel - 1) as nat,
            )
        },
        _ => action,
    }
}

/// Whether a language passes: it has no syntax configuration, or that and its queries are valid.
pub open spec fn language_passes(
    compile: spec_fn(int, QueryStage) -> Compiled,
    language: int,
) -> bool {
    compile(language, QueryStage::Syntax) == Compiled::NoSyntax || forall|stage: QueryStage|
        #[trigger] compile(language, stage) == Compiled::Valid
}

proof fn check_run_from(
    languages: Seq<Seq<char>>,
    requested: Seq<Seq<char>>,
    compile: spec_fn(int, QueryStage) -> Compiled,
    from: int,
    fuel: nat,
)
    requires
        languages.len() <= usize::MAX,
        forall|l: int, stage: QueryStage|
            #[trigger] compile(l, stage) == Compiled::NoSyntax ==> stage == QueryStage::Syntax,
        0 <= from <= languages.len(),
        fuel >= 5 * (languages.len() - from),
    ensures
        ({
            let end = check_run(
                languages,
                requested,
                compile,
                check_from(languages, requested, from),
                fuel,
            );
            &&& end is Succeed || end is Fail
            &&& end is Succeed <==> forall|l: int|
                from <= l < languages.len() && is_requested(requested, #[trigger] languages[l])
                    ==> language_passes(compile, l)
        }),
    decreases languages.len() - from,
{
    next_requested_is_first(languages, requested, from);
    let language = next_requested(languages, requested, from);
    if language < languages.len() {
        let start = check_from(languages, requested, from);
        let rest = check_from(languages, requested, language + 1);
        reveal_with_fuel(check_run, 6);
        let end = check_run(languages, requested, compile, start, fuel);
        check_run_from(languages, requested, compile, language + 1, (fuel - 5) as nat);
        check_run_from(languages, requested, compile, language + 1, (fuel - 1) as nat);
        if language_passes(compile, language) {
            if compile(language, QueryStage::Syntax) == Compiled::NoSyntax {
                assert(end == check_run(languages, requested, compile, rest, (fuel - 1) as nat));
            } else {
                assert(compile(language, QueryStage::Syntax) == Compiled::Valid);
                assert(compile(language, QueryStage::Indent) == Compiled::Valid);
                assert(compile(language, QueryStage::Textobject) == Compiled::Valid);
                assert(compile(language, QueryStage::Tag) == Compiled::Valid);
                assert(compile(language, QueryStage::Rainbow) == Compiled::Valid);
                assert(end == check_run(languages, requested, compile, rest, (fuel - 5) as nat));
            }
            assert forall|l: int|
                from <= l < languages.len() && is_requested(requested, #[trigger] languages[l])
                    && (forall|k: int|
                    language < k < languages.len() && is_requested(
                        requested,
                        #[trigger] languages[k],
                    ) ==> language_passes(compile, k)) implies language_passes(compile, l) by {
                if l > language {
                    assert(is_requested(requested, languages[l]));
                }
            }
        } else {
            let bad = choose|stage: QueryStage| #[trigger] compile(language, stage) != Compiled::Valid;
            assert(compile(language, bad) == Compiled::Invalid);
            assert(compile(language, QueryStage::Syntax) != Compiled::NoSyntax);
            assert(end is Fail);
            assert(is_requested(requested, languages[language]));
        }
    }
}

/// A check comes to an end, after at most five steps for each language. It succeeds exactly if
/// every language that it covers passes, and then the others do not matter.
pub proof fn querycheck_verdict(
    languages: Seq<Seq<char>>,
    requested: Seq<Seq<char>>,
    compile: spec_fn(int, QueryStage) -> Compiled,
)
    requires
        languages.len() <= usize::MAX,
        forall|l: int, stage: QueryStage|
            #[trigger] compile(l, stage) == Compiled::NoSyntax ==> stage == QueryStage::Syntax,
    ensures
        ({
            let end = check_run(
                languages,
                requested,
                compile,
                check_from(languages, requested, 0),
                5 * languages.len(),
            );
            &&& end is Succeed || end is Fail
            &&& end is Succeed <==> forall|l: int|
                0 <= l < languages.len() && is_requested(requested, #[trigger] languages[l])
                    ==> language_passes(compile, l)
        }),
{
    check_run_from(languages, requested, compile, 0, 5 * languages.len());
}

/// A check only compiles what it covers: every step from a language leads to a stage of a language
/// that was asked for, unless nothing was asked for.
pub proof fn querycheck_keeps_to_requested(
    languages: Seq<Seq<char>>,
    requested: Seq<Seq<char>>,
    language: usize,
    stage: QueryStage,
    outcome: Compiled,
)
    requires
        languages.len() <= usize::MAX,
        language < languages.len(),
        is_requested(requested, languages[language as int]),
    ensures
        check_from(languages, requested, 0) matches QueryCheckAction::Compile { language: first, .. }
            ==> first < languages.len() && is_requested(requested, languages[first as int]),
        check_step(languages, requested, language, stage, outcome) matches
            QueryCheckAction::Compile { language: next, .. } ==> next < languages.len()
            && is_requested(requested, languages[next as int]),
{
    next_requested_is_first(languages, requested, 0);
    next_requested_is_first(languages, requested, language + 1);
}

/// A language goes through its stages in order, from the syntax configuration over the indent,
/// textobject and tag queries to the rainbow query, and none is left out. The first thing that is
/// not valid ends the check.
pub proof fn stages_go_in_order(
    languages: Vec<String>,
    requested: Vec<String>,
    language: usize,
    stage: QueryStage,
    outcome: Compiled,
    r: QueryCheckAction,
)
    requires
        call_ensures(querycheck, (&languages, &requested, language, stage, outcome), r),
    ensures
        r is Fail <==> outcome == Compiled::Invalid,
        outcome == Compiled::Valid && stage == QueryStage::Syntax ==> r
            == (QueryCheckAction::Compile { language, stage: QueryStage::Indent }),
        outcome == Compiled::Valid && stage == QueryStage::Indent ==> r
            == (QueryCheckAction::Compile { language, stage: QueryStage::Textobject }),
        outcome == Compiled::Valid && stage == QueryStage::Textobject ==> r
            == (QueryCheckAction::Compile { language, stage: QueryStage::Tag }),
        outcome == Compiled::Valid && stage == QueryStage::Tag ==> r == (
        QueryCheckAction::Compile { language, stage: QueryStage::Rainbow }),
{
}

/// A check goes on to the next language that is any of those asked for, or simply to the next
/// where none was: from its start, after the last stage of a language, and after a language
/// without syntax configuration. It begins there with the syntax configuration, and succeeds only
/// if no such language is left.
pub proof fn check_goes_on_to_next_requested(
    languages: Vec<String>,
    requested: Vec<String>,
    language: usize,
    stage: QueryStage,
    outcome: Compiled,
    begin: QueryCheckAction,
    r: QueryCheckAction,
    next: int,
)
    requires
        languages@.len() <= usize::MAX,
        language < languages@.len(),
        call_ensures(begin_querycheck, (&languages, &requested), begin),
        call_ensures(querycheck, (&languages, &requested, language, stage, outcome), r),
        outcome == Compiled::NoSyntax || (outcome == Compiled::Valid && stage
            == QueryStage::Rainbow),
        0 <= next < languages@.len(),
        requested@.len() == 0 || exists|k: int|
            0 <= k < requested@.len() && (#[trigger] requested@[k])@ == languages@[next]@,
    ensures
        begin matches QueryCheckAction::Compile { language: first, stage: at } && first <= next
            && at == QueryStage::Syntax,
        next > language ==> (r matches QueryCheckAction::Compile { language: then, stage: at }
            && language < then <= next && at == QueryStage::Syntax),
{
    let names = texts(languages@);
    let wanted = texts(requested@);
    next_requested_is_first(names, wanted, 0);
    next_requested_is_first(names, wanted, language + 1);
    check_covers_all_requested(wanted, names[next]);
    if requested@.len() > 0 {
        let k = choose|k: int|
            0 <= k < requested@.len() && (#[trigger] requested@[k])@ == languages@[next]@;
        assert(wanted[k] == names[next]);
    }
    assert(is_requested(wanted, names[next]));
}

/// A check succeeds exactly if every language that is any of those asked for, or every language
/// where none was, either has no syntax configuration, or has a valid one and valid indent,
/// textobject, tag and rainbow queries.
pub proof fn check_succeeds_if_all_requested_are_valid(
    languages: Seq<Seq<char>>,
    requested: Seq<Seq<char>>,
    compile: spec_fn(int, QueryStage) -> Compiled,
)
    requires
        languages.len() <= usize::MAX,
        forall|l: int, stage: QueryStage|
            #[trigger] compile(l, stage) == Compiled::NoSyntax ==> stage == QueryStage::Syntax,
    ensures
        ({
            let end = check_run(
                languages,
                requested,
                compile,
                check_from(languages, requested, 0),
                5 * languages.len(),
            );
            let none_invalid = if requested.len() == 0 {
                forall|l: int| 0 <= l < languages.len() ==> #[trigger] all_valid(compile, l)
            } else {
                forall|l: int, k: int|
                    0 <= l < languages.len() && 0 <= k < requested.len() && #[trigger] languages[l]
                        == #[trigger] requested[k] ==> all_valid(compile, l)
            };
            &&& end is Succeed || end is Fail
            &&& end is Succeed <==> none_invalid
        }),
{
    querycheck_verdict(languages, requested, compile);
    assert forall|l: int| #[trigger] language_passes(compile, l) <==> all_valid(compile, l) by {
        passes_if_all_valid(compile, l);
    }
    if requested.len() == 0 {
        assert forall|l: int| 0 <= l < languages.len() implies is_requested(
            requested,
            #[trigger] languages[l],
        ) by {
            check_covers_all_requested(requested, languages[l]);
        }
        if forall|l: int|
            0 <= l < languages.len() && is_requested(requested, #[trigger] languages[l])
                ==> language_passes(compile, l) {
            assert forall|l: int| 0 <= l < languages.len() implies #[trigger] all_valid(
                compile,
                l,
            ) by {
                assert(is_requested(requested, languages[l]));
                assert(language_passes(compile, l));
            }
        }
    } else {
        assert forall|l: int, k: int|
            0 <= l < languages.len() && 0 <= k < requested.len() && #[trigger] languages[l]
                == #[trigger] requested[k] implies is_requested(requested, languages[l]) by {
            check_covers_all_requested(requested, languages[l]);
        }
        if forall|l: int, k: int|
            0 <= l < languages.len() && 0 <= k < requested.len() && #[trigger] languages[l]
                == #[trigger] requested[k] ==> all_valid(compile, l) {
            assert forall|l: int|
                0 <= l < languages.len() && is_requested(
                    requested,
                    #[trigger] languages[l],
                ) implies language_passes(compile, l) by {
                check_covers_all_requested(requested, languages[l]);
                let k = choose|k: int|
                    0 <= k < requested.len() && #[trigger] requested[k] == languages[l];
                assert(languages[l] == requested[k]);
            }
        }
    }
}

/// Whether a language has no syntax configuration, or is valid at every stage.
pub open spec fn all_valid(compile: spec_fn(int, QueryStage) -> Compiled, l: int) -> bool {
    compile(l, QueryStage::Syntax) == Compiled::NoSyntax || (compile(l, QueryStage::Syntax)
        == Compiled::Valid && compile(l, QueryStage::Indent) == Compiled::Valid && compile(
        l,
        QueryStage::Textobject,
    ) == Compiled::Valid && compile(l, QueryStage::Tag) == Compiled::Valid && compile(
        l,
        QueryStage::Rainbow,
    ) == Compiled::Valid)
}

proof fn passes_if_all_valid(compile: spec_fn(int, QueryStage) -> Compiled, l: int)
    ensures
        language_passes(compile, l) <==> all_valid(compile, l),
{
    if all_valid(compile, l) && compile(l, QueryStage::Syntax) != Compiled::NoSyntax {
        assert forall|stage: QueryStage| #[trigger] compile(l, stage) == Compiled::Valid by {
            match stage {
                QueryStage::Syntax => {},
                QueryStage::Indent => {},
                QueryStage::Textobject => {},
                QueryStage::Tag => {},
                QueryStage::Rainbow => {},
            }
        }
    }
}

/// A check that was asked for something compiles nothing else.
pub proof fn check_compiles_nothing_else(
    languages: Vec<String>,
    requested: Vec<String>,
    language: usize,
    stage: QueryStage,
    outcome: Compiled,
    begin: QueryCheckAction,
    r: QueryCheckAction,
)
    requires
        languages@.len() <= usize::MAX,
        language < languages@.len(),
        requested@.len() > 0,
        call_ensures(begin_querycheck, (&languages, &requested), begin),
        call_ensures(querycheck, (&languages, &requested, language, stage, outcome), r),
    ensures
        begin matches QueryCheckAction::Compile { language: first, .. } ==> exists|k: int|
            0 <= k < requested@.len() && (#[trigger] requested@[k])@ == languages@[first as int]@,
        r matches QueryCheckAction::Compile { language: next, .. } ==> next == language || (
        next > language && exists|k: int|
            0 <= k < requested@.len() && (#[trigger] requested@[k])@ == languages@[next as int]@),
{
    let names = texts(languages@);
    let wanted = texts(requested@);
    next_requested_is_first(names, wanted, 0);
    next_requested_is_first(names, wanted, language + 1);
    if let QueryCheckAction::Compile { language: first, .. } = begin {
        asked_for(languages, requested, first as int);
    }
    if let QueryCheckAction::Compile { language: next, .. } = r {
        if next != language {
            asked_for(languages, requested, next as int);
        }
    }
}

proof fn asked_for(languages: Vec<String>, requested: Vec<String>, l: int)
    requires
        0 <= l < languages@.len(),
        requested@.len() > 0,
        is_requested(texts(requested@), texts(languages@)[l]),
    ensures
        exists|k: int|
            0 <= k < requested@.len() && (#[trigger] requested@[k])@ == languages@[l]@,
{
    let wanted = texts(requested@);
    check_covers_all_requested(wanted, texts(languages@)[l]);
    let k = choose|k: int| 0 <= k < wanted.len() && wanted[k] == texts(languages@)[l];
    assert(requested@[k]@ == languages@[l]@);
}

/// What is printed when a check succeeds.
pub proof fn success_is_announced()
    ensures
        SUCCESS@ == "Query check succeeded"@,
{
}

} // verus!
