//! Checking that the bundled themes load without warnings.

use vstd::prelude::*;
use crate::tasks::{
    check_covers_all_requested, is_requested, next_requested, next_requested_is_first,
    skip_to_requested,
};
use crate::text::texts;

verus! {

/// What is printed when a check succeeds.
pub const SUCCESS: &'static str = "Theme check successful!";

/// The error that a check ends with when it does not succeed.
pub const FAILURE: &'static str = "Errors found when loading bundled themes";

/// The names of all themes: the two that are built in, then those of the theme files.
pub fn theme_names(files: Vec<String>) -> (r: Vec<String>)
    ensures
        texts(r@) == seq!["default"@, "base16_default"@] + texts(files@),
{
    let ghost listed_files = files@;
    let mut names: Vec<String> = Vec::new();
    names.push("default".to_owned());
    names.push("base16_default".to_owned());
    let mut files = files;
    names.append(&mut files);
    assert(texts(names@) =~= seq!["default"@, "base16_default"@] + texts(listed_files));
    names
}

/// What has to be done next. Themes go by their place in the list.
#[derive(Debug, Clone, Copy, PartialEq, Eq, Structural)]
pub enum ThemeAction {
    /// Load a theme.
    Load { theme: usize, errors_present: bool },
    /// Nothing more: this is whether any theme loaded with warnings.
    Finish { errors_present: bool },
}

/// The action that loads the first theme at or after `from` that the check covers.
pub open spec fn load_from(
    names: Seq<Seq<char>>,
    requested: Seq<Seq<char>>,
    from: int,
    errors_present: bool,
) -> ThemeAction {
    let theme = next_requested(names, requested, from);
    if theme < names.len() {
        ThemeAction::Load { theme: theme as usize, errors_present }
    } else {
        ThemeAction::Finish { errors_present }
    }
}

/// Begins a check of the themes that were asked for, or of all if none was.
pub fn begin_themecheck(names: &Vec<String>, requested: &Vec<String>) -> (r: ThemeAction)
    ensures
        r == load_from(texts(names@), texts(requested@), 0, false),
        r matches ThemeAction::Load { theme, .. } ==> theme < names@.len(),
{
    let theme: usize = skip_to_requested(names, requested, 0);
    if theme < names.len() {
        ThemeAction::Load { theme, errors_present: false }
    } else {
        ThemeAction::Finish { errors_present: false }
    }
}

/// Goes on with a check once a theme was loaded.
pub fn themecheck(
    names: &Vec<String>,
    requested: &Vec<String>,
    theme: usize,
    errors_present: bool,
    warnings: &Vec<String>,
) -> (r: ThemeAction)
    requires
        theme < names@.len(),
    ensures
        r == load_from(
            texts(names@),
            texts(requested@),
            theme + 1,
            errors_present || warnings@.len() > 0,
        ),
        r matches ThemeAction::Load { theme: next, .. } ==> next < names@.len(),
{
    let errors_present = errors_present || warnings.len() > 0;
    let count: usize = names.len();
    let next: usize = skip_to_requested(names, requested, theme + 1);
    if next < count {
        ThemeAction::Load { theme: next, errors_present }
    } else {
        ThemeAction::Finish { errors_present }
    }
}

/// What a check comes to: the line to print, or the error.
pub fn verdict(errors_present: bool) -> (r: Result<&'static str, &'static str>)
    ensures
        r is Err <==> errors_present,
        r matches Ok(line) ==> line@ == SUCCESS@,
        r matches Err(error) ==> error@ == FAILURE@,
{
    if errors_present {
        Err(FAILURE)
    } else {
        Ok(SUCCESS)
    }
}

/// What is printed of a theme: nothing if it loaded without warnings, else a headline and a line
/// for each.
pub open spec fn report_lines(name: Seq<char>, warnings: Seq<Seq<char>>) -> Seq<Seq<char>> {
    if warnings.len() == 0 {
        Seq::empty()
    } else {
        seq!["Theme '"@ + name + "' loaded with errors:"@] + warnings.map_values(
            |warning: Seq<char>| "\t* "@ + warning,
        )
    }
}

/// The lines to print of a theme.
pub fn report(name: &str, warnings: &Vec<String>) -> (r: Vec<String>)
    ensures
        texts(r@) == report_lines(name@, texts(warnings@)),
{
    let mut lines: Vec<String> = Vec::new();
    if warnings.len() == 0 {
        assert(texts(lines@) =~= Seq::<Seq<char>>::empty());
        return lines;
    }
    let mut headline = "Theme '".to_owned();
    headline.append(name);
    headline.append("' loaded with errors:");
    lines.push(headline);
    let ghost expected = report_lines(name@, texts(warnings@));
    let mut i: usize = 0;
    assert(texts(lines@) =~= expected.take(1));
    while i < warnings.len()
        invariant
            i <= warnings@.len(),
            warnings@.len() > 0,
            expected == report_lines(name@, texts(warnings@)),
            texts(lines@) == expected.take(i + 1),
        decreases warnings@.len() - i,
    {
        let ghost before = lines@;
        let mut line = "\t* ".to_owned();
        line.append(warnings[i].as_str());
        lines.push(line);
        proof {
            assert(texts(lines@) =~= texts(before).push(line@));
            assert(texts(warnings@)[i as int] == warnings@[i as int]@);
            assert(expected[i + 1] == line@);
            assert(expected.take(i + 2) =~= expected.take(i + 1).push(line@));
        }
        i = i + 1;
    }
    assert(expected.take(warnings@.len() as int + 1) =~= expected);
    lines
}

/// The action after at most `fuel` more steps, if `warns` is whether each theme loads with
/// warnings.
pub open spec fn theme_run(
    names: Seq<Seq<char>>,
    requested: Seq<Seq<char>>,
    warns: spec_fn(int) -> bool,
    action: ThemeAction,
    fuel: nat,
) -> ThemeAction
    decreases fuel,
{
    match action {
        ThemeAction::Load { theme, errors_present } => if fuel == 0 {
            action
        } else {
            theme_run(
                names,
                requested,
                warns,
                load_from(names, requested, theme + 1, errors_present || warns(theme as int)),
                (fuel - 1) as nat,
            )
        },
        ThemeAction::Finish { .. } => action,
    }
}

proof fn theme_run_from(
    names: Seq<Seq<char>>,
    requested: Seq<Seq<char>>,
    warns: spec_fn(int) -> bool,
    from: int,
    errors_present: bool,
    fuel: nat,
)
    requires
        names.len() <= usize::MAX,
        0 <= from <= names.len(),
        fuel >= names.len() - from,
    ensures
        theme_run(
            names,
            requested,
            warns,
            load_from(names, requested, from, errors_present),
            fuel,
        ) == (ThemeAction::Finish {
            errors_present: errors_present || exists|t: int|
                from <= t < names.len() && is_requested(requested, names[t]) && #[trigger] warns(t),
        }),
    decreases names.len() - from,
{
    next_requested_is_first(names, requested, from);
    let theme = next_requested(names, requested, from);
    if theme < names.len() {
        theme_run_from(
            names,
            requested,
            warns,
            theme + 1,
            errors_present || warns(theme),
            (fuel - 1) as nat,
        );
        if !errors_present && !warns(theme) {
            assert forall|t: int|
                from <= t < names.len() && is_requested(requested, names[t]) && #[trigger] warns(
                    t,
                ) implies theme + 1 <= t by {}
        }
    }
}

/// A check comes to an end, after at most one step for each theme. It finds errors exactly if a
/// theme that it covers loads with warnings; one such theme does not keep it from the others.
pub proof fn themecheck_verdict(
    names: Seq<Seq<char>>,
    requested: Seq<Seq<char>>,
    warns: spec_fn(int) -> bool,
)
    requires
        names.len() <= usize::MAX,
    ensures
        theme_run(
            names,
            requested,
            warns,
            load_from(names, requested, 0, false),
            names.len(),
        ) == (ThemeAction::Finish {
            errors_present: exists|t: int|
                0 <= t < names.len() && is_requested(requested, names[t]) && #[trigger] warns(t),
        }),
{
    theme_run_from(names, requested, warns, 0, false, names.len());
}

/// A check finds errors exactly if a theme that is any of those asked for, or any theme where none
/// was, loads with warnings.
pub proof fn check_finds_warnings_of_all_requested(
    names: Seq<Seq<char>>,
    requested: Seq<Seq<char>>,
    warns: spec_fn(int) -> bool,
)
    requires
        names.len() <= usize::MAX,
    ensures
        theme_run(
            names,
            requested,
            warns,
            load_from(names, requested, 0, false),
            names.len(),
        ) == (ThemeAction::Finish {
            errors_present: exists|t: int|
                0 <= t < names.len() && (requested.len() == 0 || exists|k: int|
                    0 <= k < requested.len() && #[trigger] requested[k] == names[t])
                    && #[trigger] warns(t),
        }),
{
    themecheck_verdict(names, requested, warns);
    assert forall|t: int| #![trigger names[t]]
        0 <= t < names.len() implies (is_requested(requested, names[t]) <==> (requested.len() == 0
        || exists|k: int| 0 <= k < requested.len() && #[trigger] requested[k] == names[t])) by {
        check_covers_all_requested(requested, names[t]);
    }
}

/// A check loads the first theme that is any of those asked for, and after each theme goes on to
/// the next such one. Warnings of a theme are not forgotten, and nothing else counts as an error.
pub proof fn check_goes_on_to_next_theme(
    names: Vec<String>,
    requested: Vec<String>,
    theme: usize,
    errors_present: bool,
    warnings: Vec<String>,
    begin: ThemeAction,
    r: ThemeAction,
    next: int,
)
    requires
        names@.len() <= usize::MAX,
        theme < names@.len(),
        call_ensures(begin_themecheck, (&names, &requested), begin),
        call_ensures(themecheck, (&names, &requested, theme, errors_present, &warnings), r),
        0 <= next < names@.len(),
        requested@.len() == 0 || exists|k: int|
            0 <= k < requested@.len() && (#[trigger] requested@[k])@ == names@[next]@,
    ensures
        begin matches ThemeAction::Load { theme: first, errors_present: errors } && first <= next
            && !errors,
        next > theme ==> (r matches ThemeAction::Load { theme: then, .. } && theme < then <= next),
        match r {
            ThemeAction::Load { errors_present: errors, .. } => errors,
            ThemeAction::Finish { errors_present: errors } => errors,
        } <==> errors_present || warnings@.len() > 0,
{
    let listed = texts(names@);
    let wanted = texts(requested@);
    next_requested_is_first(listed, wanted, 0);
    next_requested_is_first(listed, wanted, theme + 1);
    check_covers_all_requested(wanted, listed[next]);
    if requested@.len() > 0 {
        let k = choose|k: int|
            0 <= k < requested@.len() && (#[trigger] requested@[k])@ == names@[next]@;
        assert(wanted[k] == listed[next]);
    }
    assert(is_requested(wanted, listed[next]));
}

/// A theme without warnings is not mentioned. Of any other there is a headline with its name, and
/// then a line for each warning, in order.
pub proof fn every_warning_is_reported(name: &str, warnings: Vec<String>, r: Vec<String>)
    requires
        call_ensures(report, (name, &warnings), r),
    ensures
        warnings@.len() == 0 ==> r@.len() == 0,
        warnings@.len() > 0 ==> {
            &&& r@.len() == warnings@.len() + 1
            &&& r@[0]@ == "Theme '"@ + name@ + "' loaded with errors:"@
            &&& forall|i: int|
                0 <= i < warnings@.len() ==> (#[trigger] r@[i + 1])@ == "\t* "@ + warnings@[i]@
        },
{
    let lines = texts(r@);
    assert(lines.len() == r@.len());
    if warnings@.len() > 0 {
        assert(lines[0] == r@[0]@);
        assert forall|i: int| 0 <= i < warnings@.len() implies (#[trigger] r@[i + 1])@ == "\t* "@
            + warnings@[i]@ by {
            assert(lines[i + 1] == r@[i + 1]@);
            assert(texts(warnings@)[i] == warnings@[i]@);
        }
    }
}

/// The built-in themes come first, then those of the files, in order.
pub proof fn all_themes_are_named(files: Vec<String>, r: Vec<String>)
    requires
        call_ensures(theme_names, (files,), r),
    ensures
        r@.len() == files@.len() + 2,
        r@[0]@ == "default"@,
        r@[1]@ == "base16_default"@,
        forall|i: int| 0 <= i < files@.len() ==> (#[trigger] r@[i + 2])@ == files@[i]@,
{
    let names = texts(r@);
    assert(names.len() == r@.len());
    assert(names[0] == r@[0]@ && names[1] == r@[1]@);
    assert forall|i: int| 0 <= i < files@.len() implies (#[trigger] r@[i + 2])@ == files@[i]@ by {
        assert(names[i + 2] == r@[i + 2]@);
        assert(texts(files@)[i] == files@[i]@);
    }
}

/// A check succeeds exactly if no theme had errors, and says so.
pub proof fn errors_fail_the_check(
    errors_present: bool,
    r: Result<&'static str, &'static str>,
)
    requires
        call_ensures(verdict, (errors_present,), r),
    ensures
        r is Err <==> errors_present,
        r matches Ok(line) ==> line@ == "Theme check successful!"@,
        r matches Err(error) ==> error@ == "Errors found when loading bundled themes"@,
{
}

} // verus!
