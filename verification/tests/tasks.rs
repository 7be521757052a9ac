use treelix::parse::{syntax_for_path, ParseAction, ParseEvent};
use treelix::tasks::docgen::{docgen, DocPage, DocgenAction, DocgenEvent};
use treelix::tasks::install::{
    announce, build_arguments, closing_lines, copy_arguments, default_runtime, install,
    opening_lines, InstallAction, InstallFailure, InstallStep, StepOutcome, BINARY_MODE, BIN_DIR,
};
use treelix::tasks::querycheck::{
    begin_querycheck, querycheck, Compiled, QueryCheckAction, QueryStage,
};
use treelix::tasks::themecheck::{
    begin_themecheck, report, theme_names, themecheck, verdict, ThemeAction,
};
use treelix::tasks::{print_help, select_task, skip_to_requested, Task};

fn list(items: &[&str]) -> Vec<String> {
    items.iter().map(|item| item.to_string()).collect()
}

#[test]
fn tasks_are_named() {
    let task = |name: &str| select_task(&Some(name.to_string()));
    assert_eq!(select_task(&None), Ok(Task::PrintHelp));
    assert_eq!(task("docgen"), Ok(Task::Docgen));
    assert_eq!(task("query-check"), Ok(Task::QueryCheck));
    assert_eq!(task("theme-check"), Ok(Task::ThemeCheck));
    assert_eq!(task("install"), Ok(Task::Install));
    assert_eq!(task("querycheck"), Err("Invalid task name: querycheck".to_string()));
    assert_eq!(task(""), Err("Invalid task name: ".to_string()));
}

#[test]
fn help_names_every_task() {
    let help = print_help();
    assert!(help.starts_with("\nUsage: Run with `cargo xtask <task>`, eg. `cargo xtask docgen`.\n"));
    for line in ["        docgen  ", "        query-check [languages]", "        theme-check [themes]", "        install  "] {
        assert!(help.contains(line), "{line}");
    }
    assert!(help.ends_with("HELIX_RUNTIME).\n"));
}

fn run_docgen(
    pages: &dyn Fn(DocPage) -> Result<String, u8>,
) -> (Vec<(DocPage, String)>, Result<(), u8>) {
    let mut written = Vec::new();
    let mut action = DocgenAction::Generate(DocPage::TypableCommands);
    loop {
        action = match action {
            DocgenAction::Generate(page) => docgen(page, DocgenEvent::Generated(pages(page))),
            DocgenAction::Write(page, content) => {
                written.push((page, content));
                docgen(page, DocgenEvent::Written)
            }
            DocgenAction::Finish(outcome) => return (written, outcome),
        };
    }
}

#[test]
fn pages_are_written_in_order() {
    let (written, outcome) = run_docgen(&|page| Ok(format!("{page:?}")));
    assert_eq!(outcome, Ok(()));
    assert_eq!(
        written,
        [
            (DocPage::TypableCommands, "TypableCommands".to_string()),
            (DocPage::StaticCommands, "StaticCommands".to_string()),
            (DocPage::LangSupport, "LangSupport".to_string()),
        ]
    );
}

#[test]
fn docgen_stops_at_the_first_page_that_fails() {
    let (written, outcome) = run_docgen(&|page| match page {
        DocPage::TypableCommands => Ok("t".to_string()),
        DocPage::StaticCommands => Err(3),
        DocPage::LangSupport => Err(4),
    });
    assert_eq!(outcome, Err(3));
    assert_eq!(written, [(DocPage::TypableCommands, "t".to_string())]);
}

#[test]
fn nothing_asked_for_means_everything() {
    let items = list(&["a", "b", "c"]);
    assert_eq!(skip_to_requested(&items, &Vec::new(), 1), 1);
    assert_eq!(skip_to_requested(&items, &list(&["c", "z"]), 0), 2);
    assert_eq!(skip_to_requested(&items, &list(&["a"]), 1), 3);
    assert_eq!(skip_to_requested(&items, &list(&["z"]), 0), 3);
    assert_eq!(skip_to_requested(&items, &Vec::new(), 3), 3);
}

fn run_querycheck(
    languages: &[&str],
    requested: &[&str],
    compile: &dyn Fn(usize, QueryStage) -> Compiled,
) -> (Vec<(usize, QueryStage)>, bool) {
    let languages = list(languages);
    let requested = list(requested);
    let mut compiled = Vec::new();
    let mut action = begin_querycheck(&languages, &requested);
    loop {
        match action {
            QueryCheckAction::Compile { language, stage } => {
                compiled.push((language, stage));
                let outcome = compile(language, stage);
                action = querycheck(&languages, &requested, language, stage, outcome);
            }
            QueryCheckAction::Succeed => return (compiled, true),
            QueryCheckAction::Fail => return (compiled, false),
        }
    }
}

const STAGES: [QueryStage; 5] = [
    QueryStage::Syntax,
    QueryStage::Indent,
    QueryStage::Textobject,
    QueryStage::Tag,
    QueryStage::Rainbow,
];

#[test]
fn every_query_of_every_language_is_compiled() {
    let (compiled, valid) = run_querycheck(&["go", "rust"], &[], &|_, _| Compiled::Valid);
    let all: Vec<_> =
        [0, 1].iter().flat_map(|language| STAGES.map(|stage| (*language, stage))).collect();
    assert!(valid);
    assert_eq!(compiled, all);
}

#[test]
fn only_requested_languages_are_checked() {
    let (compiled, valid) =
        run_querycheck(&["go", "rust", "zig"], &["rust", "none"], &|language, _| {
            if language == 1 { Compiled::Valid } else { Compiled::Invalid }
        });
    assert!(valid);
    assert_eq!(compiled, STAGES.map(|stage| (1, stage)));
    assert_eq!(run_querycheck(&["go"], &["none"], &|_, _| Compiled::Invalid), (Vec::new(), true));
}

#[test]
fn a_language_without_syntax_is_passed_over() {
    let (compiled, valid) = run_querycheck(&["text", "rust"], &[], &|language, stage| {
        if language == 0 && stage == QueryStage::Syntax {
            Compiled::NoSyntax
        } else {
            Compiled::Valid
        }
    });
    assert!(valid);
    assert_eq!(compiled.len(), 6);
    assert_eq!(compiled[1], (1, QueryStage::Syntax));
}

#[test]
fn the_first_invalid_query_ends_the_check() {
    for (i, bad) in STAGES.iter().enumerate() {
        let (compiled, valid) = run_querycheck(&["go", "rust"], &[], &|_, stage| {
            if stage == *bad { Compiled::Invalid } else { Compiled::Valid }
        });
        assert!(!valid);
        assert_eq!(compiled.len(), i + 1);
    }
}

fn run_themecheck(files: &[&str], requested: &[&str], warnings: &[(&str, &str)]) -> (Vec<String>, bool) {
    let names = theme_names(list(files));
    let requested = list(requested);
    let mut lines = Vec::new();
    let mut action = begin_themecheck(&names, &requested);
    loop {
        match action {
            ThemeAction::Load { theme, errors_present } => {
                let found: Vec<String> = warnings
                    .iter()
                    .filter(|warning| warning.0 == names[theme])
                    .map(|warning| warning.1.to_string())
                    .collect();
                lines.extend(report(&names[theme], &found));
                action = themecheck(&names, &requested, theme, errors_present, &found);
            }
            ThemeAction::Finish { errors_present } => return (lines, errors_present),
        }
    }
}

#[test]
fn built_in_themes_come_first() {
    assert_eq!(theme_names(list(&["a", "b"])), ["default", "base16_default", "a", "b"]);
}

#[test]
fn themes_without_warnings_pass() {
    assert_eq!(run_themecheck(&["a", "b"], &[], &[]), (Vec::new(), false));
    assert_eq!(verdict(false), Ok("Theme check successful!"));
}

#[test]
fn warnings_are_reported_for_every_theme() {
    let warnings = [("default", "no such color"), ("b", "one"), ("b", "two")];
    let (lines, errors_present) = run_themecheck(&["a", "b"], &[], &warnings);
    assert!(errors_present);
    assert_eq!(
        lines,
        [
            "Theme 'default' loaded with errors:",
            "\t* no such color",
            "Theme 'b' loaded with errors:",
            "\t* one",
            "\t* two",
        ]
    );
    assert_eq!(verdict(true), Err("Errors found when loading bundled themes"));
}

#[test]
fn only_requested_themes_are_checked() {
    let warnings = [("default", "no such color")];
    assert_eq!(run_themecheck(&["a"], &["a"], &warnings), (Vec::new(), false));
    assert!(run_themecheck(&["a"], &["default"], &warnings).1);
}

fn run_install(
    unix: bool,
    carry_out: &dyn Fn(InstallStep) -> StepOutcome,
) -> (Vec<InstallStep>, InstallAction) {
    let mut steps = Vec::new();
    let mut action = InstallAction::Run(InstallStep::CreateBinDir);
    while let InstallAction::Run(step) = action {
        steps.push(step);
        action = install(step, carry_out(step), unix);
    }
    (steps, action)
}

const STEPS: [InstallStep; 6] = [
    InstallStep::CreateBinDir,
    InstallStep::CreateRuntimeDir,
    InstallStep::CopyRuntime,
    InstallStep::BuildRelease,
    InstallStep::CopyBinary,
    InstallStep::SetPermissions,
];

#[test]
fn an_installation_carries_out_every_step() {
    let (steps, end) = run_install(true, &|_| StepOutcome::Done);
    assert_eq!(steps, STEPS);
    assert_eq!(end, InstallAction::Finish);
    let (steps, end) = run_install(false, &|_| StepOutcome::Done);
    assert_eq!(steps, &STEPS[..5]);
    assert_eq!(end, InstallAction::Finish);
}

#[test]
fn an_installation_stops_at_the_first_failure() {
    for (i, bad) in STEPS.iter().enumerate() {
        let (steps, end) = run_install(true, &|step| {
            if step == *bad { StepOutcome::IoError } else { StepOutcome::Done }
        });
        assert_eq!(steps, &STEPS[..i + 1]);
        assert_eq!(end, InstallAction::Fail(InstallFailure::Io));
    }
    let unsuccessful = |bad: InstallStep| {
        run_install(true, &|step| {
            if step == bad { StepOutcome::Unsuccessful } else { StepOutcome::Done }
        })
        .1
    };
    assert_eq!(
        unsuccessful(InstallStep::CopyRuntime),
        InstallAction::Fail(InstallFailure::RuntimeNotCopied)
    );
    assert_eq!(
        unsuccessful(InstallStep::BuildRelease),
        InstallAction::Fail(InstallFailure::BuildFailed)
    );
    assert_eq!(InstallFailure::RuntimeNotCopied.message(), Some("Failed to copy runtime directory"));
    assert_eq!(InstallFailure::BuildFailed.message(), Some("Release build failed"));
    assert_eq!(InstallFailure::Io.message(), None);
}

#[test]
fn an_installation_says_what_it_does() {
    assert_eq!(
        opening_lines("../bin/helix", "../bin/runtime", "/x/bin/runtime"),
        [
            "=== treelix custom install (following official packaging guide) ===",
            "  Target binary : ../bin/helix",
            "  Target runtime: ../bin/runtime",
            "  HELIX_DEFAULT_RUNTIME (baked in): /x/bin/runtime",
            "",
        ]
    );
    let lines = closing_lines("../bin/helix", "../bin/runtime", "../bin");
    assert_eq!(lines.len(), 10);
    assert_eq!(lines[1], "\u{2705} Successfully installed custom Helix build:");
    assert_eq!(lines[2], "   Binary : ../bin/helix");
    assert_eq!(lines[3], "   Runtime: ../bin/runtime");
    assert_eq!(
        lines[9],
        "Make sure '../bin' is early in your PATH if you want `helix` to prefer this build."
    );
    assert_eq!(announce(InstallStep::CreateBinDir), None);
    assert_eq!(announce(InstallStep::CopyRuntime), Some("Copying runtime/ into place..."));
    assert_eq!(
        announce(InstallStep::BuildRelease),
        Some("Building release binary with HELIX_DEFAULT_RUNTIME baked in...")
    );
    assert_eq!(announce(InstallStep::CopyBinary), Some("Installing binary as 'helix'..."));
    assert_eq!(announce(InstallStep::SetPermissions), None);
}

#[test]
fn an_installation_runs_these_commands() {
    assert_eq!(copy_arguments("../bin/runtime"), ["-r", "runtime/.", "../bin/runtime"]);
    assert_eq!(build_arguments(), ["build", "--release", "-p", "helix-term"]);
    assert_eq!(BIN_DIR, "../bin");
    assert_eq!(BINARY_MODE, 0o755);
}

#[test]
fn the_default_runtime_falls_back() {
    assert_eq!(default_runtime(Some("/a"), Some("/b"), "c"), "/a");
    assert_eq!(default_runtime(None, Some("/b"), "c"), "/b");
    assert_eq!(default_runtime(None, None, "c"), "c");
}

fn run_parse(
    opens: bool,
    reads: bool,
    by_filename: Option<u64>,
    by_shebang: Option<u64>,
    parses: Option<u64>,
) -> (Vec<ParseAction>, Option<u64>) {
    let mut actions = Vec::new();
    let mut action = ParseAction::Open;
    loop {
        let event = match action {
            ParseAction::Open => ParseEvent::Done(opens),
            ParseAction::Read => ParseEvent::Done(reads),
            ParseAction::LanguageForFilename => ParseEvent::Language(by_filename),
            ParseAction::LanguageForShebang => ParseEvent::Language(by_shebang),
            ParseAction::Parse(_) => ParseEvent::Parsed(parses),
            ParseAction::Finish(syntax) => return (actions, syntax),
        };
        actions.push(action);
        action = syntax_for_path(action, event);
    }
}

#[test]
fn a_file_is_parsed_in_the_language_of_its_name() {
    let (actions, syntax) = run_parse(true, true, Some(4), Some(5), Some(8));
    assert_eq!(syntax, Some(8));
    assert_eq!(
        actions,
        [
            ParseAction::Open,
            ParseAction::Read,
            ParseAction::LanguageForFilename,
            ParseAction::Parse(4),
        ]
    );
}

#[test]
fn the_first_line_tells_the_language_where_the_name_does_not() {
    let (actions, syntax) = run_parse(true, true, None, Some(5), Some(8));
    assert_eq!(syntax, Some(8));
    assert_eq!(actions.last(), Some(&ParseAction::Parse(5)));
    assert_eq!(actions.len(), 5);
}

#[test]
fn a_file_that_cannot_be_parsed_has_no_syntax_tree() {
    assert_eq!(run_parse(false, true, Some(4), None, Some(8)).1, None);
    assert_eq!(run_parse(true, false, Some(4), None, Some(8)).1, None);
    assert_eq!(run_parse(true, true, None, None, Some(8)).1, None);
    assert_eq!(run_parse(true, true, Some(4), None, None).1, None);
}
