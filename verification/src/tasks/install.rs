//! Building and installing a release, with its runtime files next to the binary.

use vstd::prelude::*;
use crate::text::texts;

verus! {

/// Where the release is installed.
pub const BIN_DIR: &'static str = "../bin";

/// The name of the runtime directory within [`BIN_DIR`].
pub const RUNTIME_NAME: &'static str = "runtime";

/// The name of the binary within [`BIN_DIR`].
pub const BINARY_NAME: &'static str = "helix";

/// The binary that a release build makes.
pub const BUILT_BINARY: &'static str = "target/release/hx";

/// The variable that bakes the runtime directory into the binary while it is built.
pub const RUNTIME_VARIABLE: &'static str = "HELIX_DEFAULT_RUNTIME";

/// The permissions of the installed binary: all for the owner, reading and running for others.
pub const BINARY_MODE: u32 = 0o755;

/// The steps of an installation, in order.
#[derive(Debug, Clone, Copy, PartialEq, Eq, Structural)]
pub enum InstallStep {
    CreateBinDir,
    CreateRuntimeDir,
    CopyRuntime,
    BuildRelease,
    CopyBinary,
    SetPermissions,
}

/// What came of a step.
#[derive(Debug, Clone, Copy, PartialEq, Eq, Structural)]
pub enum StepOutcome {
    Done,
    /// The step could not be carried out.
    IoError,
    /// The step's command ran, and did not succeed.
    Unsuccessful,
}

/// Why an installation ends early.
#[derive(Debug, Clone, Copy, PartialEq, Eq, Structural)]
pub enum InstallFailure {
    /// With the error of the step that could not be carried out.
    Io,
    RuntimeNotCopied,
    BuildFailed,
}

/// What has to be done next.
#[derive(Debug, Clone, Copy, PartialEq, Eq, Structural)]
pub enum InstallAction {
    Run(InstallStep),
    Finish,
    Fail(InstallFailure),
}

impl InstallStep {
    /// The place of the step in the plan.
    pub open spec fn place(self) -> int {
        match self {
            InstallStep::CreateBinDir => 0,
            InstallStep::CreateRuntimeDir => 1,
            InstallStep::CopyRuntime => 2,
            InstallStep::BuildRelease => 3,
            InstallStep::CopyBinary => 4,
            InstallStep::SetPermissions => 5,
        }
    }

    /// Whether the step is a command, which may run and not succeed.
    pub open spec fn is_command(self) -> bool {
        self == InstallStep::CopyRuntime || self == InstallStep::BuildRelease
    }
}

/// The steps of an installation. Permissions are a matter of Unix.
pub open spec fn install_plan(unix: bool) -> Seq<InstallStep> {
    let steps = seq![
        InstallStep::CreateBinDir,
        InstallStep::CreateRuntimeDir,
        InstallStep::CopyRuntime,
        InstallStep::BuildRelease,
        InstallStep::CopyBinary,
    ];
    if unix {
        steps.push(InstallStep::SetPermissions)
    } else {
        steps
    }
}

/// Why an installation ends with a step that was not done.
pub open spec fn failure(step: InstallStep, outcome: StepOutcome) -> InstallFailure {
    match outcome {
        StepOutcome::Unsuccessful => if step == InstallStep::CopyRuntime {
            InstallFailure::RuntimeNotCopied
        } else {
            InstallFailure::BuildFailed
        },
        _ => InstallFailure::Io,
    }
}

/// The action at a place of the plan: the step that is there, and the end after the last.
pub open spec fn install_at(unix: bool, place: int) -> InstallAction {
    if place < install_plan(unix).len() {
        InstallAction::Run(install_plan(unix)[place])
    } else {
        InstallAction::Finish
    }
}

/// What has to be done once a step has come to something: the step after it in the plan, and
/// nothing more once a step was not done.
pub open spec fn install_step(step: InstallStep, outcome: StepOutcome, unix: bool) -> InstallAction {
    if outcome == StepOutcome::Done {
        install_at(unix, step.place() + 1)
    } else {
        InstallAction::Fail(failure(step, outcome))
    }
}

/// Goes on with an installation, which starts with [`InstallStep::CreateBinDir`].
pub fn install(step: InstallStep, outcome: StepOutcome, unix: bool) -> (r: InstallAction)
    requires
        step == InstallStep::SetPermissions ==> unix,
        outcome == StepOutcome::Unsuccessful ==> step.is_command(),
    ensures
        r == install_step(step, outcome, unix),
{
    match outcome {
        StepOutcome::IoError => InstallAction::Fail(InstallFailure::Io),
        StepOutcome::Unsuccessful => match step {
            InstallStep::CopyRuntime => InstallAction::Fail(InstallFailure::RuntimeNotCopied),
            _ => InstallAction::Fail(InstallFailure::BuildFailed),
        },
        StepOutcome::Done => match step {
            InstallStep::CreateBinDir => InstallAction::Run(InstallStep::CreateRuntimeDir),
            InstallStep::CreateRuntimeDir => InstallAction::Run(InstallStep::CopyRuntime),
            InstallStep::CopyRuntime => InstallAction::Run(InstallStep::BuildRelease),
            InstallStep::BuildRelease => InstallAction::Run(InstallStep::CopyBinary),
            InstallStep::CopyBinary => if unix {
                InstallAction::Run(InstallStep::SetPermissions)
            } else {
                InstallAction::Finish
            },
            InstallStep::SetPermissions => InstallAction::Finish,
        },
    }
}

impl InstallFailure {
    /// The error that an installation ends with, unless it is that of a step that could not be
    /// carried out.
    pub fn message(self) -> (r: Option<&'static str>)
        ensures
            match self {
                InstallFailure::Io => r is None,
                InstallFailure::RuntimeNotCopied => r matches Some(m) && m@
                    == "Failed to copy runtime directory"@,
                InstallFailure::BuildFailed => r matches Some(m) && m@ == "Release build failed"@,
            },
    {
        match self {
            InstallFailure::Io => None,
            InstallFailure::RuntimeNotCopied => Some("Failed to copy runtime directory"),
            InstallFailure::BuildFailed => Some("Release build failed"),
        }
    }
}

/// The steps that are carried out from an action on, and the action they end with, if `carry_out`
/// is what comes of each step.
pub open spec fn install_run(
    action: InstallAction,
    carry_out: spec_fn(InstallStep) -> StepOutcome,
    unix: bool,
    fuel: nat,
) -> (Seq<InstallStep>, InstallAction)
    decreases fuel,
{
    match action {
        InstallAction::Run(step) => if fuel == 0 {
            (Seq::empty(), action)
        } else {
            let (steps, end) = install_run(
                install_step(step, carry_out(step), unix),
                carry_out,
                unix,
                (fuel - 1) as nat,
            );
            (seq![step] + steps, end)
        },
        _ => (Seq::empty(), action),
    }
}

proof fn install_run_from(
    carry_out: spec_fn(InstallStep) -> StepOutcome,
    unix: bool,
    from: int,
    stop: int,
    fuel: nat,
)
    requires
        0 <= from <= stop <= install_plan(unix).len(),
        fuel >= install_plan(unix).len() - from,
        forall|i: int|
            from <= i < stop ==> carry_out(#[trigger] install_plan(unix)[i]) == StepOutcome::Done,
        stop < install_plan(unix).len() ==> carry_out(install_plan(unix)[stop])
            != StepOutcome::Done,
    ensures
        ({
            let plan = install_plan(unix);
            install_run(install_at(unix, from), carry_out, unix, fuel) == if stop < plan.len() {
                (
                    plan.subrange(from, stop + 1),
                    InstallAction::Fail(failure(plan[stop], carry_out(plan[stop]))),
                )
            } else {
                (plan.subrange(from, plan.len() as int), InstallAction::Finish)
            }
        }),
    decreases stop - from,
{
    let plan = install_plan(unix);
    reveal_with_fuel(install_run, 2);
    if from < plan.len() {
        let step = plan[from];
        assert(step.place() == from);
        if from < stop {
            assert(carry_out(plan[from]) == StepOutcome::Done);
            install_run_from(carry_out, unix, from + 1, stop, (fuel - 1) as nat);
            let (steps, end) = install_run(
                install_at(unix, from + 1),
                carry_out,
                unix,
                (fuel - 1) as nat,
            );
            if stop < plan.len() {
                assert(seq![step] + steps =~= plan.subrange(from, stop + 1));
            } else {
                assert(seq![step] + steps =~= plan.subrange(from, plan.len() as int));
            }
        } else {
            assert(seq![step] + Seq::<InstallStep>::empty() =~= plan.subrange(from, stop + 1));
        }
    } else {
        assert(plan.subrange(from, plan.len() as int) =~= Seq::<InstallStep>::empty());
    }
}

/// An installation carries out the steps of its plan in order, and succeeds if all of them are
/// done.
pub proof fn install_completes(carry_out: spec_fn(InstallStep) -> StepOutcome, unix: bool)
    requires
        forall|i: int|
            0 <= i < install_plan(unix).len() ==> carry_out(#[trigger] install_plan(unix)[i])
                == StepOutcome::Done,
    ensures
        install_run(InstallAction::Run(InstallStep::CreateBinDir), carry_out, unix, 6) == (
            install_plan(unix),
            InstallAction::Finish,
        ),
{
    let plan = install_plan(unix);
    install_run_from(carry_out, unix, 0, plan.len() as int, 6);
    assert(plan.subrange(0, plan.len() as int) =~= plan);
}

/// An installation ends with the first step that is not done, and for that step's reason. The
/// steps before it are carried out, those after it are not: nothing is built without the runtime
/// files, and no binary is installed without a build.
pub proof fn install_stops_at_first_failure(
    carry_out: spec_fn(InstallStep) -> StepOutcome,
    unix: bool,
    stop: int,
)
    requires
        0 <= stop < install_plan(unix).len(),
        forall|i: int|
            0 <= i < stop ==> carry_out(#[trigger] install_plan(unix)[i]) == StepOutcome::Done,
        carry_out(install_plan(unix)[stop]) != StepOutcome::Done,
    ensures
        install_run(InstallAction::Run(InstallStep::CreateBinDir), carry_out, unix, 6) == (
            install_plan(unix).take(stop + 1),
            InstallAction::Fail(
                failure(install_plan(unix)[stop], carry_out(install_plan(unix)[stop])),
            ),
        ),
{
    install_run_from(carry_out, unix, 0, stop, 6);
    assert(install_plan(unix).subrange(0, stop + 1) =~= install_plan(unix).take(stop + 1));
}

/// The runtime directory to bake into the binary: in canonical form; failing that, taken from the
/// current directory; failing that too, as it is.
pub fn default_runtime<P>(canonical: Option<P>, from_current_dir: Option<P>, target: P) -> (r: P)
    ensures
        r == (match (canonical, from_current_dir) {
            (Some(path), _) => path,
            (None, Some(path)) => path,
            (None, None) => target,
        }),
{
    match canonical {
        Some(path) => path,
        None => match from_current_dir {
            Some(path) => path,
            None => target,
        },
    }
}

/// The arguments of `cp` that copy the runtime files.
pub fn copy_arguments(runtime_target: &str) -> (r: Vec<String>)
    ensures
        texts(r@) == seq!["-r"@, "runtime/."@, runtime_target@],
{
    let mut args: Vec<String> = Vec::new();
    args.push("-r".to_owned());
    args.push("runtime/.".to_owned());
    args.push(runtime_target.to_owned());
    assert(texts(args@) =~= seq!["-r"@, "runtime/."@, runtime_target@]);
    args
}

/// The arguments of `cargo` that build the release.
pub fn build_arguments() -> (r: Vec<String>)
    ensures
        texts(r@) == seq!["build"@, "--release"@, "-p"@, "helix-term"@],
{
    let mut args: Vec<String> = Vec::new();
    args.push("build".to_owned());
    args.push("--release".to_owned());
    args.push("-p".to_owned());
    args.push("helix-term".to_owned());
    assert(texts(args@) =~= seq!["build"@, "--release"@, "-p"@, "helix-term"@]);
    args
}

fn joined(before: &str, value: &str, after: &str) -> (r: String)
    ensures
        r@ == before@ + value@ + after@,
{
    let mut line = before.to_owned();
    line.append(value);
    line.append(after);
    line
}

/// The lines to print before an installation.
pub open spec fn opening(
    binary: Seq<char>,
    runtime: Seq<char>,
    baked_in: Seq<char>,
) -> Seq<Seq<char>> {
    seq![
        "=== treelix custom install (following official packaging guide) ==="@,
        "  Target binary : "@ + binary,
        "  Target runtime: "@ + runtime,
        "  HELIX_DEFAULT_RUNTIME (baked in): "@ + baked_in,
        ""@,
    ]
}

/// The lines to print before an installation.
pub fn opening_lines(binary: &str, runtime: &str, baked_in: &str) -> (r: Vec<String>)
    ensures
        texts(r@) == opening(binary@, runtime@, baked_in@),
{
    proof {
        reveal_strlit("");
    }
    let mut lines: Vec<String> = Vec::new();
    lines.push("=== treelix custom install (following official packaging guide) ===".to_owned());
    lines.push(joined("  Target binary : ", binary, ""));
    lines.push(joined("  Target runtime: ", runtime, ""));
    lines.push(joined("  HELIX_DEFAULT_RUNTIME (baked in): ", baked_in, ""));
    lines.push("".to_owned());
    proof {
        assert(lines@[1]@ =~= "  Target binary : "@ + binary@);
        assert(lines@[2]@ =~= "  Target runtime: "@ + runtime@);
        assert(lines@[3]@ =~= "  HELIX_DEFAULT_RUNTIME (baked in): "@ + baked_in@);
        assert(texts(lines@) =~= opening(binary@, runtime@, baked_in@));
    }
    lines
}

/// The line to print before a step.
pub open spec fn announcement(step: InstallStep) -> Option<Seq<char>> {
    match step {
        InstallStep::CopyRuntime => Some("Copying runtime/ into place..."@),
        InstallStep::BuildRelease => Some(
            "Building release binary with HELIX_DEFAULT_RUNTIME baked in..."@,
        ),
        InstallStep::CopyBinary => Some("Installing binary as 'helix'..."@),
        _ => None,
    }
}

/// The line to print before a step.
pub fn announce(step: InstallStep) -> (r: Option<&'static str>)
    ensures
        match announcement(step) {
            Some(text) => r matches Some(line) && line@ == text,
            None => r is None,
        },
{
    match step {
        InstallStep::CopyRuntime => Some("Copying runtime/ into place..."),
        InstallStep::BuildRelease => Some(
            "Building release binary with HELIX_DEFAULT_RUNTIME baked in...",
        ),
        InstallStep::CopyBinary => Some("Installing binary as 'helix'..."),
        _ => None,
    }
}

/// The lines to print after an installation.
pub open spec fn closing(
    binary: Seq<char>,
    runtime: Seq<char>,
    bin_dir: Seq<char>,
) -> Seq<Seq<char>> {
    seq![
        ""@,
        "✅ Successfully installed custom Helix build:"@,
        "   Binary : "@ + binary,
        "   Runtime: "@ + runtime,
        ""@,
        "Because we followed the packaging guide (set HELIX_DEFAULT_RUNTIME at build time"@,
        "and placed runtime/ next to the binary), this `helix` should work like a normal"@,
        "installed version — no need to set HELIX_RUNTIME manually for colors/LSP/etc."@,
        ""@,
        "Make sure '"@ + bin_dir
            + "' is early in your PATH if you want `helix` to prefer this build."@,
    ]
}

/// The lines to print after an installation.
pub fn closing_lines(binary: &str, runtime: &str, bin_dir: &str) -> (r: Vec<String>)
    ensures
        texts(r@) == closing(binary@, runtime@, bin_dir@),
{
    proof {
        reveal_strlit("");
    }
    let mut lines: Vec<String> = Vec::new();
    lines.push("".to_owned());
    lines.push("✅ Successfully installed custom Helix build:".to_owned());
    lines.push(joined("   Binary : ", binary, ""));
    lines.push(joined("   Runtime: ", runtime, ""));
    lines.push("".to_owned());
    lines.push(
        "Because we followed the packaging guide (set HELIX_DEFAULT_RUNTIME at build time".to_owned(),
    );
    lines.push(
        "and placed runtime/ next to the binary), this `helix` should work like a normal".to_owned(),
    );
    lines.push(
        "installed version — no need to set HELIX_RUNTIME manually for colors/LSP/etc.".to_owned(),
    );
    lines.push("".to_owned());
    lines.push(
        joined(
            "Make sure '",
            bin_dir,
            "' is early in your PATH if you want `helix` to prefer this build.",
        ),
    );
    proof {
        assert(lines@[2]@ =~= "   Binary : "@ + binary@);
        assert(lines@[3]@ =~= "   Runtime: "@ + runtime@);
        assert(texts(lines@) =~= closing(binary@, runtime@, bin_dir@));
    }
    lines
}

/// Each step is followed by the next: the directories, the runtime files, the build, the binary,
/// and on Unix its permissions. A step that is not done ends the installation, for its own reason.
pub proof fn steps_follow_one_another(
    step: InstallStep,
    outcome: StepOutcome,
    unix: bool,
    r: InstallAction,
)
    requires
        call_ensures(install, (step, outcome, unix), r),
        step == InstallStep::SetPermissions ==> unix,
    ensures
        outcome == StepOutcome::Done ==> match step {
            InstallStep::CreateBinDir => r == InstallAction::Run(InstallStep::CreateRuntimeDir),
            InstallStep::CreateRuntimeDir => r == InstallAction::Run(InstallStep::CopyRuntime),
            InstallStep::CopyRuntime => r == InstallAction::Run(InstallStep::BuildRelease),
            InstallStep::BuildRelease => r == InstallAction::Run(InstallStep::CopyBinary),
            InstallStep::CopyBinary => if unix {
                r == InstallAction::Run(InstallStep::SetPermissions)
            } else {
                r == InstallAction::Finish
            },
            InstallStep::SetPermissions => r == InstallAction::Finish,
        },
        outcome == StepOutcome::IoError ==> r == InstallAction::Fail(InstallFailure::Io),
        outcome == StepOutcome::Unsuccessful && step == InstallStep::CopyRuntime ==> r
            == InstallAction::Fail(InstallFailure::RuntimeNotCopied),
        outcome == StepOutcome::Unsuccessful && step == InstallStep::BuildRelease ==> r
            == InstallAction::Fail(InstallFailure::BuildFailed),
{
}

/// An installation of which every step is done has created the directories, copied the runtime
/// files, built the release and copied the binary, in this order, and on Unix has set its
/// permissions last.
pub proof fn installation_carries_out_all_steps(
    carry_out: spec_fn(InstallStep) -> StepOutcome,
    unix: bool,
)
    requires
        forall|step: InstallStep| #[trigger] carry_out(step) == StepOutcome::Done,
    ensures
        ({
            let (steps, end) = install_run(
                InstallAction::Run(InstallStep::CreateBinDir),
                carry_out,
                unix,
                6,
            );
            &&& end == InstallAction::Finish
            &&& steps.len() == if unix {
                6int
            } else {
                5
            }
            &&& steps[0] == InstallStep::CreateBinDir
            &&& steps[1] == InstallStep::CreateRuntimeDir
            &&& steps[2] == InstallStep::CopyRuntime
            &&& steps[3] == InstallStep::BuildRelease
            &&& steps[4] == InstallStep::CopyBinary
            &&& unix ==> steps[5] == InstallStep::SetPermissions
        }),
{
    install_completes(carry_out, unix);
}

/// The runtime directory that is baked in is the canonical one if there is one, else the one from
/// the current directory, else the one as it is.
pub proof fn canonical_runtime_comes_first<P>(
    canonical: Option<P>,
    from_current_dir: Option<P>,
    target: P,
    r: P,
)
    requires
        call_ensures(default_runtime::<P>, (canonical, from_current_dir, target), r),
    ensures
        canonical matches Some(path) ==> r == path,
        canonical is None ==> (from_current_dir matches Some(path) ==> r == path),
        canonical is None && from_current_dir is None ==> r == target,
{
}

/// The names and the mode that an installation goes by.
pub proof fn installation_goes_by_these_names()
    ensures
        BIN_DIR@ == "../bin"@,
        RUNTIME_NAME@ == "runtime"@,
        BINARY_NAME@ == "helix"@,
        BUILT_BINARY@ == "target/release/hx"@,
        RUNTIME_VARIABLE@ == "HELIX_DEFAULT_RUNTIME"@,
        BINARY_MODE == 0o755,
{
}

/// What is copied and what is built.
pub proof fn commands_copy_and_build(target: &str, copy: Vec<String>, build: Vec<String>)
    requires
        call_ensures(copy_arguments, (target,), copy),
        call_ensures(build_arguments, (), build),
    ensures
        copy@.len() == 3,
        copy@[0]@ == "-r"@ && copy@[1]@ == "runtime/."@ && copy@[2]@ == target@,
        build@.len() == 4,
        build@[0]@ == "build"@ && build@[1]@ == "--release"@ && build@[2]@ == "-p"@ && build@[3]@
            == "helix-term"@,
{
    let copied = texts(copy@);
    let built = texts(build@);
    assert(copied.len() == copy@.len() && built.len() == build@.len());
    assert(copied[0] == copy@[0]@ && copied[1] == copy@[1]@ && copied[2] == copy@[2]@);
    assert(built[0] == build@[0]@ && built[1] == build@[1]@ && built[2] == build@[2]@);
    assert(built[3] == build@[3]@);
}

/// The error of a command that did not succeed says which it was; a step that could not be carried
/// out has its own error.
pub proof fn failures_are_told_apart(failure: InstallFailure, r: Option<&'static str>)
    requires
        call_ensures(InstallFailure::message, (failure,), r),
    ensures
        r is None <==> failure == InstallFailure::Io,
        failure == InstallFailure::RuntimeNotCopied ==> r->0@ == "Failed to copy runtime directory"@,
        failure == InstallFailure::BuildFailed ==> r->0@ == "Release build failed"@,
{
}

/// The lines before an installation name the binary, the runtime directory and the directory that
/// is baked in, and the line before a step says what it does.
pub proof fn opening_names_targets(
    binary: &str,
    runtime: &str,
    baked_in: &str,
    r: Vec<String>,
    step: InstallStep,
    line: Option<&'static str>,
)
    requires
        call_ensures(opening_lines, (binary, runtime, baked_in), r),
        call_ensures(announce, (step,), line),
    ensures
        r@.len() == 5,
        r@[0]@ == "=== treelix custom install (following official packaging guide) ==="@,
        r@[1]@ == "  Target binary : "@ + binary@,
        r@[2]@ == "  Target runtime: "@ + runtime@,
        r@[3]@ == "  HELIX_DEFAULT_RUNTIME (baked in): "@ + baked_in@,
        r@[4]@ == ""@,
        match step {
            InstallStep::CopyRuntime => line matches Some(m) && m@
                == "Copying runtime/ into place..."@,
            InstallStep::BuildRelease => line matches Some(m) && m@
                == "Building release binary with HELIX_DEFAULT_RUNTIME baked in..."@,
            InstallStep::CopyBinary => line matches Some(m) && m@
                == "Installing binary as 'helix'..."@,
            _ => line is None,
        },
{
    let lines = texts(r@);
    assert(lines.len() == r@.len());
    assert(lines[0] == r@[0]@ && lines[1] == r@[1]@ && lines[2] == r@[2]@);
    assert(lines[3] == r@[3]@ && lines[4] == r@[4]@);
}

/// The lines after an installation name what was installed, say why it works, and where to put it.
pub proof fn closing_names_targets(binary: &str, runtime: &str, bin_dir: &str, r: Vec<String>)
    requires
        call_ensures(closing_lines, (binary, runtime, bin_dir), r),
    ensures
        r@.len() == 10,
        r@[0]@ == ""@,
        r@[1]@ == "✅ Successfully installed custom Helix build:"@,
        r@[2]@ == "   Binary : "@ + binary@,
        r@[3]@ == "   Runtime: "@ + runtime@,
        r@[4]@ == ""@,
        r@[5]@
            == "Because we followed the packaging guide (set HELIX_DEFAULT_RUNTIME at build time"@,
        r@[6]@ == "and placed runtime/ next to the binary), this `helix` should work like a normal"@,
        r@[7]@ == "installed version — no need to set HELIX_RUNTIME manually for colors/LSP/etc."@,
        r@[8]@ == ""@,
        r@[9]@ == "Make sure '"@ + bin_dir@
            + "' is early in your PATH if you want `helix` to prefer this build."@,
{
    let lines = texts(r@);
    assert(lines.len() == r@.len());
    assert(lines[0] == r@[0]@ && lines[1] == r@[1]@ && lines[2] == r@[2]@);
    assert(lines[3] == r@[3]@ && lines[4] == r@[4]@ && lines[5] == r@[5]@);
    assert(lines[6] == r@[6]@ && lines[7] == r@[7]@ && lines[8] == r@[8]@);
    assert(lines[9] == r@[9]@);
}

/// Copying the runtime files and building the release are the commands, and the only ones.
pub proof fn commands_may_be_unsuccessful(step: InstallStep)
    ensures
        step.is_command() <==> step == InstallStep::CopyRuntime || step == InstallStep::BuildRelease,
{
}

} // verus!
