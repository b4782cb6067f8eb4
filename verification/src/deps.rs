//! The dependency check and its repair.
//!
//! The check probes the required modules one by one, in order, and stops at
//! the first that cannot be imported. The repair installs from the manifest
//! if there is one. Neither ever stops the run.

use crate::log::{Level, LogLine};
use crate::paths::{
    manifest_spec, requirements_path, worker_directory, worker_directory_spec, Platform,
};
use crate::process::{texts, CommandLine, CommandLineView, Exit, Output};
use vstd::prelude::*;

verus! {

/// The modules that the worker cannot do without, in the order in which
/// they are probed.
pub open spec fn required_modules() -> Seq<Seq<char>> {
    seq!["fastapi"@, "uvicorn"@, "pydantic"@]
}

/// The modules that the worker cannot do without.
pub fn must_have_modules() -> (modules: Vec<String>)
    ensures
        texts(modules@) == required_modules(),
{
    let mut modules: Vec<String> = Vec::new();
    modules.push(String::from_str("fastapi"));
    modules.push(String::from_str("uvicorn"));
    modules.push(String::from_str("pydantic"));
    assert(texts(modules@) =~= required_modules());
    modules
}

/// The interpreter run that tells by its exit status whether `module` can be
/// imported. It prints nothing.
pub open spec fn import_probe_spec(python: Seq<char>, module: Seq<char>) -> CommandLineView {
    CommandLineView {
        program: python,
        args: seq!["-c"@, "import "@ + module],
        directory: None,
        stdout: Output::Discarded,
        stderr: Output::Discarded,
    }
}

/// The command that probes one module.
pub fn import_probe(python: &str, module: &str) -> (command: CommandLine)
    ensures
        command@ == import_probe_spec(python@, module@),
{
    let mut statement = String::from_str("import ");
    statement.append(module);
    let mut args: Vec<String> = Vec::new();
    args.push(String::from_str("-c"));
    args.push(statement);
    assert(texts(args@) =~= seq!["-c"@, "import "@ + module@]);
    CommandLine {
        program: String::from_str(python),
        args,
        directory: None,
        stdout: Output::Discarded,
        stderr: Output::Discarded,
    }
}

/// The console line that names a module which cannot be imported.
pub fn missing_module_line(module: &str) -> (line: LogLine)
    ensures
        line@ == (Level::Error, "Missing Python module: "@ + module@),
{
    let mut text = String::from_str("Missing Python module: ");
    text.append(module);
    LogLine { level: Level::Error, text }
}

/// Where a dependency check stands.
#[derive(Clone, Copy, Debug, PartialEq, Eq, Structural)]
pub enum DepStep {
    /// Probe this module next; all before it can be imported.
    Probe { module: usize },
    /// This module cannot be imported. Nothing after it was probed.
    Missing { module: usize },
    /// Every module can be imported.
    Satisfied,
}

/// Where a check of `total` modules starts.
pub open spec fn first_step(total: usize) -> DepStep {
    if total == 0 {
        DepStep::Satisfied
    } else {
        DepStep::Probe { module: 0 }
    }
}

/// Where a check of `total` modules stands once the probe it was waiting
/// for has ended with `outcome`. A check that has reached its verdict stays
/// there.
pub open spec fn step_after(total: usize, step: DepStep, outcome: Exit) -> DepStep {
    match step {
        DepStep::Probe { module } => if outcome != Exit::Succeeded {
            DepStep::Missing { module }
        } else if module + 1 < total {
            DepStep::Probe { module: (module + 1) as usize }
        } else {
            DepStep::Satisfied
        },
        verdict => verdict,
    }
}

/// Where a check of `total` modules stands after the probes have ended with
/// `outcomes`, oldest first.
pub open spec fn check_after(total: usize, outcomes: Seq<Exit>) -> DepStep
    decreases outcomes.len(),
{
    if outcomes.len() == 0 {
        first_step(total)
    } else {
        step_after(total, check_after(total, outcomes.drop_last()), outcomes.last())
    }
}

/// Whether `module` is the first of `total` modules whose probe did not
/// succeed. A module for which `outcomes` has no entry counts as not
/// probed with success.
pub open spec fn is_first_missing(total: usize, outcomes: Seq<Exit>, module: int) -> bool {
    &&& 0 <= module < total
    &&& module >= outcomes.len() || outcomes[module] != Exit::Succeeded
    &&& forall|earlier: int|
        0 <= earlier < module ==> earlier < outcomes.len() && #[trigger] outcomes[earlier]
            == Exit::Succeeded
}

/// Whether the probes of all `total` modules succeeded.
pub open spec fn all_importable(total: usize, outcomes: Seq<Exit>) -> bool {
    &&& total <= outcomes.len()
    &&& forall|module: int| 0 <= module < total ==> #[trigger] outcomes[module] == Exit::Succeeded
}

/// A dependency check in progress.
pub struct DepCheck {
    total: usize,
    pending: DepStep,
    seen: Ghost<Seq<Exit>>,
}

impl DepCheck {
    /// The number of modules under check.
    pub closed spec fn total(&self) -> usize {
        self.total
    }

    /// The outcomes recorded so far, oldest first.
    pub closed spec fn outcomes(&self) -> Seq<Exit> {
        self.seen@
    }

    /// Where the check stands.
    pub closed spec fn pending_spec(&self) -> DepStep {
        self.pending
    }

    #[verifier::type_invariant]
    spec fn consistent(&self) -> bool {
        self.pending == check_after(self.total, self.seen@)
    }

    /// Starts a check of `total` modules.
    pub fn begin(total: usize) -> (check: DepCheck)
        ensures
            check.total() == total,
            check.outcomes() == Seq::<Exit>::empty(),
            check.pending_spec() == first_step(total),
    {
        let pending = if total == 0 {
            DepStep::Satisfied
        } else {
            DepStep::Probe { module: 0 }
        };
        DepCheck { total, pending, seen: Ghost(Seq::empty()) }
    }

    /// Where the check stands: what its recorded outcomes lead to.
    #[verifier::when_used_as_spec(pending_spec)]
    pub fn pending(&self) -> (step: DepStep)
        ensures
            step == self.pending_spec(),
            step == check_after(self.total(), self.outcomes()),
    {
        proof {
            use_type_invariant(self);
        }
        self.pending
    }

    /// Records how the pending probe ended and answers with the next step.
    pub fn record(&mut self, outcome: Exit) -> (step: DepStep)
        ensures
            final(self).total() == old(self).total(),
            final(self).outcomes() == old(self).outcomes().push(outcome),
            final(self).pending_spec() == step,
            step == step_after(old(self).total(), old(self).pending_spec(), outcome),
    {
        proof {
            use_type_invariant(&*self);
        }
        let ghost before = self.seen@;
        let total = self.total;
        let step = match self.pending {
            DepStep::Probe { module } => {
                if outcome != Exit::Succeeded {
                    DepStep::Missing { module }
                } else if module < total - 1 {
                    DepStep::Probe { module: module + 1 }
                } else {
                    DepStep::Satisfied
                }
            },
            verdict => verdict,
        };
        proof {
            probes_stop_at_first_failure(total, before);
            assert(before.push(outcome).drop_last() =~= before);
        }
        *self = DepCheck { total, pending: step, seen: Ghost(before.push(outcome)) };
        step
    }
}

/// A check probes a module only after every module before it was found
/// importable, and it ends at the first module that is not: whatever the
/// later outcomes are, the verdict names that module and no later module is
/// probed. It is satisfied only if all probes succeeded.
pub proof fn probes_stop_at_first_failure(total: usize, outcomes: Seq<Exit>)
    ensures
        match check_after(total, outcomes) {
            DepStep::Probe { module } => {
                &&& module == outcomes.len()
                &&& module < total
                &&& forall|earlier: int|
                    0 <= earlier < module ==> #[trigger] outcomes[earlier] == Exit::Succeeded
            },
            DepStep::Missing { module } => {
                &&& module < outcomes.len()
                &&& is_first_missing(total, outcomes, module as int)
            },
            DepStep::Satisfied => all_importable(total, outcomes),
        },
    decreases outcomes.len(),
{
    if outcomes.len() > 0 {
        let before = outcomes.drop_last();
        probes_stop_at_first_failure(total, before);
        match check_after(total, before) {
            DepStep::Probe { module } => {
                assert forall|earlier: int|
                    0 <= earlier < module implies #[trigger] outcomes[earlier]
                    == Exit::Succeeded by {
                    assert(before[earlier] == outcomes[earlier]);
                }
            },
            DepStep::Missing { module } => {
                assert(before[module as int] == outcomes[module as int]);
                assert forall|earlier: int|
                    0 <= earlier < module implies #[trigger] outcomes[earlier]
                    == Exit::Succeeded by {
                    assert(before[earlier] == outcomes[earlier]);
                }
            },
            DepStep::Satisfied => {
                assert forall|module: int| 0 <= module < total implies #[trigger] outcomes[module]
                    == Exit::Succeeded by {
                    assert(before[module] == outcomes[module]);
                }
            },
        }
    }
}

/// The outcome of probing `module`, as far as `outcomes` records it.
pub open spec fn outcome_at(outcomes: Seq<Exit>, module: int) -> Exit {
    if 0 <= module < outcomes.len() {
        outcomes[module]
    } else {
        Exit::NotRun
    }
}

/// Tells whether a dependency is missing, given how the probe of each module
/// ended.
///
/// `outcomes[i]` is the outcome of probing the `i`-th of `total` modules; a
/// module without an entry counts as not importable. The answer is `true`
/// exactly if some probe did not succeed, and is settled by the first such
/// probe alone.
pub fn deps_missing(total: usize, outcomes: &Vec<Exit>) -> (missing: bool)
    ensures
        missing == !all_importable(total, outcomes@),
        missing == exists|module: int| is_first_missing(total, outcomes@, module),
        outcomes@.len() >= total ==> missing == (check_after(total, outcomes@) is Missing),
{
    let mut check = DepCheck::begin(total);
    loop
        invariant
            check.total() == total,
            check.outcomes().len() <= total,
            forall|module: int|
                0 <= module < check.outcomes().len() ==> #[trigger] check.outcomes()[module]
                    == outcome_at(outcomes@, module),
        decreases total - check.outcomes().len(),
    {
        let ghost seen = check.outcomes();
        proof {
            probes_stop_at_first_failure(total, seen);
        }
        match check.pending() {
            DepStep::Probe { module } => {
                let outcome = if module < outcomes.len() {
                    outcomes[module]
                } else {
                    Exit::NotRun
                };
                check.record(outcome);
            },
            DepStep::Missing { module } => {
                proof {
                    assert(seen[module as int] == outcome_at(outcomes@, module as int));
                    assert forall|earlier: int| 0 <= earlier < module implies earlier
                        < outcomes@.len() && #[trigger] outcomes@[earlier] == Exit::Succeeded by {
                        assert(seen[earlier] == outcome_at(outcomes@, earlier));
                    }
                    first_missing_is_decisive(total, outcomes@, module as int);
                }
                return true;
            },
            DepStep::Satisfied => {
                proof {
                    assert forall|module: int| 0 <= module < total implies module < outcomes@.len()
                        && #[trigger] outcomes@[module] == Exit::Succeeded by {
                        assert(seen[module] == outcome_at(outcomes@, module));
                    }
                    assert forall|module: int| !is_first_missing(total, outcomes@, module) by {
                        if 0 <= module < total {
                            assert(outcomes@[module] == Exit::Succeeded);
                        }
                    }
                    all_importable_is_satisfied(total, outcomes@);
                }
                return false;
            },
        }
    }
}

/// With a first missing module the modules are not all importable, and a
/// check that has seen at least `total` outcomes has ended on that module.
proof fn first_missing_is_decisive(total: usize, outcomes: Seq<Exit>, module: int)
    requires
        is_first_missing(total, outcomes, module),
    ensures
        !all_importable(total, outcomes),
        outcomes.len() >= total ==> check_after(total, outcomes) == (DepStep::Missing {
            module: module as usize,
        }),
{
    if all_importable(total, outcomes) {
        assert(outcomes[module] == Exit::Succeeded);
    }
    if outcomes.len() >= total {
        probes_stop_at_first_failure(total, outcomes);
        match check_after(total, outcomes) {
            DepStep::Probe { .. } => {},
            DepStep::Missing { module: other } => {
                if other < module {
                    assert(outcomes[other as int] == Exit::Succeeded);
                } else if other > module {
                    assert(outcomes[module] == Exit::Succeeded);
                }
            },
            DepStep::Satisfied => {
                assert(outcomes[module] == Exit::Succeeded);
            },
        }
    }
}

/// A check whose probes all succeeded is satisfied.
proof fn all_importable_is_satisfied(total: usize, outcomes: Seq<Exit>)
    requires
        all_importable(total, outcomes),
    ensures
        check_after(total, outcomes) == DepStep::Satisfied,
{
    probes_stop_at_first_failure(total, outcomes);
    match check_after(total, outcomes) {
        DepStep::Missing { module } => {
            assert(outcomes[module as int] == Exit::Succeeded);
        },
        _ => {},
    }
}

/// The package manager run that installs from the manifest, in the worker's
/// directory and in full view of the operator.
pub open spec fn install_command_spec(
    python: Seq<char>,
    platform: Platform,
    project_root: Seq<char>,
) -> CommandLineView {
    CommandLineView {
        program: python,
        args: seq!["-m"@, "pip"@, "install"@, "-r"@, manifest_spec(platform, project_root)],
        directory: Some(worker_directory_spec(platform, project_root)),
        stdout: Output::Inherited,
        stderr: Output::Inherited,
    }
}

/// What the repair consists of.
#[derive(Clone, Debug, PartialEq, Eq)]
pub enum InstallStep {
    /// Run this command and wait for it.
    Run(CommandLine),
    /// There is nothing to install from; say so and go on.
    Skip(LogLine),
}

/// Plans the repair of the dependencies.
///
/// With a manifest the package manager is run on it. Without one the repair
/// is a no-op that is logged.
pub fn install_requirements(
    python: &str,
    project_root: &str,
    platform: Platform,
    manifest_present: bool,
) -> (step: InstallStep)
    ensures
        match step {
            InstallStep::Run(command) => manifest_present && command@ == install_command_spec(
                python@,
                platform,
                project_root@,
            ),
            InstallStep::Skip(line) => !manifest_present && line@ == (
                Level::Info,
                "\u{2139}requirements.txt not found, skipping installation"@,
            ),
        },
{
    if manifest_present {
        let mut args: Vec<String> = Vec::new();
        args.push(String::from_str("-m"));
        args.push(String::from_str("pip"));
        args.push(String::from_str("install"));
        args.push(String::from_str("-r"));
        args.push(requirements_path(project_root, platform));
        assert(texts(args@) =~= seq![
            "-m"@,
            "pip"@,
            "install"@,
            "-r"@,
            manifest_spec(platform, project_root@),
        ]);
        InstallStep::Run(
            CommandLine {
                program: String::from_str(python),
                args,
                directory: Some(worker_directory(project_root, platform)),
                stdout: Output::Inherited,
                stderr: Output::Inherited,
            },
        )
    } else {
        InstallStep::Skip(
            LogLine {
                level: Level::Info,
                text: String::from_str("\u{2139}requirements.txt not found, skipping installation"),
            },
        )
    }
}

/// The console line on how the install ended. None of the outcomes stops the
/// run.
pub open spec fn install_report_spec(exit: Exit) -> (Level, Seq<char>) {
    match exit {
        Exit::Succeeded => (Level::Info, "requirements.txt installed successfully"@),
        Exit::Failed => (Level::Error, "Failed to install requirements.txt"@),
        Exit::NotRun => (Level::Error, "Dependency installation error"@),
    }
}

/// Reports on the console how the install ended.
pub fn install_report(exit: Exit) -> (line: LogLine)
    ensures
        line@ == install_report_spec(exit),
{
    match exit {
        Exit::Succeeded => LogLine {
            level: Level::Info,
            text: String::from_str("requirements.txt installed successfully"),
        },
        Exit::Failed => LogLine {
            level: Level::Error,
            text: String::from_str("Failed to install requirements.txt"),
        },
        Exit::NotRun => LogLine {
            level: Level::Error,
            text: String::from_str("Dependency installation error"),
        },
    }
}

} // verus!
