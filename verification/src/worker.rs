//! The worker process: how it is started and where it is asked for its health.

use crate::paths::{worker_directory, worker_directory_spec, Platform};
use crate::process::{texts, CommandLine, CommandLineView, Output};
use vstd::prelude::*;

verus! {

/// The run of the worker: the interpreter on the worker's script, told its
/// port, in the worker's directory, with both output streams captured.
pub open spec fn worker_command_spec(
    python: Seq<char>,
    script: Seq<char>,
    platform: Platform,
    project_root: Seq<char>,
) -> CommandLineView {
    CommandLineView {
        program: python,
        args: seq![script, "--port"@, "8000"@],
        directory: Some(worker_directory_spec(platform, project_root)),
        stdout: Output::Captured,
        stderr: Output::Captured,
    }
}

/// The command that starts the worker. `script` is the canonical path of the
/// worker's entry script.
pub fn worker_command(
    python: &str,
    script: &str,
    project_root: &str,
    platform: Platform,
) -> (command: CommandLine)
    ensures
        command@ == worker_command_spec(python@, script@, platform, project_root@),
{
    let mut args: Vec<String> = Vec::new();
    args.push(String::from_str(script));
    args.push(String::from_str("--port"));
    args.push(String::from_str("8000"));
    assert(texts(args@) =~= seq![script@, "--port"@, "8000"@]);
    CommandLine {
        program: String::from_str(python),
        args,
        directory: Some(worker_directory(project_root, platform)),
        stdout: Output::Captured,
        stderr: Output::Captured,
    }
}

/// The address that the readiness gate polls: the worker's health route on
/// the loopback interface, at the port that the worker is started with.
pub fn health_url() -> (url: &'static str)
    ensures
        url@ == "http://127.0.0.1:8000/health"@,
{
    "http://127.0.0.1:8000/health"
}

} // verus!
