//! Child processes as data: what to run, and how a run ended.

use vstd::prelude::*;

verus! {

/// How a child process ended.
#[derive(Clone, Copy, Debug, PartialEq, Eq, Structural)]
pub enum Exit {
    /// It ran and reported success.
    Succeeded,
    /// It ran and reported failure.
    Failed,
    /// It could not be started, or its status could not be read.
    NotRun,
}

/// What becomes of one of a child's output streams.
#[derive(Clone, Copy, Debug, PartialEq, Eq, Structural)]
pub enum Output {
    /// The child writes where the shell writes.
    Inherited,
    /// What the child writes is thrown away.
    Discarded,
    /// What the child writes is captured, to be relayed line by line.
    Captured,
}

/// A child process to start.
#[derive(Clone, Debug, PartialEq, Eq)]
pub struct CommandLine {
    pub program: String,
    pub args: Vec<String>,
    /// The working directory, where it differs from the shell's.
    pub directory: Option<String>,
    pub stdout: Output,
    pub stderr: Output,
}

/// A [`CommandLine`] as plain text.
pub ghost struct CommandLineView {
    pub program: Seq<char>,
    pub args: Seq<Seq<char>>,
    pub directory: Option<Seq<char>>,
    pub stdout: Output,
    pub stderr: Output,
}

/// The text of each string of `strings`.
pub open spec fn texts(strings: Seq<String>) -> Seq<Seq<char>> {
    strings.map_values(|s: String| s@)
}

impl View for CommandLine {
    type V = CommandLineView;

    open spec fn view(&self) -> CommandLineView {
        CommandLineView {
            program: self.program@,
            args: texts(self.args@),
            directory: match self.directory {
                Some(directory) => Some(directory@),
                None => None,
            },
            stdout: self.stdout,
            stderr: self.stderr,
        }
    }
}

} // verus!
