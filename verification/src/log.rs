//! Lines for the operator's console.

use vstd::prelude::*;

verus! {

/// Where on the console a line goes.
#[derive(Clone, Copy, Debug, PartialEq, Eq, Structural)]
pub enum Level {
    /// Normal output.
    Info,
    /// Error-level output.
    Error,
}

/// One line for the console.
#[derive(Clone, Debug, PartialEq, Eq)]
pub struct LogLine {
    pub level: Level,
    pub text: String,
}

impl View for LogLine {
    type V = (Level, Seq<char>);

    open spec fn view(&self) -> (Level, Seq<char>) {
        (self.level, self.text@)
    }
}

} // verus!
