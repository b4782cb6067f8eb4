//! The output relay: where a line of the worker's output goes.
//!
//! Until the readiness flag is set, the worker's output is shown on the
//! splash surface. From then on it goes to the console.

use crate::log::{Level, LogLine};
use vstd::prelude::*;

verus! {

/// One of the worker's two output streams.
#[derive(Clone, Copy, Debug, PartialEq, Eq, Structural)]
pub enum Stream {
    Stdout,
    Stderr,
}

/// Where one line is delivered.
#[derive(Clone, Debug, PartialEq, Eq)]
pub enum Delivery {
    /// To the splash surface, as one log event that carries the line.
    Splash(String),
    /// To the console.
    Console(LogLine),
}

/// A [`Delivery`] as plain text.
pub ghost enum DeliveryView {
    Splash(Seq<char>),
    Console(Level, Seq<char>),
}

impl View for Delivery {
    type V = DeliveryView;

    open spec fn view(&self) -> DeliveryView {
        match self {
            Delivery::Splash(line) => DeliveryView::Splash(line@),
            Delivery::Console(line) => DeliveryView::Console(line.level, line.text@),
        }
    }
}

/// The console level for lines of `stream`: the error stream is error-level.
pub open spec fn level_of(stream: Stream) -> Level {
    match stream {
        Stream::Stdout => Level::Info,
        Stream::Stderr => Level::Error,
    }
}

/// Where a line of `stream` goes, given the readiness flag as read for this
/// line. It goes to one place only, unchanged.
pub open spec fn route_spec(stream: Stream, ready: bool, line: Seq<char>) -> DeliveryView {
    if ready {
        DeliveryView::Console(level_of(stream), line)
    } else {
        DeliveryView::Splash(line)
    }
}

/// Routes one line of the worker's output.
///
/// `ready` is the readiness flag as the relay read it for this line.
pub fn route_line(stream: Stream, ready: bool, line: String) -> (delivery: Delivery)
    ensures
        delivery@ == route_spec(stream, ready, line@),
{
    if ready {
        let level = match stream {
            Stream::Stdout => Level::Info,
            Stream::Stderr => Level::Error,
        };
        Delivery::Console(LogLine { level, text: line })
    } else {
        Delivery::Splash(line)
    }
}

/// The name of the log event that carries a line to the splash surface.
pub fn log_event() -> (name: &'static str)
    ensures
        name@ == "backend-log"@,
{
    "backend-log"
}

} // verus!
