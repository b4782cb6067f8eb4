//! Decision core of a desktop shell that supervises one backend worker.
//!
//! The shell finds an interpreter, makes sure the worker's dependencies are
//! there, starts the worker, relays its output and waits until it answers on
//! its health endpoint. Then the splash surface gives way to the main
//! surface.
//!
//! Every function here is pure: it takes what the shell observed (whether a
//! file exists, how a child process ended, whether a poll succeeded) and
//! answers with what the shell has to do next. The shell owns all input and
//! output.

pub mod deps;
pub mod gate;
pub mod geometry;
pub mod launch;
pub mod log;
pub mod paths;
pub mod process;
pub mod relay;
pub mod worker;
