//! Runs a script in a scripting-language interpreter and reports how it ended.
//!
//! A run takes a script, as a literal or as the path of a file, and an ordered
//! list of directories to put ahead of the interpreter's own module search
//! locations. It executes the script once, in an interpreter embedded in this
//! process or in one started as a process of its own, and reports success when
//! the interpreter's exit status is zero and failure, with what was captured
//! of standard error, when it is not. Nothing is retried and nothing times
//! out.
//!
//! - [`outcome`]: what a run reports, and how an exit status is read.
//! - [`quoting`]: a directory's name as a string literal of the scripting
//!   language.
//! - [`search_path`]: the order in which listed directories are consulted,
//!   and the setup script that puts them there.
//! - [`embedded`]: statements run in the embedded interpreter.
//! - [`runner`]: the decisions of one run, from its first action to its
//!   report; reading files, spawning processes and starting and closing the
//!   interpreter are left to the caller.
//! - [`trace`]: what holds of every run.

pub mod outcome;
pub mod quoting;
pub mod search_path;
pub mod embedded;
pub mod runner;
pub mod trace;
