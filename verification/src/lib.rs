//! Decision logic of a code-execution sandbox service.
//!
//! The service takes a submission in one of a fixed set of languages, builds a
//! throw-away overlay jail for it, runs the language's build-and-test recipe
//! inside the jail under a wall-clock limit, and answers with the captured
//! output. This crate holds the rules of that lifecycle as verified functions
//! on plain values; mounting, spawning and serving are left to the caller.

pub mod lang;
pub mod launch;
pub mod paths;
pub mod payload;
pub mod reaper;
pub mod reply;
pub mod run;
pub mod timeout;
pub mod tmpdir;
