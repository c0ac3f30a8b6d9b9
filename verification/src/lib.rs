//! The orchestration engine of a mutation-testing harness.
//!
//! The crate holds the decisions of a run: which phases a scenario goes
//! through and when its pipeline stops, how the test timeout is derived from
//! the baseline, in which order the mutants are tried, how the results
//! directory is rotated, and which entries are copied to the scratch
//! workspace. Running the build tool and touching the file system is left to
//! the caller, who performs each step and reports what came of it.

pub mod lab;
pub mod options;
pub mod outcome;
pub mod output;
pub mod phase;
pub mod pipeline;
pub mod scenario;
pub mod scratch;
pub mod span;
