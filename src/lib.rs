//! Decides which kind of project a directory holds, which test command to
//! run for it, and whether the captured output of that command reports a
//! clean test run.

pub mod evaluation;
pub mod lines;
pub mod project;
