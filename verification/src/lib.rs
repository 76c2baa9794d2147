//! Core of a tool that runs named test commands against commits and
//! remembers the verdicts by the content of each commit, so that a tree
//! that was tested once is never tested again.
//!
//! The library decides and the caller acts: it reads no file and runs no
//! program. What is to be run comes back as values (`command`), what `git`
//! answered goes in as text, and each job is a state that events take
//! from step to step (`scheduler`). `store` holds the verdicts, `config`
//! the test definitions, `commands` what each command of the tool comes
//! to, and `laws` what holds of all of them.

pub mod cli;
pub mod command;
pub mod commands;
pub mod config;
pub mod error;
pub mod git;
pub mod laws;
pub mod log_util;
pub mod path;
pub mod pattern;
pub mod resolve;
pub mod scheduler;
pub mod store;
pub mod text;
