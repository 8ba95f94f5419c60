//! Command dispatch for the `bench` and `update` subcommands of a package
//! build tool.
//!
//! The crate turns command-line tokens into option records, decides what to
//! ask of the build engine, and turns what the engine reports into a process
//! exit code and a diagnostic message. It performs no I/O itself: locating
//! the manifest and running the engine are requested through [`bench::Action`]
//! and [`update::Action`], and their results come back as events.

pub mod outcome;
pub mod text;
pub mod flags;
pub mod scan;
pub mod shell;
pub mod manifest;
pub mod bench;
pub mod update;
pub mod usage;
