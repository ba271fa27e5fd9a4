//! Core logic of a tool that keeps globally installed Cargo packages fresh:
//! parsing the package manager's "list installed" and registry search
//! output, classifying updates as stable or prerelease, resolving latest
//! versions under two stability policies, driving upgrades through a
//! retry-and-verify state machine, aggregating the outcomes, and the
//! localized message tables. Everything here is verified; subprocesses,
//! terminal rendering, and the command line live outside.

pub mod locale;
pub mod models;
pub mod package;
pub mod summary;
pub mod text;
pub mod updater;
