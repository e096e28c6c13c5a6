//! Turns a repository release into an installable package: version
//! derivation, release resolution, command templating, packaging metadata and
//! the per-package build state machine.
pub mod capture;
pub mod cli;
pub mod command;
pub mod control;
pub mod fetch;
pub mod listing;
pub mod naming;
pub mod package;
pub mod pipeline;
pub mod resolve;
pub mod select;
pub mod version;
