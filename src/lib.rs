//! Assembly of command-line arguments for build actions.
//!
//! A [`command_line::CommandLine`] is an ordered list of argument-like values
//! plus rendering options. Resolving it against a
//! [`context::ResolutionContext`] yields the flat list of strings that an
//! external process receives.
pub mod command_line;
pub mod context;
pub mod error;
pub mod options;
pub mod text;
pub mod value;
