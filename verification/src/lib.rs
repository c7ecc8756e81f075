//! A verified core for a Fish-shell package manager.
//!
//! The library holds the logic that decides what the tool does: parsing
//! package references, reading and validating package manifests, classifying
//! package files into the shell's configuration directories, building the
//! version-control and shell commands to run, and validating lifecycle event
//! bindings.  Everything that touches the outside world (processes, the file
//! system) is described by plain data that the caller executes.

pub mod cli;
pub mod errors;
pub mod fs_helper;
pub mod git;
pub mod paket;
pub mod helpers;
pub mod paths;
pub mod pkg;
pub mod strutil;
