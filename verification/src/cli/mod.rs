//! The command-line surface, as plain data.

pub mod actions;
pub mod commands;
