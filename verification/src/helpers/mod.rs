//! Small shared helpers: command descriptions and file-content decoding.

pub mod cmd;
pub mod file;
