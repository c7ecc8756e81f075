//! Package references and manifests.

pub mod config;
pub mod fmt;
pub mod validator;
