//! The per-command context: the `Paket` configuration together with the Git
//! interface rooted at the package cache directory.  The command sequences
//! themselves live with the caller, which runs the commands these values
//! describe.

use vstd::prelude::*;
use crate::errors::PaketError;
use crate::git::Git;
use crate::paket::Paket;
use crate::strutil::concat3;

verus! {

/// The context every `Paket` command works in.
pub struct Actions<'a> {
    /// The configuration and engine.
    pub paket: &'a Paket,
    /// The Git interface, rooted at the package cache directory.
    pub git: Git,
}

impl<'a> Actions<'a> {
    /// A command context for `paket`, with Git rooted at the package cache
    /// directory.
    pub fn new(paket: &'a Paket) -> (r: Actions<'a>)
        ensures
            r.git.base_dir@ == paket.paths.paket_dir@,
            r.git.current_dir@ == paket.paths.paket_dir@,
    {
        let git = Git::new(paket.paths.paket_dir.as_str());
        Actions { paket, git }
    }

    /// An install may only proceed when the package is not in the cache
    /// yet; `pkg_exists` says whether it is, a fact only the caller can
    /// supply.
    pub fn check_install_target(pkg_exists: bool, short_name: &str) -> (r: Result<(), PaketError>)
        ensures
            match r {
                Ok(()) => !pkg_exists,
                Err(e) => pkg_exists && e is PathError,
            },
    {
        if pkg_exists {
            Err(
                PaketError::PathError(
                    concat3(
                        "package `",
                        short_name,
                        "` is already installed. Try to use the `up` command to upgrade it.",
                    ),
                ),
            )
        } else {
            Ok(())
        }
    }

    /// An update may only proceed when the package is in the cache.
    pub fn check_update_target(pkg_exists: bool, short_name: &str) -> (r: Result<(), PaketError>)
        ensures
            match r {
                Ok(()) => pkg_exists,
                Err(e) => !pkg_exists && e is PathError,
            },
    {
        if pkg_exists {
            Ok(())
        } else {
            Err(
                PaketError::PathError(
                    concat3(
                        "package `",
                        short_name,
                        "` is not installed. Try to use the `add` command to install it first.",
                    ),
                ),
            )
        }
    }

    /// A removal may only proceed when the package is in the cache.
    pub fn check_remove_target(pkg_exists: bool, short_name: &str) -> (r: Result<(), PaketError>)
        ensures
            match r {
                Ok(()) => pkg_exists,
                Err(e) => !pkg_exists && e is PathError,
            },
    {
        if pkg_exists {
            Ok(())
        } else {
            Err(
                PaketError::PathError(
                    concat3(
                        "package `",
                        short_name,
                        "` is not installed or was already removed.",
                    ),
                ),
            )
        }
    }

    /// After a clone the package must be in the cache, else the clone did
    /// not succeed.
    pub fn check_cloned(pkg_exists: bool, short_name: &str) -> (r: Result<(), PaketError>)
        ensures
            match r {
                Ok(()) => pkg_exists,
                Err(e) => !pkg_exists && e is SubprocessError,
            },
    {
        if pkg_exists {
            Ok(())
        } else {
            Err(
                PaketError::SubprocessError(
                    concat3("package `", short_name, "` was not cloned with success."),
                ),
            )
        }
    }
}

} // verus!
