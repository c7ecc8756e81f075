//! The parsed command-line options.  Argument parsing itself happens
//! outside the library; these types carry its result.

use vstd::prelude::*;

verus! {

/// The selected subcommand, if any.
pub struct CommandOpts {
    /// The subcommand the user asked for.
    pub commands: Option<Commands>,
}

/// One of the package manager's subcommands.
pub enum Commands {
    /// Install a new package from a local or remote repository.
    Add {
        /// A Git host provider like github, bitbucket or gitlab.
        provider: String,
        /// Package name, e.g. `joseluisq/gitnow`.
        pkg_name: String,
    },
    /// Update an existing package from a local or remote repository.
    Update {
        /// Package name, e.g. `joseluisq/gitnow`.
        pkg_name: String,
    },
    /// Uninstall an existing package from a local or remote repository.
    Remove {
        /// Package name, e.g. `joseluisq/gitnow`.
        pkg_name: String,
    },
}

} // verus!
