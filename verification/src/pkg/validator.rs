//! Validation of a package name given as `username/package_name@(tag_name|branch_name)`.

use vstd::prelude::*;
use crate::errors::PaketError;
use crate::pkg::fmt::{remote_parse_ok, remote_owner, remote_name, remote_tag};
use crate::strutil::{split_first, str_trim, join_path};

verus! {

/// A validated remote package name, split into its parts.
#[derive(Debug)]
pub struct PkgValidator {
    /// The package owner's name.
    pub username: String,
    /// The package name.
    pub pkg_name: String,
    /// The package version reference (a Git branch or tag).
    pub pkg_tag: String,
}

impl PkgValidator {
    /// Validate a package name of the format
    /// `username/package_name@(tag_name|branch_name)` and split it into its
    /// parts, the tag defaulting to `master`.
    pub fn new(pkg_name: &str) -> (r: Result<PkgValidator, PaketError>)
        ensures
            match r {
                Ok(v) => {
                    &&& remote_parse_ok(pkg_name@)
                    &&& v.username@ == remote_owner(pkg_name@)
                    &&& v.pkg_name@ == remote_name(pkg_name@)
                    &&& v.pkg_tag@ == remote_tag(pkg_name@)
                },
                Err(e) => e is InvalidReference && !remote_parse_ok(pkg_name@),
            },
    {
        if pkg_name.is_empty() {
            return Err(PaketError::InvalidReference(String::from_str("provide a package name.")));
        }
        let (owner_raw, rest_opt) = split_first(pkg_name, '/');
        let rest = match rest_opt {
            Some(rest) => rest,
            None => {
                return Err(
                    PaketError::InvalidReference(
                        String::from_str(
                            "provide a valid package format. E.g username/package_name@(tag_name|branch_name)",
                        ),
                    ),
                );
            },
        };
        let username = str_trim(owner_raw.as_str());
        if username.as_str().is_empty() {
            return Err(
                PaketError::InvalidReference(
                    String::from_str(
                        "provide a valid user and package name format. E.g username/package_name",
                    ),
                ),
            );
        }
        let (name_raw, tag_opt) = split_first(rest.as_str(), '@');
        let name = str_trim(name_raw.as_str());
        if name.as_str().is_empty() {
            return Err(
                PaketError::InvalidReference(
                    String::from_str(
                        "provide a valid package name value. E.g username/package_name",
                    ),
                ),
            );
        }
        let pkg_tag = match tag_opt {
            Some(t) => {
                if t.as_str().is_empty() {
                    String::from_str("master")
                } else {
                    str_trim(t.as_str())
                }
            },
            None => String::from_str("master"),
        };
        Ok(PkgValidator { username, pkg_name: name, pkg_tag })
    }

    /// The username and package name joined as `username/package_name`.
    pub fn get_user_pkg_name(&self) -> (r: String)
        ensures
            r@ == self.username@ + seq!['/'] + self.pkg_name@,
    {
        join_path(self.username.as_str(), self.pkg_name.as_str())
    }
}

} // verus!
