//! Parsing of user-supplied package references of the form
//! `username/package_name@(tag_name|branch_name)`, or of a local package
//! directory path.

use vstd::prelude::*;
use crate::errors::PaketError;
use crate::paths::components_of;
use crate::paths::components;
use crate::strutil::{
    has_char, head_of, tail_of, trim_of, split_first, str_trim, join_path, lemma_first_ix_min,
};

verus! {

// ---------- what a remote reference parses to ----------

/// Does `s` parse as a remote `owner/name[@tag]` reference?
pub open spec fn remote_parse_ok(s: Seq<char>) -> bool {
    &&& s.len() > 0
    &&& has_char(s, '/')
    &&& trim_of(head_of(s, '/')).len() > 0
    &&& trim_of(head_of(tail_of(s, '/'), '@')).len() > 0
}

/// The owner part of a remote reference: before the first `/`, trimmed.
pub open spec fn remote_owner(s: Seq<char>) -> Seq<char> {
    trim_of(head_of(s, '/'))
}

/// The name part of a remote reference: after the first `/` and before the
/// first `@` from there, trimmed.
pub open spec fn remote_name(s: Seq<char>) -> Seq<char> {
    trim_of(head_of(tail_of(s, '/'), '@'))
}

/// The tag part of a remote reference: after the first `@` of the part
/// behind the `/`, trimmed; `master` when absent or empty.
pub open spec fn remote_tag(s: Seq<char>) -> Seq<char> {
    let rest = tail_of(s, '/');
    if has_char(rest, '@') && tail_of(rest, '@').len() > 0 {
        trim_of(tail_of(rest, '@'))
    } else {
        "master"@
    }
}

// ---------- the parsed reference ----------

/// A parsed package reference.
#[derive(Debug)]
pub struct PkgNameFmt {
    /// The package owner's name; empty for a local directory reference.
    pub user_name: String,
    /// The package name.
    pub pkg_name: String,
    /// The package version reference (a Git branch or tag).
    pub pkg_tag: String,
    /// The canonical directory path, for a local directory reference.
    pub pkg_path: Option<String>,
}

impl PkgNameFmt {
    /// The canonical local directory path, for a local reference.
    pub open spec fn pkg_path_view(&self) -> Option<Seq<char>> {
        match self.pkg_path {
            Some(p) => Some(p@),
            None => None,
        }
    }

    /// Parse a package reference.  `local_dir` carries the canonicalized
    /// path when `pkg_name` names a directory that exists on disk (a check
    /// only the caller can make); the reference is then local and the
    /// package name is the final path segment.  Otherwise the reference
    /// must read `username/package_name@(tag_name|branch_name)`, with the
    /// tag defaulting to `master`.
    pub fn from(pkg_name: &str, local_dir: Option<&str>) -> (r: Result<PkgNameFmt, PaketError>)
        ensures
            match r {
                Ok(f) => {
                    &&& pkg_name@.len() > 0
                    &&& match local_dir {
                        Some(d) => {
                            &&& f.user_name@ == Seq::<char>::empty()
                            &&& components_of(d@).len() > 0
                            &&& f.pkg_name@ == components_of(d@).last()
                            &&& f.pkg_tag@ == "master"@
                            &&& f.pkg_path_view() == Some(d@)
                        },
                        None => {
                            &&& remote_parse_ok(pkg_name@)
                            &&& f.user_name@ == remote_owner(pkg_name@)
                            &&& f.pkg_name@ == remote_name(pkg_name@)
                            &&& f.pkg_tag@ == remote_tag(pkg_name@)
                            &&& f.pkg_path_view() is None
                        },
                    }
                },
                Err(e) => {
                    &&& e is InvalidReference
                    &&& {
                        ||| pkg_name@.len() == 0
                        ||| (local_dir matches Some(d) && components_of(d@).len() == 0)
                        ||| (local_dir is None && !remote_parse_ok(pkg_name@))
                    }
                },
            },
    {
        if pkg_name.is_empty() {
            return Err(
                PaketError::InvalidReference(
                    String::from_str(
                        "provide a package name or a local Git package directory path.",
                    ),
                ),
            );
        }
        if let Some(dir) = local_dir {
            let comps = components(dir);
            if comps.len() == 0 {
                return Err(
                    PaketError::InvalidReference(
                        crate::strutil::concat3(
                            "directory name for path \"",
                            dir,
                            "\" was not determined",
                        ),
                    ),
                );
            }
            let last = comps[comps.len() - 1].clone();
            return Ok(
                PkgNameFmt {
                    user_name: String::new(),
                    pkg_name: last,
                    pkg_tag: String::from_str("master"),
                    pkg_path: Some(String::from_str(dir)),
                },
            );
        }
        let (owner_raw, rest_opt) = split_first(pkg_name, '/');
        let rest = match rest_opt {
            Some(rest) => rest,
            None => {
                return Err(
                    PaketError::InvalidReference(
                        String::from_str(
                            "provide a valid package format. E.g username/package_name@(tag_name|branch_name)",
                        ),
                    ),
                );
            },
        };
        let owner = str_trim(owner_raw.as_str());
        if owner.as_str().is_empty() {
            return Err(
                PaketError::InvalidReference(
                    String::from_str(
                        "provided package has not a valid `username/package_name` format or if it was a package path directory it doesn't exist or is inaccessible.",
                    ),
                ),
            );
        }
        let (name_raw, tag_opt) = split_first(rest.as_str(), '@');
        let name = str_trim(name_raw.as_str());
        if name.as_str().is_empty() {
            return Err(
                PaketError::InvalidReference(
                    String::from_str(
                        "provide a valid package name value. E.g username/package_name",
                    ),
                ),
            );
        }
        let tag = match tag_opt {
            Some(t) => {
                if t.as_str().is_empty() {
                    String::from_str("master")
                } else {
                    str_trim(t.as_str())
                }
            },
            None => String::from_str("master"),
        };
        Ok(PkgNameFmt { user_name: owner, pkg_name: name, pkg_tag: tag, pkg_path: None })
    }

    /// The local directory path, when the reference is a local one.
    pub fn get_pkg_path(&self) -> (r: Option<String>)
        ensures
            match r {
                Some(p) => self.pkg_path_view() == Some(p@),
                None => self.pkg_path_view() is None,
            },
    {
        match &self.pkg_path {
            Some(p) => Some(p.clone()),
            None => None,
        }
    }

    /// The version reference to hand to the source provider: the trimmed
    /// tag, or nothing when it is empty.
    pub fn tag_option(&self) -> (r: Option<String>)
        ensures
            match r {
                Some(t) => t@ == trim_of(self.pkg_tag@) && t@.len() > 0,
                None => trim_of(self.pkg_tag@).len() == 0,
            },
    {
        let t = str_trim(self.pkg_tag.as_str());
        if t.as_str().is_empty() {
            None
        } else {
            Some(t)
        }
    }

    /// The owner and package name joined as `username/package_name`.
    pub fn get_short_name(&self) -> (r: String)
        ensures
            r@ == self.user_name@ + seq!['/'] + self.pkg_name@,
    {
        join_path(self.user_name.as_str(), self.pkg_name.as_str())
    }
}

// ---------- laws of the parser ----------

/// A reference assembled as `owner/name` or `owner/name@tag` from trimmed,
/// non-empty parts (the owner without `/`, the name without `@`) parses
/// back to exactly those parts, with the tag defaulting to `master` when it
/// is omitted.  With the short name being `user_name/pkg_name`, the parse
/// of `owner/name` therefore round-trips to that very string.
pub proof fn lemma_parse_reference_roundtrip(
    owner: Seq<char>,
    name: Seq<char>,
    tag: Option<Seq<char>>,
)
    requires
        owner.len() > 0,
        name.len() > 0,
        !has_char(owner, '/'),
        !has_char(name, '@'),
        trim_of(owner) == owner,
        trim_of(name) == name,
        match tag {
            Some(t) => t.len() > 0 && trim_of(t) == t,
            None => true,
        },
    ensures
        ({
            let s = owner + seq!['/'] + name + (match tag {
                Some(t) => seq!['@'] + t,
                None => Seq::<char>::empty(),
            });
            &&& remote_parse_ok(s)
            &&& remote_owner(s) == owner
            &&& remote_name(s) == name
            &&& remote_tag(s) == (match tag {
                Some(t) => t,
                None => "master"@,
            })
        }),
{
    let rest = name + (match tag {
        Some(t) => seq!['@'] + t,
        None => Seq::<char>::empty(),
    });
    let s = owner + seq!['/'] + name + (match tag {
        Some(t) => seq!['@'] + t,
        None => Seq::<char>::empty(),
    });
    assert(s =~= owner + seq!['/'] + rest);
    assert(s[owner.len() as int] == '/');
    assert forall|j: int| 0 <= j < owner.len() implies s[j] != '/' by {
        assert(s[j] == owner[j]);
    }
    lemma_first_ix_min(s, '/', owner.len() as int);
    assert(head_of(s, '/') =~= owner);
    assert(tail_of(s, '/') =~= rest);
    match tag {
        Some(t) => {
            assert(rest[name.len() as int] == '@');
            assert forall|j: int| 0 <= j < name.len() implies rest[j] != '@' by {
                assert(rest[j] == name[j]);
            }
            lemma_first_ix_min(rest, '@', name.len() as int);
            assert(head_of(rest, '@') =~= name);
            assert(tail_of(rest, '@') =~= t);
        },
        None => {
            assert(rest =~= name);
            assert(!has_char(rest, '@'));
            assert(head_of(rest, '@') =~= name);
        },
    }
}

/// A string without a `/` is no remote reference: when it names no existing
/// directory either, parsing can only fail.
pub proof fn lemma_parse_rejects_plain_names(s: Seq<char>)
    requires
        !has_char(s, '/'),
    ensures
        !remote_parse_ok(s),
{
}

} // verus!
