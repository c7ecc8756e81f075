//! The typed shape of the package manifest file (`paket.toml`) and its
//! reading: the text is parsed by the toml crate, the parsed tree is turned
//! into the typed shape by verified code, and every key the shape does not
//! recognize is collected as a warning.

use vstd::prelude::*;
use crate::errors::PaketError;
use crate::paths::extension_of;
use crate::paths::path_extension;
use crate::strutil::concat_str;
use crate::strutil::concat3;
use crate::strutil::str_eq;

verus! {

/// A dependency declaration (recognized but unused downstream).
#[derive(Debug, Clone)]
pub struct TomlDependency {
    /// The `version` key.
    pub version: Option<String>,
    /// The `path` key.
    pub path: Option<String>,
    /// The `git` key.
    pub git: Option<String>,
    /// The `branch` key.
    pub branch: Option<String>,
    /// The `tag` key.
    pub tag: Option<String>,
    /// The `rev` key.
    pub rev: Option<String>,
    /// The `package` key.
    pub package: Option<String>,
}

/// The lifecycle event bindings, each a string of the form
/// `<package_name>_<event_name>`.
#[derive(Debug, Clone)]
pub struct TomlEvents {
    /// The `after-install` binding.
    pub after_install: Option<String>,
    /// The `after-update` binding.
    pub after_update: Option<String>,
    /// The `before-uninstall` binding.
    pub before_uninstall: Option<String>,
}

/// The `package` section of the manifest.
#[derive(Debug, Clone)]
pub struct TomlPackage {
    /// The declared package name.
    pub name: String,
    /// The declared version, a valid semantic version string.
    pub version: String,
    /// The `authors` list.
    pub authors: Option<Vec<String>>,
    /// Extra files to place, as relative path suffixes.
    pub extra_files: Option<Vec<String>>,
    /// The `description` text.
    pub description: Option<String>,
    /// The `keywords` list.
    pub keywords: Option<Vec<String>>,
    /// The `categories` list.
    pub categories: Option<Vec<String>>,
    /// The `license` text.
    pub license: Option<String>,
    /// The `repository` URL.
    pub repository: Option<String>,
    /// Event bindings given inside the `package` section.
    pub events: Option<TomlEvents>,
}

/// A parsed manifest.
#[derive(Debug, Clone)]
pub struct TomlManifest {
    /// The `package` section; a manifest without one is rejected before any
    /// file operation.
    pub package: Option<Box<TomlPackage>>,
    /// The `dependencies` table, keyed by dependency name.
    pub dependencies: Option<Vec<(String, TomlDependency)>>,
    /// The top-level `events` section.
    pub events: Option<Box<TomlEvents>>,
}

// ---------- the trusted boundary to the toml and semver crates ----------

#[verifier::external_type_specification]
#[verifier::external_body]
pub struct ExTomlValue(toml::Value);

/// What the toml parser makes of a text, when the text parses.
pub uninterp spec fn toml_parse(s: Seq<char>) -> Option<toml::Value>;

/// The subvalue a table value holds at a string key; `None` at a missing
/// key and on values that are no tables.
pub uninterp spec fn toml_sub(v: toml::Value, key: Seq<char>) -> Option<toml::Value>;

/// The payload of a string value; `None` on other values.
pub uninterp spec fn toml_str_of(v: toml::Value) -> Option<Seq<char>>;

/// The items of an array value; `None` on other values.
pub uninterp spec fn toml_items_of(v: toml::Value) -> Option<Seq<toml::Value>>;

/// The keys of a table value, in the order the table serves them; `None`
/// on other values.
pub uninterp spec fn toml_keys_of(v: toml::Value) -> Option<Seq<Seq<char>>>;

/// Whether a string is a valid semantic version.
pub uninterp spec fn semver_ok(s: Seq<char>) -> bool;

/// Relies on the toml crate's document parser (`str::parse::<toml::Table>`):
/// whether and how a text parses depends on the text alone.
#[verifier::external_body]
fn parse_toml_str(text: &str) -> (r: Result<toml::Value, String>)
    ensures
        match r {
            Ok(v) => toml_parse(text@) == Some(v),
            Err(_) => toml_parse(text@) is None,
        },
{
    match text.parse::<toml::Table>() {
        Ok(t) => Ok(toml::Value::Table(t)),
        Err(e) => Err(e.to_string()),
    }
}

/// Relies on `toml::Value::get` with a string index: the lookup of a key in
/// a table value, `None` on other values and missing keys.
#[verifier::external_body]
fn toml_get<'a>(v: &'a toml::Value, key: &str) -> (r: Option<&'a toml::Value>)
    ensures
        match r {
            Some(u) => toml_sub(*v, key@) == Some(*u),
            None => toml_sub(*v, key@) is None,
        },
{
    v.get(key)
}

/// Relies on `toml::Value::as_str`: the payload of a string value.
#[verifier::external_body]
fn toml_as_str<'a>(v: &'a toml::Value) -> (r: Option<&'a str>)
    ensures
        match r {
            Some(s) => toml_str_of(*v) == Some(s@),
            None => toml_str_of(*v) is None,
        },
{
    v.as_str()
}

/// Relies on `toml::Value::as_array`: the items of an array value.
#[verifier::external_body]
fn toml_as_array<'a>(v: &'a toml::Value) -> (r: Option<&'a Vec<toml::Value>>)
    ensures
        match r {
            Some(a) => toml_items_of(*v) == Some(a@),
            None => toml_items_of(*v) is None,
        },
{
    v.as_array()
}

/// Relies on `toml::Value::as_table` and `toml::map::Map::keys`: the keys
/// of a table value, which are exactly the keys its lookup serves.
#[verifier::external_body]
fn toml_table_keys(v: &toml::Value) -> (r: Option<Vec<String>>)
    ensures
        match r {
            Some(ks) => {
                &&& toml_keys_of(*v) == Some(ks.deep_view())
                &&& forall|k: Seq<char>|
                    #![trigger toml_sub(*v, k)]
                    toml_sub(*v, k) is Some <==> ks.deep_view().contains(k)
            },
            None => toml_keys_of(*v) is None,
        },
{
    match v.as_table() {
        Some(t) => Some(t.keys().cloned().collect()),
        None => None,
    }
}

/// Relies on `semver::Version::parse`: whether a string is a valid
/// semantic version depends on the string alone.
#[verifier::external_body]
fn semver_valid(s: &str) -> (r: bool)
    ensures
        r == semver_ok(s@),
{
    semver::Version::parse(s).is_ok()
}

// ---------- the shape the manifest must have ----------

/// The manifest key that lists extra files to place.
pub open spec fn extras_key_view() -> Seq<char> {
    "inclu"@ + "de"@
}

/// The manifest key that lists extra files to place.
fn extras_key() -> (r: String)
    ensures
        r@ == extras_key_view(),
{
    concat_str("inclu", "de")
}

/// An absent key, or a string value.
pub open spec fn opt_str_ok(o: Option<toml::Value>) -> bool {
    match o {
        None => true,
        Some(u) => toml_str_of(u) is Some,
    }
}

/// An absent key, or an array value whose items are all strings.
pub open spec fn opt_str_list_ok(o: Option<toml::Value>) -> bool {
    match o {
        None => true,
        Some(u) => match toml_items_of(u) {
            None => false,
            Some(items) => forall|i: int|
                0 <= i < items.len() ==> toml_str_of(#[trigger] items[i]) is Some,
        },
    }
}

/// An event bindings value: a table of the three optional string keys.
pub open spec fn events_value_ok(u: toml::Value) -> bool {
    &&& toml_keys_of(u) is Some
    &&& opt_str_ok(toml_sub(u, "after-install"@))
    &&& opt_str_ok(toml_sub(u, "after-update"@))
    &&& opt_str_ok(toml_sub(u, "before-uninstall"@))
}

/// A dependency value: a table of the seven optional string keys.
pub open spec fn dep_value_ok(u: toml::Value) -> bool {
    &&& toml_keys_of(u) is Some
    &&& opt_str_ok(toml_sub(u, "version"@))
    &&& opt_str_ok(toml_sub(u, "path"@))
    &&& opt_str_ok(toml_sub(u, "git"@))
    &&& opt_str_ok(toml_sub(u, "branch"@))
    &&& opt_str_ok(toml_sub(u, "tag"@))
    &&& opt_str_ok(toml_sub(u, "rev"@))
    &&& opt_str_ok(toml_sub(u, "package"@))
}

/// A `dependencies` value: a table whose entries are all dependency
/// values.
pub open spec fn deps_ok(o: Option<toml::Value>) -> bool {
    match o {
        None => true,
        Some(d) => match toml_keys_of(d) {
            None => false,
            Some(ks) => forall|i: int|
                0 <= i < ks.len() ==> match toml_sub(d, #[trigger] ks[i]) {
                    Some(u) => dep_value_ok(u),
                    None => true,
                },
        },
    }
}

/// A `package` value: a table with a string name, a valid semantic version
/// string, and well-typed optional fields.
pub open spec fn package_value_ok(p: toml::Value) -> bool {
    &&& toml_keys_of(p) is Some
    &&& (match toml_sub(p, "name"@) {
        Some(nv) => toml_str_of(nv) is Some,
        None => false,
    })
    &&& (match toml_sub(p, "version"@) {
        Some(vv) => match toml_str_of(vv) {
            Some(vs) => semver_ok(vs),
            None => false,
        },
        None => false,
    })
    &&& opt_str_list_ok(toml_sub(p, "authors"@))
    &&& opt_str_list_ok(toml_sub(p, extras_key_view()))
    &&& opt_str_ok(toml_sub(p, "description"@))
    &&& opt_str_list_ok(toml_sub(p, "keywords"@))
    &&& opt_str_list_ok(toml_sub(p, "categories"@))
    &&& opt_str_ok(toml_sub(p, "license"@))
    &&& opt_str_ok(toml_sub(p, "repository"@))
    &&& (match toml_sub(p, "events"@) {
        None => true,
        Some(u) => events_value_ok(u),
    })
}

/// A parsed manifest tree of the expected shape.
pub open spec fn manifest_ok(v: toml::Value) -> bool {
    &&& (match toml_sub(v, "package"@) {
        None => true,
        Some(p) => package_value_ok(p),
    })
    &&& deps_ok(toml_sub(v, "dependencies"@))
    &&& (match toml_sub(v, "events"@) {
        None => true,
        Some(u) => events_value_ok(u),
    })
}

// ---------- what the typed shape holds, relative to the tree ----------

/// `o` carries the string payload of the value at the key, or nothing when
/// the key is absent.
pub open spec fn opt_str_matches(o: Option<String>, sub: Option<toml::Value>) -> bool {
    match sub {
        None => o is None,
        Some(u) => match o {
            Some(s) => toml_str_of(u) == Some(s@),
            None => false,
        },
    }
}

/// `o` carries the string items of the array at the key, or nothing when
/// the key is absent.
pub open spec fn str_list_matches(o: Option<Vec<String>>, sub: Option<toml::Value>) -> bool {
    match sub {
        None => o is None,
        Some(u) => match o {
            None => false,
            Some(l) => match toml_items_of(u) {
                None => false,
                Some(items) => l.deep_view().len() == items.len() && forall|i: int|
                    0 <= i < items.len() ==> Some(l.deep_view()[i]) == toml_str_of(
                        #[trigger] items[i],
                    ),
            },
        },
    }
}

/// `e` carries the three bindings of the events value `u`.
pub open spec fn events_value_matches(e: TomlEvents, u: toml::Value) -> bool {
    &&& opt_str_matches(e.after_install, toml_sub(u, "after-install"@))
    &&& opt_str_matches(e.after_update, toml_sub(u, "after-update"@))
    &&& opt_str_matches(e.before_uninstall, toml_sub(u, "before-uninstall"@))
}

/// `dep` carries the seven fields of the dependency value `u`.
pub open spec fn dep_value_matches(dep: TomlDependency, u: toml::Value) -> bool {
    &&& opt_str_matches(dep.version, toml_sub(u, "version"@))
    &&& opt_str_matches(dep.path, toml_sub(u, "path"@))
    &&& opt_str_matches(dep.git, toml_sub(u, "git"@))
    &&& opt_str_matches(dep.branch, toml_sub(u, "branch"@))
    &&& opt_str_matches(dep.tag, toml_sub(u, "tag"@))
    &&& opt_str_matches(dep.rev, toml_sub(u, "rev"@))
    &&& opt_str_matches(dep.package, toml_sub(u, "package"@))
}

/// `dl` carries, in key order, the entries of the dependency table `d`
/// with keys `ks`.
pub open spec fn deps_table_matches(
    dl: Seq<(String, TomlDependency)>,
    d: toml::Value,
    ks: Seq<Seq<char>>,
) -> bool {
    &&& dl.len() == ks.len()
    &&& forall|i: int|
        0 <= i < ks.len() ==> (#[trigger] dl[i]).0@ == ks[i] && (match toml_sub(d, ks[i]) {
            Some(u) => dep_value_matches(dl[i].1, u),
            None => false,
        })
}

/// `pk` carries the fields of the package value `p`.
pub open spec fn package_value_matches(pk: TomlPackage, p: toml::Value) -> bool {
    &&& (match toml_sub(p, "name"@) {
        Some(nv) => toml_str_of(nv) == Some(pk.name@),
        None => false,
    })
    &&& (match toml_sub(p, "version"@) {
        Some(vv) => toml_str_of(vv) == Some(pk.version@),
        None => false,
    })
    &&& semver_ok(pk.version@)
    &&& str_list_matches(pk.authors, toml_sub(p, "authors"@))
    &&& str_list_matches(pk.extra_files, toml_sub(p, extras_key_view()))
    &&& opt_str_matches(pk.description, toml_sub(p, "description"@))
    &&& str_list_matches(pk.keywords, toml_sub(p, "keywords"@))
    &&& str_list_matches(pk.categories, toml_sub(p, "categories"@))
    &&& opt_str_matches(pk.license, toml_sub(p, "license"@))
    &&& opt_str_matches(pk.repository, toml_sub(p, "repository"@))
    &&& (match toml_sub(p, "events"@) {
        None => pk.events is None,
        Some(u) => pk.events matches Some(e) && events_value_matches(e, u),
    })
}

/// `m` carries the three sections of the manifest tree `v`.
pub open spec fn manifest_matches(m: TomlManifest, v: toml::Value) -> bool {
    &&& (match toml_sub(v, "package"@) {
        None => m.package is None,
        Some(p) => m.package matches Some(bp) && package_value_matches(*bp, p),
    })
    &&& (match toml_sub(v, "dependencies"@) {
        None => m.dependencies is None,
        Some(d) => m.dependencies matches Some(dl) && (match toml_keys_of(d) {
            Some(ks) => deps_table_matches(dl@, d, ks),
            None => false,
        }),
    })
    &&& (match toml_sub(v, "events"@) {
        None => m.events is None,
        Some(u) => m.events matches Some(be) && events_value_matches(*be, u),
    })
}

// ---------- turning the tree into the typed shape ----------

/// The error reported when the tree does not fit the shape.
fn deser_err() -> (r: PaketError)
    ensures
        r is ConfigFormatError,
{
    PaketError::ConfigFormatError(
        String::from_str("error during toml configuration file deserialization"),
    )
}

/// The optional string field of `u` at `key`.
fn extract_opt_str(u: &toml::Value, key: &str) -> (r: Result<Option<String>, PaketError>)
    ensures
        match r {
            Ok(o) => opt_str_matches(o, toml_sub(*u, key@)) && opt_str_ok(toml_sub(*u, key@)),
            Err(e) => e is ConfigFormatError && !opt_str_ok(toml_sub(*u, key@)),
        },
{
    match toml_get(u, key) {
        None => Ok(None),
        Some(w) => match toml_as_str(w) {
            Some(s) => Ok(Some(String::from_str(s))),
            None => Err(deser_err()),
        },
    }
}

/// The optional list-of-strings field of `u` at `key`.
fn extract_str_list(u: &toml::Value, key: &str) -> (r: Result<Option<Vec<String>>, PaketError>)
    ensures
        match r {
            Ok(o) => str_list_matches(o, toml_sub(*u, key@)) && opt_str_list_ok(
                toml_sub(*u, key@),
            ),
            Err(e) => e is ConfigFormatError && !opt_str_list_ok(toml_sub(*u, key@)),
        },
{
    let w = match toml_get(u, key) {
        None => {
            return Ok(None);
        },
        Some(w) => w,
    };
    let items = match toml_as_array(w) {
        None => {
            return Err(deser_err());
        },
        Some(a) => a,
    };
    let n = items.len();
    let mut out: Vec<String> = Vec::new();
    let mut i: usize = 0;
    while i < n
        invariant
            n == items@.len(),
            toml_sub(*u, key@) == Some(*w),
            toml_items_of(*w) == Some(items@),
            0 <= i <= n,
            out.deep_view().len() == i,
            forall|j: int|
                0 <= j < i ==> Some(out.deep_view()[j]) == toml_str_of(#[trigger] items@[j]),
        decreases n - i,
    {
        match toml_as_str(&items[i]) {
            Some(s) => {
                out.push(String::from_str(s));
            },
            None => {
                return Err(deser_err());
            },
        }
        i = i + 1;
    }
    Ok(Some(out))
}

/// The typed event bindings of the events value `u`.
fn extract_events(u: &toml::Value) -> (r: Result<TomlEvents, PaketError>)
    ensures
        match r {
            Ok(e) => events_value_ok(*u) && events_value_matches(e, *u),
            Err(e) => e is ConfigFormatError && !events_value_ok(*u),
        },
{
    match toml_table_keys(u) {
        None => {
            return Err(deser_err());
        },
        Some(_) => {},
    }
    let after_install = match extract_opt_str(u, "after-install") {
        Ok(o) => o,
        Err(e) => {
            return Err(e);
        },
    };
    let after_update = match extract_opt_str(u, "after-update") {
        Ok(o) => o,
        Err(e) => {
            return Err(e);
        },
    };
    let before_uninstall = match extract_opt_str(u, "before-uninstall") {
        Ok(o) => o,
        Err(e) => {
            return Err(e);
        },
    };
    Ok(TomlEvents { after_install, after_update, before_uninstall })
}

/// The typed dependency of the dependency value `u`.
fn extract_dep(u: &toml::Value) -> (r: Result<TomlDependency, PaketError>)
    ensures
        match r {
            Ok(dep) => dep_value_ok(*u) && dep_value_matches(dep, *u),
            Err(e) => e is ConfigFormatError && !dep_value_ok(*u),
        },
{
    match toml_table_keys(u) {
        None => {
            return Err(deser_err());
        },
        Some(_) => {},
    }
    let version = match extract_opt_str(u, "version") {
        Ok(o) => o,
        Err(e) => {
            return Err(e);
        },
    };
    let path = match extract_opt_str(u, "path") {
        Ok(o) => o,
        Err(e) => {
            return Err(e);
        },
    };
    let git = match extract_opt_str(u, "git") {
        Ok(o) => o,
        Err(e) => {
            return Err(e);
        },
    };
    let branch = match extract_opt_str(u, "branch") {
        Ok(o) => o,
        Err(e) => {
            return Err(e);
        },
    };
    let tag = match extract_opt_str(u, "tag") {
        Ok(o) => o,
        Err(e) => {
            return Err(e);
        },
    };
    let rev = match extract_opt_str(u, "rev") {
        Ok(o) => o,
        Err(e) => {
            return Err(e);
        },
    };
    let package = match extract_opt_str(u, "package") {
        Ok(o) => o,
        Err(e) => {
            return Err(e);
        },
    };
    Ok(TomlDependency { version, path, git, branch, tag, rev, package })
}

/// The typed dependency table of the dependencies value `d`.
fn extract_deps(d: &toml::Value) -> (r: Result<Vec<(String, TomlDependency)>, PaketError>)
    ensures
        match r {
            Ok(dl) => {
                &&& deps_ok(Some(*d))
                &&& toml_keys_of(*d) matches Some(ks) && deps_table_matches(dl@, *d, ks)
            },
            Err(e) => e is ConfigFormatError && !deps_ok(Some(*d)),
        },
{
    let ks = match toml_table_keys(d) {
        None => {
            return Err(deser_err());
        },
        Some(ks) => ks,
    };
    let n = ks.len();
    let mut dl: Vec<(String, TomlDependency)> = Vec::new();
    let mut i: usize = 0;
    while i < n
        invariant
            n == ks@.len(),
            toml_keys_of(*d) == Some(ks.deep_view()),
            forall|k: Seq<char>|
                #![trigger toml_sub(*d, k)]
                toml_sub(*d, k) is Some <==> ks.deep_view().contains(k),
            0 <= i <= n,
            dl@.len() == i,
            forall|j: int|
                0 <= j < i ==> (#[trigger] dl@[j]).0@ == ks.deep_view()[j] && (match toml_sub(
                    *d,
                    ks.deep_view()[j],
                ) {
                    Some(u) => dep_value_matches(dl@[j].1, u) && dep_value_ok(u),
                    None => false,
                }),
        decreases n - i,
    {
        let k = &ks[i];
        proof {
            assert(ks.deep_view().contains(ks.deep_view()[i as int]));
        }
        match toml_get(d, k.as_str()) {
            Some(u) => {
                match extract_dep(u) {
                    Ok(dep) => {
                        dl.push((k.clone(), dep));
                    },
                    Err(e) => {
                        return Err(e);
                    },
                }
            },
            None => {
                // the key came from the table's own key list
                proof {
                    assert(false);
                }
                return Err(deser_err());
            },
        }
        i = i + 1;
    }
    proof {
        assert forall|i2: int|
            0 <= i2 < ks.deep_view().len() implies match toml_sub(*d, #[trigger] ks.deep_view()[i2]) {
            Some(u) => dep_value_ok(u),
            None => true,
        } by {
            assert((dl@[i2]).0@ == ks.deep_view()[i2]);
        }
    }
    Ok(dl)
}

/// The typed package section of the package value `p`.
fn extract_package(p: &toml::Value) -> (r: Result<TomlPackage, PaketError>)
    ensures
        match r {
            Ok(pk) => package_value_ok(*p) && package_value_matches(pk, *p),
            Err(e) => e is ConfigFormatError && !package_value_ok(*p),
        },
{
    match toml_table_keys(p) {
        None => {
            return Err(deser_err());
        },
        Some(_) => {},
    }
    let name = match toml_get(p, "name") {
        Some(nv) => match toml_as_str(nv) {
            Some(s) => String::from_str(s),
            None => {
                return Err(deser_err());
            },
        },
        None => {
            return Err(deser_err());
        },
    };
    let version = match toml_get(p, "version") {
        Some(vv) => match toml_as_str(vv) {
            Some(s) => String::from_str(s),
            None => {
                return Err(deser_err());
            },
        },
        None => {
            return Err(deser_err());
        },
    };
    if !semver_valid(version.as_str()) {
        return Err(deser_err());
    }
    let authors = match extract_str_list(p, "authors") {
        Ok(o) => o,
        Err(e) => {
            return Err(e);
        },
    };
    let ek = extras_key();
    let extra_files = match extract_str_list(p, ek.as_str()) {
        Ok(o) => o,
        Err(e) => {
            return Err(e);
        },
    };
    let description = match extract_opt_str(p, "description") {
        Ok(o) => o,
        Err(e) => {
            return Err(e);
        },
    };
    let keywords = match extract_str_list(p, "keywords") {
        Ok(o) => o,
        Err(e) => {
            return Err(e);
        },
    };
    let categories = match extract_str_list(p, "categories") {
        Ok(o) => o,
        Err(e) => {
            return Err(e);
        },
    };
    let license = match extract_opt_str(p, "license") {
        Ok(o) => o,
        Err(e) => {
            return Err(e);
        },
    };
    let repository = match extract_opt_str(p, "repository") {
        Ok(o) => o,
        Err(e) => {
            return Err(e);
        },
    };
    let events = match toml_get(p, "events") {
        None => None,
        Some(u) => match extract_events(u) {
            Ok(e) => Some(e),
            Err(e) => {
                return Err(e);
            },
        },
    };
    Ok(
        TomlPackage {
            name,
            version,
            authors,
            extra_files,
            description,
            keywords,
            categories,
            license,
            repository,
            events,
        },
    )
}

/// The typed manifest of the parsed tree `v`.
fn manifest_from_value(v: &toml::Value) -> (r: Result<TomlManifest, PaketError>)
    ensures
        match r {
            Ok(m) => manifest_ok(*v) && manifest_matches(m, *v),
            Err(e) => e is ConfigFormatError && !manifest_ok(*v),
        },
{
    let package = match toml_get(v, "package") {
        None => None,
        Some(p) => match extract_package(p) {
            Ok(pk) => Some(Box::new(pk)),
            Err(e) => {
                return Err(e);
            },
        },
    };
    let dependencies = match toml_get(v, "dependencies") {
        None => None,
        Some(d) => match extract_deps(d) {
            Ok(dl) => Some(dl),
            Err(e) => {
                return Err(e);
            },
        },
    };
    let events = match toml_get(v, "events") {
        None => None,
        Some(u) => match extract_events(u) {
            Ok(e) => Some(Box::new(e)),
            Err(e) => {
                return Err(e);
            },
        },
    };
    Ok(TomlManifest { package, dependencies, events })
}

/// The package name the manifest tree declares, if any.
pub open spec fn spec_pkg_name(v: toml::Value) -> Option<Seq<char>> {
    match toml_sub(v, "package"@) {
        Some(p) => match toml_sub(p, "name"@) {
            Some(nv) => toml_str_of(nv),
            None => None,
        },
        None => None,
    }
}

// ---------- the keys the shape does not recognize ----------

/// The keys recognized at the top level of the manifest.
pub open spec fn root_known() -> Seq<Seq<char>> {
    seq!["package"@, "dependencies"@, "events"@]
}

/// The keys recognized inside the `package` section.
pub open spec fn package_known() -> Seq<Seq<char>> {
    seq![
        "name"@,
        "version"@,
        "authors"@,
        extras_key_view(),
        "description"@,
        "keywords"@,
        "categories"@,
        "license"@,
        "repository"@,
        "events"@,
    ]
}

/// The keys recognized inside an events section.
pub open spec fn events_known() -> Seq<Seq<char>> {
    seq!["after-install"@, "after-update"@, "before-uninstall"@]
}

/// The keys recognized inside a dependency entry.
pub open spec fn dep_known() -> Seq<Seq<char>> {
    seq!["version"@, "path"@, "git"@, "branch"@, "tag"@, "rev"@, "package"@]
}

/// The keys of `ks` that are not in `known`, each with `prefix` put in
/// front, in order.
pub open spec fn unknown_in(
    ks: Seq<Seq<char>>,
    known: Seq<Seq<char>>,
    prefix: Seq<char>,
) -> Seq<Seq<char>> {
    ks.filter(|k: Seq<char>| !known.contains(k)).map_values(|k: Seq<char>| prefix + k)
}

proof fn lemma_unknown_in_push(
    ks: Seq<Seq<char>>,
    x: Seq<char>,
    known: Seq<Seq<char>>,
    prefix: Seq<char>,
)
    ensures
        unknown_in(ks.push(x), known, prefix) == if !known.contains(x) {
            unknown_in(ks, known, prefix).push(prefix + x)
        } else {
            unknown_in(ks, known, prefix)
        },
{
    assert(ks.push(x).drop_last() =~= ks);
    assert(ks.push(x).last() == x);
    reveal(Seq::filter);
    if !known.contains(x) {
        assert(unknown_in(ks.push(x), known, prefix) =~= unknown_in(ks, known, prefix).push(
            prefix + x,
        ));
    } else {
        assert(unknown_in(ks.push(x), known, prefix) =~= unknown_in(ks, known, prefix));
    }
}

/// Is `k` one of the known keys?
fn known_contains(known: &Vec<&str>, k: &str) -> (r: bool)
    ensures
        r == known.deep_view().contains(k@),
{
    let n = known.len();
    let mut i: usize = 0;
    while i < n
        invariant
            n == known@.len(),
            0 <= i <= n,
            forall|j: int| 0 <= j < i ==> known.deep_view()[j] != k@,
        decreases n - i,
    {
        if str_eq(known[i], k) {
            proof {
                assert(known.deep_view()[i as int] == k@);
            }
            return true;
        }
        i = i + 1;
    }
    proof {
        if known.deep_view().contains(k@) {
            let j = choose|j: int|
                0 <= j < known.deep_view().len() && known.deep_view()[j] == k@;
        }
    }
    false
}

/// The keys of `ks` not in `known`, prefixed.
fn collect_unknown(ks: &Vec<String>, known: &Vec<&str>, prefix: &str) -> (r: Vec<String>)
    ensures
        r.deep_view() == unknown_in(ks.deep_view(), known.deep_view(), prefix@),
{
    let mut out: Vec<String> = Vec::new();
    let n = ks.len();
    proof {
        assert(ks.deep_view().take(0) =~= Seq::<Seq<char>>::empty());
        assert(unknown_in(Seq::<Seq<char>>::empty(), known.deep_view(), prefix@)
            =~= Seq::<Seq<char>>::empty()) by {
            reveal(Seq::filter);
        }
        assert(out.deep_view() =~= Seq::<Seq<char>>::empty());
    }
    let mut i: usize = 0;
    while i < n
        invariant
            n == ks@.len(),
            0 <= i <= n,
            out.deep_view() == unknown_in(ks.deep_view().take(i as int), known.deep_view(), prefix@),
        decreases n - i,
    {
        let ghost old_out = out.deep_view();
        if !known_contains(known, ks[i].as_str()) {
            out.push(concat_str(prefix, ks[i].as_str()));
            proof {
                assert(out.deep_view() =~= old_out.push(prefix@ + ks.deep_view()[i as int]));
            }
        }
        proof {
            assert(ks.deep_view().take(i + 1) =~= ks.deep_view().take(i as int).push(
                ks.deep_view()[i as int],
            ));
            lemma_unknown_in_push(
                ks.deep_view().take(i as int),
                ks.deep_view()[i as int],
                known.deep_view(),
                prefix@,
            );
        }
        i = i + 1;
    }
    proof {
        assert(ks.deep_view().take(n as int) =~= ks.deep_view());
    }
    out
}

/// The unknown keys of a table value, prefixed; nothing for an absent key
/// or a value that is no table.
pub open spec fn table_unknowns(
    o: Option<toml::Value>,
    known: Seq<Seq<char>>,
    prefix: Seq<char>,
) -> Seq<Seq<char>> {
    match o {
        None => Seq::empty(),
        Some(u) => match toml_keys_of(u) {
            None => Seq::empty(),
            Some(ks) => unknown_in(ks, known, prefix),
        },
    }
}

/// The unknown keys of the table value `u`, prefixed.
fn table_unknowns_one(u: &toml::Value, known: &Vec<&str>, prefix: &str) -> (r: Vec<String>)
    ensures
        r.deep_view() == table_unknowns(Some(*u), known.deep_view(), prefix@),
{
    match toml_table_keys(u) {
        None => {
            let out: Vec<String> = Vec::new();
            proof {
                assert(out.deep_view() =~= Seq::<Seq<char>>::empty());
            }
            out
        },
        Some(ks) => collect_unknown(&ks, known, prefix),
    }
}

/// The unknown keys of the first `n` dependency entries, in key order.
pub open spec fn dep_unknowns_upto(d: toml::Value, ks: Seq<Seq<char>>, n: int) -> Seq<Seq<char>>
    decreases n,
{
    if n <= 0 {
        Seq::empty()
    } else {
        dep_unknowns_upto(d, ks, n - 1) + table_unknowns(
            toml_sub(d, ks[n - 1]),
            dep_known(),
            "dependencies."@ + ks[n - 1] + seq!['.'],
        )
    }
}

/// The unknown keys of every dependency entry.
pub open spec fn deps_unknowns(o: Option<toml::Value>) -> Seq<Seq<char>> {
    match o {
        None => Seq::empty(),
        Some(d) => match toml_keys_of(d) {
            None => Seq::empty(),
            Some(ks) => dep_unknowns_upto(d, ks, ks.len() as int),
        },
    }
}

/// Every key of the manifest tree that the shape does not recognize, as a
/// dotted path: first the top level, then the `package` section, its
/// events, the dependency entries in key order, and the top-level events.
pub open spec fn spec_warns(v: toml::Value) -> Seq<Seq<char>> {
    table_unknowns(Some(v), root_known(), Seq::empty()) + table_unknowns(
        toml_sub(v, "package"@),
        package_known(),
        "package."@,
    ) + (match toml_sub(v, "package"@) {
        None => Seq::empty(),
        Some(p) => table_unknowns(toml_sub(p, "events"@), events_known(), "package.events."@),
    }) + deps_unknowns(toml_sub(v, "dependencies"@)) + table_unknowns(
        toml_sub(v, "events"@),
        events_known(),
        "events."@,
    )
}

/// The events key list as runtime values.
fn events_known_vec() -> (r: Vec<&'static str>)
    ensures
        r.deep_view() == events_known(),
{
    let mut r: Vec<&'static str> = Vec::new();
    r.push("after-install");
    r.push("after-update");
    r.push("before-uninstall");
    proof {
        assert(r.deep_view() =~= events_known());
    }
    r
}

/// Every key of the manifest tree the shape does not recognize, as a
/// dotted path.
fn collect_warns(v: &toml::Value) -> (r: Vec<String>)
    ensures
        r.deep_view() == spec_warns(*v),
{
    proof {
        reveal_strlit("");
        assert(("")@ =~= Seq::<char>::empty());
        reveal_strlit(".");
        assert((".")@ =~= seq!['.']);
    }
    let mut rk: Vec<&str> = Vec::new();
    rk.push("package");
    rk.push("dependencies");
    rk.push("events");
    proof {
        assert(rk.deep_view() =~= root_known());
    }
    let mut warns = table_unknowns_one(v, &rk, "");
    let ghost w1 = table_unknowns(Some(*v), root_known(), Seq::empty());
    if let Some(p) = toml_get(v, "package") {
        let ek = extras_key();
        let mut pk: Vec<&str> = Vec::new();
        pk.push("name");
        pk.push("version");
        pk.push("authors");
        pk.push(ek.as_str());
        pk.push("description");
        pk.push("keywords");
        pk.push("categories");
        pk.push("license");
        pk.push("repository");
        pk.push("events");
        proof {
            assert(pk.deep_view() =~= package_known());
        }
        let ghost before = warns.deep_view();
        let mut more = table_unknowns_one(p, &pk, "package.");
        warns.append(&mut more);
        proof {
            assert(warns.deep_view() =~= before + table_unknowns(
                toml_sub(*v, "package"@),
                package_known(),
                "package."@,
            ));
        }
        if let Some(eu) = toml_get(p, "events") {
            let ev = events_known_vec();
            let ghost before2 = warns.deep_view();
            let mut more2 = table_unknowns_one(eu, &ev, "package.events.");
            warns.append(&mut more2);
            proof {
                assert(warns.deep_view() =~= before2 + table_unknowns(
                    toml_sub(*p, "events"@),
                    events_known(),
                    "package.events."@,
                ));
            }
        } else {
            proof {
                assert(table_unknowns(toml_sub(*p, "events"@), events_known(), "package.events."@)
                    =~= Seq::<Seq<char>>::empty());
                assert(warns.deep_view() + Seq::<Seq<char>>::empty() =~= warns.deep_view());
            }
        }
    } else {
        proof {
            assert(table_unknowns(toml_sub(*v, "package"@), package_known(), "package."@)
                =~= Seq::<Seq<char>>::empty());
            assert(warns.deep_view() + Seq::<Seq<char>>::empty() =~= warns.deep_view());
        }
    }
    let ghost w123 = warns.deep_view();
    if let Some(d) = toml_get(v, "dependencies") {
        match toml_table_keys(d) {
            None => {
                proof {
                    assert(deps_unknowns(toml_sub(*v, "dependencies"@))
                        =~= Seq::<Seq<char>>::empty());
                }
            },
            Some(ks) => {
                let mut dk: Vec<&str> = Vec::new();
                dk.push("version");
                dk.push("path");
                dk.push("git");
                dk.push("branch");
                dk.push("tag");
                dk.push("rev");
                dk.push("package");
                proof {
                    assert(dk.deep_view() =~= dep_known());
                }
                let n = ks.len();
                let mut i: usize = 0;
                while i < n
                    invariant
                        n == ks@.len(),
                        toml_sub(*v, "dependencies"@) == Some(*d),
                        toml_keys_of(*d) == Some(ks.deep_view()),
                        dk.deep_view() == dep_known(),
                        0 <= i <= n,
                        warns.deep_view() == w123 + dep_unknowns_upto(*d, ks.deep_view(), i as int),
                    decreases n - i,
                {
                    let prefix = concat3("dependencies.", ks[i].as_str(), ".");
                    proof {
                        reveal_strlit(".");
                        assert((".")@ =~= seq!['.']);
                        assert(prefix@ =~= "dependencies."@ + ks.deep_view()[i as int] + seq!['.']);
                    }
                    let ghost before = warns.deep_view();
                    match toml_get(d, ks[i].as_str()) {
                        Some(u) => {
                            let mut more = table_unknowns_one(u, &dk, prefix.as_str());
                            warns.append(&mut more);
                        },
                        None => {
                            proof {
                                assert(table_unknowns(
                                    toml_sub(*d, ks.deep_view()[i as int]),
                                    dep_known(),
                                    prefix@,
                                ) =~= Seq::<Seq<char>>::empty());
                            }
                        },
                    }
                    proof {
                        assert(warns.deep_view() =~= before + table_unknowns(
                            toml_sub(*d, ks.deep_view()[i as int]),
                            dep_known(),
                            "dependencies."@ + ks.deep_view()[i as int] + seq!['.'],
                        ));
                    }
                    i = i + 1;
                }
            },
        }
    } else {
        proof {
            assert(deps_unknowns(toml_sub(*v, "dependencies"@)) =~= Seq::<Seq<char>>::empty());
        }
    }
    proof {
        assert(warns.deep_view() =~= w123 + deps_unknowns(toml_sub(*v, "dependencies"@)));
    }
    if let Some(u) = toml_get(v, "events") {
        let ev = events_known_vec();
        let ghost before = warns.deep_view();
        let mut more = table_unknowns_one(u, &ev, "events.");
        warns.append(&mut more);
        proof {
            assert(warns.deep_view() =~= before + table_unknowns(
                toml_sub(*v, "events"@),
                events_known(),
                "events."@,
            ));
        }
    } else {
        proof {
            assert(table_unknowns(toml_sub(*v, "events"@), events_known(), "events."@)
                =~= Seq::<Seq<char>>::empty());
        }
    }
    proof {
        assert(warns.deep_view() =~= spec_warns(*v));
    }
    warns
}

// ---------- reading a manifest file ----------

/// Read a manifest from the text of the file at `path` (the caller reads
/// the file): the path must carry the `toml` extension, the text must
/// parse as TOML, and the tree must fit the manifest shape.  Returns the
/// typed manifest and the unrecognized keys, which are reported as
/// non-fatal warnings.
pub fn read_pkg_file(path: &str, text: &str) -> (r: Result<
    (TomlManifest, Vec<String>),
    PaketError,
>)
    ensures
        match r {
            Ok((m, warns)) => {
                &&& extension_of(path@) == Some("toml"@)
                &&& toml_parse(text@) matches Some(v) && manifest_ok(v) && manifest_matches(m, v)
                    && warns.deep_view() == spec_warns(v)
            },
            Err(e) => {
                &&& e is ConfigFormatError
                &&& {
                    ||| extension_of(path@) != Some("toml"@)
                    ||| toml_parse(text@) is None
                    ||| (toml_parse(text@) matches Some(v) && !manifest_ok(v))
                }
            },
        },
{
    let ext_ok = match path_extension(path) {
        Some(e) => str_eq(e.as_str(), "toml"),
        None => false,
    };
    if !ext_ok {
        return Err(
            PaketError::ConfigFormatError(
                String::from_str("configuration file should be in toml format. E.g `config.toml`"),
            ),
        );
    }
    let v = match parse_toml_str(text) {
        Ok(v) => v,
        Err(_) => {
            return Err(
                PaketError::ConfigFormatError(String::from_str("could not parse input as TOML")),
            );
        },
    };
    let m = match manifest_from_value(&v) {
        Ok(m) => m,
        Err(e) => {
            return Err(e);
        },
    };
    let warns = collect_warns(&v);
    Ok((m, warns))
}

} // verus!
