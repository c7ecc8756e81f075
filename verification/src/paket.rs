//! The package manager's core: the directory layout it works in, the
//! file-placement engine that decides which package files go where, and the
//! validation of lifecycle event bindings.

use vstd::prelude::*;
use crate::cli::commands::CommandOpts;
use crate::errors::PaketError;
use crate::helpers::cmd::Command;
use crate::paths::{
    extension_of, lemma_parent_of_len, name_of, parent_of, path_name, path_parent,
    path_suffix_match, path_ends_with,
};
use crate::pkg::config::{
    TomlEvents, TomlManifest, manifest_matches, manifest_ok, read_pkg_file, spec_pkg_name,
    spec_warns, toml_parse, toml_sub,
};
use crate::strutil::{
    concat_str, concat3, ends_with, has_char, head_of, join_path, split_first, str_trim_start,
    str_trim_end, str_eq, str_ends_with, tail_of, trim_start_of, trim_end_of,
};

verus! {

/// Paket events transferable to Fish shell events.
pub enum PaketEvents {
    /// Emitted after a package is installed.
    AfterInstall,
    /// Emitted after a package is updated.
    AfterUpdate,
    /// Emitted before a package is uninstalled.
    BeforeUninstall,
}

/// Directory paths used by `Paket`.
pub struct PaketPaths {
    /// User configuration directory.
    pub config_dir: String,
    /// Fish configuration directory.
    pub fish_dir: String,
    /// Fish snippets directory.
    pub fish_snippets_dir: String,
    /// Fish completions directory.
    pub fish_completions_dir: String,
    /// Fish functions directory.
    pub fish_functions_dir: String,
    /// Paket configuration directory.
    pub paket_dir: String,
}

/// One entry of a package directory listing, with its path relative to the
/// package root (components joined by `/`).
#[derive(Debug, Clone)]
pub struct PkgEntry {
    /// The path of the entry relative to the package root.
    pub path: String,
    /// Whether the entry is a directory.
    pub is_dir: bool,
}

/// One file placement: copy (or remove) `src` at `dest`.
#[derive(Debug, Clone, PartialEq, Eq)]
pub struct SrcDest {
    /// The source file inside the package directory.
    pub src: String,
    /// The destination file inside the shell configuration tree.
    pub dest: String,
}

/// Is `n` one of the three directory names the placement engine recognizes?
pub open spec fn cat_dir_name(n: Seq<char>) -> bool {
    n == "conf.d"@ || n == "completions"@ || n == "functions"@
}

/// Does the traversal reach directory `d` (a path relative to the package
/// root)?  The root itself is reached, and a directory is reached when it
/// is listed, carries a recognized name, and its parent is reached.
pub open spec fn is_reachable(entries: Seq<PkgEntry>, d: Seq<char>) -> bool
    decreases d.len(),
{
    if d.len() == 0 {
        true
    } else if parent_of(d).len() >= d.len() {
        false
    } else {
        &&& cat_dir_name(name_of(d))
        &&& exists|i: int| 0 <= i < entries.len() && entries[i].is_dir && entries[i].path@ == d
        &&& is_reachable(entries, parent_of(d))
    }
}

/// The destination directory for a file found under a directory named
/// `cat`: completions and functions go to their own trees, everything else
/// (that is, `conf.d`) to the snippets tree.
pub open spec fn spec_dest_root(cat: Seq<char>, paths: PaketPaths) -> Seq<char> {
    if cat == "completions"@ {
        paths.fish_completions_dir@
    } else if cat == "functions"@ {
        paths.fish_functions_dir@
    } else {
        paths.fish_snippets_dir@
    }
}

/// Does the source path match one of the listed extra files, component-wise?
pub open spec fn extras_matched(src: Seq<char>, extras: Seq<Seq<char>>) -> bool {
    exists|i: int| 0 <= i < extras.len() && path_suffix_match(src, extras[i])
}

/// The absolute source path of an entry.
pub open spec fn spec_src(e: PkgEntry, pkg_dir: Seq<char>) -> Seq<char> {
    pkg_dir + seq!['/'] + e.path@
}

/// The absolute destination path of an entry.
pub open spec fn spec_dest(e: PkgEntry, paths: PaketPaths) -> Seq<char> {
    spec_dest_root(name_of(parent_of(e.path@)), paths) + seq!['/'] + name_of(e.path@)
}

/// Does the placement engine act on file entry `e`?  Its parent must be a
/// reached directory with a recognized name, and the file must be a Fish
/// shell file or be listed as an extra file.
pub open spec fn entry_matched(
    entries: Seq<PkgEntry>,
    e: PkgEntry,
    pkg_dir: Seq<char>,
    extras: Seq<Seq<char>>,
) -> bool {
    &&& !e.is_dir
    &&& cat_dir_name(name_of(parent_of(e.path@)))
    &&& is_reachable(entries, parent_of(e.path@))
    &&& name_of(e.path@).len() > 0
    &&& (ends_with(name_of(e.path@), ".fish"@) || extras_matched(
        pkg_dir + seq!['/'] + e.path@,
        extras,
    ))
}

/// A file entry the engine reaches but whose name cannot be read: the scan
/// fails on it.
pub open spec fn entry_bad(entries: Seq<PkgEntry>, e: PkgEntry) -> bool {
    &&& !e.is_dir
    &&& cat_dir_name(name_of(parent_of(e.path@)))
    &&& is_reachable(entries, parent_of(e.path@))
    &&& name_of(e.path@).len() == 0
}

/// The entries of `scope` the engine acts on, in order.
pub open spec fn matched_in(
    scope: Seq<PkgEntry>,
    entries: Seq<PkgEntry>,
    pkg_dir: Seq<char>,
    extras: Seq<Seq<char>>,
) -> Seq<PkgEntry> {
    scope.filter(|e: PkgEntry| entry_matched(entries, e, pkg_dir, extras))
}

/// The entries of a listing the engine acts on, in order.
pub open spec fn matched_entries(
    entries: Seq<PkgEntry>,
    pkg_dir: Seq<char>,
    extras: Seq<Seq<char>>,
) -> Seq<PkgEntry> {
    matched_in(entries, entries, pkg_dir, extras)
}

proof fn lemma_matched_in_push(
    scope: Seq<PkgEntry>,
    x: PkgEntry,
    entries: Seq<PkgEntry>,
    pkg_dir: Seq<char>,
    extras: Seq<Seq<char>>,
)
    ensures
        matched_in(scope.push(x), entries, pkg_dir, extras) == if entry_matched(
            entries,
            x,
            pkg_dir,
            extras,
        ) {
            matched_in(scope, entries, pkg_dir, extras).push(x)
        } else {
            matched_in(scope, entries, pkg_dir, extras)
        },
{
    assert(scope.push(x).drop_last() =~= scope);
    assert(scope.push(x).last() == x);
    reveal(Seq::filter);
}

/// The destination files of a list of placements.
pub open spec fn dests_of(acts: Seq<SrcDest>) -> Set<Seq<char>> {
    acts.map_values(|a: SrcDest| a.dest@).to_set()
}

/// The configuration tree (a set of file paths) after the placements
/// `acts` are copied into it.
pub open spec fn apply_copies(files: Set<Seq<char>>, acts: Seq<SrcDest>) -> Set<Seq<char>> {
    files + dests_of(acts)
}

/// The configuration tree after the placements `acts` are removed from it.
pub open spec fn apply_removals(files: Set<Seq<char>>, acts: Seq<SrcDest>) -> Set<Seq<char>> {
    files - dests_of(acts)
}

/// Round trip of the placement engine's output: installing a package (its
/// placements copied into the configuration tree) and then removing it
/// with the same placements — the same listing and the same extra files,
/// so `scan_pkg_dir` returns the same actions — restores the tree's file
/// set, provided none of the destinations was already present before the
/// installation.
pub proof fn lemma_install_remove_round_trip(files: Set<Seq<char>>, acts: Seq<SrcDest>)
    requires
        files.disjoint(dests_of(acts)),
    ensures
        apply_removals(apply_copies(files, acts), acts) == files,
{
    assert(apply_removals(apply_copies(files, acts), acts) =~= files);
}

/// The manifest's list of extra files, or empty when absent.
pub open spec fn extras_view(pkg_extras: &Option<Vec<String>>) -> Seq<Seq<char>> {
    match pkg_extras {
        Some(v) => v.deep_view(),
        None => Seq::empty(),
    }
}

/// Is there a listed directory entry for path `d`?
fn has_dir_entry(entries: &Vec<PkgEntry>, d: &str) -> (r: bool)
    ensures
        r == exists|i: int|
            0 <= i < entries@.len() && entries@[i].is_dir && entries@[i].path@ == d@,
{
    let n = entries.len();
    let mut i: usize = 0;
    while i < n
        invariant
            n == entries@.len(),
            0 <= i <= n,
            forall|j: int| 0 <= j < i ==> !(entries@[j].is_dir && entries@[j].path@ == d@),
        decreases n - i,
    {
        if entries[i].is_dir && str_eq(entries[i].path.as_str(), d) {
            proof {
                assert(entries@[i as int].is_dir && entries@[i as int].path@ == d@);
            }
            return true;
        }
        i = i + 1;
    }
    false
}

/// Whether directory name `n` is one the placement engine recognizes.
fn is_cat_dir_name(n: &str) -> (r: bool)
    ensures
        r == cat_dir_name(n@),
{
    str_eq(n, "conf.d") || str_eq(n, "completions") || str_eq(n, "functions")
}

/// Does the traversal reach directory `d`?
fn is_reachable_exec(entries: &Vec<PkgEntry>, d: &str) -> (r: bool)
    ensures
        r == is_reachable(entries@, d@),
    decreases d@.len(),
{
    if d.unicode_len() == 0 {
        return true;
    }
    proof {
        lemma_parent_of_len(d@);
    }
    let dname = path_name(d);
    if !is_cat_dir_name(dname.as_str()) {
        return false;
    }
    if !has_dir_entry(entries, d) {
        return false;
    }
    let parent = path_parent(d);
    is_reachable_exec(entries, parent.as_str())
}

/// Does `src` match any entry of `inc`, component-wise?
fn any_extras_match(src: &str, inc: &Vec<String>) -> (r: bool)
    ensures
        r == extras_matched(src@, inc.deep_view()),
{
    let n = inc.len();
    let mut i: usize = 0;
    while i < n
        invariant
            n == inc@.len(),
            0 <= i <= n,
            forall|j: int| 0 <= j < i ==> !path_suffix_match(src@, inc.deep_view()[j]),
        decreases n - i,
    {
        if path_ends_with(src, inc[i].as_str()) {
            proof {
                assert(path_suffix_match(src@, inc.deep_view()[i as int]));
            }
            return true;
        }
        i = i + 1;
    }
    false
}

/// Which event string `event_type` selects from the bindings.
pub open spec fn spec_binding(events: &TomlEvents, event_type: &PaketEvents) -> Option<Seq<char>> {
    let b = match event_type {
        PaketEvents::AfterInstall => &events.after_install,
        PaketEvents::AfterUpdate => &events.after_update,
        PaketEvents::BeforeUninstall => &events.before_uninstall,
    };
    match b {
        Some(s) => Some(s@),
        None => None,
    }
}

/// The Fish command text a valid binding for `pkgname` produces, if the
/// binding is valid: its part before the first `_`, with leading
/// whitespace removed, must equal `pkgname`, and an `_` must be present.
pub open spec fn spec_event_cmd(pkgname: Seq<char>, binding: Seq<char>) -> Option<Seq<char>> {
    if trim_start_of(head_of(binding, '_')) != pkgname {
        None
    } else if !has_char(binding, '_') {
        None
    } else {
        Some("emit "@ + pkgname + seq!['_'] + trim_end_of(tail_of(binding, '_')))
    }
}

/// Paket is a package manager for the Fish shell.
pub struct Paket {
    /// Directory paths used by `Paket`.
    pub paths: PaketPaths,
    /// `Paket` command options.
    pub opts: CommandOpts,
}

impl Paket {
    /// The directory layout under the user's home directory: the
    /// configuration root, the Fish tree with its three placement
    /// directories, and the package cache directory.  The caller creates
    /// the directories on disk.
    pub fn configure_paths(home_dir: &str) -> (r: PaketPaths)
        ensures
            r.config_dir@ == home_dir@ + "/.config"@,
            r.fish_dir@ == r.config_dir@ + "/fish"@,
            r.fish_snippets_dir@ == r.fish_dir@ + "/conf.d"@,
            r.fish_completions_dir@ == r.fish_dir@ + "/completions"@,
            r.fish_functions_dir@ == r.fish_dir@ + "/functions"@,
            r.paket_dir@ == r.config_dir@ + "/paket"@,
    {
        let config_dir = concat_str(home_dir, "/.config");
        let fish_dir = concat_str(config_dir.as_str(), "/fish");
        let fish_snippets_dir = concat_str(fish_dir.as_str(), "/conf.d");
        let fish_completions_dir = concat_str(fish_dir.as_str(), "/completions");
        let fish_functions_dir = concat_str(fish_dir.as_str(), "/functions");
        let paket_dir = concat_str(config_dir.as_str(), "/paket");
        PaketPaths {
            config_dir,
            fish_dir,
            fish_snippets_dir,
            fish_completions_dir,
            fish_functions_dir,
            paket_dir,
        }
    }

    /// Read a package directory listing (paths relative to the package
    /// root at `pkg_dir`) and compute one placement per matched file: Fish
    /// shell files directly inside a reached `conf.d`, `completions` or
    /// `functions` directory always, other files there only when an
    /// extra-file entry matches.  Fails when a reached file has no name.
    pub fn scan_pkg_dir(
        &self,
        pkg_dir: &str,
        entries: &Vec<PkgEntry>,
        pkg_extras: &Option<Vec<String>>,
    ) -> (r: Result<Vec<SrcDest>, PaketError>)
        ensures
            match r {
                Ok(acts) => {
                    &&& forall|i: int|
                        0 <= i < entries@.len() ==> !entry_bad(entries@, #[trigger] entries@[i])
                    &&& acts@.len() == matched_entries(
                        entries@,
                        pkg_dir@,
                        extras_view(pkg_extras),
                    ).len()
                    &&& forall|j: int|
                        0 <= j < acts@.len() ==> (#[trigger] acts@[j]).src@ == spec_src(
                            matched_entries(entries@, pkg_dir@, extras_view(pkg_extras))[j],
                            pkg_dir@,
                        ) && acts@[j].dest@ == spec_dest(
                            matched_entries(entries@, pkg_dir@, extras_view(pkg_extras))[j],
                            self.paths,
                        )
                },
                Err(e) => e is PathError && exists|i: int|
                    0 <= i < entries@.len() && entry_bad(entries@, #[trigger] entries@[i]),
            },
    {
        let ghost ev = entries@;
        let ghost inc = extras_view(pkg_extras);
        let empty_inc: Vec<String> = Vec::new();
        let inc_vec: &Vec<String> = match pkg_extras {
            Some(v) => v,
            None => &empty_inc,
        };
        proof {
            assert(inc_vec.deep_view() =~= inc);
        }
        let mut acts: Vec<SrcDest> = Vec::new();
        let n = entries.len();
        proof {
            assert(ev.take(0) =~= Seq::<PkgEntry>::empty());
            assert(matched_in(Seq::<PkgEntry>::empty(), ev, pkg_dir@, inc)
                =~= Seq::<PkgEntry>::empty()) by {
                reveal(Seq::filter);
            }
        }
        let mut i: usize = 0;
        while i < n
            invariant
                ev == entries@,
                inc == extras_view(pkg_extras),
                inc_vec.deep_view() == inc,
                n == ev.len(),
                0 <= i <= n,
                forall|j: int| 0 <= j < i ==> !entry_bad(ev, #[trigger] ev[j]),
                acts@.len() == matched_in(ev.take(i as int), ev, pkg_dir@, inc).len(),
                forall|j: int|
                    0 <= j < acts@.len() ==> (#[trigger] acts@[j]).src@ == spec_src(
                        matched_in(ev.take(i as int), ev, pkg_dir@, inc)[j],
                        pkg_dir@,
                    ) && acts@[j].dest@ == spec_dest(
                        matched_in(ev.take(i as int), ev, pkg_dir@, inc)[j],
                        self.paths,
                    ),
            decreases n - i,
        {
            let ghost m0 = matched_in(ev.take(i as int), ev, pkg_dir@, inc);
            let e = &entries[i];
            let parent = path_parent(e.path.as_str());
            let pname = path_name(parent.as_str());
            let is_cat = is_cat_dir_name(pname.as_str());
            if !e.is_dir && is_cat && is_reachable_exec(entries, parent.as_str()) {
                let name = path_name(e.path.as_str());
                let src = join_path(pkg_dir, e.path.as_str());
                if name.as_str().is_empty() {
                    proof {
                        assert(entry_bad(ev, ev[i as int]));
                    }
                    return Err(
                        PaketError::PathError(
                            concat_str("failed to get file name for path ", src.as_str()),
                        ),
                    );
                }
                let dest_root: &String = if str_eq(pname.as_str(), "completions") {
                    &self.paths.fish_completions_dir
                } else if str_eq(pname.as_str(), "functions") {
                    &self.paths.fish_functions_dir
                } else {
                    &self.paths.fish_snippets_dir
                };
                let dest = join_path(dest_root.as_str(), name.as_str());
                let is_fish = str_ends_with(name.as_str(), ".fish");
                let extra_hit = if is_fish {
                    false
                } else {
                    any_extras_match(src.as_str(), inc_vec)
                };
                if is_fish || extra_hit {
                    proof {
                        assert(entry_matched(ev, ev[i as int], pkg_dir@, inc));
                        assert(src@ == spec_src(ev[i as int], pkg_dir@));
                        assert(dest@ == spec_dest(ev[i as int], self.paths));
                    }
                    acts.push(SrcDest { src, dest });
                } else {
                    proof {
                        assert(!entry_matched(ev, ev[i as int], pkg_dir@, inc));
                    }
                }
            } else {
                proof {
                    assert(!entry_matched(ev, ev[i as int], pkg_dir@, inc));
                    assert(!entry_bad(ev, ev[i as int]));
                }
            }
            proof {
                assert(ev.take(i + 1) =~= ev.take(i as int).push(ev[i as int]));
                lemma_matched_in_push(ev.take(i as int), ev[i as int], ev, pkg_dir@, inc);
            }
            i = i + 1;
        }
        proof {
            assert(ev.take(n as int) =~= ev);
        }
        Ok(acts)
    }

    /// Read a package's manifest from the text of its `paket.toml` file
    /// (the caller locates and reads the file at `pkg_toml_path`): the
    /// manifest must carry a `package` section, and for a remote package
    /// (`is_local` false) the declared package name must equal `pkg_name`.
    /// Returns the manifest and the unrecognized-key warnings.
    pub fn read_pkg_dir_with_manifest(
        &self,
        pkg_toml_path: &str,
        text: &str,
        pkg_name: &str,
        is_local: bool,
    ) -> (r: Result<(TomlManifest, Vec<String>), PaketError>)
        ensures
            match r {
                Ok((m, warns)) => {
                    &&& extension_of(pkg_toml_path@) == Some("toml"@)
                    &&& toml_parse(text@) matches Some(v) && manifest_ok(v) && manifest_matches(
                        m,
                        v,
                    ) && warns.deep_view() == spec_warns(v)
                    &&& m.package is Some
                    &&& !is_local ==> (m.package matches Some(bp) && bp.name@ == pkg_name@)
                },
                Err(e) => {
                    ||| (e is ConfigFormatError && {
                        ||| extension_of(pkg_toml_path@) != Some("toml"@)
                        ||| toml_parse(text@) is None
                        ||| (toml_parse(text@) matches Some(v) && !manifest_ok(v))
                    })
                    ||| (e is ManifestError && (toml_parse(text@) matches Some(v) && manifest_ok(v)
                        && (toml_sub(v, "package"@) is None || (!is_local && spec_pkg_name(v)
                        != Some(pkg_name@)))))
                },
            },
            // a manifest of well-formed content that lacks its `package`
            // section is always rejected as a manifest error
            (toml_parse(text@) matches Some(v) && extension_of(pkg_toml_path@) == Some("toml"@)
                && manifest_ok(v) && toml_sub(v, "package"@) is None) ==> (r matches Err(e)
                && e is ManifestError),
    {
        let (m, warns) = match read_pkg_file(pkg_toml_path, text) {
            Ok(t) => t,
            Err(e) => {
                return Err(e);
            },
        };
        match &m.package {
            Some(_) => {},
            None => {
                return Err(
                    PaketError::ManifestError(
                        String::from_str("`paket.toml` file is empty or can not be read."),
                    ),
                );
            },
        }
        if !is_local {
            let name_matches = match &m.package {
                Some(p) => str_eq(p.name.as_str(), pkg_name),
                None => false,
            };
            if !name_matches {
                return Err(
                    PaketError::ManifestError(
                        concat3(
                            "package name `",
                            pkg_name,
                            "` in `paket.toml` doesn't match with given input package name.",
                        ),
                    ),
                );
            }
        }
        Ok((m, warns))
    }

    /// Process a Paket event definition: validate the binding selected by
    /// `event_type` against the package name and return the Fish command
    /// that emits the event, or nothing when no binding exists.
    pub fn emit_event(&self, pkgname: &str, events: &TomlEvents, event_type: PaketEvents) -> (r:
        Result<Option<Command>, PaketError>)
        ensures
            match r {
                Ok(out) => match out {
                    Some(c) => {
                        &&& spec_binding(events, &event_type) matches Some(b) && spec_event_cmd(
                            pkgname@,
                            b,
                        ) matches Some(cmd) && c.args.deep_view() == seq!["-c"@, cmd]
                        &&& c.program@ == "fish"@
                        &&& c.cwd is None
                    },
                    None => spec_binding(events, &event_type) is None,
                },
                Err(e) => {
                    &&& e is EventFormatError
                    &&& spec_binding(events, &event_type) matches Some(b) && spec_event_cmd(
                        pkgname@,
                        b,
                    ) is None
                },
            },
    {
        let binding: &Option<String> = match event_type {
            PaketEvents::AfterInstall => &events.after_install,
            PaketEvents::AfterUpdate => &events.after_update,
            PaketEvents::BeforeUninstall => &events.before_uninstall,
        };
        let b = match binding {
            Some(b) => b,
            None => {
                return Ok(None);
            },
        };
        let (head, tail_opt) = split_first(b.as_str(), '_');
        let prefix = str_trim_start(head.as_str());
        if !str_eq(prefix.as_str(), pkgname) {
            return Err(PaketError::EventFormatError(Self::event_format_message(b.as_str())));
        }
        let tail = match tail_opt {
            Some(t) => t,
            None => {
                return Err(PaketError::EventFormatError(Self::event_format_message(b.as_str())));
            },
        };
        let eventname = str_trim_end(tail.as_str());
        let cmd = concat3("emit ", pkgname, "_").concat(eventname.as_str());
        proof {
            assert(cmd@ =~= "emit "@ + pkgname@ + "_"@ + eventname@);
            reveal_strlit("_");
            assert(("_")@ =~= seq!['_']);
            assert(cmd@ =~= "emit "@ + pkgname@ + seq!['_'] + eventname@);
        }
        let c = Command::new("fish", None).arg("-c").arg(cmd.as_str());
        proof {
            assert(c.args.deep_view() =~= seq!["-c"@, cmd@]);
        }
        Ok(Some(c))
    }

    /// The message reported for a malformed event binding.
    fn event_format_message(binding: &str) -> (r: String)
        ensures
            r@.len() > 0,
    {
        let r = concat3(
            "Paket event value `",
            binding,
            "` defined in `paket.toml` has invalid format. \nUse the format `[package_name]_[event_name]` without the brackets and spaces (underscores instead). \nAlso make sure that the whole value matches with your package's Fish shell event (--on-event).",
        );
        proof {
            reveal_strlit("Paket event value `");
        }
        r
    }
}

} // verus!
