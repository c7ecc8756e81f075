use std::collections::HashSet;

use paket::cli::actions::Actions;
use paket::cli::commands::CommandOpts;
use paket::errors::PaketError;
use paket::git::Git;
use paket::paket::{Paket, PaketEvents, PkgEntry, SrcDest};
use paket::pkg::config::TomlEvents;

fn make_paket() -> Paket {
    Paket {
        paths: Paket::configure_paths("/home/u"),
        opts: CommandOpts { commands: None },
    }
}

fn dir(p: &str) -> PkgEntry {
    PkgEntry { path: p.to_string(), is_dir: true }
}

fn file(p: &str) -> PkgEntry {
    PkgEntry { path: p.to_string(), is_dir: false }
}

fn pairs(acts: &[SrcDest]) -> Vec<(String, String)> {
    acts.iter().map(|a| (a.src.clone(), a.dest.clone())).collect()
}

#[test]
fn configure_paths_lays_out_the_tree() {
    let p = Paket::configure_paths("/home/u");
    assert_eq!(p.config_dir, "/home/u/.config");
    assert_eq!(p.fish_dir, "/home/u/.config/fish");
    assert_eq!(p.fish_snippets_dir, "/home/u/.config/fish/conf.d");
    assert_eq!(p.fish_completions_dir, "/home/u/.config/fish/completions");
    assert_eq!(p.fish_functions_dir, "/home/u/.config/fish/functions");
    assert_eq!(p.paket_dir, "/home/u/.config/paket");
}

#[test]
fn scan_places_fish_files_and_listed_extras() {
    let pk = make_paket();
    let entries = vec![
        dir("conf.d"),
        file("conf.d/a.fish"),
        dir("completions"),
        file("completions/b.fish"),
        dir("other"),
        file("other/c.fish"),
        dir("functions"),
        file("functions/d.txt"),
    ];
    let extras = Some(vec!["d.txt".to_string()]);
    let acts = pk.scan_pkg_dir("/pkg", &entries, &extras).unwrap();
    assert_eq!(
        pairs(&acts),
        vec![
            (
                "/pkg/conf.d/a.fish".to_string(),
                "/home/u/.config/fish/conf.d/a.fish".to_string()
            ),
            (
                "/pkg/completions/b.fish".to_string(),
                "/home/u/.config/fish/completions/b.fish".to_string()
            ),
            (
                "/pkg/functions/d.txt".to_string(),
                "/home/u/.config/fish/functions/d.txt".to_string()
            ),
        ]
    );
}

#[test]
fn scan_without_extras_skips_non_fish_files() {
    let pk = make_paket();
    let entries = vec![dir("functions"), file("functions/d.txt")];
    let acts = pk.scan_pkg_dir("/pkg", &entries, &None).unwrap();
    assert!(acts.is_empty());
}

#[test]
fn scan_matches_extras_against_the_full_path() {
    let pk = make_paket();
    let entries = vec![dir("functions"), file("functions/d.txt")];
    let extras = Some(vec!["functions/d.txt".to_string()]);
    let acts = pk.scan_pkg_dir("/pkg", &entries, &extras).unwrap();
    assert_eq!(acts.len(), 1);
    // a mere string suffix that is no component suffix does not match
    let extras = Some(vec!["unctions/d.txt".to_string()]);
    let acts = pk.scan_pkg_dir("/pkg", &entries, &extras).unwrap();
    assert!(acts.is_empty());
}

#[test]
fn scan_does_not_descend_into_unrecognized_directories() {
    let pk = make_paket();
    let entries = vec![dir("other"), dir("other/conf.d"), file("other/conf.d/x.fish")];
    let acts = pk.scan_pkg_dir("/pkg", &entries, &None).unwrap();
    assert!(acts.is_empty());
}

#[test]
fn scan_descends_into_nested_recognized_directories() {
    let pk = make_paket();
    let entries = vec![
        dir("conf.d"),
        dir("conf.d/completions"),
        file("conf.d/completions/x.fish"),
    ];
    let acts = pk.scan_pkg_dir("/pkg", &entries, &None).unwrap();
    assert_eq!(
        pairs(&acts),
        vec![(
            "/pkg/conf.d/completions/x.fish".to_string(),
            "/home/u/.config/fish/completions/x.fish".to_string()
        )]
    );
}

#[test]
fn scan_skips_files_at_the_package_root() {
    let pk = make_paket();
    let entries = vec![file("init.fish")];
    let acts = pk.scan_pkg_dir("/pkg", &entries, &None).unwrap();
    assert!(acts.is_empty());
}

#[test]
fn scan_fails_with_path_error_on_a_nameless_file() {
    let pk = make_paket();
    let entries = vec![dir("conf.d"), file("conf.d/")];
    let e = pk.scan_pkg_dir("/pkg", &entries, &None).unwrap_err();
    assert!(matches!(e, PaketError::PathError(_)));
}

#[test]
fn scan_is_deterministic_for_the_same_inputs() {
    let pk = make_paket();
    let entries = vec![dir("conf.d"), file("conf.d/a.fish"), dir("functions"), file("functions/f.fish")];
    let a = pk.scan_pkg_dir("/pkg", &entries, &None).unwrap();
    let b = pk.scan_pkg_dir("/pkg", &entries, &None).unwrap();
    assert_eq!(pairs(&a), pairs(&b));
}

#[test]
fn installing_then_removing_restores_the_tree() {
    let pk = make_paket();
    let entries = vec![
        dir("conf.d"),
        file("conf.d/a.fish"),
        dir("functions"),
        file("functions/f.fish"),
    ];
    let pre: HashSet<String> = ["/home/u/.config/fish/conf.d/keep.fish".to_string()]
        .into_iter()
        .collect();
    // install: copy every placement of the scan into the tree
    let mut tree = pre.clone();
    for a in pk.scan_pkg_dir("/pkg", &entries, &None).unwrap() {
        tree.insert(a.dest);
    }
    assert_eq!(tree.len(), 3);
    // remove: the same scan on the unchanged package names the same files
    for a in pk.scan_pkg_dir("/pkg", &entries, &None).unwrap() {
        tree.remove(&a.dest);
    }
    assert_eq!(tree, pre);
}

#[test]
fn event_binding_with_matching_prefix_emits() {
    let pk = make_paket();
    let ev = TomlEvents {
        after_install: Some("foo_after_install".to_string()),
        after_update: None,
        before_uninstall: None,
    };
    let c = pk
        .emit_event("foo", &ev, PaketEvents::AfterInstall)
        .unwrap()
        .unwrap();
    assert_eq!(c.program, "fish");
    assert!(c.cwd.is_none());
    assert_eq!(c.args, vec!["-c".to_string(), "emit foo_after_install".to_string()]);
}

#[test]
fn event_binding_with_wrong_prefix_is_rejected() {
    let pk = make_paket();
    let ev = TomlEvents {
        after_install: Some("foo_after_install".to_string()),
        after_update: None,
        before_uninstall: None,
    };
    let e = pk.emit_event("bar", &ev, PaketEvents::AfterInstall).unwrap_err();
    assert!(matches!(e, PaketError::EventFormatError(_)));
}

#[test]
fn event_binding_without_underscore_is_rejected() {
    let pk = make_paket();
    let ev = TomlEvents {
        after_install: Some("foo".to_string()),
        after_update: None,
        before_uninstall: None,
    };
    let e = pk.emit_event("foo", &ev, PaketEvents::AfterInstall).unwrap_err();
    assert!(matches!(e, PaketError::EventFormatError(_)));
}

#[test]
fn event_without_binding_is_a_no_op() {
    let pk = make_paket();
    let ev = TomlEvents { after_install: None, after_update: None, before_uninstall: None };
    assert!(pk.emit_event("foo", &ev, PaketEvents::AfterUpdate).unwrap().is_none());
}

#[test]
fn event_name_is_trimmed_at_its_end() {
    let pk = make_paket();
    let ev = TomlEvents {
        after_update: Some("foo_up  ".to_string()),
        after_install: None,
        before_uninstall: None,
    };
    let c = pk.emit_event("foo", &ev, PaketEvents::AfterUpdate).unwrap().unwrap();
    assert_eq!(c.args[1], "emit foo_up");
}

#[test]
fn git_clone_builds_the_full_command() {
    let g = Git::new("/cache");
    let c = g.clone("owner/name", Some("v1"), "github").unwrap();
    assert_eq!(c.program, "git");
    assert_eq!(c.cwd, Some("/cache".to_string()));
    assert_eq!(
        c.args,
        vec![
            "clone".to_string(),
            "--depth=1".to_string(),
            "--branch=v1".to_string(),
            "https://github.com/owner/name.git".to_string(),
            "/cache/owner/name".to_string(),
        ]
    );
}

#[test]
fn git_clone_knows_the_three_providers() {
    let g = Git::new("/cache");
    let c = g.clone("o/n", None, "bitbucket").unwrap();
    assert_eq!(c.args[3], "https://bitbucket.org/o/n.git");
    assert_eq!(c.args[2], "--branch=master");
    let c = g.clone("o/n", None, "gitlab").unwrap();
    assert_eq!(c.args[3], "https://gitlab.com/o/n.git");
    let e = g.clone("o/n", None, "sourcehut").unwrap_err();
    assert!(matches!(e, PaketError::InvalidReference(_)));
}

#[test]
fn git_fetch_and_checkout_run_in_the_package_directory() {
    let g = Git::new("/cache");
    let c = g.fetch("o/n", Some("dev"));
    assert_eq!(c.cwd, Some("/cache/o/n".to_string()));
    assert_eq!(
        c.args,
        vec!["fetch".to_string(), "--depth=1".to_string(), "origin".to_string(), "dev".to_string()]
    );
    let c = g.checkout("o/n", Some("FETCH_HEAD")).unwrap();
    assert_eq!(c.cwd, Some("/cache/o/n".to_string()));
    assert_eq!(c.args, vec!["checkout".to_string(), "FETCH_HEAD".to_string()]);
    let e = g.checkout("o/n", None).unwrap_err();
    assert!(matches!(e, PaketError::InvalidReference(_)));
}

#[test]
fn git_pull_requires_the_repository_to_exist() {
    let g = Git::new("/cache");
    let c = g.pull("o/n", true).unwrap();
    assert_eq!(c.args, vec!["pull".to_string(), "origin".to_string(), "master".to_string()]);
    let e = g.pull("o/n", false).unwrap_err();
    assert!(matches!(e, PaketError::PathError(_)));
}

#[test]
fn git_repo_check_reads_the_command_output() {
    let g = Git::new("/cache");
    let c = g.check_valid_repo_cmd("/some/dir");
    assert_eq!(c.cwd, Some("/some/dir".to_string()));
    assert_eq!(c.args, vec!["rev-parse".to_string(), "--is-inside-work-tree".to_string()]);
    assert!(Git::check_valid_repo(&Ok("true\n".to_string())).is_ok());
    let e = Git::check_valid_repo(&Ok("false\n".to_string())).unwrap_err();
    assert!(matches!(e, PaketError::SubprocessError(_)));
    let e = Git::check_valid_repo(&Err("boom".to_string())).unwrap_err();
    assert_eq!(e.message(), "boom");
}

#[test]
fn path_suffix_helpers_match_by_component() {
    assert!(paket::fs_helper::contains_any_suffixes(
        "pkg/conf.d",
        &vec!["conf.d", "completions", "functions"]
    ));
    assert!(!paket::fs_helper::contains_any_suffixes("pkg/myconf.d", &vec!["conf.d"]));
    assert!(paket::helpers::file::has_path_any_suffixes("a/b/c", &["b/c"]));
    assert!(!paket::helpers::file::has_path_any_suffixes("a/b/c", &["/b/c"]));
    assert!(paket::helpers::file::has_path_any_suffixes("a/b/c", &[""]));
}

#[test]
fn actions_root_git_at_the_package_cache() {
    let pk = make_paket();
    let a = Actions::new(&pk);
    assert_eq!(a.git.base_dir, "/home/u/.config/paket");
    assert_eq!(a.git.current_dir, "/home/u/.config/paket");
}

#[test]
fn command_gates_check_the_cache_state() {
    assert!(Actions::check_install_target(false, "o/n").is_ok());
    let e = Actions::check_install_target(true, "o/n").unwrap_err();
    assert!(matches!(e, PaketError::PathError(_)));
    assert!(Actions::check_update_target(true, "o/n").is_ok());
    let e = Actions::check_update_target(false, "o/n").unwrap_err();
    assert!(matches!(e, PaketError::PathError(_)));
    assert!(Actions::check_remove_target(true, "o/n").is_ok());
    let e = Actions::check_remove_target(false, "o/n").unwrap_err();
    assert!(matches!(e, PaketError::PathError(_)));
    assert!(Actions::check_cloned(true, "o/n").is_ok());
    let e = Actions::check_cloned(false, "o/n").unwrap_err();
    assert!(matches!(e, PaketError::SubprocessError(_)));
}

#[test]
fn tag_option_drops_an_empty_tag() {
    let f = paket::pkg::fmt::PkgNameFmt::from("owner/name@dev", None).unwrap();
    assert_eq!(f.tag_option(), Some("dev".to_string()));
    let f = paket::pkg::fmt::PkgNameFmt::from("owner/name@  ", None).unwrap();
    assert_eq!(f.tag_option(), None);
}
