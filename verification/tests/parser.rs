use paket::errors::PaketError;
use paket::pkg::fmt::PkgNameFmt;
use paket::pkg::validator::PkgValidator;

#[test]
fn remote_reference_without_tag_defaults_to_master() {
    let f = PkgNameFmt::from("owner/name", None).unwrap();
    assert_eq!(f.user_name, "owner");
    assert_eq!(f.pkg_name, "name");
    assert_eq!(f.pkg_tag, "master");
    assert_eq!(f.get_short_name(), "owner/name");
    assert!(f.get_pkg_path().is_none());
}

#[test]
fn remote_reference_with_tag_keeps_the_tag() {
    let f = PkgNameFmt::from("owner/name@v1.2.0", None).unwrap();
    assert_eq!(f.user_name, "owner");
    assert_eq!(f.pkg_name, "name");
    assert_eq!(f.pkg_tag, "v1.2.0");
    assert_eq!(f.get_short_name(), "owner/name");
}

#[test]
fn remote_reference_parts_are_trimmed() {
    let f = PkgNameFmt::from(" owner / name @ tag ", None).unwrap();
    assert_eq!(f.user_name, "owner");
    assert_eq!(f.pkg_name, "name");
    assert_eq!(f.pkg_tag, "tag");
}

#[test]
fn remote_reference_with_empty_tag_defaults_to_master() {
    let f = PkgNameFmt::from("owner/name@", None).unwrap();
    assert_eq!(f.pkg_tag, "master");
}

#[test]
fn empty_reference_is_rejected() {
    let e = PkgNameFmt::from("", None).unwrap_err();
    assert!(matches!(e, PaketError::InvalidReference(_)));
}

#[test]
fn reference_without_slash_is_rejected() {
    let e = PkgNameFmt::from("justaname", None).unwrap_err();
    assert!(matches!(e, PaketError::InvalidReference(_)));
}

#[test]
fn reference_with_empty_owner_is_rejected() {
    let e = PkgNameFmt::from("/name", None).unwrap_err();
    assert!(matches!(e, PaketError::InvalidReference(_)));
    let e = PkgNameFmt::from("  /name", None).unwrap_err();
    assert!(matches!(e, PaketError::InvalidReference(_)));
}

#[test]
fn reference_with_empty_name_is_rejected() {
    let e = PkgNameFmt::from("owner/", None).unwrap_err();
    assert!(matches!(e, PaketError::InvalidReference(_)));
    let e = PkgNameFmt::from("owner/ @tag", None).unwrap_err();
    assert!(matches!(e, PaketError::InvalidReference(_)));
}

#[test]
fn local_reference_takes_the_directory_name() {
    let f = PkgNameFmt::from("../pkgs/mypkg", Some("/home/u/pkgs/mypkg")).unwrap();
    assert_eq!(f.user_name, "");
    assert_eq!(f.pkg_name, "mypkg");
    assert_eq!(f.pkg_tag, "master");
    assert_eq!(f.get_pkg_path().unwrap(), "/home/u/pkgs/mypkg");
}

#[test]
fn local_reference_to_the_root_is_rejected() {
    let e = PkgNameFmt::from("/", Some("/")).unwrap_err();
    assert!(matches!(e, PaketError::InvalidReference(_)));
}

#[test]
fn validator_accepts_a_full_reference() {
    let v = PkgValidator::new("owner/name@dev").unwrap();
    assert_eq!(v.username, "owner");
    assert_eq!(v.pkg_name, "name");
    assert_eq!(v.pkg_tag, "dev");
    assert_eq!(v.get_user_pkg_name(), "owner/name");
}

#[test]
fn validator_defaults_the_tag() {
    let v = PkgValidator::new("owner/name").unwrap();
    assert_eq!(v.pkg_tag, "master");
}

#[test]
fn validator_rejects_malformed_references() {
    assert!(matches!(
        PkgValidator::new("").unwrap_err(),
        PaketError::InvalidReference(_)
    ));
    assert!(matches!(
        PkgValidator::new("noslash").unwrap_err(),
        PaketError::InvalidReference(_)
    ));
    assert!(matches!(
        PkgValidator::new("owner/").unwrap_err(),
        PaketError::InvalidReference(_)
    ));
}

#[test]
fn string_helpers_trim_and_compare() {
    assert_eq!(paket::strutil::str_trim("  a b  "), "a b");
    assert_eq!(paket::strutil::str_trim_start("\t x"), "x");
    assert_eq!(paket::strutil::str_trim_end("x \n"), "x");
    assert!(paket::strutil::str_eq("abc", "abc"));
    assert!(!paket::strutil::str_eq("abc", "abd"));
    assert!(paket::strutil::str_ends_with("file.fish", ".fish"));
    assert!(!paket::strutil::str_ends_with("file.txt", ".fish"));
}
