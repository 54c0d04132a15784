use std::str::FromStr;

use debversion::Version;
use tarball_namer::util::tarball_name;

#[test]
fn test_tarball_name() {
    assert_eq!(
        tarball_name("package", &Version::from_str("0.1").unwrap(), None, None),
        "package_0.1.orig.tar.gz"
    );
    assert_eq!(
        tarball_name("package", &Version::from_str("0.1").unwrap(), None, Some("bz2")),
        "package_0.1.orig.tar.bz2",
    );
    assert_eq!(
        tarball_name("package", &Version::from_str("0.1").unwrap(), None, Some("xz")),
        "package_0.1.orig.tar.xz",
    );
    assert_eq!(
        tarball_name("package", &Version::from_str("0.1").unwrap(), Some("la"), Some("xz")),
        "package_0.1.orig-la.tar.xz",
    );
}

#[test]
fn base_name_without_component_or_format() {
    let v = Version::from_str("2.4.7").unwrap();
    assert_eq!(tarball_name("foo", &v, None, None), "foo_2.4.7.orig.tar.gz");
}

#[test]
fn explicit_format_without_component() {
    let v = Version::from_str("2.4.7").unwrap();
    assert_eq!(tarball_name("foo", &v, None, Some("lzma")), "foo_2.4.7.orig.tar.lzma");
}

#[test]
fn component_with_explicit_format() {
    let v = Version::from_str("2.4.7").unwrap();
    assert_eq!(tarball_name("foo", &v, Some("docs"), Some("xz")), "foo_2.4.7.orig-docs.tar.xz");
}

#[test]
fn component_with_default_format() {
    let v = Version::from_str("2.4.7").unwrap();
    assert_eq!(tarball_name("foo", &v, Some("docs"), None), "foo_2.4.7.orig-docs.tar.gz");
}

#[test]
fn omitted_format_equals_explicit_gz() {
    let v = Version::from_str("0.1").unwrap();
    assert_eq!(
        tarball_name("package", &v, None, None),
        tarball_name("package", &v, None, Some("gz")),
    );
    assert_eq!(
        tarball_name("package", &v, Some("la"), None),
        tarball_name("package", &v, Some("la"), Some("gz")),
    );
}

#[test]
fn version_with_epoch_and_revision_is_rendered_in_full() {
    let v = Version::from_str("1:2.0-3").unwrap();
    assert_eq!(tarball_name("pkg", &v, None, None), "pkg_1:2.0-3.orig.tar.gz");
}

#[test]
fn identical_inputs_give_identical_output() {
    let v = Version::from_str("0.1").unwrap();
    let first = tarball_name("package", &v, Some("la"), Some("xz"));
    let second = tarball_name("package", &v, Some("la"), Some("xz"));
    assert_eq!(first, second);
}
