//! The version accessor and the version string format.

use equistore_core::version::parse_version;
use equistore_core::version::version;

#[test]
fn version_is_stable_across_calls() {
    let first = version();
    let second = version();
    assert_eq!(first, second);
}

#[test]
fn version_is_parseable() {
    let v = version();
    assert_eq!(parse_version(&v), Some((0, 1, 0)));
}

#[test]
fn parse_accepts_plain_versions() {
    assert_eq!(parse_version("0.1.0"), Some((0, 1, 0)));
    assert_eq!(parse_version("12.345.6789"), Some((12, 345, 6789)));
    assert_eq!(parse_version("0.0.0"), Some((0, 0, 0)));
    assert_eq!(
        parse_version("9999999999999999999.0.1"),
        Some((9_999_999_999_999_999_999, 0, 1))
    );
}

#[test]
fn parse_accepts_a_dev_suffix() {
    assert_eq!(parse_version("1.2.3-dev"), Some((1, 2, 3)));
    assert_eq!(parse_version("1.2.3-rc.1"), Some((1, 2, 3)));
}

#[test]
fn parse_rejects_malformed_versions() {
    assert_eq!(parse_version(""), None);
    assert_eq!(parse_version("1"), None);
    assert_eq!(parse_version("1.2"), None);
    assert_eq!(parse_version("1.2."), None);
    assert_eq!(parse_version(".2.3"), None);
    assert_eq!(parse_version("1..3"), None);
    assert_eq!(parse_version("a.b.c"), None);
    assert_eq!(parse_version("1.2.3.4"), None);
    assert_eq!(parse_version("1.2.3dev"), None);
    assert_eq!(parse_version("v1.2.3"), None);
    // twenty digits never fit the format
    assert_eq!(parse_version("99999999999999999999.0.1"), None);
}
