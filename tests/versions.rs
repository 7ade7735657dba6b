use std::cmp::Ordering;

use electron_collider::text::{contains_text, decimal_text, same_text};
use electron_collider::version::{Version, VersionError, VersionRange};

fn v(text: &str) -> Version {
    Version::parse(text).unwrap()
}

#[test]
fn parse_and_render_round_trip() {
    for text in ["0.0.0", "13.1.0", "14.0.0-beta.2", "1.2.3-rc.1+build.5", "10.20.30"] {
        assert_eq!(v(text).render(), text);
    }
}

#[test]
fn invalid_version_is_reported_with_its_text() {
    match Version::parse("1.2") {
        Err(VersionError::Invalid { input }) => assert_eq!(input, "1.2"),
        other => panic!("unexpected result {:?}", other),
    }
    assert!(matches!(VersionRange::parse("^^"), Err(VersionError::InvalidRange { .. })));
}

#[test]
fn ranges_the_parser_cannot_take_are_rejected() {
    for text in ["=*", "=x", "= *", "= v x", "~*", "~>X", "~ > *", "~1.x.3", "~>1.*.0", "1.2.3 || =X"] {
        match VersionRange::parse(text) {
            Err(VersionError::InvalidRange { input }) => assert_eq!(input, text),
            other => panic!("unexpected result for {}: {:?}", text, other.map(|r| r.text())),
        }
    }
    for text in ["^1.x", "~1.2.3", "=1.2.3", "1.x", "*", ">=2 <4", "~1.2.x", "~13.x", ">=1.x", "<=2.x",
        "= 1.2.3", "~>1.2", "~ 1.2.3", "1.x || =2.0.0"] {
        assert!(VersionRange::parse(text).is_ok(), "{}", text);
    }
}

#[test]
fn precedence_follows_semver() {
    assert_eq!(v("1.2.3").compare(&v("1.2.4")), Ordering::Less);
    assert_eq!(v("2.0.0").compare(&v("1.9.9")), Ordering::Greater);
    assert_eq!(v("1.0.0").compare(&v("1.0.0-beta.1")), Ordering::Greater);
    assert_eq!(v("1.0.0-alpha").compare(&v("1.0.0-beta")), Ordering::Less);
    assert_eq!(v("1.0.0-2").compare(&v("1.0.0-alpha")), Ordering::Less);
    assert_eq!(v("1.0.0+a").compare(&v("1.0.0+b")), Ordering::Equal);
}

#[test]
fn ranges_admit_as_expected() {
    let caret = VersionRange::parse("^2.0.0").unwrap();
    assert!(caret.satisfies(&v("2.5.0")));
    assert!(!caret.satisfies(&v("3.0.0")));
    assert!(!caret.satisfies(&v("1.9.0")));
    let any = VersionRange::any();
    assert!(any.satisfies(&v("0.1.0")));
    assert!(!any.satisfies(&v("2.0.0-beta.1")));
    assert_eq!(any.text(), "*");
    assert_eq!(caret.text(), "^2.0.0");
}

#[test]
fn prerelease_flag() {
    assert!(v("2.0.0-beta.1").is_prerelease());
    assert!(!v("2.0.0").is_prerelease());
}

#[test]
fn text_helpers() {
    assert_eq!(decimal_text(0), "0");
    assert_eq!(decimal_text(1907), "1907");
    assert_eq!(decimal_text(u64::MAX), u64::MAX.to_string());
    assert!(same_text("abc", "abc"));
    assert!(!same_text("abc", "abd"));
    assert!(contains_text("xx rate limit exceeded", "rate limit"));
    assert!(contains_text("abc", ""));
    assert!(!contains_text("ab", "abc"));
}
