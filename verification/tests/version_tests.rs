use mockstruct_launcher::error::UpdateError;
use mockstruct_launcher::version::canonical_string;
use mockstruct_launcher::version::decimal_string;
use mockstruct_launcher::version::parse_tag;
use mockstruct_launcher::version::parse_version;
use mockstruct_launcher::version::SemanticVersion;

fn v(major: u64, minor: u64, patch: u64) -> SemanticVersion {
    SemanticVersion { major, minor, patch }
}

#[test]
fn parses_plain_version() {
    assert_eq!(parse_version("1.2.3"), Ok(v(1, 2, 3)));
}

#[test]
fn parses_zero_components() {
    assert_eq!(parse_version("0.0.0"), Ok(v(0, 0, 0)));
}

#[test]
fn parses_multi_digit_components() {
    assert_eq!(parse_version("10.200.3001"), Ok(v(10, 200, 3001)));
}

#[test]
fn parses_largest_component() {
    assert_eq!(
        parse_version("18446744073709551615.0.1"),
        Ok(v(u64::MAX, 0, 1))
    );
}

#[test]
fn rejects_overflowing_component() {
    assert_eq!(
        parse_version("18446744073709551616.0.0"),
        Err(UpdateError::InvalidVersionFormat)
    );
}

#[test]
fn rejects_empty_string() {
    assert_eq!(parse_version(""), Err(UpdateError::InvalidVersionFormat));
}

#[test]
fn rejects_two_components() {
    assert_eq!(parse_version("1.2"), Err(UpdateError::InvalidVersionFormat));
}

#[test]
fn rejects_four_components() {
    assert_eq!(
        parse_version("1.2.3.4"),
        Err(UpdateError::InvalidVersionFormat)
    );
}

#[test]
fn rejects_leading_zero() {
    assert_eq!(
        parse_version("01.2.3"),
        Err(UpdateError::InvalidVersionFormat)
    );
}

#[test]
fn rejects_prerelease_suffix() {
    assert_eq!(
        parse_version("1.2.3-alpha"),
        Err(UpdateError::InvalidVersionFormat)
    );
}

#[test]
fn rejects_surrounding_space() {
    assert_eq!(
        parse_version(" 1.2.3"),
        Err(UpdateError::InvalidVersionFormat)
    );
    assert_eq!(
        parse_version("1.2.3 "),
        Err(UpdateError::InvalidVersionFormat)
    );
}

#[test]
fn rejects_nonnumeric_components() {
    assert_eq!(parse_version("a.b.c"), Err(UpdateError::InvalidVersionFormat));
}

#[test]
fn rejects_empty_component() {
    assert_eq!(parse_version("1..3"), Err(UpdateError::InvalidVersionFormat));
    assert_eq!(parse_version(".2.3"), Err(UpdateError::InvalidVersionFormat));
    assert_eq!(parse_version("1.2."), Err(UpdateError::InvalidVersionFormat));
}

#[test]
fn tag_prefix_is_stripped() {
    assert_eq!(parse_tag("v2.0.1"), Ok(v(2, 0, 1)));
    assert_eq!(parse_tag("v2.0.1"), parse_tag("2.0.1"));
}

#[test]
fn bare_tag_parses() {
    assert_eq!(parse_tag("0.9.0"), Ok(v(0, 9, 0)));
}

#[test]
fn tag_strips_only_one_prefix_letter() {
    assert_eq!(parse_tag("vv1.2.3"), Err(UpdateError::InvalidVersionFormat));
}

#[test]
fn ordering_is_transitive_on_examples() {
    let a = v(0, 9, 0);
    let b = v(1, 0, 0);
    let c = v(1, 0, 1);
    assert!(a.lt(&b));
    assert!(b.lt(&c));
    assert!(a.lt(&c));
}

#[test]
fn ordering_compares_components_in_order() {
    assert!(v(0, 9, 9).lt(&v(1, 0, 0)));
    assert!(v(1, 0, 9).lt(&v(1, 1, 0)));
    assert!(v(1, 1, 0).lt(&v(1, 1, 1)));
    assert!(!v(2, 0, 0).lt(&v(1, 9, 9)));
}

#[test]
fn equal_versions_compare_equal() {
    assert_eq!(parse_version("1.2.3"), parse_version("1.2.3"));
    assert!(!v(1, 2, 3).lt(&v(1, 2, 3)));
}

#[test]
fn canonical_form_round_trips() {
    let x = v(10, 20, 3);
    let s = canonical_string(&x);
    assert_eq!(s, "10.20.3");
    assert_eq!(parse_version(&s), Ok(x));
    let y = v(u64::MAX, 0, 7);
    assert_eq!(parse_version(&canonical_string(&y)), Ok(y));
}

#[test]
fn decimal_renders_exactly() {
    assert_eq!(decimal_string(0), "0");
    assert_eq!(decimal_string(7), "7");
    assert_eq!(decimal_string(305), "305");
    assert_eq!(decimal_string(u64::MAX), "18446744073709551615");
}
