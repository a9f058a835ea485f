use siege_op_rando::version::{is_newer_release, is_version_newer, parse_trimmed_version, parse_version};

#[test]
fn parses_plain_and_prefixed_versions() {
    assert_eq!(parse_version("1.2.3"), Ok((1, 2, 3)));
    assert_eq!(parse_version("v0.10.20"), Ok((0, 10, 20)));
    assert_eq!(parse_version("  V4.0.1\n"), Ok((4, 0, 1)));
    assert_eq!(parse_version("vV2.3.4"), Ok((2, 3, 4)));
    assert_eq!(parse_version("1.2.+3"), Ok((1, 2, 3)));
    assert_eq!(parse_version("4294967295.0.0"), Ok((4294967295, 0, 0)));
}

#[test]
fn rejects_text_without_leading_digit() {
    assert_eq!(
        parse_version("release"),
        Err("Invalid version format: release (must start with a number)".to_string())
    );
    assert_eq!(
        parse_version(""),
        Err("Invalid version format:  (must start with a number)".to_string())
    );
    assert_eq!(
        parse_version("Vv1.2.3"),
        Err("Invalid version format: Vv1.2.3 (must start with a number)".to_string())
    );
}

#[test]
fn rejects_wrong_number_of_parts() {
    assert_eq!(
        parse_version(" 1.2 "),
        Err("Invalid version format:  1.2  (must be in format X.Y.Z)".to_string())
    );
    assert_eq!(
        parse_version("1.2.3.4"),
        Err("Invalid version format: 1.2.3.4 (must be in format X.Y.Z)".to_string())
    );
}

#[test]
fn rejects_bad_numbers() {
    assert_eq!(parse_version("1x.2.3"), Err("Invalid major version: 1x".to_string()));
    assert_eq!(parse_version("1..3"), Err("Invalid minor version: ".to_string()));
    assert_eq!(parse_version("1.2.3-beta"), Err("Invalid patch version: 3-beta".to_string()));
    assert_eq!(parse_version("4294967296.0.0"), Err("Invalid major version: 4294967296".to_string()));
    assert_eq!(parse_version("1.-2.3"), Err("Invalid minor version: -2".to_string()));
}

#[test]
fn parses_already_trimmed_text() {
    assert_eq!(parse_trimmed_version(" v1.2.3 ", "v1.2.3"), Ok((1, 2, 3)));
    assert_eq!(
        parse_trimmed_version(" x ", "x"),
        Err("Invalid version format:  x  (must start with a number)".to_string())
    );
}

#[test]
fn compares_versions_field_by_field() {
    assert!(is_newer_release((1, 2, 3), (2, 0, 0)));
    assert!(!is_newer_release((2, 0, 0), (1, 9, 9)));
    assert!(is_newer_release((1, 2, 3), (1, 3, 0)));
    assert!(!is_newer_release((1, 3, 0), (1, 2, 9)));
    assert!(is_newer_release((1, 2, 3), (1, 2, 4)));
    assert!(!is_newer_release((1, 2, 3), (1, 2, 3)));
}

#[test]
fn is_version_newer_reads_both_versions() {
    assert_eq!(is_version_newer("1.2.3", "v1.2.4"), Ok(true));
    assert_eq!(is_version_newer("v1.2.3", "1.2.3"), Ok(false));
    assert_eq!(is_version_newer("2.0.0", "v1.9.9"), Ok(false));
    assert_eq!(
        is_version_newer("bad", "1.0.0"),
        Err("Invalid version format: bad (must start with a number)".to_string())
    );
    assert_eq!(is_version_newer("1.0.0", "1.0"), Err("Invalid version format: 1.0 (must be in format X.Y.Z)".to_string()));
}
