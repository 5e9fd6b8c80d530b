use git_flow::version::{ParseVersionError, Qualifier, Version};

#[test]
fn parse_snapshot_with_v_prefix() {
    let v = Version::parse("v1.2.3-SNAPSHOT").unwrap();
    assert_eq!(v.major, 1);
    assert_eq!(v.minor, 2);
    assert_eq!(v.patch, 3);
    assert_eq!(v.qualifier, Qualifier::Snapshot);
}

#[test]
fn parse_snapshot_without_v_prefix() {
    let v = Version::parse("1.0.0-SNAPSHOT").unwrap();
    assert_eq!(v, Version { major: 1, minor: 0, patch: 0, qualifier: Qualifier::Snapshot });
}

#[test]
fn parse_release_qualifier() {
    let v = Version::parse("v10.20.30.RELEASE").unwrap();
    assert_eq!(v, Version { major: 10, minor: 20, patch: 30, qualifier: Qualifier::Release });
}

#[test]
fn parse_plain_version() {
    let v = Version::parse("7.8.9").unwrap();
    assert_eq!(v, Version { major: 7, minor: 8, patch: 9, qualifier: Qualifier::Plain });
}

#[test]
fn parse_empty_is_an_error() {
    assert_eq!(Version::parse(""), Err(ParseVersionError::Empty));
}

#[test]
fn parse_wrong_component_count() {
    assert_eq!(Version::parse("1.2"), Err(ParseVersionError::WrongComponentCount));
    assert_eq!(Version::parse("1.2.3.4"), Err(ParseVersionError::WrongComponentCount));
    assert_eq!(Version::parse("123"), Err(ParseVersionError::WrongComponentCount));
}

#[test]
fn parse_non_numeric_components() {
    assert_eq!(
        Version::parse("x.2.3"),
        Err(ParseVersionError::NonNumericComponent { index: 0 })
    );
    assert_eq!(
        Version::parse("1.y.3"),
        Err(ParseVersionError::NonNumericComponent { index: 1 })
    );
    assert_eq!(
        Version::parse("1.2.z"),
        Err(ParseVersionError::NonNumericComponent { index: 2 })
    );
    assert_eq!(
        Version::parse("1..3"),
        Err(ParseVersionError::NonNumericComponent { index: 1 })
    );
}

#[test]
fn parse_component_too_large() {
    assert_eq!(
        Version::parse("99999999999999999999.0.0"),
        Err(ParseVersionError::ComponentTooLarge { index: 0 })
    );
    assert_eq!(
        Version::parse("1.2.18446744073709551616"),
        Err(ParseVersionError::ComponentTooLarge { index: 2 })
    );
    let v = Version::parse("0.0.18446744073709551615").unwrap();
    assert_eq!(v.patch, u64::MAX);
}

#[test]
fn snapshot_string_round_trips() {
    for raw in ["v1.0.0-SNAPSHOT", "v2.31.7-SNAPSHOT", "v0.0.0-SNAPSHOT"] {
        let v = Version::parse(raw).unwrap();
        assert_eq!(v.qualifier, Qualifier::Snapshot);
        let rendered = v.to_string();
        assert_eq!(format!("v{}", rendered), raw);
        let again = Version::parse(&rendered).unwrap();
        assert_eq!(again, v);
    }
}

#[test]
fn bump_patch_increments_patch_only() {
    let v = Version { major: 1, minor: 2, patch: 3, qualifier: Qualifier::Snapshot };
    let b = v.bump_patch();
    assert_eq!(b.major, 1);
    assert_eq!(b.minor, 2);
    assert_eq!(b.patch, 4);
    assert_eq!(b.qualifier, Qualifier::Snapshot);
    let z = Version { major: 0, minor: 0, patch: 0, qualifier: Qualifier::Plain };
    assert_eq!(z.bump_patch().patch, 1);
    assert_eq!(z.bump_patch().major, 0);
    assert_eq!(z.bump_patch().minor, 0);
}

#[test]
fn bump_minor_reset_patch_resets_any_patch() {
    for patch in [0u64, 3, 99] {
        let v = Version { major: 2, minor: 5, patch, qualifier: Qualifier::Release };
        let b = v.bump_minor_reset_patch();
        assert_eq!(b.major, 2);
        assert_eq!(b.minor, 6);
        assert_eq!(b.patch, 0);
        assert_eq!(b.qualifier, Qualifier::Release);
    }
}

#[test]
fn bump_minor_moves_to_next_snapshot_line() {
    let v = Version { major: 2, minor: 5, patch: 9, qualifier: Qualifier::Release };
    let b = v.bump_minor();
    assert_eq!(b, Version { major: 2, minor: 6, patch: 0, qualifier: Qualifier::Snapshot });
}

#[test]
fn with_qualifier_replaces_only_the_qualifier() {
    let v = Version { major: 1, minor: 2, patch: 3, qualifier: Qualifier::Plain };
    let s = v.with_qualifier(Qualifier::Snapshot);
    assert_eq!(s, Version { major: 1, minor: 2, patch: 3, qualifier: Qualifier::Snapshot });
}

#[test]
fn rendering_follows_the_qualifier() {
    let v = Version { major: 1, minor: 2, patch: 3, qualifier: Qualifier::Snapshot };
    assert_eq!(v.to_string(), "1.2.3-SNAPSHOT");
    assert_eq!(v.number_string(), "1.2.3");
    assert_eq!(v.to_release_string(), "1.2.3.RELEASE");
    let p = Version { major: 4, minor: 0, patch: 17, qualifier: Qualifier::Plain };
    assert_eq!(p.to_string(), "4.0.17");
    let r = Version { major: 0, minor: 9, patch: 0, qualifier: Qualifier::Release };
    assert_eq!(r.to_string(), "0.9.0.RELEASE");
    assert_eq!(r.to_release_string(), "0.9.0.RELEASE");
}
