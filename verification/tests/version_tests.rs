use matrix_runner::version::{parse_version, parse_version_id, versions_geq, Version, VersionId};

fn v(major: u64, minor: u64, patch: u64) -> Version {
    Version { major, minor, patch }
}

#[test]
fn parses_plain_versions() {
    assert_eq!(parse_version("1.40.0"), Ok(v(1, 40, 0)));
    assert_eq!(parse_version("0.6.2"), Ok(v(0, 6, 2)));
    assert_eq!(parse_version("10.20.30"), Ok(v(10, 20, 30)));
    assert_eq!(parse_version("0.0.0"), Ok(v(0, 0, 0)));
    assert_eq!(
        parse_version("18446744073709551615.0.1"),
        Ok(v(u64::MAX, 0, 1))
    );
}

#[test]
fn rejects_malformed_versions() {
    assert!(parse_version("").is_err());
    assert!(parse_version("1").is_err());
    assert!(parse_version("1.2").is_err());
    assert!(parse_version("1.2.3.4").is_err());
    assert!(parse_version("1..3").is_err());
    assert!(parse_version(".1.2").is_err());
    assert!(parse_version("1.2.").is_err());
    assert!(parse_version("a.b.c").is_err());
    assert!(parse_version("1.2.x").is_err());
    assert!(parse_version("01.2.3").is_err());
    assert!(parse_version("1.02.3").is_err());
    assert!(parse_version("1.2.3 ").is_err());
    assert!(parse_version("nightly").is_err());
    // one past u64::MAX in the patch slot
    assert!(parse_version("1.0.18446744073709551616").is_err());
}

#[test]
fn rejects_prerelease_and_build_suffixes() {
    // toolchain names are plain major.minor.patch; anything trailing is
    // a parse error, fatal for the run
    assert!(parse_version("1.2.3-beta").is_err());
    assert!(parse_version("1.2.3+build").is_err());
}

#[test]
fn component_order_is_lexicographic() {
    assert!(v(2, 0, 0).geq(&v(1, 99, 99)));
    assert!(v(1, 50, 0).geq(&v(1, 49, 99)));
    assert!(v(1, 50, 1).geq(&v(1, 50, 0)));
    assert!(v(1, 50, 0).geq(&v(1, 50, 0)));
    assert!(!v(1, 49, 99).geq(&v(1, 50, 0)));
}

#[test]
fn parses_symbolic_identifiers() {
    assert_eq!(parse_version_id("nightly"), Ok(VersionId::Nightly));
    assert_eq!(parse_version_id("stable"), Ok(VersionId::Stable));
    assert_eq!(
        parse_version_id("1.40.0"),
        Ok(VersionId::Concrete(v(1, 40, 0)))
    );
    assert!(parse_version_id("beta").is_err());
}

#[test]
fn concrete_pairs_follow_semver_order() {
    // agreement with the semver crate's ordering on concrete versions
    let names = ["1.40.0", "1.50.0", "1.50.1", "1.4.9", "0.9.9", "2.0.0"];
    let stable = v(1, 60, 0);
    for a in names.iter() {
        for b in names.iter() {
            let sa: semver::Version = a.parse().unwrap();
            let sb: semver::Version = b.parse().unwrap();
            assert_eq!(
                versions_geq(a, b, &stable),
                Ok(sa >= sb),
                "disagreement on ({}, {})",
                a,
                b
            );
        }
    }
}

#[test]
fn nightly_is_greatest() {
    let stable = v(1, 60, 0);
    for x in ["1.0.0", "999.999.999", "stable", "nightly", "garbage"] {
        assert_eq!(versions_geq("nightly", x, &stable), Ok(true));
    }
    for x in ["1.0.0", "999.999.999", "stable", "garbage"] {
        assert_eq!(versions_geq(x, "nightly", &stable), Ok(false));
    }
    assert_eq!(versions_geq("nightly", "nightly", &stable), Ok(true));
}

#[test]
fn stable_is_substituted() {
    let stable = v(1, 60, 0);
    assert_eq!(versions_geq("stable", "1.50.0", &stable), Ok(true));
    assert_eq!(versions_geq("stable", "1.60.0", &stable), Ok(true));
    assert_eq!(versions_geq("stable", "1.60.1", &stable), Ok(false));
    assert_eq!(versions_geq("1.40.0", "stable", &stable), Ok(false));
    assert_eq!(versions_geq("stable", "stable", &stable), Ok(true));
}

#[test]
fn malformed_comparisons_fail() {
    let stable = v(1, 60, 0);
    assert!(versions_geq("oops", "1.0.0", &stable).is_err());
    assert!(versions_geq("1.0.0", "oops", &stable).is_err());
}
