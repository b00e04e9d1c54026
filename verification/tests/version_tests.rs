use modrinth_apitool::error::ApiErrorKind;
use modrinth_apitool::mc_info::{MCVersion, VersionOrdering, LOADER, VT};

#[test]
fn round_trip_two_part() {
    let (v, warned) = MCVersion::parse("1.20");
    assert!(!warned);
    assert_eq!(v.to_version_string(), "1.20");
}

#[test]
fn round_trip_three_part() {
    let (v, warned) = MCVersion::parse("1.20.4");
    assert!(!warned);
    assert_eq!(v.to_version_string(), "1.20.4");
}

#[test]
fn round_trip_two_digit_fields() {
    let (v, warned) = MCVersion::parse("1.7.10");
    assert!(!warned);
    assert_eq!(v.to_version_string(), "1.7.10");
}

#[test]
fn parse_latest() {
    let (v, warned) = MCVersion::parse("latest");
    assert!(!warned);
    assert!(v.is_latest());
    assert!(!v.is_snapshot());
    assert_eq!(v.to_version_string(), "latest");
}

#[test]
fn parse_snapshot() {
    let (v, warned) = MCVersion::parse("22w14a");
    assert!(!warned);
    assert!(v.is_snapshot());
    assert!(!v.is_latest());
    assert_eq!(v.to_version_string(), "22w14a");
}

#[test]
fn parse_fallback_warns_and_yields_zero() {
    let (v, warned) = MCVersion::parse("not-a-version");
    assert!(warned);
    assert_eq!(v.to_version_string(), "0.0.0");
}

#[test]
fn parse_snapshot_with_trailing_digit_falls_back() {
    let (v, warned) = MCVersion::parse("22w14a6");
    assert!(warned);
    assert_eq!(v.to_version_string(), "0.0.0");
}

#[test]
fn parse_release_suffix_not_rendered() {
    let (v, warned) = MCVersion::parse("1.20-rc1");
    assert!(!warned);
    assert_eq!(v.to_version_string(), "1.20");
    let (w, warned2) = MCVersion::parse("1.20.1-pre3");
    assert!(!warned2);
    assert_eq!(w.to_version_string(), "1.20.1");
}

#[test]
fn compare_latest_to_latest_is_equal() {
    let a = MCVersion::latest();
    let b = MCVersion::latest();
    assert_eq!(a.compare(&b), VersionOrdering::Equal);
}

#[test]
fn compare_latest_to_anything_else_is_greater() {
    let latest = MCVersion::latest();
    let (release, _) = MCVersion::parse("1.20.1");
    let (snapshot, _) = MCVersion::parse("22w14a");
    assert_eq!(latest.compare(&release), VersionOrdering::Greater);
    assert_eq!(latest.compare(&snapshot), VersionOrdering::Greater);
    assert_eq!(release.compare(&latest), VersionOrdering::Less);
}

#[test]
fn compare_release_to_snapshot_is_unordered() {
    let (release, _) = MCVersion::parse("1.20.1");
    let (snapshot, _) = MCVersion::parse("22w14a");
    assert_eq!(release.compare(&snapshot), VersionOrdering::Unordered);
    assert_eq!(snapshot.compare(&release), VersionOrdering::Unordered);
}

#[test]
fn compare_by_major_then_minor() {
    let (a, _) = MCVersion::parse("1.19");
    let (b, _) = MCVersion::parse("1.20");
    let (c, _) = MCVersion::parse("2.0");
    assert_eq!(a.compare(&b), VersionOrdering::Less);
    assert_eq!(b.compare(&a), VersionOrdering::Greater);
    assert_eq!(b.compare(&c), VersionOrdering::Less);
}

#[test]
fn bare_version_sorts_above_qualified_one() {
    let (bare, _) = MCVersion::parse("1.20");
    let (patched, _) = MCVersion::parse("1.20.1");
    assert_eq!(bare.compare(&patched), VersionOrdering::Greater);
    assert_eq!(patched.compare(&bare), VersionOrdering::Less);
    let (plain, _) = MCVersion::parse("1.20.1");
    let (candidate, _) = MCVersion::parse("1.20.1-rc1");
    assert_eq!(plain.compare(&candidate), VersionOrdering::Greater);
    assert_eq!(candidate.compare(&plain), VersionOrdering::Less);
}

#[test]
fn distinct_suffixes_are_unordered() {
    let (rc, _) = MCVersion::parse("1.20.1-rc1");
    let (pre, _) = MCVersion::parse("1.20.1-pre1");
    assert_eq!(rc.compare(&pre), VersionOrdering::Unordered);
}

#[test]
fn snapshot_idents_compare_lexicographically() {
    let (a, _) = MCVersion::parse("22w14a");
    let (b, _) = MCVersion::parse("22w14b");
    assert_eq!(a.compare(&b), VersionOrdering::Less);
    assert_eq!(b.compare(&a), VersionOrdering::Greater);
    assert_eq!(a.compare(&a), VersionOrdering::Equal);
}

#[test]
fn compatibility_is_reflexive() {
    let (release, _) = MCVersion::parse("1.20.1");
    let (snapshot, _) = MCVersion::parse("22w14a");
    let latest = MCVersion::latest();
    assert!(release.is_compatible(&release));
    assert!(snapshot.is_compatible(&snapshot));
    assert!(latest.is_compatible(&latest));
}

#[test]
fn minor_line_wildcard_compatibility() {
    let (pin, _) = MCVersion::parse("1.20");
    let (a, _) = MCVersion::parse("1.20.1");
    let (b, _) = MCVersion::parse("1.20.4");
    let (c, _) = MCVersion::parse("1.21.0");
    assert!(pin.is_compatible(&a));
    assert!(pin.is_compatible(&b));
    assert!(!pin.is_compatible(&c));
}

#[test]
fn patched_pin_is_not_a_wildcard() {
    let (pin, _) = MCVersion::parse("1.20.1");
    let (other, _) = MCVersion::parse("1.20.4");
    assert!(!pin.is_compatible(&other));
}

#[test]
fn version_equality() {
    let (a, _) = MCVersion::parse("1.20.1");
    let (b, _) = MCVersion::parse("1.20.1");
    let (c, _) = MCVersion::parse("1.20");
    assert_eq!(a, b);
    assert!(a != c);
    assert_eq!(MCVersion::latest(), MCVersion::latest());
}

#[test]
fn vt_tokens_parse_case_insensitively() {
    assert_eq!(VT::from_str("release"), Ok(VT::RELEASE));
    assert_eq!(VT::from_str("Beta"), Ok(VT::BETA));
    assert_eq!(VT::from_str("ALPHA"), Ok(VT::ALPHA));
    let err = VT::from_str("gamma").unwrap_err();
    assert_eq!(err.kind, ApiErrorKind::InvalidVersion);
    assert_eq!(VT::RELEASE.as_str(), "release");
}

#[test]
fn loader_tokens_parse_case_insensitively() {
    assert_eq!(LOADER::from_str("fabric"), Ok(LOADER::FABRIC));
    assert_eq!(LOADER::from_str("Quilt"), Ok(LOADER::QUILT));
    assert_eq!(LOADER::from_str("NeoForge"), Ok(LOADER::NEOFORGE));
    assert_eq!(LOADER::from_str("FORGE"), Ok(LOADER::FORGE));
    let err = LOADER::from_str("rift").unwrap_err();
    assert_eq!(err.kind, ApiErrorKind::InvalidLoader);
    assert_eq!(LOADER::NEOFORGE.as_str(), "neoforge");
}
