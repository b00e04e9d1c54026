use modrinth_apitool::api::{select_version, ApiFile, Version};
use modrinth_apitool::error::ApiErrorKind;
use modrinth_apitool::mc_info::{MCVersion, MVDescriptor, LOADER, VT};

fn version_of(ver: &str, name: &str, number: &str, loader: LOADER, vt: VT) -> Version {
    Version {
        game_versions: vec![MCVersion::parse(ver).0],
        loaders: vec![loader],
        name: name.to_string(),
        version_number: number.to_string(),
        downloads: 0,
        version_type: vt,
        files: vec![ApiFile {
            url: format!("https://cdn.example/{}.jar", name),
            sha512: "00".to_string(),
            filename: format!("{}.jar", name),
            size: 1,
        }],
        dependencies: vec![],
    }
}

fn descriptor(ver: &str, vts: Vec<VT>, loader: LOADER) -> MVDescriptor {
    MVDescriptor { mc_ver: MCVersion::parse(ver).0, version_types: vts, loader }
}

#[test]
fn descriptor_satisfaction() {
    let record = version_of("1.20.1", "some-mod", "1.0", LOADER::FABRIC, VT::RELEASE);
    let good = descriptor("1.20", vec![VT::RELEASE], LOADER::FABRIC);
    let wrong_type = descriptor("1.20", vec![VT::BETA], LOADER::FABRIC);
    let wrong_loader = descriptor("1.20", vec![VT::RELEASE], LOADER::FORGE);
    assert!(good.check_version_compat(&record));
    assert!(!wrong_type.check_version_compat(&record));
    assert!(!wrong_loader.check_version_compat(&record));
}

#[test]
fn descriptor_with_latest_pin_ignores_game_version() {
    let record = version_of("1.16.5", "old-mod", "0.1", LOADER::QUILT, VT::ALPHA);
    let d = descriptor("latest", vec![VT::ALPHA], LOADER::QUILT);
    assert!(d.check_version_compat(&record));
}

#[test]
fn descriptor_equality_is_structural() {
    let a = descriptor("1.20", vec![VT::RELEASE, VT::BETA], LOADER::FABRIC);
    let b = descriptor("1.20", vec![VT::RELEASE, VT::BETA], LOADER::FABRIC);
    let c = descriptor("1.20", vec![VT::BETA, VT::RELEASE], LOADER::FABRIC);
    assert!(a == b);
    assert!(a != c);
}

#[test]
fn select_picks_first_satisfying_release() {
    let d = descriptor("1.20", vec![VT::RELEASE], LOADER::FABRIC);
    let versions = vec![
        version_of("1.21.0", "m", "3.0", LOADER::FABRIC, VT::RELEASE),
        version_of("1.20.4", "m", "2.0", LOADER::FORGE, VT::RELEASE),
        version_of("1.20.4", "m", "1.9", LOADER::FABRIC, VT::RELEASE),
        version_of("1.20.1", "m", "1.8", LOADER::FABRIC, VT::RELEASE),
    ];
    assert_eq!(select_version(&versions, &d), Ok(2));
}

#[test]
fn select_with_latest_pin_takes_newest() {
    let d = descriptor("latest", vec![VT::RELEASE], LOADER::FABRIC);
    let versions = vec![
        version_of("1.21.0", "m", "3.0", LOADER::FORGE, VT::ALPHA),
        version_of("1.20.4", "m", "2.0", LOADER::FABRIC, VT::RELEASE),
    ];
    assert_eq!(select_version(&versions, &d), Ok(0));
}

#[test]
fn select_fails_with_not_found() {
    let d = descriptor("1.20", vec![VT::RELEASE], LOADER::FABRIC);
    let versions = vec![version_of("1.19.2", "m", "1.0", LOADER::FABRIC, VT::RELEASE)];
    let err = select_version(&versions, &d).unwrap_err();
    assert_eq!(err.kind, ApiErrorKind::NotFound);
    let empty: Vec<Version> = vec![];
    let latest = descriptor("latest", vec![VT::RELEASE], LOADER::FABRIC);
    assert_eq!(select_version(&empty, &latest).unwrap_err().kind, ApiErrorKind::NotFound);
}
