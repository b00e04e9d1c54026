use modrinth_apitool::api::{ApiFile, Version};
use modrinth_apitool::error::ApiErrorKind;
use modrinth_apitool::mc_info::{MCVersion, MVDescriptor, LOADER, VT};
use modrinth_apitool::pack::{Pack, PackMod};
use modrinth_apitool::update::{any_changed, update_entry, UpdateEvent};

fn release(name: &str, number: &str) -> Version {
    Version {
        game_versions: vec![MCVersion::parse("1.20.1").0],
        loaders: vec![LOADER::FABRIC],
        name: name.to_string(),
        version_number: number.to_string(),
        downloads: 0,
        version_type: VT::RELEASE,
        files: vec![ApiFile {
            url: format!("https://cdn.example/{}-{}.jar", name, number),
            sha512: "11".to_string(),
            filename: format!("{}-{}.jar", name, number),
            size: 1,
        }],
        dependencies: vec![],
    }
}

fn pack_with_entry(number: &str) -> Pack {
    let mut p = Pack::new();
    p.name = "test".to_string();
    p.version_info = MVDescriptor {
        mc_ver: MCVersion::parse("1.20").0,
        version_types: vec![VT::RELEASE],
        loader: LOADER::FABRIC,
    };
    p.insert_entry(
        "some-mod".to_string(),
        PackMod {
            name: "SomeMod".to_string(),
            verstion_type: VT::RELEASE,
            version_number: number.to_string(),
            file_url: "https://cdn.example/old.jar".to_string(),
            file_name: "old.jar".to_string(),
            sha512: "00".to_string(),
        },
    );
    p
}

#[test]
fn drifted_entry_is_replaced_and_reported() {
    let mut pack = pack_with_entry("1.0");
    let fetched = vec![release("SomeMod", "1.1")];
    let ev = update_entry(&mut pack, 0, Some(&fetched));
    match ev {
        UpdateEvent::Changed { slug, old_version, new_version } => {
            assert_eq!(slug, "some-mod");
            assert_eq!(old_version, "1.0");
            assert_eq!(new_version, "1.1");
        }
        other => panic!("expected a change, got {:?}", other),
    }
    let e = pack.get_entry("some-mod").unwrap();
    assert_eq!(e.version_number, "1.1");
    assert_eq!(e.file_name, "SomeMod-1.1.jar");
    assert_eq!(e.sha512, "11");

    // a second reconciliation right away reports no drift
    let ev2 = update_entry(&mut pack, 0, Some(&fetched));
    assert!(matches!(ev2, UpdateEvent::Unchanged { .. }));
    assert_eq!(pack.get_entry("some-mod").unwrap().version_number, "1.1");
}

#[test]
fn persistence_is_owed_only_after_a_change() {
    let mut pack = pack_with_entry("1.0");
    let fetched = vec![release("SomeMod", "1.1")];
    let first = vec![update_entry(&mut pack, 0, Some(&fetched))];
    assert!(any_changed(&first));
    let second = vec![update_entry(&mut pack, 0, Some(&fetched))];
    assert!(!any_changed(&second));
}

#[test]
fn failed_fetch_keeps_the_pinned_entry() {
    let mut pack = pack_with_entry("1.0");
    let ev = update_entry(&mut pack, 0, None);
    match ev {
        UpdateEvent::Failed { slug, error } => {
            assert_eq!(slug, "some-mod");
            assert_eq!(error.kind, ApiErrorKind::TransportFailure);
        }
        other => panic!("expected a failure, got {:?}", other),
    }
    assert_eq!(pack.get_entry("some-mod").unwrap().version_number, "1.0");
}

#[test]
fn unsatisfiable_entry_keeps_its_pin() {
    let mut pack = pack_with_entry("1.0");
    let mut wrong = release("SomeMod", "2.0");
    wrong.loaders = vec![LOADER::FORGE];
    let fetched = vec![wrong];
    let ev = update_entry(&mut pack, 0, Some(&fetched));
    assert!(matches!(
        ev,
        UpdateEvent::Failed { error, .. } if error.kind == ApiErrorKind::NotFound
    ));
    assert_eq!(pack.get_entry("some-mod").unwrap().version_number, "1.0");
}
