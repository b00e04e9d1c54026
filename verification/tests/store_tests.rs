use modrinth_apitool::error::ApiErrorKind;
use modrinth_apitool::pack::Pack;
use modrinth_apitool::store::PackStore;

fn named_pack(name: &str) -> Pack {
    let mut p = Pack::new();
    p.name = name.to_string();
    p
}

#[test]
fn opening_a_pack_that_was_never_created_is_not_found() {
    let store = PackStore::new();
    let err = store.open("ghost").unwrap_err();
    assert_eq!(err.kind, ApiErrorKind::NotFound);
}

#[test]
fn removing_an_absent_pack_is_not_found_too() {
    let mut store = PackStore::new();
    assert_eq!(store.open("ghost").unwrap_err().kind, ApiErrorKind::NotFound);
    assert_eq!(store.remove("ghost").unwrap_err().kind, ApiErrorKind::NotFound);
}

#[test]
fn saved_pack_is_found_under_its_normalized_name() {
    let mut store = PackStore::new();
    store.save(named_pack("My Great Pack"));
    let opened = store.open("my great pack").unwrap();
    assert_eq!(opened.name, "My Great Pack");
    assert!(store.open("other pack").is_err());
}

#[test]
fn saving_again_replaces_the_stored_pack() {
    let mut store = PackStore::new();
    store.save(named_pack("alpha"));
    let mut changed = named_pack("Alpha");
    changed.insert_entry(
        "sodium".to_string(),
        modrinth_apitool::pack::PackMod {
            name: "Sodium".to_string(),
            verstion_type: modrinth_apitool::mc_info::VT::RELEASE,
            version_number: "1.0".to_string(),
            file_url: "u".to_string(),
            file_name: "f".to_string(),
            sha512: "00".to_string(),
        },
    );
    store.save(changed);
    assert_eq!(store.packs.len(), 1);
    let opened = store.open("ALPHA").unwrap();
    assert_eq!(opened.mods.len(), 1);
}

#[test]
fn removed_pack_cannot_be_opened_again() {
    let mut store = PackStore::new();
    store.save(named_pack("alpha"));
    store.save(named_pack("beta"));
    store.remove("alpha").unwrap();
    assert_eq!(store.open("alpha").unwrap_err().kind, ApiErrorKind::NotFound);
    assert!(store.open("beta").is_ok());
    assert_eq!(store.remove("alpha").unwrap_err().kind, ApiErrorKind::NotFound);
}

#[test]
fn renaming_moves_the_pack() {
    let mut store = PackStore::new();
    store.save(named_pack("old name"));
    let mut renamed = store.open("old name").unwrap().clone();
    renamed.name = "new name".to_string();
    store.remove("old name").unwrap();
    store.save(renamed);
    assert_eq!(store.open("old name").unwrap_err().kind, ApiErrorKind::NotFound);
    assert_eq!(store.open("new name").unwrap().name, "new name");
}
