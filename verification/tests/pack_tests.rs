use modrinth_apitool::api::{ApiFile, Version};
use modrinth_apitool::error::ApiErrorKind;
use modrinth_apitool::mc_info::{MCVersion, MVDescriptor, LOADER, VT};
use modrinth_apitool::pack::{entry_from, pack_file_name, normalize_name, Pack, PackAction, PackMod};

fn entry(name: &str, number: &str) -> PackMod {
    PackMod {
        name: name.to_string(),
        verstion_type: VT::RELEASE,
        version_number: number.to_string(),
        file_url: format!("https://cdn.example/{}.jar", name),
        file_name: format!("{}.jar", name),
        sha512: "00".to_string(),
    }
}

#[test]
fn new_pack_accepts_every_release_type() {
    let p = Pack::new();
    assert_eq!(p.name, "");
    assert_eq!(p.version_info.version_types, vec![VT::RELEASE, VT::BETA, VT::ALPHA]);
    assert_eq!(p.version_info.loader, LOADER::FABRIC);
    assert!(!p.version_info.mc_ver.is_latest());
    assert_eq!(p.mods.len(), 0);
}

#[test]
fn insert_overwrites_and_appends() {
    let mut p = Pack::new();
    p.insert_entry("sodium".to_string(), entry("Sodium", "1.0"));
    p.insert_entry("lithium".to_string(), entry("Lithium", "2.0"));
    assert_eq!(p.mods.len(), 2);
    p.insert_entry("sodium".to_string(), entry("Sodium", "1.1"));
    assert_eq!(p.mods.len(), 2);
    let e = p.get_entry("sodium").unwrap();
    assert_eq!(e.version_number, "1.1");
    assert!(p.has_entry("lithium"));
    assert!(!p.has_entry("phosphor"));
}

#[test]
fn remove_entry_reports_presence() {
    let mut p = Pack::new();
    p.insert_entry("sodium".to_string(), entry("Sodium", "1.0"));
    assert!(p.remove_entry("sodium"));
    assert!(!p.has_entry("sodium"));
    assert!(!p.remove_entry("sodium"));
    assert_eq!(p.mods.len(), 0);
}

#[test]
fn slugs_keep_pack_order() {
    let mut p = Pack::new();
    p.insert_entry("b-mod".to_string(), entry("B", "1.0"));
    p.insert_entry("a-mod".to_string(), entry("A", "1.0"));
    assert_eq!(p.slugs(), vec!["b-mod".to_string(), "a-mod".to_string()]);
}

#[test]
fn storage_name_is_normalized() {
    assert_eq!(normalize_name("My Great Pack"), "my-great-pack");
    assert_eq!(pack_file_name("My Great Pack"), "my-great-pack.mtpck");
    assert_eq!(pack_file_name("simple"), "simple.mtpck");
}

#[test]
fn entry_from_uses_primary_file() {
    let v = Version {
        game_versions: vec![MCVersion::parse("1.20.1").0],
        loaders: vec![LOADER::FABRIC],
        name: "Sodium".to_string(),
        version_number: "0.5.8".to_string(),
        downloads: 7,
        version_type: VT::RELEASE,
        files: vec![
            ApiFile {
                url: "https://cdn.example/sodium-0.5.8.jar".to_string(),
                sha512: "ab12".to_string(),
                filename: "sodium-0.5.8.jar".to_string(),
                size: 100,
            },
            ApiFile {
                url: "https://cdn.example/sodium-sources.jar".to_string(),
                sha512: "cd34".to_string(),
                filename: "sodium-sources.jar".to_string(),
                size: 50,
            },
        ],
        dependencies: vec![],
    };
    let e = entry_from(&v).unwrap();
    assert_eq!(e.name, "Sodium");
    assert_eq!(e.version_number, "0.5.8");
    assert_eq!(e.file_url, "https://cdn.example/sodium-0.5.8.jar");
    assert_eq!(e.file_name, "sodium-0.5.8.jar");
    assert_eq!(e.sha512, "ab12");
}

#[test]
fn entry_from_without_files_is_invalid_data() {
    let v = Version {
        game_versions: vec![],
        loaders: vec![],
        name: "Broken".to_string(),
        version_number: "0.0".to_string(),
        downloads: 0,
        version_type: VT::RELEASE,
        files: vec![],
        dependencies: vec![],
    };
    assert_eq!(entry_from(&v).unwrap_err().kind, ApiErrorKind::InvalidData);
}

#[test]
fn install_jobs_name_destination_and_digest() {
    let mut p = Pack::new();
    p.insert_entry("sodium".to_string(), entry("Sodium", "1.0"));
    let jobs = p.install_jobs("/mods");
    assert_eq!(jobs.len(), 1);
    assert_eq!(jobs[0].path, "/mods/Sodium.jar");
    assert_eq!(jobs[0].url, "https://cdn.example/Sodium.jar");
    assert_eq!(jobs[0].sha512, "00");
}

#[test]
fn describe_names_the_descriptor() {
    let mut p = Pack::new();
    p.name = "Test Pack".to_string();
    p.version_info = MVDescriptor {
        mc_ver: MCVersion::parse("1.20.1").0,
        version_types: vec![VT::RELEASE, VT::BETA],
        loader: LOADER::QUILT,
    };
    assert_eq!(
        p.describe(),
        "Name: Test Pack, MC Version: 1.20.1, ReleaseTypes: release beta , ModLoader: quilt"
    );
}

#[test]
fn pack_action_tokens() {
    assert_eq!(PackAction::from_str("Create"), Ok(PackAction::CREATE));
    assert_eq!(PackAction::from_str("UPDATE"), Ok(PackAction::UPDATE));
    assert_eq!(PackAction::from_str("modify"), Ok(PackAction::MODIFY));
    assert_eq!(PackAction::from_str("install"), Ok(PackAction::INSTALL));
    assert_eq!(PackAction::from_str("remove"), Ok(PackAction::REMOVE));
    assert_eq!(PackAction::from_str("destroy").unwrap_err().kind, ApiErrorKind::InvalidData);
    assert_eq!(PackAction::INSTALL.as_str(), "install");
}
