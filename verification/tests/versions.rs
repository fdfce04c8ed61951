use minecli::api::{LatestVersion, VersionBrief, VersionManifest};
use minecli::versions::{
    choice_version_id, classify_version_id, client_jar_version, display_count, fabric_label,
    fabric_version_id, filter_versions, forge_label, forge_version_id, loader_options,
    game_version_and_loader, local_versions_listing,
    parse_loader, remote_listing, remote_matches, select_fabric_loader, select_forge_version, version_matches,
    FabricLoaderEntry, LoaderIndexEntry, LoaderKind, LoaderRequirement, VersionSource,
};

fn brief(id: &str, kind: &str) -> VersionBrief {
    VersionBrief {
        id: id.to_string(),
        kind: kind.to_string(),
        url: format!("https://example.com/{}.json", id),
        time: String::new(),
        release_time: String::new(),
        sha1: String::new(),
    }
}

fn fabric(version: &str, stable: bool) -> FabricLoaderEntry {
    FabricLoaderEntry { version: version.to_string(), stable }
}

fn forge(version: &str, recommended: bool, game: &str) -> LoaderIndexEntry {
    LoaderIndexEntry {
        version: version.to_string(),
        recommended,
        requires: vec![LoaderRequirement { uid: "net.minecraft".to_string(), equals: game.to_string() }],
    }
}

#[test]
fn classify_installed_metadata_is_local() {
    assert!(matches!(classify_version_id("fabric-loader-0.15.0-1.20.1", true), Ok(VersionSource::Local)));
}

#[test]
fn classify_fabric_id() {
    match classify_version_id("fabric-loader-0.15.0-1.20.1", false) {
        Ok(VersionSource::Fabric { loader_version, game_version }) => {
            assert_eq!(loader_version, "0.15.0");
            assert_eq!(game_version, "1.20.1");
        }
        _ => panic!("expected a Fabric source"),
    }
}

#[test]
fn classify_invalid_fabric_id() {
    match classify_version_id("fabric-loader-0.15.0", false) {
        Err(e) => assert_eq!(e, "Invalid Fabric version ID format: fabric-loader-0.15.0"),
        _ => panic!("expected an error"),
    }
}

#[test]
fn classify_forge_neoforge_vanilla() {
    match classify_version_id("forge-1.20.1-47.2.0", false) {
        Ok(VersionSource::Forge(v)) => assert_eq!(v, "1.20.1-47.2.0"),
        _ => panic!("expected Forge"),
    }
    match classify_version_id("neoforge-20.4.80", false) {
        Ok(VersionSource::NeoForge(v)) => assert_eq!(v, "20.4.80"),
        _ => panic!("expected NeoForge"),
    }
    assert!(matches!(classify_version_id("1.20.1", false), Ok(VersionSource::Vanilla)));
}

#[test]
fn fabric_id_splits_back() {
    let id = fabric_version_id("0.15.0", "1.20.1");
    assert_eq!(id, "fabric-loader-0.15.0-1.20.1");
    match classify_version_id(&id, false) {
        Ok(VersionSource::Fabric { loader_version, game_version }) => {
            assert_eq!(loader_version, "0.15.0");
            assert_eq!(game_version, "1.20.1");
        }
        _ => panic!("expected a Fabric source"),
    }
}

#[test]
fn loader_ids() {
    assert_eq!(forge_version_id("47.2.0", false), "forge-47.2.0");
    assert_eq!(forge_version_id("20.4.80", true), "neoforge-20.4.80");
    assert_eq!(client_jar_version("fabric-loader-0.15.0-1.20.1", &Some("1.20.1".to_string())), "1.20.1");
    assert_eq!(client_jar_version("1.20.1", &None), "1.20.1");
}

#[test]
fn manifest_find() {
    let m = VersionManifest {
        latest: LatestVersion { release: "1.20.1".to_string(), snapshot: "23w31a".to_string() },
        versions: vec![brief("23w31a", "snapshot"), brief("1.20.1", "release"), brief("1.20.1", "old")],
    };
    assert_eq!(m.find("1.20.1").unwrap().kind, "release");
    assert!(m.find("1.0").is_none());
}

#[test]
fn version_filter_is_case_insensitive() {
    let vs = vec![
        brief("1.20.1", "release"),
        brief("23w31a", "snapshot"),
        brief("1.19.4", "release"),
        brief("b1.7.3", "old_beta"),
    ];
    assert_eq!(filter_versions(&vs, "", true, false), vec![0, 2]);
    assert_eq!(filter_versions(&vs, "", true, true), vec![0, 1, 2]);
    assert_eq!(filter_versions(&vs, "1.20", true, true), vec![0]);
    // The query is lower-cased before matching the lower-cased id and type.
    assert_eq!(filter_versions(&vs, "W31A", false, true), vec![1]);
    assert_eq!(filter_versions(&vs, "RELEASE", true, true), vec![0, 2]);
    assert!(filter_versions(&vs, "", false, false).is_empty());
    assert!(version_matches("1.20.1", "release", "release", "20", true, false));
    assert!(!version_matches("1.20.1", "release", "release", "20", false, true));
}

#[test]
fn remote_list_filter() {
    assert!(remote_matches("release", "1.20.1", false, false, &None));
    assert!(remote_matches("snapshot", "23w31a", false, true, &None));
    assert!(!remote_matches("snapshot", "23w31a", true, false, &None));
    assert!(remote_matches("release", "1.20.1", true, false, &Some("1.20".to_string())));
    assert!(!remote_matches("release", "1.19.4", true, false, &Some("1.20".to_string())));
    assert_eq!(display_count(100, None), 40);
    assert_eq!(display_count(10, None), 10);
    assert_eq!(display_count(100, Some(5)), 5);
}

#[test]
fn loader_labels_and_options() {
    assert_eq!(fabric_label("0.15.0", true), "Fabric 0.15.0 (stable)");
    assert_eq!(fabric_label("0.15.1", false), "Fabric 0.15.1");
    assert_eq!(forge_label("47.2.0", true, false), "Forge 47.2.0 (recommended)");
    assert_eq!(forge_label("20.4.80", false, true), "NeoForge 20.4.80");
    let fab: Vec<FabricLoaderEntry> = (0..7).map(|i| fabric(&format!("0.{}", i), i == 1)).collect();
    let frg = vec![forge("47.2.0", true, "1.20.1"), forge("45.0.0", false, "1.19.4")];
    let neo = vec![forge("20.1.5", false, "1.20.1")];
    let opts = loader_options(&fab, &frg, &neo, "1.20.1");
    assert_eq!(
        opts,
        vec![
            "Vanilla",
            "Fabric 0.0",
            "Fabric 0.1 (stable)",
            "Fabric 0.2",
            "Fabric 0.3",
            "Fabric 0.4",
            "Forge 47.2.0 (recommended)",
            "NeoForge 20.1.5",
        ]
    );
}

#[test]
fn loader_choice_to_version_id() {
    assert_eq!(choice_version_id("Vanilla", "1.20.1"), "1.20.1");
    assert_eq!(choice_version_id("Fabric 0.15.0 (stable)", "1.20.1"), "fabric-loader-0.15.0-1.20.1");
    assert_eq!(choice_version_id("Forge 47.2.0 (recommended)", "1.20.1"), "forge-47.2.0");
    assert_eq!(choice_version_id("NeoForge 20.1.5", "1.20.1"), "neoforge-20.1.5");
}

#[test]
fn fabric_loader_selection() {
    let loaders = vec![fabric("0.16.0", false), fabric("0.15.0", true), fabric("0.14.0", true)];
    assert_eq!(select_fabric_loader(&loaders, None, "1.20.1").unwrap(), "0.15.0");
    assert_eq!(select_fabric_loader(&loaders, Some("0.14.0".to_string()), "1.20.1").unwrap(), "0.14.0");
    assert_eq!(
        select_fabric_loader(&loaders, Some("9.9".to_string()), "1.20.1").unwrap_err(),
        "Fabric loader version '9.9' not found for Minecraft 1.20.1."
    );
    assert_eq!(select_fabric_loader(&vec![fabric("0.1", false)], None, "1.0").unwrap(), "0.1");
    assert_eq!(
        select_fabric_loader(&vec![], None, "1.0").unwrap_err(),
        "No Fabric loaders found for Minecraft 1.0."
    );
}

#[test]
fn forge_version_selection() {
    let index = vec![
        forge("48.0.0", false, "1.20.2"),
        forge("47.2.1", false, "1.20.1"),
        forge("47.2.0", true, "1.20.1"),
    ];
    assert_eq!(select_forge_version(&index, None, "1.20.1", false).unwrap(), "47.2.0");
    assert_eq!(select_forge_version(&index, None, "1.20.2", false).unwrap(), "48.0.0");
    assert_eq!(
        select_forge_version(&index, Some("47.2.1".to_string()), "1.20.1", false).unwrap(),
        "47.2.1"
    );
    assert_eq!(
        select_forge_version(&index, Some("48.0.0".to_string()), "1.20.1", false).unwrap_err(),
        "Forge version '48.0.0' not found/supported for Minecraft 1.20.1."
    );
    assert_eq!(
        select_forge_version(&index, None, "1.8.9", true).unwrap_err(),
        "No NeoForge versions found matching Minecraft version 1.8.9."
    );
}

#[test]
fn loader_names_any_case() {
    assert_eq!(parse_loader("Fabric"), Ok(LoaderKind::Fabric));
    assert_eq!(parse_loader("FORGE"), Ok(LoaderKind::Forge));
    assert_eq!(parse_loader("neoforge"), Ok(LoaderKind::NeoForge));
    assert_eq!(
        parse_loader("Quilt"),
        Err("Unsupported mod loader 'Quilt'. Supported: fabric, forge, neoforge".to_string())
    );
}

#[test]
fn local_listing_sorted_and_filtered() {
    let ids = vec!["1.20.1".to_string(), "fabric-loader-0.15.0-1.20.1".to_string(), "1.8.9".to_string()];
    assert_eq!(
        local_versions_listing(ids.clone(), &None),
        vec!["1.20.1", "1.8.9", "fabric-loader-0.15.0-1.20.1"]
    );
    assert_eq!(
        local_versions_listing(ids.clone(), &Some("FABRIC".to_string())),
        vec!["fabric-loader-0.15.0-1.20.1"]
    );
    assert!(local_versions_listing(ids, &Some("forge".to_string())).is_empty());
}

#[test]
fn remote_list_positions() {
    let vs = vec![brief("1.20.1", "release"), brief("23w31a", "snapshot"), brief("1.19.4", "release")];
    assert_eq!(remote_listing(&vs, false, false, &None), vec![0, 1, 2]);
    assert_eq!(remote_listing(&vs, false, true, &None), vec![1]);
    assert_eq!(remote_listing(&vs, true, false, &Some("1.19".to_string())), vec![2]);
    assert_eq!(remote_listing(&vs, false, false, &Some("W31".to_string())), vec![1]);
}

#[test]
fn instance_game_version_and_loader() {
    assert_eq!(
        game_version_and_loader("fabric-loader-0.15.0-1.20.1", &None),
        ("1.20.1".to_string(), Some("fabric".to_string()))
    );
    assert_eq!(
        game_version_and_loader("forge-47.2.0", &Some("1.20.1".to_string())),
        ("1.20.1".to_string(), Some("forge".to_string()))
    );
    assert_eq!(
        game_version_and_loader("neoforge-20.4.80", &None),
        ("neoforge-20.4.80".to_string(), Some("neoforge".to_string()))
    );
    assert_eq!(game_version_and_loader("1.20.1", &None), ("1.20.1".to_string(), None));
    assert_eq!(game_version_and_loader("fabric-loader-0.15.0", &None), ("fabric-loader-0.15.0".to_string(), None));
}
