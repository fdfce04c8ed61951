use minecli::mods::{
    confirms_yes, first_compatible, modrinth_file_ids, pick_file, required_dependencies, resolve_mod_download,
    search_description, update_target, ModrinthDependency,
    ModrinthFile, ModrinthVersion,
};

fn strings(v: &[&str]) -> Vec<String> {
    v.iter().map(|s| s.to_string()).collect()
}

fn version(name: &str, games: &[&str], loaders: &[&str]) -> ModrinthVersion {
    ModrinthVersion {
        name: name.to_string(),
        version_number: name.to_string(),
        game_versions: strings(games),
        loaders: strings(loaders),
        files: vec![],
        dependencies: vec![],
    }
}

fn file(name: &str, primary: bool) -> ModrinthFile {
    ModrinthFile { url: format!("https://cdn/{}", name), filename: name.to_string(), primary }
}

#[test]
fn compatibility_checks_game_and_loader() {
    let v = version("1", &["1.20.1", "1.20.2"], &["Fabric", "quilt"]);
    assert!(v.is_compatible("1.20.1", Some("fabric")));
    assert!(v.is_compatible("1.20.2", None));
    assert!(!v.is_compatible("1.19.4", None));
    assert!(!v.is_compatible("1.20.1", Some("forge")));
}

#[test]
fn first_compatible_version() {
    let vs = vec![
        version("a", &["1.20.2"], &["fabric"]),
        version("b", &["1.20.1"], &["forge"]),
        version("c", &["1.20.1"], &["fabric"]),
        version("d", &["1.20.1"], &["fabric"]),
    ];
    assert_eq!(first_compatible(&vs, "1.20.1", Some("fabric")), Some(2));
    assert_eq!(first_compatible(&vs, "1.20.1", None), Some(1));
    assert_eq!(first_compatible(&vs, "1.8.9", None), None);
}

#[test]
fn file_choice() {
    let files = vec![file("readme.txt", false), file("mod.jar", false), file("main.zip", true)];
    assert_eq!(pick_file(&files, ".jar", true), Some(1));
    assert_eq!(pick_file(&files, ".mrpack", false), Some(2));
    let plain = vec![file("a.txt", false)];
    assert_eq!(pick_file(&plain, ".jar", true), Some(0));
    assert_eq!(pick_file(&plain, ".jar", false), None);
    assert_eq!(pick_file(&vec![], ".jar", true), None);
}

#[test]
fn dependencies_still_needed() {
    let mut v = version("a", &["1.20.1"], &["fabric"]);
    v.dependencies = vec![
        ModrinthDependency { project_id: Some("P7dR8mSH".to_string()), dependency_type: "required".to_string() },
        ModrinthDependency { project_id: Some("optional1".to_string()), dependency_type: "optional".to_string() },
        ModrinthDependency { project_id: None, dependency_type: "required".to_string() },
        ModrinthDependency { project_id: Some("installed".to_string()), dependency_type: "required".to_string() },
    ];
    assert_eq!(required_dependencies(&v, &strings(&["installed"])), strings(&["P7dR8mSH"]));
}

#[test]
fn update_confirmation() {
    assert!(confirms_yes(""));
    assert!(confirms_yes("  \n"));
    assert!(confirms_yes("Y"));
    assert!(confirms_yes(" yes please"));
    assert!(!confirms_yes("n"));
    assert!(!confirms_yes("no"));
}

#[test]
fn mod_download_resolution() {
    let mut vs = vec![
        version("1.0", &["1.19.4"], &["fabric"]),
        version("2.0", &["1.20.1"], &["fabric"]),
    ];
    vs[1].files = vec![file("readme.txt", false), file("sodium-2.0.jar", false)];
    assert_eq!(resolve_mod_download(&vs, "sodium", "1.20.1", Some("fabric")), Ok((1, 1)));
    assert_eq!(
        resolve_mod_download(&vs, "sodium", "1.8.9", None),
        Err("No compatible version of mod 'sodium' found for Minecraft 1.8.9 and loader 'vanilla'.".to_string())
    );
    assert_eq!(
        resolve_mod_download(&vs, "sodium", "1.20.1", Some("forge")),
        Err("No compatible version of mod 'sodium' found for Minecraft 1.20.1 and loader 'forge'.".to_string())
    );
    vs[1].files.clear();
    assert_eq!(
        resolve_mod_download(&vs, "sodium", "1.20.1", None),
        Err("No file found in version 2.0 for mod sodium".to_string())
    );
}

#[test]
fn mod_updates() {
    let vs = vec![
        version("old", &["1.19.4"], &["fabric"]),
        version("new", &["1.20.1"], &["fabric"]),
        version("older", &["1.20.1"], &["fabric"]),
    ];
    assert_eq!(update_target(&vs, "old", "1.20.1", Some("fabric")), Some(1));
    assert_eq!(update_target(&vs, "new", "1.20.1", Some("fabric")), None);
    assert_eq!(update_target(&vs, "new", "1.8.9", None), None);
}

#[test]
fn description_cells() {
    assert_eq!(search_description("short"), "short");
    let exactly_forty = "a".repeat(40);
    assert_eq!(search_description(&exactly_forty), exactly_forty);
    let long = "The quick brown fox jumps over the lazy dog again";
    assert_eq!(search_description(long), "The quick brown fox jumps over the la...");
    // 36 ASCII bytes, a two-byte character at 36..38, then more.
    let accented = format!("{}é{}", "b".repeat(36), "c".repeat(10));
    assert!(!accented.is_char_boundary(37));
    let fine = format!("{}é{}", "b".repeat(35), "c".repeat(10));
    assert_eq!(search_description(&fine), format!("{}é...", "b".repeat(35)));
}

#[test]
fn modrinth_url_ids() {
    assert_eq!(
        modrinth_file_ids("https://cdn.modrinth.com/data/AANobbMI/versions/OihdIimA/sodium-fabric-0.5.8.jar"),
        Some(("AANobbMI".to_string(), "OihdIimA".to_string()))
    );
    assert_eq!(modrinth_file_ids("https://example.com/a.jar"), None);
}
