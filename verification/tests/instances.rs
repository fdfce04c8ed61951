use minecli::instance::{
    backup_file_name, cache_file_name_for_digest, default_instance_name, hex_lower, mod_cache_file_name,
    mod_target_file_name, planned_target_files, stale_mod_files, sync_start_message, Instance,
    InstanceConfig, ModValue, mod_file_entries, new_backup_file_name,
};
use minecli::platform::{ArchKind, OsKind, Platform};

fn linux() -> Platform {
    Platform { os: OsKind::Linux, arch: ArchKind::X64 }
}

fn strings(v: &[&str]) -> Vec<String> {
    v.iter().map(|s| s.to_string()).collect()
}

#[test]
fn hex_is_lower_case_two_digits_per_byte() {
    assert_eq!(hex_lower(&[0x00, 0x0f, 0xa0, 0xff]), "000fa0ff");
    assert_eq!(hex_lower(&[]), "");
    assert_eq!(cache_file_name_for_digest(&[0xde, 0xad]), "dead.jar");
}

#[test]
fn cache_name_uses_declared_sha1() {
    let name = mod_cache_file_name("https://example.com/a.jar", &Some("abc123".to_string()));
    assert_eq!(name, "abc123.jar");
}

#[test]
fn cache_name_hashes_url_without_sha1() {
    let url = "https://cdn.modrinth.com/data/AANobbMI/versions/abc/sodium.jar";
    assert_eq!(mod_cache_file_name(url, &None), "2351c3c1559a5c9069d81ae5dd291b37f693a35d.jar");
    assert_eq!(mod_cache_file_name("", &None), "da39a3ee5e6b4b0d3255bfef95601890afd80709.jar");
}

#[test]
fn mod_targets_end_in_jar() {
    assert_eq!(mod_target_file_name("sodium"), "sodium.jar");
    assert_eq!(mod_target_file_name("sodium.jar"), "sodium.jar");
    assert_eq!(mod_target_file_name(""), ".jar");
}

#[test]
fn sync_plan_follows_declarations() {
    let mut cfg = InstanceConfig::new("Pack", "1.20.1");
    cfg.mods = Some(vec![
        ("sodium".to_string(), ModValue::Detailed {
            url: "https://x/sodium.jar".to_string(),
            sha1: Some("ff00".to_string()),
        }),
        ("lithium.jar".to_string(), ModValue::Simple("".to_string())),
    ]);
    let plan = cfg.plan_mod_sync();
    assert_eq!(plan.len(), 2);
    assert_eq!(plan[0].url, "https://x/sodium.jar");
    assert_eq!(plan[0].sha1, Some("ff00".to_string()));
    assert_eq!(plan[0].cache_file, "ff00.jar");
    assert_eq!(plan[0].target_file, "sodium.jar");
    assert_eq!(plan[1].sha1, None);
    assert_eq!(plan[1].cache_file, "da39a3ee5e6b4b0d3255bfef95601890afd80709.jar");
    assert_eq!(plan[1].target_file, "lithium.jar");
    assert_eq!(planned_target_files(&plan), strings(&["sodium.jar", "lithium.jar"]));
    assert!(InstanceConfig::new("x", "y").plan_mod_sync().is_empty());
}

#[test]
fn stale_files_are_unlisted_jars() {
    let existing = strings(&["a.jar", "b.jar", "notes.txt", "c.jar.disabled", "d.jar"]);
    let expected = strings(&["b.jar"]);
    assert_eq!(stale_mod_files(&existing, &expected), strings(&["a.jar", "d.jar"]));
    // A planned file is never removed.
    let plan_names = strings(&["a.jar", "d.jar"]);
    assert!(stale_mod_files(&plan_names, &plan_names).is_empty());
}

#[test]
fn java_settings() {
    let mut cfg = InstanceConfig::new("n", "v");
    cfg.set_java_path("/usr/bin/java".to_string());
    assert_eq!(cfg.java_path, Some("/usr/bin/java".to_string()));
    cfg.set_java_path("clear".to_string());
    assert_eq!(cfg.java_path, None);
    cfg.set_java_version(17);
    assert_eq!(cfg.java_version, Some(17));
    cfg.set_java_version(0);
    assert_eq!(cfg.java_version, None);
    cfg.apply_java_version_input("21");
    assert_eq!(cfg.java_version, Some(21));
    cfg.apply_java_version_input("abc");
    assert_eq!(cfg.java_version, Some(21));
    cfg.apply_java_version_input("+8");
    assert_eq!(cfg.java_version, Some(8));
    cfg.apply_java_version_input("clear");
    assert_eq!(cfg.java_version, None);
}

#[test]
fn create_instance_paths_and_refusal() {
    let inst = Instance::create("/mc", "pack", "My Pack", "1.20.1", false, &linux()).unwrap();
    assert_eq!(inst.id, "pack");
    assert_eq!(inst.path, "/mc/instances/pack");
    assert_eq!(inst.config.name, "My Pack");
    assert_eq!(inst.config.version, "1.20.1");
    assert!(inst.config.mods.is_none());
    let err = Instance::create("/mc", "pack", "My Pack", "1.20.1", true, &linux()).err().unwrap();
    assert_eq!(err, "Instance directory 'pack' already exists.");
}

#[test]
fn instances_ordered_by_id() {
    let mk = |id: &str| Instance::create("/mc", id, id, "1.0", false, &linux()).unwrap();
    let sorted = Instance::order_by_id(vec![mk("zeta"), mk("alpha"), mk("Beta"), mk("alpha2")]);
    let ids: Vec<String> = sorted.iter().map(|i| i.id.clone()).collect();
    assert_eq!(ids, strings(&["Beta", "alpha", "alpha2", "zeta"]));
}

#[test]
fn backups_listed_newest_first() {
    let names = strings(&[
        "backup_2024-01-01_10-00-00.zip",
        "notes.txt",
        "backup_2024-03-01_09-00-00.zip",
        "backup_broken.tar",
        "backup_2023-12-31_23-59-59.zip",
    ]);
    assert_eq!(
        Instance::list_backups(names),
        strings(&[
            "backup_2024-03-01_09-00-00.zip",
            "backup_2024-01-01_10-00-00.zip",
            "backup_2023-12-31_23-59-59.zip",
        ])
    );
}

#[test]
fn new_backup_name_is_listed() {
    let name = backup_file_name("2024-05-06_07-08-09");
    assert_eq!(name, "backup_2024-05-06_07-08-09.zip");
    assert_eq!(Instance::list_backups(vec![name.clone()]), vec![name]);
}

#[test]
fn sync_message() {
    assert_eq!(sync_start_message("pack"), "Syncing mods for instance 'pack'...");
}

#[test]
fn default_names() {
    assert_eq!(default_instance_name("survival"), "survival Profile");
}

#[test]
fn mods_folder_entries() {
    let names = strings(&["zeta.jar", "notes.txt", "alpha.jar.disabled", "beta.jar", "gamma.zip"]);
    assert_eq!(
        mod_file_entries(names),
        vec![
            ("alpha.jar.disabled".to_string(), false),
            ("beta.jar".to_string(), true),
            ("zeta.jar".to_string(), true),
        ]
    );
}

#[test]
fn declaring_and_forgetting_mods() {
    let mut cfg = InstanceConfig::new("n", "1.20.1");
    cfg.declare_mod("sodium".to_string(), ModValue::Simple("https://a/sodium-1.jar".to_string()));
    cfg.declare_mod("lithium.jar".to_string(), ModValue::Simple("https://a/lithium.jar".to_string()));
    cfg.declare_mod("sodium".to_string(), ModValue::Simple("https://a/sodium-2.jar".to_string()));
    let names: Vec<String> = cfg.mods.as_ref().unwrap().iter().map(|(n, _)| n.clone()).collect();
    assert_eq!(names, strings(&["lithium.jar", "sodium"]));
    cfg.point_mod_file_to("sodium.jar", "https://a/sodium-3.jar");
    let plan = cfg.plan_mod_sync();
    assert_eq!(plan[1].url, "https://a/sodium-3.jar");
    assert_eq!(plan[0].url, "https://a/lithium.jar");
    cfg.forget_mod_file("lithium.jar");
    let names: Vec<String> = cfg.mods.as_ref().unwrap().iter().map(|(n, _)| n.clone()).collect();
    assert_eq!(names, strings(&["sodium"]));
    let mut empty = InstanceConfig::new("n", "v");
    empty.forget_mod_file("x.jar");
    assert!(empty.mods.is_none());
}

#[test]
fn backups_taken_now_are_listed() {
    let name = new_backup_file_name();
    assert!(name.starts_with("backup_") && name.ends_with(".zip"));
    assert_eq!(name.len(), "backup_".len() + 15 + ".zip".len());
    let stamp: Vec<char> = name["backup_".len()..name.len() - ".zip".len()].chars().collect();
    assert_eq!(stamp[8], '_');
    assert!(stamp.iter().enumerate().all(|(i, c)| i == 8 || c.is_ascii_digit()));
    assert_eq!(Instance::list_backups(vec![name.clone(), "other.txt".to_string()]), vec![name]);
}
