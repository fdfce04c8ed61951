use minecli::api::{
    Artifact, AssetIndex, AssetIndexRef, AssetObject, DownloadsRef, Library, LibraryDownloads, Rule, RuleOS,
    VersionDetails,
};
use minecli::config::Config;
use minecli::download::{asset_download, asset_downloads, content_matches, version_downloads};
use minecli::launcher::Launcher;
use minecli::platform::{ArchKind, OsKind, Platform};

fn linux() -> Platform {
    Platform { os: OsKind::Linux, arch: ArchKind::X64 }
}

fn artifact(path: &str, url: &str, sha1: &str, size: u64) -> Artifact {
    Artifact { path: path.to_string(), sha1: sha1.to_string(), size, url: url.to_string() }
}

fn details() -> VersionDetails {
    VersionDetails {
        id: "1.20.1".to_string(),
        kind: "release".to_string(),
        main_class: "Main".to_string(),
        arguments: None,
        minecraft_arguments: None,
        libraries: vec![
            Library {
                name: "a".to_string(),
                downloads: LibraryDownloads {
                    artifact: Some(artifact("org/a/a.jar", "https://libs/a.jar", "aaa", 10)),
                    classifiers: None,
                },
                rules: None,
                natives: None,
            },
            Library {
                name: "mac-only".to_string(),
                downloads: LibraryDownloads {
                    artifact: Some(artifact("org/m/m.jar", "https://libs/m.jar", "mmm", 20)),
                    classifiers: None,
                },
                rules: Some(vec![Rule {
                    action: "allow".to_string(),
                    os: Some(RuleOS { name: Some("osx".to_string()), arch: None }),
                }]),
                natives: None,
            },
        ],
        asset_index: AssetIndexRef {
            id: "5".to_string(),
            sha1: "idx".to_string(),
            size: 30,
            total_size: 99,
            url: "https://meta/5.json".to_string(),
        },
        downloads: DownloadsRef { client: artifact("", "https://client.jar", "ccc", 40) },
        java_version: None,
    }
}

fn config() -> Config {
    Config {
        game_dir: "/mc".to_string(),
        java_path: "java".to_string(),
        jvm_args: vec![],
        accounts: vec![],
        active_account_uuid: None,
        active_instance: None,
    }
}

#[test]
fn version_files_to_fetch() {
    let tasks = version_downloads("/mc", &details(), &linux());
    let view: Vec<(String, String, String, u64)> =
        tasks.into_iter().map(|t| (t.url, t.path, t.sha1, t.size)).collect();
    assert_eq!(
        view,
        vec![
            ("https://libs/a.jar".to_string(), "/mc/libraries/org/a/a.jar".to_string(), "aaa".to_string(), 10),
            ("https://client.jar".to_string(), "/mc/versions/1.20.1/1.20.1.jar".to_string(), "ccc".to_string(), 40),
            ("https://meta/5.json".to_string(), "/mc/assets/indexes/5.json".to_string(), "idx".to_string(), 30),
        ]
    );
}

#[test]
fn downloaded_files_cover_the_classpath() {
    let d = details();
    let tasks = version_downloads("/mc", &d, &linux());
    let cp = Launcher::new(config()).build_classpath(&d, &linux()).unwrap();
    let paths: Vec<String> = tasks[..tasks.len() - 1].iter().map(|t| t.path.clone()).collect();
    assert_eq!(cp, paths.join(":"));
}

#[test]
fn asset_objects_by_hash() {
    let obj = AssetObject { hash: "bdf48ef6b5d0d23bbb02e17d04865216179f510a".to_string(), size: 7 };
    let t = asset_download("/mc", &obj, &linux());
    assert_eq!(t.url, "https://resources.download.minecraft.net/bd/bdf48ef6b5d0d23bbb02e17d04865216179f510a");
    assert_eq!(t.path, "/mc/assets/objects/bd/bdf48ef6b5d0d23bbb02e17d04865216179f510a");
    assert_eq!(t.sha1, obj.hash);
    assert_eq!(t.size, 7);
    let short = asset_download("/mc", &AssetObject { hash: "a".to_string(), size: 1 }, &linux());
    assert_eq!(short.path, "/mc/assets/objects/a/a");
    let index = AssetIndex {
        objects: vec![
            ("minecraft/sounds/a.ogg".to_string(), AssetObject { hash: "00ff".to_string(), size: 1 }),
            ("icons/icon.png".to_string(), AssetObject { hash: "ab12".to_string(), size: 2 }),
        ],
    };
    let all = asset_downloads("/mc", &index, &linux());
    assert_eq!(all.len(), 2);
    assert_eq!(all[1].path, "/mc/assets/objects/ab/ab12");
}

#[test]
fn checksums_of_content() {
    assert!(content_matches(b"anything", ""));
    assert!(content_matches(b"", "da39a3ee5e6b4b0d3255bfef95601890afd80709"));
    assert!(!content_matches(b"x", "da39a3ee5e6b4b0d3255bfef95601890afd80709"));
    assert!(content_matches(b"abc", "a9993e364706816aba3e25717850c26c9cd0d89d"));
}
