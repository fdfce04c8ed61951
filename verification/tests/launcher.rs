use minecli::api::{
    ArgumentValue, ArgumentValueList, Arguments, Artifact, AssetIndexRef, DownloadsRef, Library,
    LibraryDownloads, Rule, RuleOS, VersionDetails,
};
use minecli::config::{Account, AccountType, Config, MicrosoftAuth};
use minecli::launcher::{join_strings, Launcher};
use minecli::platform::{ArchKind, OsKind, Platform};

fn linux() -> Platform {
    Platform { os: OsKind::Linux, arch: ArchKind::X64 }
}

fn config(game_dir: &str) -> Config {
    Config {
        game_dir: game_dir.to_string(),
        java_path: "java".to_string(),
        jvm_args: vec!["-Xmx2G".to_string()],
        accounts: vec![],
        active_account_uuid: None,
        active_instance: None,
    }
}

fn artifact(path: &str) -> Artifact {
    Artifact { path: path.to_string(), sha1: String::new(), size: 0, url: String::new() }
}

fn library(name: &str, path: Option<&str>, rules: Option<Vec<Rule>>) -> Library {
    Library {
        name: name.to_string(),
        downloads: LibraryDownloads { artifact: path.map(artifact), classifiers: None },
        rules,
        natives: None,
    }
}

fn os_rule(action: &str, os: &str) -> Rule {
    Rule {
        action: action.to_string(),
        os: Some(RuleOS { name: Some(os.to_string()), arch: None }),
    }
}

fn details(id: &str, libraries: Vec<Library>, arguments: Option<Arguments>, legacy: Option<&str>) -> VersionDetails {
    VersionDetails {
        id: id.to_string(),
        kind: "release".to_string(),
        main_class: "net.minecraft.client.main.Main".to_string(),
        arguments,
        minecraft_arguments: legacy.map(|s| s.to_string()),
        libraries,
        asset_index: AssetIndexRef {
            id: "5".to_string(),
            sha1: String::new(),
            size: 0,
            total_size: 0,
            url: String::new(),
        },
        downloads: DownloadsRef { client: artifact("client.jar") },
        java_version: None,
    }
}

fn offline(name: &str) -> Account {
    Account::offline("uuid-1".to_string(), name.to_string())
}

#[test]
fn classpath_lists_allowed_libraries_then_client_jar() {
    let launcher = Launcher::new(config("/mc"));
    let d = details(
        "1.20.1",
        vec![
            library("a", Some("org/a/a.jar"), None),
            library("b", Some("org/b/b.jar"), Some(vec![os_rule("allow", "osx")])),
            library("c", None, None),
            library("d", Some("org/d/d.jar"), Some(vec![os_rule("allow", "linux")])),
        ],
        None,
        None,
    );
    let cp = launcher.build_classpath(&d, &linux()).unwrap();
    assert_eq!(
        cp,
        "/mc/libraries/org/a/a.jar:/mc/libraries/org/d/d.jar:/mc/versions/1.20.1/1.20.1.jar"
    );
}

#[test]
fn classpath_on_windows_uses_semicolons() {
    let launcher = Launcher::new(config("C:\\mc"));
    let d = details("1.8.9", vec![library("a", Some("a.jar"), None)], None, None);
    let w = Platform { os: OsKind::Windows, arch: ArchKind::X64 };
    let cp = launcher.build_classpath(&d, &w).unwrap();
    assert_eq!(cp, "C:\\mc\\libraries\\a.jar;C:\\mc\\versions\\1.8.9\\1.8.9.jar");
}

#[test]
fn classpath_of_version_without_libraries_is_client_jar() {
    let launcher = Launcher::new(config("/mc"));
    let d = details("b1.7.3", vec![], None, None);
    assert_eq!(launcher.build_classpath(&d, &linux()).unwrap(), "/mc/versions/b1.7.3/b1.7.3.jar");
}

#[test]
fn placeholders_are_replaced() {
    let launcher = Launcher::new(config("/mc"));
    let vars = vec![
        ("auth_player_name".to_string(), "Steve".to_string()),
        ("version_name".to_string(), "1.20.1".to_string()),
    ];
    let out = launcher.replace_placeholders("--username ${auth_player_name} --version ${version_name} ${unknown}", &vars);
    assert_eq!(out, "--username Steve --version 1.20.1 ${unknown}");
}

#[test]
fn template_without_placeholders_is_unchanged() {
    let launcher = Launcher::new(config("/mc"));
    let vars = vec![("a".to_string(), "b".to_string())];
    assert_eq!(launcher.replace_placeholders("--demo", &vars), "--demo");
}

#[test]
fn launch_plan_for_legacy_version() {
    let launcher = Launcher::new(config("/mc"));
    let d = details(
        "1.8.9",
        vec![library("a", Some("a.jar"), None)],
        None,
        Some("--username ${auth_player_name} --accessToken ${auth_access_token}  --userType ${user_type}"),
    );
    let plan = launcher.prepare_launch("1.8.9", &d, &offline("Alex"), &linux());
    assert_eq!(plan.program, "java");
    assert_eq!(plan.working_dir, "/mc");
    let expected: Vec<String> = vec![
        "-Djava.library.path=/mc/versions/1.8.9/natives",
        "-Djna.tmpdir=/mc/versions/1.8.9/natives",
        "-Dorg.lwjgl.system.SharedLibraryExtractPath=/mc/versions/1.8.9/natives",
        "-cp",
        "/mc/libraries/a.jar:/mc/versions/1.8.9/1.8.9.jar",
        "-Xmx2G",
        "net.minecraft.client.main.Main",
        "--username",
        "Alex",
        "--accessToken",
        "null",
        "--userType",
        "legacy",
    ]
    .into_iter()
    .map(|s| s.to_string())
    .collect();
    assert_eq!(plan.args, expected);
}

#[test]
fn launch_plan_for_modern_version() {
    let launcher = Launcher::new(config("/mc"));
    let args = Arguments {
        game: vec![
            ArgumentValue::Simple("--uuid".to_string()),
            ArgumentValue::Simple("${auth_uuid}".to_string()),
            ArgumentValue::Complex {
                rules: vec![os_rule("allow", "windows")],
                value: ArgumentValueList::Single("--windows-only".to_string()),
            },
            ArgumentValue::Simple("--assetIndex".to_string()),
            ArgumentValue::Simple("${assets_index_name}".to_string()),
        ],
        jvm: vec![
            ArgumentValue::Complex {
                rules: vec![os_rule("allow", "linux")],
                value: ArgumentValueList::Many(vec!["-Dlinux=1".to_string(), "-Dx=${version_name}".to_string()]),
            },
            ArgumentValue::Simple("-cp".to_string()),
            ArgumentValue::Simple("${classpath}".to_string()),
        ],
    };
    let d = details("1.20.1", vec![], Some(args), None);
    let mut account = Account::offline("abc".to_string(), "Steve".to_string());
    account.account_type = AccountType::Microsoft;
    account.microsoft_auth = Some(MicrosoftAuth {
        access_token: "tok".to_string(),
        refresh_token: "ref".to_string(),
        expires_at: Some(10),
    });
    let plan = launcher.prepare_launch("1.20.1", &d, &account, &linux());
    let expected: Vec<String> = vec![
        "-Dlinux=1",
        "-Dx=1.20.1",
        "-cp",
        "/mc/versions/1.20.1/1.20.1.jar",
        "-Xmx2G",
        "net.minecraft.client.main.Main",
        "--uuid",
        "abc",
        "--assetIndex",
        "5",
    ]
    .into_iter()
    .map(|s| s.to_string())
    .collect();
    assert_eq!(plan.args, expected);
}

#[test]
fn join_strings_puts_separator_between() {
    let parts = vec!["a".to_string(), "b".to_string(), "c".to_string()];
    assert_eq!(join_strings(&parts, ":"), "a:b:c");
    assert_eq!(join_strings(&vec![], ":"), "");
    assert_eq!(join_strings(&vec!["x".to_string()], ";"), "x");
}

#[test]
fn placeholders_are_replaced_in_variable_order() {
    let launcher = Launcher::new(config("/mc"));
    let vars = vec![("x".to_string(), "$".to_string()), ("y".to_string(), "Y".to_string())];
    // "${x}" becomes "$", which with the following "{y}" forms "${y}" for
    // the next variable
    assert_eq!(launcher.replace_placeholders("${x}{y}", &vars), "Y");
    let once = launcher.replace_placeholders("${y}${x}{y}", &vec![("y".to_string(), "Y".to_string()), ("x".to_string(), "$".to_string())]);
    assert_eq!(once, "Y${y}");
}
