use minecli::api::{Rule, RuleOS};
use minecli::platform::{join_path, ArchKind, OsKind, Platform};

fn linux64() -> Platform {
    Platform { os: OsKind::Linux, arch: ArchKind::X64 }
}

fn windows32() -> Platform {
    Platform { os: OsKind::Windows, arch: ArchKind::X86 }
}

fn rule(action: &str, os: Option<&str>, arch: Option<Option<&str>>) -> Rule {
    let os_rule = if os.is_none() && arch.is_none() {
        None
    } else {
        Some(RuleOS {
            name: os.map(|s| s.to_string()),
            arch: arch.map(|a| a.map(|s| s.to_string())),
        })
    };
    Rule { action: action.to_string(), os: os_rule }
}

#[test]
fn platform_from_target_names() {
    let p = Platform::from_target("linux", "x86_64");
    assert_eq!(p, linux64());
    assert_eq!(p.os_name(), "linux");
    assert_eq!(p.arch_name(), "x64");
    let m = Platform::from_target("macos", "aarch64");
    assert_eq!(m.os, OsKind::MacOs);
    assert_eq!(m.arch, ArchKind::Unknown);
    assert_eq!(m.os_name(), "osx");
    assert_eq!(m.arch_name(), "unknown");
    let w = Platform::from_target("windows", "x86");
    assert_eq!(w, windows32());
    assert_eq!(w.classpath_separator(), ";");
    assert_eq!(w.dir_separator(), '\\');
    assert_eq!(Platform::from_target("freebsd", "x86_64").os_name(), "unknown");
    assert_eq!(linux64().classpath_separator(), ":");
}

#[test]
fn rule_without_os_matches_everywhere() {
    let r = rule("allow", None, None);
    assert!(r.matches_current_env(&linux64()));
    assert!(r.matches_current_env(&windows32()));
}

#[test]
fn rule_os_name_must_match() {
    let r = rule("allow", Some("osx"), None);
    assert!(!r.matches_current_env(&linux64()));
    let mac = Platform { os: OsKind::MacOs, arch: ArchKind::X64 };
    assert!(r.matches_current_env(&mac));
}

#[test]
fn rule_arch_must_match() {
    let r = rule("allow", None, Some(Some("x86")));
    assert!(!r.matches_current_env(&linux64()));
    assert!(r.matches_current_env(&windows32()));
    let any_arch = rule("allow", Some("linux"), Some(None));
    assert!(any_arch.matches_current_env(&linux64()));
}

#[test]
fn evaluate_empty_rules_allow() {
    assert!(Rule::evaluate(&[], &linux64()));
}

#[test]
fn evaluate_last_applicable_rule_decides() {
    // The usual pattern: allow everywhere, then disallow on macOS.
    let rules = vec![rule("allow", None, None), rule("disallow", Some("osx"), None)];
    assert!(Rule::evaluate(&rules, &linux64()));
    let mac = Platform { os: OsKind::MacOs, arch: ArchKind::X64 };
    assert!(!Rule::evaluate(&rules, &mac));
}

#[test]
fn evaluate_no_applicable_rule_denies() {
    let rules = vec![rule("allow", Some("windows"), None)];
    assert!(!Rule::evaluate(&rules, &linux64()));
    assert!(Rule::evaluate(&rules, &windows32()));
}

#[test]
fn evaluate_ignores_inapplicable_rule() {
    let base = vec![rule("allow", None, None)];
    let mut extended = vec![rule("allow", None, None)];
    extended.push(rule("disallow", Some("windows"), None));
    assert_eq!(Rule::evaluate(&base, &linux64()), Rule::evaluate(&extended, &linux64()));
}

#[test]
fn evaluate_unknown_action_denies() {
    let rules = vec![rule("maybe", None, None)];
    assert!(!Rule::evaluate(&rules, &linux64()));
}

#[test]
fn join_path_cases() {
    let l = linux64();
    assert_eq!(join_path("/home/a", "b", &l), "/home/a/b");
    assert_eq!(join_path("/home/a/", "b", &l), "/home/a/b");
    assert_eq!(join_path("", "b", &l), "b");
    assert_eq!(join_path("/home/a", "/etc", &l), "/etc");
    let w = windows32();
    assert_eq!(join_path("C:\\mc", "versions", &w), "C:\\mc\\versions");
}
