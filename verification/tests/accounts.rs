use minecli::api::{MinecraftLoginResponse, MinecraftProfile, TokenResponse};
use minecli::config::{Account, AccountType, Config, MicrosoftAuth};

fn empty_config() -> Config {
    Config {
        game_dir: "/mc".to_string(),
        java_path: "java".to_string(),
        jvm_args: vec![],
        accounts: vec![],
        active_account_uuid: None,
        active_instance: None,
    }
}

fn microsoft(uuid: &str, name: &str) -> Account {
    Account::from_microsoft_login(
        MinecraftProfile { id: uuid.to_string(), name: name.to_string() },
        MinecraftLoginResponse { access_token: "mc-token".to_string(), expires_in: 86400 },
        TokenResponse {
            access_token: "ms-token".to_string(),
            refresh_token: "ms-refresh".to_string(),
            expires_in: 3600,
        },
        Some(1000),
    )
}

#[test]
fn microsoft_login_builds_account() {
    let a = microsoft("u1", "Steve");
    assert_eq!(a.uuid, "u1");
    assert_eq!(a.username, "Steve");
    assert_eq!(a.account_type, AccountType::Microsoft);
    let auth = a.microsoft_auth.unwrap();
    assert_eq!(auth.access_token, "mc-token");
    assert_eq!(auth.refresh_token, "ms-refresh");
    assert_eq!(auth.expires_at, Some(1000));
}

#[test]
fn session_expiry() {
    let auth = MicrosoftAuth {
        access_token: "a".to_string(),
        refresh_token: "r".to_string(),
        expires_at: Some(100),
    };
    assert!(!auth.is_expired(100));
    assert!(auth.is_expired(101));
    let unknown = MicrosoftAuth { expires_at: None, ..auth.duplicate() };
    assert!(unknown.is_expired(0));
}

#[test]
fn add_then_find_account() {
    let mut c = empty_config();
    c.add_account(Account::offline("u1".to_string(), "Alex".to_string()));
    c.add_account(microsoft("u2", "Steve"));
    assert_eq!(c.accounts.len(), 2);
    assert_eq!(c.find_account(&"Alex".to_string()).unwrap().uuid, "u1");
    assert_eq!(c.find_account(&"u2".to_string()).unwrap().username, "Steve");
    assert!(c.find_account(&"nobody".to_string()).is_none());
}

#[test]
fn add_account_replaces_same_uuid() {
    let mut c = empty_config();
    c.add_account(Account::offline("u1".to_string(), "Alex".to_string()));
    c.add_account(Account::offline("u2".to_string(), "Bob".to_string()));
    c.add_account(Account::offline("u1".to_string(), "Alexandra".to_string()));
    assert_eq!(c.accounts.len(), 2);
    assert_eq!(c.accounts[0].username, "Alexandra");
    assert_eq!(c.accounts[1].username, "Bob");
}

#[test]
fn remove_account_clears_active() {
    let mut c = empty_config();
    c.add_account(Account::offline("u1".to_string(), "Alex".to_string()));
    c.add_account(Account::offline("u2".to_string(), "Bob".to_string()));
    c.active_account_uuid = Some("u1".to_string());
    c.remove_account(&"u1".to_string());
    assert_eq!(c.accounts.len(), 1);
    assert_eq!(c.accounts[0].uuid, "u2");
    assert!(c.active_account_uuid.is_none());
    assert!(c.find_account(&"u1".to_string()).is_none());
}

#[test]
fn remove_other_account_keeps_active() {
    let mut c = empty_config();
    c.add_account(Account::offline("u1".to_string(), "Alex".to_string()));
    c.add_account(Account::offline("u2".to_string(), "Bob".to_string()));
    c.active_account_uuid = Some("u1".to_string());
    c.remove_account(&"u2".to_string());
    assert_eq!(c.active_account_uuid, Some("u1".to_string()));
    assert_eq!(c.get_active_account().unwrap().username, "Alex");
}

#[test]
fn active_account_description() {
    let mut c = empty_config();
    assert_eq!(c.active_account_desc(), "None (Please add an account)");
    c.add_account(microsoft("u2", "Steve"));
    c.active_account_uuid = Some("u2".to_string());
    assert_eq!(c.active_account_desc(), "Steve (Microsoft)");
    c.add_account(Account::offline("u3".to_string(), "Alex".to_string()));
    c.active_account_uuid = Some("u3".to_string());
    assert_eq!(c.active_account_desc(), "Alex (Offline)");
    c.active_account_uuid = Some("missing".to_string());
    assert!(c.get_active_account().is_none());
    assert_eq!(c.active_account_desc(), "None (Please add an account)");
}

#[test]
fn offline_launch_reuses_existing_account() {
    let mut c = empty_config();
    c.add_account(Account::offline("u1".to_string(), "Alex".to_string()));
    let a = c.resolve_offline_account(Some("Alex".to_string()), "fresh".to_string());
    assert_eq!(a.uuid, "u1");
    assert_eq!(c.accounts.len(), 1);
}

#[test]
fn offline_launch_creates_account() {
    let mut c = empty_config();
    let a = c.resolve_offline_account(None, "fresh".to_string());
    assert_eq!(a.username, "Player");
    assert_eq!(a.uuid, "fresh");
    assert_eq!(a.account_type, AccountType::Offline);
    assert_eq!(c.accounts.len(), 1);
    assert_eq!(c.accounts[0].uuid, "fresh");
}

#[test]
fn offline_launch_uses_active_name() {
    let mut c = empty_config();
    c.add_account(microsoft("u2", "Steve"));
    c.active_account_uuid = Some("u2".to_string());
    // The Microsoft account has the name, but only an offline one is reused.
    let a = c.resolve_offline_account(None, "fresh".to_string());
    assert_eq!(a.username, "Steve");
    assert_eq!(a.uuid, "fresh");
    assert_eq!(a.account_type, AccountType::Offline);
    assert_eq!(c.accounts.len(), 2);
}

#[test]
fn online_launch_prefers_microsoft() {
    let mut c = empty_config();
    assert!(c.select_online_account().is_none());
    c.add_account(Account::offline("u1".to_string(), "Alex".to_string()));
    c.active_account_uuid = Some("u1".to_string());
    assert_eq!(c.select_online_account().unwrap().uuid, "u1");
    c.add_account(microsoft("u2", "Steve"));
    assert_eq!(c.select_online_account().unwrap().uuid, "u2");
    c.add_account(microsoft("u3", "Herobrine"));
    c.active_account_uuid = Some("u3".to_string());
    assert_eq!(c.select_online_account().unwrap().uuid, "u3");
}

#[test]
fn select_account_by_name_or_uuid() {
    let mut c = empty_config();
    c.add_account(Account::offline("u1".to_string(), "Alex".to_string()));
    c.add_account(Account::offline("u2".to_string(), "Bob".to_string()));
    assert_eq!(c.select_account(&"Bob".to_string()), Ok(()));
    assert_eq!(c.active_account_uuid, Some("u2".to_string()));
    assert_eq!(c.select_account(&"u1".to_string()), Ok(()));
    assert_eq!(c.active_account_uuid, Some("u1".to_string()));
    assert_eq!(c.select_account(&"Zed".to_string()), Err("Account 'Zed' not found.".to_string()));
    assert_eq!(c.active_account_uuid, Some("u1".to_string()));
}

#[test]
fn remove_account_by_name() {
    let mut c = empty_config();
    c.add_account(Account::offline("u1".to_string(), "Alex".to_string()));
    c.add_account(Account::offline("u2".to_string(), "Bob".to_string()));
    c.active_account_uuid = Some("u2".to_string());
    let removed = c.remove_named_account(&"Bob".to_string()).unwrap();
    assert_eq!(removed.uuid, "u2");
    assert_eq!(c.accounts.len(), 1);
    assert!(c.active_account_uuid.is_none());
    match c.remove_named_account(&"Bob".to_string()) {
        Err(e) => assert_eq!(e, "Account 'Bob' not found."),
        Ok(_) => panic!("expected a refusal"),
    }
    assert_eq!(c.accounts.len(), 1);
}

#[test]
fn settings_edit_and_read_back() {
    let mut c = empty_config();
    c.apply_setting(0, "  /games/mc  ");
    assert_eq!(c.game_dir, "/games/mc");
    assert_eq!(c.setting_value(0), "/games/mc");
    c.apply_setting(1, "/usr/bin/java\n");
    assert_eq!(c.java_path, "/usr/bin/java");
    c.apply_setting(2, " -Xmx4G   -XX:+UseG1GC ");
    assert_eq!(c.jvm_args, vec!["-Xmx4G".to_string(), "-XX:+UseG1GC".to_string()]);
    assert_eq!(c.setting_value(2), "-Xmx4G -XX:+UseG1GC");
    c.apply_setting(7, "ignored");
    assert_eq!(c.setting_value(7), "");
    c.set_jvm_args("-Xms1G");
    assert_eq!(c.jvm_args, vec!["-Xms1G".to_string()]);
}

#[test]
fn deleting_active_instance_clears_it() {
    let mut c = empty_config();
    c.active_instance = Some("pack".to_string());
    assert!(!c.forget_instance("other"));
    assert_eq!(c.active_instance, Some("pack".to_string()));
    assert!(c.forget_instance("pack"));
    assert!(c.active_instance.is_none());
}

#[test]
fn instance_overrides_for_launch() {
    let mut c = empty_config();
    c.jvm_args = vec!["-Xmx2G".to_string()];
    c.add_account(Account::offline("u1".to_string(), "Alex".to_string()));
    let same = c.with_instance_overrides(&None, &None);
    assert_eq!(same.java_path, "java");
    assert_eq!(same.jvm_args, vec!["-Xmx2G".to_string()]);
    assert_eq!(same.accounts.len(), 1);
    let own = c.with_instance_overrides(&Some("/jdk17/bin/java".to_string()), &Some(vec![]));
    assert_eq!(own.java_path, "/jdk17/bin/java");
    assert!(own.jvm_args.is_empty());
    assert_eq!(own.game_dir, "/mc");
}

fn is_simple_uuid(s: &str) -> bool {
    s.len() == 32 && s.chars().all(|c| c.is_ascii_digit() || ('a'..='f').contains(&c))
}

#[test]
fn offline_profiles_get_random_uuids() {
    let mut c = empty_config();
    let a = c.add_offline_profile("Alex".to_string());
    let b = c.add_offline_profile("Alex".to_string());
    assert!(is_simple_uuid(&a.uuid));
    assert!(is_simple_uuid(&b.uuid));
    assert_ne!(a.uuid, b.uuid);
    assert_eq!(c.accounts.len(), 2);
    assert_eq!(a.account_type, AccountType::Offline);
}

#[test]
fn offline_launch_creates_then_reuses() {
    let mut c = empty_config();
    let first = c.offline_launch_account(Some("Steve".to_string()));
    assert!(is_simple_uuid(&first.uuid));
    let again = c.offline_launch_account(Some("Steve".to_string()));
    assert_eq!(again.uuid, first.uuid);
    assert_eq!(c.accounts.len(), 1);
}

#[test]
fn sign_in_now_sets_expiry() {
    let a = Account::from_microsoft_login_now(
        MinecraftProfile { id: "u9".to_string(), name: "Notch".to_string() },
        MinecraftLoginResponse { access_token: "mc".to_string(), expires_in: 86400 },
        TokenResponse { access_token: "ms".to_string(), refresh_token: "rt".to_string(), expires_in: 3600 },
    );
    let auth = a.microsoft_auth.unwrap();
    assert_eq!(auth.access_token, "mc");
    assert_eq!(auth.refresh_token, "rt");
    assert!(auth.expires_at.unwrap() > 1_600_000_000 + 86400);
    assert!(!auth.is_expired_now());
    let stale = MicrosoftAuth { expires_at: Some(0), ..auth.duplicate() };
    assert!(stale.is_expired_now());
    let unknown = MicrosoftAuth { expires_at: None, ..auth };
    assert!(unknown.is_expired_now());
}
