use minecli::auth::PollClock;
use minecli::instance::resolve_backup_name;
use minecli::screen::{on_event, on_key, AssetKind, SearchKind, UiAction, UiEvent, UiKey, UiModel, UiState};
use minecli::ui::{LogKey, Tab};

fn model() -> UiModel {
    UiModel::new(3, 2)
}

fn type_text(m: &mut UiModel, state: UiState, text: &str) -> UiState {
    let mut s = state;
    for c in text.chars() {
        let (next, act) = on_key(m, s, UiKey::Char(c));
        assert_eq!(act, UiAction::Nothing);
        s = next;
    }
    s
}

#[test]
fn quit_and_tab_cycle_on_main_screen() {
    let mut m = model();
    assert_eq!(on_key(&mut m, UiState::Normal, UiKey::Char('q')), (UiState::Normal, UiAction::Quit));
    for expected in [Tab::Instances, Tab::Accounts, Tab::Settings, Tab::Dashboard] {
        let r = on_key(&mut m, UiState::Normal, UiKey::Tab);
        assert_eq!(r, (UiState::Normal, UiAction::ClearStatus));
        assert_eq!(m.tab, expected);
    }
}

#[test]
fn dashboard_letters_switch_tabs_and_launch() {
    let mut m = model();
    assert_eq!(on_key(&mut m, UiState::Normal, UiKey::Char('l')), (UiState::Normal, UiAction::Launch));
    on_key(&mut m, UiState::Normal, UiKey::Char('A'));
    assert_eq!(m.tab, Tab::Accounts);
    // on the accounts tab 'a' starts a Microsoft sign-in instead
    assert_eq!(
        on_key(&mut m, UiState::Normal, UiKey::Char('a')),
        (UiState::AddMicrosoftAccount, UiAction::StartMicrosoftLogin)
    );
}

#[test]
fn offline_account_prompt_adds_trimmed_name() {
    let mut m = model();
    m.tab = Tab::Accounts;
    let (s, act) = on_key(&mut m, UiState::Normal, UiKey::Char('o'));
    assert_eq!((s, act), (UiState::AddOfflineAccount, UiAction::ClearStatus));
    let s = type_text(&mut m, s, "  Steve ");
    assert_eq!(m.input_text(), "  Steve ");
    let (s, act) = on_key(&mut m, s, UiKey::Enter);
    assert_eq!((s, act), (UiState::Normal, UiAction::AddOfflineAccount));
    assert_eq!(m.entered_text(), "Steve");
    assert_eq!(m.input_text(), "");
    assert_eq!(m.tab, Tab::Accounts);
}

#[test]
fn blank_offline_name_keeps_the_prompt() {
    let mut m = model();
    let s = type_text(&mut m, UiState::AddOfflineAccount, "   ");
    assert_eq!(on_key(&mut m, s, UiKey::Enter), (UiState::AddOfflineAccount, UiAction::Nothing));
    assert_eq!(m.input_text(), "");
}

#[test]
fn backspace_removes_last_character() {
    let mut m = model();
    let s = type_text(&mut m, UiState::CreatingInstanceName, "abc");
    on_key(&mut m, s, UiKey::Backspace);
    assert_eq!(m.input_text(), "ab");
}

#[test]
fn instance_keys_open_their_screens() {
    let mut m = model();
    m.tab = Tab::Instances;
    on_key(&mut m, UiState::Normal, UiKey::Down);
    assert_eq!(m.instance_sel, Some(1));
    assert_eq!(
        on_key(&mut m, UiState::Normal, UiKey::Char('b')),
        (UiState::BackupsMenu { instance: 1 }, UiAction::ListBackups { instance: 1 })
    );
    assert_eq!(
        on_key(&mut m, UiState::Normal, UiKey::Char('m')),
        (UiState::ModManager { instance: 1 }, UiAction::ListMods { instance: 1 })
    );
    assert_eq!(on_key(&mut m, UiState::Normal, UiKey::Char('p')), (UiState::ModpackMenu { option: 0 }, UiAction::Nothing));
    assert_eq!(
        on_key(&mut m, UiState::Normal, UiKey::Char('a')),
        (UiState::AssetManager { instance: 1, category: 0 }, UiAction::OpenAssetManager { instance: 1 })
    );
    assert_eq!(
        on_key(&mut m, UiState::Normal, UiKey::Char('s')),
        (UiState::SyncingInstanceMods, UiAction::SyncInstance { index: 1 })
    );
    assert_eq!(
        on_key(&mut m, UiState::Normal, UiKey::Char('e')),
        (UiState::SelectInstanceFieldToEdit { instance: 1 }, UiAction::Nothing)
    );
}

#[test]
fn instance_keys_need_a_selection() {
    let mut m = model();
    m.tab = Tab::Instances;
    assert_eq!(on_key(&mut m, UiState::Normal, UiKey::Char('d')), (UiState::Normal, UiAction::Nothing));
    assert_eq!(on_key(&mut m, UiState::Normal, UiKey::Enter), (UiState::Normal, UiAction::Nothing));
}

#[test]
fn settings_selection_stops_at_third_field() {
    let mut m = model();
    m.tab = Tab::Settings;
    for _ in 0..5 {
        on_key(&mut m, UiState::Normal, UiKey::Down);
    }
    assert_eq!(m.settings_sel, Some(2));
    assert_eq!(
        on_key(&mut m, UiState::Normal, UiKey::Enter),
        (UiState::EditingSetting { field: 2 }, UiAction::LoadSetting { field: 2 })
    );
}

#[test]
fn new_instance_flow_reaches_loader_choice() {
    let mut m = model();
    let s = type_text(&mut m, UiState::CreatingInstanceName, "pack");
    let (s, act) = on_key(&mut m, s, UiKey::Enter);
    assert_eq!((s, act), (UiState::CreatingInstanceVersion, UiAction::PrepareVersions));
    assert_eq!(m.entered_text(), "pack");
    m.versions_changed(4);
    assert_eq!(m.version_sel, Some(0));
    assert_eq!(on_key(&mut m, s, UiKey::F1), (s, UiAction::RefilterVersions));
    assert!(!m.filter_releases);
    on_key(&mut m, s, UiKey::Down);
    assert_eq!(on_key(&mut m, s, UiKey::Enter), (s, UiAction::FetchLoaders { version: 1 }));
    let (s, _) = on_event(&mut m, s, UiEvent::Loaded { len: 3 });
    assert_eq!(s, UiState::ChoosingModLoader);
    assert_eq!(m.list_sel, Some(0));
    on_key(&mut m, s, UiKey::Down);
    assert_eq!(on_key(&mut m, s, UiKey::Enter), (s, UiAction::InstallLoader { option: 1 }));
    assert_eq!(on_key(&mut m, s, UiKey::Esc), (UiState::Normal, UiAction::CreateVanillaInstance));
}

#[test]
fn modpack_menu_options() {
    let mut m = model();
    let s = UiState::ModpackMenu { option: 0 };
    assert_eq!(on_key(&mut m, s, UiKey::Char('j')), (UiState::ModpackMenu { option: 1 }, UiAction::Nothing));
    assert_eq!(on_key(&mut m, UiState::ModpackMenu { option: 1 }, UiKey::Down), (UiState::ModpackMenu { option: 1 }, UiAction::Nothing));
    assert_eq!(on_key(&mut m, s, UiKey::Enter), (UiState::SearchingModpackQuery, UiAction::Nothing));
    assert_eq!(on_key(&mut m, UiState::ModpackMenu { option: 1 }, UiKey::Enter), (UiState::ImportingModpackPath, UiAction::Nothing));
}

#[test]
fn mod_search_round_trip() {
    let mut m = model();
    let s = UiState::SearchingModQuery { instance: 0, kind: SearchKind::Mod };
    let s2 = type_text(&mut m, s, "sodium");
    let (s3, act) = on_key(&mut m, s2, UiKey::Enter);
    assert_eq!(s3, UiState::SearchingModLoading { instance: 0, kind: SearchKind::Mod });
    assert_eq!(act, UiAction::SearchAssets { instance: 0, kind: SearchKind::Mod });
    // keys do nothing while loading
    assert_eq!(on_key(&mut m, s3, UiKey::Esc), (s3, UiAction::Nothing));
    let (s4, _) = on_event(&mut m, s3, UiEvent::Loaded { len: 2 });
    assert_eq!(s4, UiState::SearchingModResults { instance: 0, kind: SearchKind::Mod });
    on_key(&mut m, s4, UiKey::Char('j'));
    let (s5, act) = on_key(&mut m, s4, UiKey::Enter);
    assert_eq!(act, UiAction::FetchAssetVersions { instance: 0, kind: SearchKind::Mod, hit: 1 });
    // no compatible version sends the search back to its prompt
    let (s6, _) = on_event(&mut m, s5, UiEvent::Loaded { len: 0 });
    assert_eq!(s6, s);
}

#[test]
fn results_escape_restores_query() {
    let mut m = model();
    let s = type_text(&mut m, UiState::SearchingModpackQuery, " fabulous ");
    let (s, _) = on_key(&mut m, s, UiKey::Enter);
    let (s, _) = on_event(&mut m, s, UiEvent::Loaded { len: 1 });
    m.set_input("x");
    let (s, _) = on_key(&mut m, s, UiKey::Esc);
    assert_eq!(s, UiState::SearchingModpackQuery);
    assert_eq!(m.input_text(), "fabulous");
}

#[test]
fn install_finish_returns_to_manager() {
    let mut m = model();
    let r = on_event(&mut m, UiState::InstallingModProgress { instance: 2, kind: SearchKind::Shader }, UiEvent::Finished);
    assert_eq!(r, (UiState::ShaderPackManager { instance: 2 }, UiAction::ListAssets { instance: 2, category: 2 }));
    let r = on_event(&mut m, UiState::InstallingModProgress { instance: 2, kind: SearchKind::Mod }, UiEvent::Failed);
    assert_eq!(r, (UiState::ModManager { instance: 2 }, UiAction::ListMods { instance: 2 }));
}

#[test]
fn asset_categories_wrap() {
    let mut m = model();
    let s = UiState::AssetManager { instance: 0, category: 0 };
    assert_eq!(on_key(&mut m, s, UiKey::Up).0, UiState::AssetManager { instance: 0, category: 3 });
    assert_eq!(
        on_key(&mut m, UiState::AssetManager { instance: 0, category: 3 }, UiKey::Down).0,
        UiState::AssetManager { instance: 0, category: 0 }
    );
    assert_eq!(
        on_key(&mut m, UiState::AssetManager { instance: 0, category: 3 }, UiKey::Enter),
        (UiState::ScreenshotManager { instance: 0, confirm_delete: false }, UiAction::ListAssets { instance: 0, category: 3 })
    );
}

#[test]
fn world_delete_needs_confirmation() {
    let mut m = model();
    let s = UiState::WorldManager { instance: 0, confirm_delete: false };
    on_event(&mut m, s, UiEvent::Loaded { len: 2 });
    let (s2, act) = on_key(&mut m, s, UiKey::Char('d'));
    assert_eq!((s2, act), (UiState::WorldManager { instance: 0, confirm_delete: true }, UiAction::Nothing));
    assert_eq!(on_key(&mut m, s2, UiKey::Char('n')), (s, UiAction::Nothing));
    assert_eq!(on_key(&mut m, s2, UiKey::Char('y')), (s, UiAction::DeleteWorld { instance: 0, index: 0 }));
    assert_eq!(
        on_key(&mut m, s, UiKey::Char('r')),
        (
            UiState::PromptRenameAsset { instance: 0, kind: AssetKind::World },
            UiAction::BeginRename { instance: 0, kind: AssetKind::World, index: 0 }
        )
    );
}

#[test]
fn shader_support_key_only_without_support() {
    let mut m = model();
    let s = UiState::ShaderPackManager { instance: 1 };
    assert_eq!(
        on_key(&mut m, s, UiKey::Char('i')),
        (UiState::InstallingShaderSupport { instance: 1 }, UiAction::InstallShaderSupport { instance: 1 })
    );
    m.set_shader_support(true);
    assert_eq!(on_key(&mut m, s, UiKey::Char('i')), (s, UiAction::Nothing));
}

#[test]
fn game_log_closes_only_after_exit() {
    let mut m = model();
    let (s, _) = on_event(&mut m, UiState::Normal, UiEvent::GameStarted);
    assert_eq!(s, UiState::GameRunning);
    assert_eq!(on_key(&mut m, s, UiKey::Esc), (s, UiAction::Nothing));
    assert_eq!(on_key(&mut m, s, UiKey::Char('q')), (s, UiAction::Nothing));
    assert_eq!(on_key(&mut m, s, UiKey::PageUp), (s, UiAction::ScrollLog { key: LogKey::PageUp }));
    on_event(&mut m, s, UiEvent::Finished);
    assert_eq!(on_key(&mut m, s, UiKey::Esc), (UiState::Normal, UiAction::CloseGameLog));
}

#[test]
fn microsoft_sign_in_outcomes() {
    let mut m = model();
    assert_eq!(
        on_key(&mut m, UiState::AddMicrosoftAccount, UiKey::Esc),
        (UiState::Normal, UiAction::CancelMicrosoftLogin)
    );
    let r = on_event(&mut m, UiState::AddMicrosoftAccount, UiEvent::Finished);
    assert_eq!(r, (UiState::Normal, UiAction::Nothing));
    assert_eq!(m.tab, Tab::Accounts);
}

#[test]
fn download_start_shows_progress() {
    let mut m = model();
    assert_eq!(on_event(&mut m, UiState::Normal, UiEvent::DownloadStarted).0, UiState::Downloading);
    assert_eq!(on_event(&mut m, UiState::Downloading, UiEvent::Failed).0, UiState::Normal);
}

#[test]
fn restore_resolves_name_or_timestamp() {
    let backups = vec!["backup_2024-01-02_10-00-00.zip".to_string(), "backup_2023-05-06_08-00-00.zip".to_string()];
    assert_eq!(
        resolve_backup_name(&backups, "backup_2023-05-06_08-00-00.zip"),
        Ok("backup_2023-05-06_08-00-00.zip".to_string())
    );
    assert_eq!(resolve_backup_name(&backups, "2024-01-02_10-00-00"), Ok("backup_2024-01-02_10-00-00.zip".to_string()));
    assert_eq!(resolve_backup_name(&backups, "nope"), Err("Backup file not found: nope".to_string()));
}

#[test]
fn tui_sign_in_polls_whole_intervals() {
    // 12 seconds of validity at 5-second intervals: two polls, then timeout
    let mut clock = PollClock::new(5, 12);
    let mut polls = 0;
    while clock.step_tui() {
        polls += 1;
    }
    assert_eq!(polls, 2);
    let mut clock = PollClock::new(0, 3);
    let mut polls = 0;
    while clock.step_tui() {
        polls += 1;
    }
    assert_eq!(polls, 3);
}

#[test]
fn listings_of_distinct_names_are_strictly_ordered() {
    let ids = vec!["1.20.1".to_string(), "1.8.9".to_string(), "1.12.2".to_string()];
    let listed = minecli::versions::local_versions_listing(ids, &None);
    assert_eq!(listed, vec!["1.12.2".to_string(), "1.20.1".to_string(), "1.8.9".to_string()]);
    for w in listed.windows(2) {
        assert!(w[0] < w[1]);
    }
    let names = vec![
        "backup_2023-01-01_00-00-00.zip".to_string(),
        "notes.txt".to_string(),
        "backup_2024-01-01_00-00-00.zip".to_string(),
    ];
    let backups = minecli::instance::Instance::list_backups(names);
    assert_eq!(
        backups,
        vec!["backup_2024-01-01_00-00-00.zip".to_string(), "backup_2023-01-01_00-00-00.zip".to_string()]
    );
}
