use minecli::ui::{
    category_down, category_up, clamp_selection, extension, hooks_status,
    initial_instance_selection, launch_ready, log_severity, modpack_default_id,
    renamed_pack_file_name, select_down, select_up, toggled_file_name, AssetSearchType, LogKey,
    LogSeverity, LogViewer, Tab,
};

fn strings(v: &[&str]) -> Vec<String> {
    v.iter().map(|s| s.to_string()).collect()
}

#[test]
fn tabs_cycle() {
    assert_eq!(Tab::Dashboard.next(), Tab::Instances);
    assert_eq!(Tab::Settings.next(), Tab::Dashboard);
    let mut t = Tab::Accounts;
    for _ in 0..4 {
        t = t.next();
    }
    assert_eq!(t, Tab::Accounts);
}

#[test]
fn list_selection_moves_within_bounds() {
    assert_eq!(select_up(Some(3)), Some(2));
    assert_eq!(select_up(Some(0)), Some(0));
    assert_eq!(select_up(None), None);
    assert_eq!(select_down(Some(1), 3), Some(2));
    assert_eq!(select_down(Some(2), 3), Some(2));
    assert_eq!(select_down(None, 3), Some(1));
    assert_eq!(select_down(None, 0), None);
    assert_eq!(select_up(select_down(Some(4), 10)), Some(4));
}

#[test]
fn categories_wrap() {
    assert_eq!(category_up(0), 3);
    assert_eq!(category_up(2), 1);
    assert_eq!(category_down(3), 0);
    assert_eq!(category_down(1), 2);
}

#[test]
fn selection_after_rebuild() {
    assert_eq!(clamp_selection(Some(5), 0), None);
    assert_eq!(clamp_selection(Some(5), 3), Some(2));
    assert_eq!(clamp_selection(Some(1), 3), Some(1));
    assert_eq!(clamp_selection(None, 3), Some(0));
}

#[test]
fn instance_selection_prefers_active() {
    let ids = strings(&["a", "b", "c"]);
    assert_eq!(initial_instance_selection(&ids, &Some("c".to_string()), Some(0)), Some(2));
    assert_eq!(initial_instance_selection(&ids, &Some("zz".to_string()), Some(1)), Some(0));
    assert_eq!(initial_instance_selection(&ids, &None, None), Some(0));
    assert_eq!(initial_instance_selection(&vec![], &None, Some(4)), Some(4));
}

#[test]
fn log_line_colours() {
    assert_eq!(log_severity("[12:00:00] [Render thread/ERROR]: boom [ERROR]"), LogSeverity::Error);
    assert_eq!(log_severity("java.lang.NullPointerException"), LogSeverity::Error);
    assert_eq!(log_severity("[WARN] careful"), LogSeverity::Warning);
    assert_eq!(log_severity("[INFO] hello"), LogSeverity::Info);
    assert_eq!(log_severity("plain text"), LogSeverity::Plain);
}

#[test]
fn log_viewer_follows_tail_until_scrolled() {
    let mut v = LogViewer::new();
    assert!(!v.can_close());
    for i in 0..30 {
        v.push_line(format!("line {}", i));
    }
    assert_eq!(v.scroll_offset, 30);
    assert_eq!(v.window(10), (20, 30));
    v.on_key(LogKey::PageUp);
    assert!(!v.auto_scroll);
    assert_eq!(v.scroll_offset, 15);
    assert_eq!(v.window(10), (15, 25));
    v.on_key(LogKey::Up);
    assert_eq!(v.scroll_offset, 14);
    v.push_line("new".to_string());
    assert_eq!(v.scroll_offset, 14);
    v.on_key(LogKey::PageDown);
    assert_eq!(v.scroll_offset, 29);
    v.on_key(LogKey::PageDown);
    assert_eq!(v.scroll_offset, 30);
    v.on_key(LogKey::Down);
    assert_eq!(v.scroll_offset, 30);
    v.on_key(LogKey::End);
    assert!(v.auto_scroll);
    assert_eq!(v.scroll_offset, 30);
    v.status = Some(Ok(()));
    assert!(v.can_close());
}

#[test]
fn log_window_of_short_log() {
    let mut v = LogViewer::new();
    assert_eq!(v.window(10), (0, 0));
    v.push_line("a".to_string());
    v.push_line("b".to_string());
    assert_eq!(v.window(10), (0, 2));
    v.on_key(LogKey::PageUp);
    assert_eq!(v.window(1), (0, 1));
}

#[test]
fn toggling_files() {
    assert_eq!(toggled_file_name("sodium.jar", true), "sodium.jar.disabled");
    assert_eq!(toggled_file_name("sodium.jar.disabled", false), "sodium.jar");
    assert_eq!(toggled_file_name("sodium.jar", false), "sodium.jar");
    assert_eq!(toggled_file_name(&toggled_file_name("pack.zip", true), false), "pack.zip");
}

#[test]
fn file_extensions() {
    assert_eq!(extension("pack.zip"), Some("zip".to_string()));
    assert_eq!(extension("archive.tar.gz"), Some("gz".to_string()));
    assert_eq!(extension("README"), None);
    assert_eq!(extension(".hidden"), None);
    assert_eq!(extension("name."), Some(String::new()));
    assert_eq!(extension(".."), None);
}

#[test]
fn renaming_packs() {
    assert_eq!(renamed_pack_file_name("Old Pack.zip", "New"), "New.zip");
    assert_eq!(renamed_pack_file_name("Old.zip.disabled", "New"), "New.zip.disabled");
    assert_eq!(renamed_pack_file_name("folderpack", "New"), "New.zip");
}

#[test]
fn modpack_ids() {
    assert_eq!(modpack_default_id("Fabulously Optimized"), "fabulously-optimized");
    assert_eq!(modpack_default_id("ALL THE MODS 9"), "all-the-mods-9");
}

#[test]
fn asset_search_types() {
    let d = AssetSearchType::Datapack { world_name: "World".to_string() };
    assert_eq!(AssetSearchType::Mod.project_type(), "mod");
    assert_eq!(AssetSearchType::Shader.project_type(), "shader");
    assert_eq!(AssetSearchType::ResourcePack.project_type(), "resourcepack");
    assert_eq!(d.project_type(), "datapack");
    assert_eq!(AssetSearchType::Shader.installed_name(), "Shader pack");
    assert_eq!(AssetSearchType::ResourcePack.title(), "Resource Packs");
    assert_eq!(d.title(), "Datapacks");
    assert_eq!(AssetSearchType::Mod.loader_filter(Some("fabric".to_string())), Some("fabric".to_string()));
    assert_eq!(AssetSearchType::Shader.loader_filter(Some("fabric".to_string())), None);
}

#[test]
fn dashboard_status() {
    assert!(launch_ready(&Some("pack".to_string()), &Some("u1".to_string())));
    assert!(!launch_ready(&None, &Some("u1".to_string())));
    assert_eq!(hooks_status(&Some("a".to_string()), &Some("b".to_string())), "Pre & Post Hooks active");
    assert_eq!(hooks_status(&Some("a".to_string()), &None), "Pre Hook active");
    assert_eq!(hooks_status(&None, &Some("b".to_string())), "Post Hook active");
    assert_eq!(hooks_status(&None, &None), "None");
}
