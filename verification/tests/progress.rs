use minecli::progress::{completion_message, ProgressKind, ProgressOutcome, ProgressUpdate, ProgressView};

#[test]
fn download_progress_logs_every_tenth_file() {
    let mut v = ProgressView::new("Starting...".to_string());
    assert_eq!(v.total, 100);
    let r = v.apply(
        ProgressUpdate::Started { total: 12, message: "Downloading libraries".to_string() },
        ProgressKind::Download,
    );
    assert!(matches!(r, ProgressOutcome::Running));
    assert_eq!(v.logs, vec!["Task: Downloading libraries".to_string()]);
    for c in 1..=12 {
        v.apply(
            ProgressUpdate::Progress { completed: c, total: 12, current_file: format!("f{}", c) },
            ProgressKind::Download,
        );
    }
    assert_eq!(v.completed, 12);
    assert_eq!(v.current_file, "f12");
    assert_eq!(
        v.logs,
        vec![
            "Task: Downloading libraries".to_string(),
            "[10/12] Downloaded f10".to_string(),
            "[12/12] Downloaded f12".to_string(),
        ]
    );
    v.apply(ProgressUpdate::Message("Verifying".to_string()), ProgressKind::Download);
    assert_eq!(v.message, "Verifying");
    assert_eq!(v.logs.len(), 4);
    assert!(matches!(v.apply(ProgressUpdate::Finished, ProgressKind::Download), ProgressOutcome::Finished));
    match v.apply(ProgressUpdate::Error("boom".to_string()), ProgressKind::Download) {
        ProgressOutcome::Failed(e) => assert_eq!(e, "boom"),
        _ => panic!("expected a failure"),
    }
}

#[test]
fn sync_and_install_logging() {
    let mut v = ProgressView::new(String::new());
    v.apply(ProgressUpdate::Started { total: 5, message: "mods".to_string() }, ProgressKind::Sync);
    v.apply(
        ProgressUpdate::Progress { completed: 5, total: 5, current_file: "x.jar".to_string() },
        ProgressKind::Sync,
    );
    assert_eq!(v.logs, vec!["Sync: mods".to_string(), "[5/5] Synced x.jar".to_string()]);
    let mut quiet = ProgressView::new(String::new());
    quiet.apply(ProgressUpdate::Started { total: 1, message: "m".to_string() }, ProgressKind::ModInstall);
    quiet.apply(ProgressUpdate::Message("hi".to_string()), ProgressKind::ModInstall);
    assert!(quiet.logs.is_empty());
    assert_eq!(quiet.message, "hi");
    let mut shader = ProgressView::new(String::new());
    shader.apply(
        ProgressUpdate::Progress { completed: 1, total: 3, current_file: "iris.jar".to_string() },
        ProgressKind::ShaderInstall,
    );
    assert_eq!(shader.logs, vec!["Installing: iris.jar".to_string()]);
}

#[test]
fn completion_messages() {
    assert_eq!(
        completion_message(ProgressKind::Download, "1.20.1", "1.20.1", None),
        "Successfully downloaded Minecraft version 1.20.1!"
    );
    assert_eq!(completion_message(ProgressKind::Sync, "", "", Some("x")), "Mod sync failed: x");
    assert_eq!(completion_message(ProgressKind::ModInstall, "Mod", "mod", None), "Mod installed successfully!");
    assert_eq!(
        completion_message(ProgressKind::ModInstall, "Shader pack", "shader pack", Some("404")),
        "Failed to install shader pack: 404"
    );
    assert_eq!(completion_message(ProgressKind::Import, "", "", None), "Modpack imported successfully!");
}
