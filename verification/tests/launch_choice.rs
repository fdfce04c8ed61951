use minecli::launcher::{active_instance_for_launch, launch_instance_id, needs_download, tui_launch_step, LaunchStep};
use minecli::mods::ModInstallPlan;
use minecli::versions::{classify_version_id, classify_version_id_for_interface, VersionSource};

#[test]
fn launch_instance_prefers_the_requested_one() {
    assert_eq!(launch_instance_id(Some("a".to_string()), Some("b".to_string())), Ok("a".to_string()));
    assert_eq!(launch_instance_id(None, Some("b".to_string())), Ok("b".to_string()));
    assert_eq!(
        launch_instance_id(None, None),
        Err("No instance selected and no active instance set. Use 'minecli instance create' or select one in the TUI.".to_string())
    );
    assert_eq!(
        active_instance_for_launch(&None),
        Err("No active instance selected. Please select an instance in the 'Instances' tab.".to_string())
    );
    assert_eq!(active_instance_for_launch(&Some("x".to_string())), Ok("x".to_string()));
}

#[test]
fn downloads_happen_only_when_files_are_missing() {
    assert!(needs_download(false, false, true));
    assert!(needs_download(false, true, false));
    assert!(!needs_download(false, true, true));
    assert!(!needs_download(true, false, false));
    assert_eq!(tui_launch_step(true, false, true), LaunchStep::Download);
    assert_eq!(tui_launch_step(true, true, false), LaunchStep::NoAccount);
    assert_eq!(tui_launch_step(true, true, true), LaunchStep::Start);
}

#[test]
fn malformed_fabric_id_wording() {
    assert_eq!(
        classify_version_id("fabric-loader-0.15", false).err(),
        Some("Invalid Fabric version ID format: fabric-loader-0.15".to_string())
    );
    assert_eq!(
        classify_version_id_for_interface("fabric-loader-0.15", false).err(),
        Some("Invalid Fabric version ID format".to_string())
    );
    assert!(matches!(classify_version_id_for_interface("forge-47.2.0", false), Ok(VersionSource::Forge(v)) if v == "47.2.0"));
}

#[test]
fn install_plan_visits_dependencies_depth_first_once() {
    let mut plan = ModInstallPlan::new("sodium".to_string(), Vec::new(), true);
    assert_eq!(plan.next_project(), Some("sodium".to_string()));
    plan.record_installed(
        "sodium".to_string(),
        vec!["AANobbMI".to_string()],
        vec!["fabric-api".to_string(), "indium".to_string()],
    );
    assert_eq!(plan.next_project(), Some("fabric-api".to_string()));
    plan.record_installed("fabric-api".to_string(), vec!["P7dR8mSH".to_string()], vec!["indium".to_string()]);
    assert_eq!(plan.next_project(), Some("indium".to_string()));
    // a dependency's failure does not end the installation
    assert_eq!(plan.failure_outcome("offline".to_string()), None);
    assert_eq!(plan.next_project(), Some("indium".to_string()));
    plan.record_installed("indium".to_string(), Vec::new(), vec!["sodium".to_string()]);
    // the already installed project is skipped
    assert_eq!(plan.next_project(), None);
}

#[test]
fn install_plan_root_failure_fails() {
    let mut plan = ModInstallPlan::new("lithium".to_string(), Vec::new(), true);
    assert_eq!(plan.next_project(), Some("lithium".to_string()));
    assert_eq!(plan.failure_outcome("not found".to_string()), Some("not found".to_string()));
    let mut plan = ModInstallPlan::new("lithium".to_string(), vec!["lithium".to_string()], false);
    assert_eq!(plan.next_project(), None);
}
