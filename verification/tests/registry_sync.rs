use apmm::registry::classify_entry;
use apmm::registry::cmd_sync;
use apmm::registry::reconcile;
use apmm::registry::register_discovered;
use apmm::registry::should_descend;
use apmm::registry::sync_registration;
use apmm::registry::sync_report;
use apmm::registry::validate_project;
use apmm::registry::DiscoveryOutcome;
use apmm::registry::EntryClass;
use apmm::registry::EntryStatus;
use apmm::registry::Registry;
use apmm::registry::SyncMode;

fn path_of(reg: &Registry, id: &str) -> Option<String> {
    reg.get_project_path(id).cloned()
}

#[test]
fn registry_add_get_remove() {
    let mut reg = Registry::new();
    assert_eq!(reg.len(), 0);
    reg.add_project("a".to_string(), "/p/a".to_string());
    reg.add_project("b".to_string(), "/p/b".to_string());
    assert_eq!(reg.len(), 2);
    assert_eq!(path_of(&reg, "a").as_deref(), Some("/p/a"));
    reg.add_project("a".to_string(), "/q/a".to_string());
    assert_eq!(reg.len(), 2);
    assert_eq!(path_of(&reg, "a").as_deref(), Some("/q/a"));
    assert!(reg.remove_project("a"));
    assert!(!reg.remove_project("a"));
    assert_eq!(reg.len(), 1);
    assert_eq!(path_of(&reg, "a"), None);
}

#[test]
fn classification_follows_the_observation() {
    assert!(matches!(
        classify_entry("x", &EntryStatus::PathMissing),
        EntryClass::Remove
    ));
    assert!(matches!(
        classify_entry("x", &EntryStatus::NotAProject),
        EntryClass::Remove
    ));
    assert!(matches!(
        classify_entry("x", &EntryStatus::Unreadable),
        EntryClass::Valid
    ));
    assert!(matches!(
        classify_entry("x", &EntryStatus::Readable("id = \"x\"".to_string())),
        EntryClass::Valid
    ));
    assert!(matches!(
        classify_entry("x", &EntryStatus::Readable("garbage".to_string())),
        EntryClass::Valid
    ));
    match classify_entry("x", &EntryStatus::Readable("id = \"y\"".to_string())) {
        EntryClass::Reregister(id) => assert_eq!(id, "y"),
        _ => panic!("expected a re-registration"),
    }
}

#[test]
fn missing_path_is_removed_and_counted() {
    let mut reg = Registry::new();
    reg.add_project("gone".to_string(), "/gone".to_string());
    reg.add_project("ok".to_string(), "/ok".to_string());
    let statuses = vec![
        EntryStatus::PathMissing,
        EntryStatus::Readable("id = \"ok\"".to_string()),
    ];
    let counts = reconcile(&mut reg, &statuses);
    assert_eq!(counts.removed, 1);
    assert_eq!(counts.valid, 1);
    assert_eq!(counts.added, 0);
    assert_eq!(reg.len(), 1);
    assert_eq!(path_of(&reg, "gone"), None);
    assert_eq!(path_of(&reg, "ok").as_deref(), Some("/ok"));
}

#[test]
fn id_mismatch_reregisters_under_manifest_id() {
    let mut reg = Registry::new();
    reg.add_project("old_id".to_string(), "/proj".to_string());
    let statuses = vec![EntryStatus::Readable("id = \"new_id\"".to_string())];
    let counts = reconcile(&mut reg, &statuses);
    assert_eq!(counts.removed, 1);
    assert_eq!(counts.added, 1);
    assert_eq!(counts.valid, 0);
    assert_eq!(path_of(&reg, "old_id"), None);
    assert_eq!(path_of(&reg, "new_id").as_deref(), Some("/proj"));
}

#[test]
fn discovery_registers_new_projects() {
    let mut reg = Registry::new();
    let outcome = register_discovered(&mut reg, "id = \"fresh\"", "/found/fresh");
    assert!(matches!(outcome, DiscoveryOutcome::Added));
    assert_eq!(path_of(&reg, "fresh").as_deref(), Some("/found/fresh"));
}

#[test]
fn discovery_conflict_keeps_first_registration() {
    let mut reg = Registry::new();
    reg.add_project("dup".to_string(), "/first".to_string());
    let outcome = register_discovered(&mut reg, "id = \"dup\"", "/second");
    assert!(matches!(outcome, DiscoveryOutcome::Conflict));
    assert_eq!(reg.len(), 1);
    assert_eq!(path_of(&reg, "dup").as_deref(), Some("/first"));
}

#[test]
fn discovery_same_path_is_a_noop() {
    let mut reg = Registry::new();
    reg.add_project("same".to_string(), "/here".to_string());
    let outcome = register_discovered(&mut reg, "id = \"same\"", "/here");
    assert!(matches!(outcome, DiscoveryOutcome::AlreadyRegistered));
    assert_eq!(reg.len(), 1);
}

#[test]
fn discovery_skips_manifests_without_id() {
    let mut reg = Registry::new();
    let outcome = register_discovered(&mut reg, "name = \"no id\"", "/x");
    assert!(matches!(outcome, DiscoveryOutcome::NoIdentifier));
    assert_eq!(reg.len(), 0);
}

#[test]
fn current_project_sync_corrects_the_registry() {
    let mut reg = Registry::new();
    reg.add_project("me".to_string(), "/stale".to_string());
    assert!(sync_registration(&mut reg, "me", "/fresh"));
    assert_eq!(path_of(&reg, "me").as_deref(), Some("/fresh"));
    assert!(!sync_registration(&mut reg, "me", "/fresh"));
    assert!(sync_registration(&mut reg, "new", "/n"));
    assert_eq!(reg.len(), 2);
}

#[test]
fn walk_descends_only_into_plain_shallow_directories() {
    assert!(should_descend("src", 1));
    assert!(should_descend("deep", 3));
    assert!(!should_descend("deeper", 4));
    assert!(!should_descend(".git", 1));
    assert!(!should_descend(".apmm", 1));
    assert!(!should_descend("node_modules", 1));
    assert!(!should_descend("target", 1));
    assert!(!should_descend("build", 1));
}

#[test]
fn sync_mode_is_chosen_by_flag() {
    assert!(matches!(
        cmd_sync(&["-U".to_string()]),
        SyncMode::UpgradeCurrent
    ));
    assert!(matches!(cmd_sync(&[]), SyncMode::FullSync));
    assert!(matches!(
        cmd_sync(&["full".to_string()]),
        SyncMode::FullSync
    ));
}

#[test]
fn project_validation_names_the_missing_marker() {
    assert_eq!(validate_project(true, true), Ok(()));
    assert_eq!(
        validate_project(false, true),
        Err("Required file missing: module.prop".to_string())
    );
    assert_eq!(
        validate_project(true, false),
        Err(".apmm directory not found".to_string())
    );
}

#[test]
fn report_totals_the_operation() {
    assert_eq!(sync_report(2, 1, 3, 5), "Synchronized 6 projects (+1 -3 =5)");
    assert_eq!(sync_report(0, 0, 0, 0), "Synchronized 0 projects (+0 -0 =0)");
}
