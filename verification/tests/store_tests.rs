//! The shared state store: the write-path transitions and the end-to-end
//! import, save, toggle and delete scenarios.
use aoe4_overlay::codec::{parse_app_config, serialize_app_config, serialize_build_order};
use aoe4_overlay::hotkeys::{HotkeyAction, HotkeyRegistry, KeyCode};
use aoe4_overlay::model::{AppConfig, BuildOrder, BuildOrderStep};
use aoe4_overlay::store::{check_import_size, AppState, MAX_IMPORT_SIZE};

fn order(id: &str, steps: usize) -> BuildOrder {
    BuildOrder {
        id: id.to_string(),
        name: format!("Order {}", id),
        civilization: "English".to_string(),
        description: "desc".to_string(),
        difficulty: "Easy".to_string(),
        steps: (0..steps)
            .map(|i| BuildOrderStep {
                id: format!("s{}", i),
                description: format!("Step {}", i),
                timing: None,
                resources: None,
            })
            .collect(),
        enabled: true,
        pinned: false,
        favorite: false,
        branches: None,
    }
}

fn fresh_store() -> AppState {
    AppState::new(AppConfig::default(), Vec::new())
}

#[test]
fn import_succeeds_then_rejects_duplicate() {
    let mut store = fresh_store();
    let text = serialize_build_order(&order("rush-v1", 3));

    // First import: accepted, listed.
    assert_eq!(store.import_build_order(&text), Ok(()));
    assert_eq!(store.get_build_orders().len(), 1);
    assert_eq!(store.get_build_orders()[0].id, "rush-v1");

    // Second import of the same id: rejected, naming the id, nothing added.
    let err = store.import_build_order(&text).unwrap_err();
    assert!(err.contains("rush-v1"));
    assert!(err.contains("already exists"));
    assert_eq!(store.get_build_orders().len(), 1);
}

#[test]
fn import_rejects_unparseable_content() {
    let mut store = fresh_store();
    let err = store.import_build_order("not json at all").unwrap_err();
    assert!(err.contains("Invalid build order format"));
    assert_eq!(store.get_build_orders().len(), 0);
}

#[test]
fn import_rejects_invalid_order() {
    let mut store = fresh_store();
    let text = serialize_build_order(&order("rush-v1", 0));
    let err = store.import_build_order(&text).unwrap_err();
    assert!(err.contains("at least one step"));
    assert_eq!(store.get_build_orders().len(), 0);
}

#[test]
fn check_import_size_enforces_the_cap() {
    assert!(check_import_size(0).is_ok());
    assert!(check_import_size(MAX_IMPORT_SIZE).is_ok());
    let err = check_import_size(MAX_IMPORT_SIZE + 1).unwrap_err();
    assert!(err.contains("File too large"));
    assert!(err.contains("1048577"));
    assert!(err.contains("1048576"));
}

#[test]
fn save_build_order_inserts_then_updates_in_place() {
    let mut store = fresh_store();
    assert_eq!(store.save_build_order(order("a", 1)), Ok(()));
    assert_eq!(store.save_build_order(order("b", 1)), Ok(()));
    assert_eq!(store.get_build_orders().len(), 2);

    // Saving an existing id replaces that entry, keeping its position.
    let mut changed = order("a", 2);
    changed.name = "Renamed".to_string();
    assert_eq!(store.save_build_order(changed), Ok(()));
    assert_eq!(store.get_build_orders().len(), 2);
    assert_eq!(store.get_build_orders()[0].id, "a");
    assert_eq!(store.get_build_orders()[0].name, "Renamed");
    assert_eq!(store.get_build_orders()[0].steps.len(), 2);
    assert_eq!(store.get_build_orders()[1].id, "b");
}

#[test]
fn save_build_order_rejects_invalid_without_mutating() {
    let mut store = fresh_store();
    let err = store.save_build_order(order("bad id", 1)).unwrap_err();
    assert!(err.contains("only contain letters"));
    assert_eq!(store.get_build_orders().len(), 0);
}

#[test]
fn delete_build_order_is_idempotent() {
    let mut store = fresh_store();
    store.save_build_order(order("a", 1)).unwrap();
    store.save_build_order(order("b", 1)).unwrap();

    assert_eq!(store.delete_build_order("a"), Ok(()));
    assert_eq!(store.get_build_orders().len(), 1);
    assert_eq!(store.get_build_orders()[0].id, "b");

    // Deleting an id that is no longer present still reports success.
    assert_eq!(store.delete_build_order("a"), Ok(()));
    assert_eq!(store.get_build_orders().len(), 1);
}

#[test]
fn delete_build_order_rejects_bad_ids() {
    let mut store = fresh_store();
    let err = store.delete_build_order("bad id").unwrap_err();
    assert!(err.contains("only contain letters"));
    let err = store.delete_build_order("").unwrap_err();
    assert!(err.contains("required"));
}

#[test]
fn toggles_flip_and_report_the_new_value() {
    let mut store = fresh_store();
    let before = store.get_config().click_through;
    let after = store.toggle_click_through();
    assert_eq!(after, !before);
    assert_eq!(store.get_config().click_through, after);
    assert_eq!(store.toggle_click_through(), before);

    let before = store.get_config().compact_mode;
    let after = store.toggle_compact_mode();
    assert_eq!(after, !before);
    assert_eq!(store.get_config().compact_mode, after);
}

#[test]
fn save_config_replaces_wholesale() {
    let mut store = fresh_store();
    let mut config = AppConfig::default();
    config.theme = "light".to_string();
    config.hotkeys.toggle_overlay = "F9".to_string();
    store.save_config(config.clone());
    assert_eq!(store.get_config(), &config);
}

#[test]
fn config_hotkey_change_round_trips_and_rebinds() {
    let mut store = fresh_store();
    let mut config = AppConfig::default();
    config.hotkeys.toggle_overlay = "F1".to_string();
    store.save_config(config);

    // The persisted configuration carries the binding through a round trip.
    let text = serialize_app_config(store.get_config());
    let back = parse_app_config(&text).unwrap();
    assert_eq!(back.hotkeys.toggle_overlay, "F1");

    // Re-registering derives exactly one registration for the action.
    let mut reg = HotkeyRegistry::new();
    reg.register_hotkeys(&store.get_config().hotkeys);
    let hits: Vec<_> = reg
        .registered()
        .iter()
        .filter(|b| b.0 == HotkeyAction::ToggleOverlay)
        .collect();
    assert_eq!(hits.len(), 1);
    assert_eq!(hits[0].1, KeyCode::F1);
    assert_eq!(
        aoe4_overlay::hotkeys::event_name(HotkeyAction::ToggleOverlay),
        "hotkey-toggle-overlay"
    );
}

#[test]
fn file_name_helpers_follow_the_layout() {
    assert_eq!(aoe4_overlay::store::app_dir_name(), "aoe4-overlay");
    assert_eq!(aoe4_overlay::store::config_file_name(), "config.json");
    assert_eq!(aoe4_overlay::store::build_orders_dir_name(), "build-orders");
    assert_eq!(aoe4_overlay::store::build_order_file_name("rush-v1"), "rush-v1.json");
}
