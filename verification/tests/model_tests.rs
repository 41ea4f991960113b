//! Data-model defaults and plain construction of the configuration types.
use aoe4_overlay::json::Number;
use aoe4_overlay::model::{
    config_wf, default_branch_start, default_macro_check, default_overlay_preset, default_sacred_sites,
    default_toggle_pause, AppConfig, AutoAdvanceConfig, BuildOrderBranch, BuildOrderStep,
    HotkeyConfig, ReminderConfig, ReminderItemConfig, Resources, SacredSitesConfig,
    TelemetryConfig, TimerDriftConfig, UpgradeBadgeConfig, UpgradeBadgesConfig, VoiceConfig,
    WindowPosition, WindowSize, MAX_BUILD_ORDER_STEPS,
};


fn valid_order() -> aoe4_overlay::model::BuildOrder {
    aoe4_overlay::model::BuildOrder {
        id: "test-order".to_string(),
        name: "Test Order".to_string(),
        civilization: "English".to_string(),
        description: "A test build order".to_string(),
        difficulty: "Easy".to_string(),
        steps: vec![BuildOrderStep {
            id: "step-1".to_string(),
            description: "First step".to_string(),
            timing: Some("0:00".to_string()),
            resources: None,
        }],
        enabled: true,
        pinned: false,
        favorite: false,
        branches: None,
    }
}
#[test]
fn config_test_default_toggle_pause() {
    assert_eq!(default_toggle_pause(), "F8");
}

#[test]
fn config_test_default_overlay_preset() {
    assert_eq!(default_overlay_preset(), "info_dense");
}

#[test]
fn config_test_default_macro_check() {
    let config = default_macro_check();
    assert!(!config.enabled);
    assert_eq!(config.interval_seconds, 20);
}

#[test]
fn config_test_default_sacred_sites() {
    let config = default_sacred_sites();
    assert!(config.enabled);
}

#[test]
fn config_test_upgrade_badges_config_default() {
    let config = UpgradeBadgesConfig::default();
    assert!(config.enabled);
    assert!(config.badges.is_empty());
}

#[test]
fn config_test_max_build_order_steps_constant() {
    assert_eq!(MAX_BUILD_ORDER_STEPS, 200);
}

#[test]
fn app_config_test_default_toggle_pause() {
    assert_eq!(default_toggle_pause(), "F8");
}

#[test]
fn app_config_test_default_overlay_preset() {
    assert_eq!(default_overlay_preset(), "info_dense");
}

#[test]
fn app_config_test_default_macro_check() {
    let config = default_macro_check();
    assert!(!config.enabled);
    assert_eq!(config.interval_seconds, 20);
}

#[test]
fn app_config_test_default_sacred_sites() {
    let config = default_sacred_sites();
    assert!(config.enabled);
}

#[test]
fn app_config_test_upgrade_badges_config_default() {
    let config = UpgradeBadgesConfig::default();
    assert!(config.enabled);
    assert!(config.badges.is_empty());
}

#[test]
fn app_config_test_max_build_order_steps_constant() {
    assert_eq!(MAX_BUILD_ORDER_STEPS, 200);
}

#[test]
fn config_test_default_branch_start() {
    assert_eq!(default_branch_start(), 0);
}

#[test]
fn build_order_test_default_branch_start() {
    assert_eq!(default_branch_start(), 0);
}

#[test]
fn config_test_reminder_config_default() {
    let config = ReminderConfig::default();
    assert!(!config.enabled);
    assert!(config.villager_queue.enabled);
    assert_eq!(config.villager_queue.interval_seconds, 25);
    assert!(config.scout.enabled);
    assert_eq!(config.scout.interval_seconds, 45);
    assert!(config.houses.enabled);
    assert_eq!(config.houses.interval_seconds, 40);
    assert!(config.military.enabled);
    assert_eq!(config.military.interval_seconds, 60);
    assert!(config.map_control.enabled);
    assert_eq!(config.map_control.interval_seconds, 90);
    assert!(!config.macro_check.enabled);
    assert_eq!(config.macro_check.interval_seconds, 20);
    assert!(config.sacred_sites.enabled);
}

#[test]
fn app_config_test_reminder_config_default() {
    let config = ReminderConfig::default();
    assert!(!config.enabled);
    assert!(config.villager_queue.enabled);
    assert_eq!(config.villager_queue.interval_seconds, 25);
    assert!(config.scout.enabled);
    assert_eq!(config.scout.interval_seconds, 45);
    assert!(config.houses.enabled);
    assert_eq!(config.houses.interval_seconds, 40);
    assert!(config.military.enabled);
    assert_eq!(config.military.interval_seconds, 60);
    assert!(config.map_control.enabled);
    assert_eq!(config.map_control.interval_seconds, 90);
    assert!(!config.macro_check.enabled);
    assert_eq!(config.macro_check.interval_seconds, 20);
    assert!(config.sacred_sites.enabled);
    assert!(config.matchup_alerts.enabled);
}

#[test]
fn config_test_window_position_creation() {
    let pos = WindowPosition { x: 100, y: 200 };
    assert_eq!(pos.x, 100);
    assert_eq!(pos.y, 200);
}

#[test]
fn config_test_window_position_negative_coords() {
    let pos = WindowPosition { x: -500, y: -100 };
    assert_eq!(pos.x, -500);
    assert_eq!(pos.y, -100);
}

#[test]
fn config_test_window_position_zero() {
    let pos = WindowPosition { x: 0, y: 0 };
    assert_eq!(pos.x, 0);
    assert_eq!(pos.y, 0);
}

#[test]
fn config_test_window_size_creation() {
    let size = WindowSize { width: 800, height: 600 };
    assert_eq!(size.width, 800);
    assert_eq!(size.height, 600);
}

#[test]
fn config_test_window_size_minimum() {
    let size = WindowSize { width: 1, height: 1 };
    assert_eq!(size.width, 1);
    assert_eq!(size.height, 1);
}

#[test]
fn config_test_window_size_large() {
    let size = WindowSize { width: 3840, height: 2160 };
    assert_eq!(size.width, 3840);
    assert_eq!(size.height, 2160);
}

#[test]
fn config_test_auto_advance_config() {
    let config = AutoAdvanceConfig {
        enabled: true,
        delay_seconds: 30,
    };
    assert!(config.enabled);
    assert_eq!(config.delay_seconds, 30);
}

#[test]
fn config_test_auto_advance_config_zero_delay() {
    let config = AutoAdvanceConfig {
        enabled: true,
        delay_seconds: 0,
    };
    assert_eq!(config.delay_seconds, 0);
}

#[test]
fn config_test_timer_drift_config() {
    let config = TimerDriftConfig { enabled: true };
    assert!(config.enabled);
}

#[test]
fn config_test_telemetry_config_all_fields() {
    let config = TelemetryConfig {
        enabled: true,
        capture_hotkeys: true,
        capture_actions: false,
        max_events: 500,
    };
    assert!(config.enabled);
    assert!(config.capture_hotkeys);
    assert!(!config.capture_actions);
    assert_eq!(config.max_events, 500);
}

#[test]
fn config_test_upgrade_badge_config() {
    let badge = UpgradeBadgeConfig {
        id: "wheelbarrow".to_string(),
        name: "Wheelbarrow".to_string(),
        short_name: "WB".to_string(),
        trigger_seconds: 120,
        enabled: true,
    };
    assert_eq!(badge.id, "wheelbarrow");
    assert_eq!(badge.trigger_seconds, 120);
}

#[test]
fn config_test_reminder_item_config() {
    let item = ReminderItemConfig {
        enabled: true,
        interval_seconds: 30,
    };
    assert!(item.enabled);
    assert_eq!(item.interval_seconds, 30);
}

#[test]
fn config_test_sacred_sites_config() {
    let config = SacredSitesConfig { enabled: true };
    assert!(config.enabled);
}

#[test]
fn app_config_test_window_position_creation() {
    let pos = WindowPosition { x: 100, y: 200 };
    assert_eq!(pos.x, 100);
    assert_eq!(pos.y, 200);
}

#[test]
fn app_config_test_window_position_negative_coords() {
    let pos = WindowPosition { x: -500, y: -100 };
    assert_eq!(pos.x, -500);
    assert_eq!(pos.y, -100);
}

#[test]
fn app_config_test_window_position_zero() {
    let pos = WindowPosition { x: 0, y: 0 };
    assert_eq!(pos.x, 0);
    assert_eq!(pos.y, 0);
}

#[test]
fn app_config_test_window_size_creation() {
    let size = WindowSize { width: 800, height: 600 };
    assert_eq!(size.width, 800);
    assert_eq!(size.height, 600);
}

#[test]
fn app_config_test_window_size_minimum() {
    let size = WindowSize { width: 1, height: 1 };
    assert_eq!(size.width, 1);
    assert_eq!(size.height, 1);
}

#[test]
fn app_config_test_window_size_large() {
    let size = WindowSize { width: 3840, height: 2160 };
    assert_eq!(size.width, 3840);
    assert_eq!(size.height, 2160);
}

#[test]
fn app_config_test_auto_advance_config() {
    let config = AutoAdvanceConfig {
        enabled: true,
        delay_seconds: 30,
    };
    assert!(config.enabled);
    assert_eq!(config.delay_seconds, 30);
}

#[test]
fn app_config_test_auto_advance_config_zero_delay() {
    let config = AutoAdvanceConfig {
        enabled: true,
        delay_seconds: 0,
    };
    assert_eq!(config.delay_seconds, 0);
}

#[test]
fn app_config_test_timer_drift_config() {
    let config = TimerDriftConfig { enabled: true };
    assert!(config.enabled);
}

#[test]
fn app_config_test_telemetry_config_all_fields() {
    let config = TelemetryConfig {
        enabled: true,
        capture_hotkeys: true,
        capture_actions: false,
        max_events: 500,
    };
    assert!(config.enabled);
    assert!(config.capture_hotkeys);
    assert!(!config.capture_actions);
    assert_eq!(config.max_events, 500);
}

#[test]
fn app_config_test_upgrade_badge_config() {
    let badge = UpgradeBadgeConfig {
        id: "wheelbarrow".to_string(),
        name: "Wheelbarrow".to_string(),
        short_name: "WB".to_string(),
        trigger_seconds: 120,
        enabled: true,
    };
    assert_eq!(badge.id, "wheelbarrow");
    assert_eq!(badge.trigger_seconds, 120);
}

#[test]
fn app_config_test_reminder_item_config() {
    let item = ReminderItemConfig {
        enabled: true,
        interval_seconds: 30,
    };
    assert!(item.enabled);
    assert_eq!(item.interval_seconds, 30);
}

#[test]
fn app_config_test_sacred_sites_config() {
    let config = SacredSitesConfig { enabled: true };
    assert!(config.enabled);
}

#[test]
fn config_test_hotkey_config_all_fields() {
    let config = HotkeyConfig {
        toggle_overlay: "F1".to_string(),
        previous_step: "F2".to_string(),
        next_step: "F3".to_string(),
        cycle_build_order: "F4".to_string(),
        toggle_click_through: "F5".to_string(),
        toggle_compact: "F6".to_string(),
        reset_build_order: "F7".to_string(),
        toggle_pause: "F8".to_string(),
        activate_branch_main: "F9".to_string(),
        activate_branch_1: "1".to_string(),
        activate_branch_2: "2".to_string(),
        activate_branch_3: "3".to_string(),
        activate_branch_4: "4".to_string(),
        toggle_counters: "TAB".to_string(),
    };
    assert_eq!(config.toggle_overlay, "F1");
    assert_eq!(config.toggle_pause, "F8");
}

#[test]
fn app_config_test_hotkey_config_all_fields() {
    let config = HotkeyConfig {
        toggle_overlay: "F1".to_string(),
        previous_step: "F2".to_string(),
        next_step: "F3".to_string(),
        cycle_build_order: "F4".to_string(),
        toggle_click_through: "F5".to_string(),
        toggle_compact: "F6".to_string(),
        reset_build_order: "F7".to_string(),
        toggle_pause: "F8".to_string(),
        activate_branch_main: "F9".to_string(),
        activate_branch_1: "1".to_string(),
        activate_branch_2: "2".to_string(),
        activate_branch_3: "3".to_string(),
        activate_branch_4: "4".to_string(),
        toggle_counters: "TAB".to_string(),
    };
    assert_eq!(config.toggle_overlay, "F1");
    assert_eq!(config.toggle_pause, "F8");
    assert_eq!(config.activate_branch_main, "F9");
    assert_eq!(config.toggle_counters, "TAB");
}

#[test]
fn config_test_resources_all_fields() {
    let resources = Resources {
        food: Some(100),
        wood: Some(200),
        gold: Some(300),
        stone: Some(400),
    };
    assert_eq!(resources.food, Some(100));
    assert_eq!(resources.wood, Some(200));
    assert_eq!(resources.gold, Some(300));
    assert_eq!(resources.stone, Some(400));
}

#[test]
fn config_test_resources_partial_fields() {
    let resources = Resources {
        food: Some(50),
        wood: None,
        gold: None,
        stone: None,
    };
    assert!(resources.food.is_some());
    assert!(resources.wood.is_none());
}

#[test]
fn config_test_resources_negative_values() {
    let resources = Resources {
        food: Some(-100),
        wood: Some(-50),
        gold: None,
        stone: None,
    };
    assert_eq!(resources.food, Some(-100));
}

#[test]
fn config_test_resources_zero_values() {
    let resources = Resources {
        food: Some(0),
        wood: Some(0),
        gold: Some(0),
        stone: Some(0),
    };
    assert_eq!(resources.food, Some(0));
}

#[test]
fn config_test_build_order_step_minimal() {
    let step = BuildOrderStep {
        id: "s1".to_string(),
        description: "Do something".to_string(),
        timing: None,
        resources: None,
    };
    assert!(step.timing.is_none());
    assert!(step.resources.is_none());
}

#[test]
fn config_test_build_order_step_with_timing() {
    let step = BuildOrderStep {
        id: "s1".to_string(),
        description: "Build house".to_string(),
        timing: Some("1:30".to_string()),
        resources: None,
    };
    assert_eq!(step.timing, Some("1:30".to_string()));
}

#[test]
fn config_test_build_order_step_with_resources() {
    let step = BuildOrderStep {
        id: "s1".to_string(),
        description: "Build house".to_string(),
        timing: None,
        resources: Some(Resources {
            food: None,
            wood: Some(50),
            gold: None,
            stone: None,
        }),
    };
    assert!(step.resources.is_some());
    assert_eq!(step.resources.unwrap().wood, Some(50));
}

#[test]
fn config_test_build_order_pinned_field() {
    let mut order = valid_order();
    order.pinned = true;
    assert!(order.pinned);
}

#[test]
fn config_test_build_order_favorite_field() {
    let mut order = valid_order();
    order.favorite = true;
    assert!(order.favorite);
}

#[test]
fn config_test_build_order_branch_no_trigger() {
    let branch = BuildOrderBranch {
        id: "branch-1".to_string(),
        name: "Test Branch".to_string(),
        trigger: None,
        start_step_index: 0,
        steps: vec![],
    };
    assert!(branch.trigger.is_none());
}

#[test]
fn config_test_build_order_branch_with_start_index() {
    let branch = BuildOrderBranch {
        id: "branch-1".to_string(),
        name: "Late Branch".to_string(),
        trigger: Some("Castle Age".to_string()),
        start_step_index: 15,
        steps: vec![],
    };
    assert_eq!(branch.start_step_index, 15);
}

#[test]
fn build_order_test_resources_all_fields() {
    let resources = Resources {
        food: Some(100),
        wood: Some(200),
        gold: Some(300),
        stone: Some(400),
    };
    assert_eq!(resources.food, Some(100));
    assert_eq!(resources.wood, Some(200));
    assert_eq!(resources.gold, Some(300));
    assert_eq!(resources.stone, Some(400));
}

#[test]
fn build_order_test_resources_partial_fields() {
    let resources = Resources {
        food: Some(50),
        wood: None,
        gold: None,
        stone: None,
    };
    assert!(resources.food.is_some());
    assert!(resources.wood.is_none());
}

#[test]
fn build_order_test_resources_negative_values() {
    let resources = Resources {
        food: Some(-100),
        wood: Some(-50),
        gold: None,
        stone: None,
    };
    assert_eq!(resources.food, Some(-100));
}

#[test]
fn build_order_test_resources_zero_values() {
    let resources = Resources {
        food: Some(0),
        wood: Some(0),
        gold: Some(0),
        stone: Some(0),
    };
    assert_eq!(resources.food, Some(0));
}

#[test]
fn build_order_test_build_order_step_minimal() {
    let step = BuildOrderStep {
        id: "s1".to_string(),
        description: "Do something".to_string(),
        timing: None,
        resources: None,
    };
    assert!(step.timing.is_none());
    assert!(step.resources.is_none());
}

#[test]
fn build_order_test_build_order_step_with_timing() {
    let step = BuildOrderStep {
        id: "s1".to_string(),
        description: "Build house".to_string(),
        timing: Some("1:30".to_string()),
        resources: None,
    };
    assert_eq!(step.timing, Some("1:30".to_string()));
}

#[test]
fn build_order_test_build_order_step_with_resources() {
    let step = BuildOrderStep {
        id: "s1".to_string(),
        description: "Build house".to_string(),
        timing: None,
        resources: Some(Resources {
            food: None,
            wood: Some(50),
            gold: None,
            stone: None,
        }),
    };
    assert!(step.resources.is_some());
    assert_eq!(step.resources.unwrap().wood, Some(50));
}

#[test]
fn build_order_test_build_order_pinned_field() {
    let mut order = valid_order();
    order.pinned = true;
    assert!(order.pinned);
}

#[test]
fn build_order_test_build_order_favorite_field() {
    let mut order = valid_order();
    order.favorite = true;
    assert!(order.favorite);
}

#[test]
fn build_order_test_build_order_branch_no_trigger() {
    let branch = BuildOrderBranch {
        id: "branch-1".to_string(),
        name: "Test Branch".to_string(),
        trigger: None,
        start_step_index: 0,
        steps: vec![],
    };
    assert!(branch.trigger.is_none());
}

#[test]
fn build_order_test_build_order_branch_with_start_index() {
    let branch = BuildOrderBranch {
        id: "branch-1".to_string(),
        name: "Late Branch".to_string(),
        trigger: Some("Castle Age".to_string()),
        start_step_index: 15,
        steps: vec![],
    };
    assert_eq!(branch.start_step_index, 15);
}

#[test]
fn config_test_default_config() {
    let config = AppConfig::default();
    assert_eq!(config.overlay_opacity, Number { mantissa: 8, scale: 1 });
    assert_eq!(config.font_size, "medium");
    assert_eq!(config.theme, "dark");
    assert!(config.click_through);
    assert!(!config.compact_mode);
    assert_eq!(config.hotkeys.toggle_overlay, "F1");
}

#[test]
fn config_test_voice_config_default() {
    let voice = VoiceConfig::default();
    assert!(voice.enabled);
    assert_eq!(voice.rate, Number { mantissa: 10, scale: 1 });
    assert!(voice.speak_steps);
}

#[test]
fn config_test_default_ui_scale() {
    assert_eq!(
        aoe4_overlay::model::default_ui_scale(),
        Number { mantissa: 10, scale: 1 }
    );
}

#[test]
fn config_test_app_config_default_telemetry() {
    let config = AppConfig::default();
    let telemetry = config.telemetry.unwrap();
    assert!(!telemetry.enabled);
    assert!(telemetry.capture_actions);
    assert!(telemetry.capture_hotkeys);
    assert_eq!(telemetry.max_events, 200);
}

#[test]
fn config_test_app_config_default_hotkeys() {
    let config = AppConfig::default();
    assert_eq!(config.hotkeys.toggle_overlay, "F1");
    assert_eq!(config.hotkeys.previous_step, "F2");
    assert_eq!(config.hotkeys.next_step, "F3");
    assert_eq!(config.hotkeys.cycle_build_order, "F4");
    assert_eq!(config.hotkeys.toggle_click_through, "F5");
    assert_eq!(config.hotkeys.toggle_compact, "F6");
    assert_eq!(config.hotkeys.reset_build_order, "F7");
    assert_eq!(config.hotkeys.toggle_pause, "F8");
    assert_eq!(config.hotkeys.toggle_counters, "TAB");
}

#[test]
fn config_test_app_config_default_auto_advance() {
    let config = AppConfig::default();
    assert!(!config.auto_advance.enabled);
    assert_eq!(config.auto_advance.delay_seconds, 0);
}

#[test]
fn config_test_app_config_default_window() {
    let config = AppConfig::default();
    assert!(config.window_position.is_none());
    assert!(config.window_size.is_none());
}

#[test]
fn config_test_app_config_default_filters() {
    let config = AppConfig::default();
    assert!(config.filter_civilization.is_none());
    assert!(config.filter_difficulty.is_none());
}

#[test]
fn config_wf_tests_the_serialization_bound() {
    let config = AppConfig::default();
    assert!(config_wf(&config));

    let mut big = AppConfig::default();
    big.overlay_opacity = Number { mantissa: 1_000_000_000_000_000, scale: 0 };
    assert!(!config_wf(&big));

    let mut deep = AppConfig::default();
    deep.ui_scale = Number { mantissa: 15, scale: 10 };
    assert!(!config_wf(&deep));

    let mut voice_bad = AppConfig::default();
    if let Some(v) = &mut voice_bad.voice {
        v.rate = Number { mantissa: -1_000_000_000_000_000, scale: 0 };
    }
    assert!(!config_wf(&voice_bad));
}
