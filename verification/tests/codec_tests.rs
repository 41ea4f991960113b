//! Persistence format: serialization round trips, schema-evolution
//! defaults, and compatibility with an independent JSON reader.
use aoe4_overlay::codec::{
    parse_app_config, parse_build_order, serialize_app_config, serialize_build_order,
};
use aoe4_overlay::json::{from_text, to_text, Json, Number};
use aoe4_overlay::model::{
    AppConfig, BuildOrder, BuildOrderBranch, BuildOrderStep, Resources,
};

fn sample_order() -> BuildOrder {
    BuildOrder {
        id: "rush-v1".to_string(),
        name: "Fast Rush".to_string(),
        civilization: "Mongols".to_string(),
        description: "Pressure early, with \"quotes\" and a\nnewline.".to_string(),
        difficulty: "Hard".to_string(),
        steps: vec![
            BuildOrderStep {
                id: "s1".to_string(),
                description: "Queue villagers".to_string(),
                timing: Some("0:00".to_string()),
                resources: Some(Resources {
                    food: Some(50),
                    wood: None,
                    gold: Some(-20),
                    stone: None,
                }),
            },
            BuildOrderStep {
                id: "s2".to_string(),
                description: "Build outpost".to_string(),
                timing: None,
                resources: None,
            },
        ],
        enabled: true,
        pinned: true,
        favorite: false,
        branches: Some(vec![BuildOrderBranch {
            id: "b1".to_string(),
            name: "Defensive".to_string(),
            trigger: Some("Enemy rush".to_string()),
            start_step_index: 1,
            steps: vec![BuildOrderStep {
                id: "b1s1".to_string(),
                description: "Wall up".to_string(),
                timing: None,
                resources: None,
            }],
        }]),
    }
}

#[test]
fn build_order_round_trips_through_text() {
    let order = sample_order();
    let text = serialize_build_order(&order);
    let back = parse_build_order(&text).expect("serialized order must parse");
    assert_eq!(back, order);
}

#[test]
fn build_order_round_trips_without_branches() {
    let mut order = sample_order();
    order.branches = None;
    let text = serialize_build_order(&order);
    assert_eq!(parse_build_order(&text), Some(order));
}

#[test]
fn config_round_trips_through_text() {
    let config = AppConfig::default();
    let text = serialize_app_config(&config);
    let back = parse_app_config(&text).expect("serialized configuration must parse");
    assert_eq!(back, config);
}

#[test]
fn config_missing_optional_fields_take_defaults() {
    // A file written before the optional fields existed: only the required
    // fields are present.
    let text = r#"{
        "overlay_opacity": 0.8,
        "font_size": "medium",
        "theme": "dark",
        "hotkeys": {
            "toggle_overlay": "F1",
            "previous_step": "F2",
            "next_step": "F3",
            "cycle_build_order": "F4",
            "toggle_click_through": "F5",
            "toggle_compact": "F6",
            "reset_build_order": "F7"
        },
        "click_through": true,
        "compact_mode": false,
        "auto_advance": { "enabled": false, "delay_seconds": 0 }
    }"#;
    let config = parse_app_config(text).expect("older file must still parse");
    assert_eq!(config.ui_scale, Number { mantissa: 10, scale: 1 });
    assert_eq!(config.overlay_preset, "info_dense");
    assert!(!config.coach_only_mode);
    assert_eq!(config.overlay_position, "");
    assert!(!config.floating_style);
    assert!(config.window_position.is_none());
    assert!(config.window_size.is_none());
    assert!(config.voice.is_none());
    assert!(config.reminders.is_none());
    assert!(config.upgrade_badges.is_none());
    assert!(config.timer_drift.is_none());
    assert!(config.telemetry.is_none());
    assert_eq!(config.hotkeys.toggle_pause, "F8");
    assert_eq!(config.hotkeys.activate_branch_main, "Alt+0");
    assert_eq!(config.hotkeys.toggle_counters, "TAB");
}

#[test]
fn unknown_fields_are_ignored_on_read() {
    let order = sample_order();
    let text = serialize_build_order(&order);
    // Splice an unknown field into the document.
    let with_extra = text.replacen("{", "{\"futureField\":[1,{\"x\":null}],", 1);
    assert_eq!(parse_build_order(&with_extra), Some(order));
}

#[test]
fn malformed_documents_are_rejected() {
    assert_eq!(parse_build_order(""), None);
    assert_eq!(parse_build_order("not json"), None);
    assert_eq!(parse_build_order("{\"id\":\"x\"}"), None); // missing fields
    assert_eq!(parse_build_order("[1,2,3]"), None);
    assert_eq!(parse_app_config("{"), None);
}

#[test]
fn serialized_order_is_valid_json_for_an_independent_reader() {
    let order = sample_order();
    let text = serialize_build_order(&order);
    let value: serde_json::Value = serde_json::from_str(&text).expect("valid JSON");
    assert_eq!(value["id"], serde_json::Value::String("rush-v1".to_string()));
    assert_eq!(value["steps"].as_array().unwrap().len(), 2);
    assert_eq!(value["steps"][0]["resources"]["food"], serde_json::Value::from(50));
    assert_eq!(value["branches"][0]["startStepIndex"], serde_json::Value::from(1));
}

#[test]
fn serialized_config_is_valid_json_for_an_independent_reader() {
    let config = AppConfig::default();
    let text = serialize_app_config(&config);
    let value: serde_json::Value = serde_json::from_str(&text).expect("valid JSON");
    assert_eq!(value["theme"], serde_json::Value::String("dark".to_string()));
    assert_eq!(value["overlay_opacity"], serde_json::Value::from(0.8));
    assert_eq!(value["hotkeys"]["toggle_overlay"], serde_json::Value::String("F1".to_string()));
    assert_eq!(value["reminders"]["villagerQueue"]["intervalSeconds"], serde_json::Value::from(25));
}

#[test]
fn parser_reads_documents_written_by_an_independent_writer() {
    let order = sample_order();
    let text = serialize_build_order(&order);
    let value: serde_json::Value = serde_json::from_str(&text).unwrap();
    // Re-emit with serde_json (pretty, different spacing) and parse it back.
    let pretty = serde_json::to_string_pretty(&value).unwrap();
    assert_eq!(parse_build_order(&pretty), Some(order));
}

#[test]
fn json_document_round_trips() {
    let doc = Json::Obj(vec![
        ("empty".to_string(), Json::Arr(vec![])),
        ("text".to_string(), Json::Str("tab\t\"quote\"\u{1b}done".to_string())),
        (
            "nums".to_string(),
            Json::Arr(vec![
                Json::Num(Number { mantissa: -15, scale: 1 }),
                Json::Num(Number { mantissa: 0, scale: 0 }),
                Json::Num(Number { mantissa: 123450, scale: 4 }),
            ]),
        ),
        ("flag".to_string(), Json::Bool(true)),
        ("nothing".to_string(), Json::Null),
    ]);
    let text = to_text(&doc);
    let back = from_text(&text).expect("round trip must parse");
    let again = to_text(&back);
    assert_eq!(text, again);
}

#[test]
fn json_parser_handles_whitespace_and_escapes() {
    let text = " { \"a\" : [ 1 , -2.5 , \"x\\u001b\\n\" ] , \"b\" : null } ";
    let doc = from_text(text).expect("must parse");
    let compact = to_text(&doc);
    assert_eq!(compact, "{\"a\":[1,-2.5,\"x\\u001b\\n\"],\"b\":null}");
}

#[test]
fn json_parser_rejects_garbage() {
    assert!(from_text("").is_none());
    assert!(from_text("{").is_none());
    assert!(from_text("[1,]").is_none());
    assert!(from_text("\"unterminated").is_none());
    assert!(from_text("12 34").is_none());
    assert!(from_text("truex").is_none());
}

#[test]
fn numbers_keep_their_written_scale() {
    let doc = from_text("[0.50, 5, -0.5]").unwrap();
    match doc {
        Json::Arr(items) => {
            assert_eq!(
                matches!(&items[0], Json::Num(n) if *n == Number { mantissa: 50, scale: 2 }),
                true
            );
            assert_eq!(
                matches!(&items[1], Json::Num(n) if *n == Number { mantissa: 5, scale: 0 }),
                true
            );
            assert_eq!(
                matches!(&items[2], Json::Num(n) if *n == Number { mantissa: -5, scale: 1 }),
                true
            );
        },
        _ => panic!("expected an array"),
    }
}
