//! The key-symbol table, binding derivation, and the registry state machine.
use aoe4_overlay::hotkeys::{
    event_name, hotkey_bindings, string_to_code, HotkeyAction, HotkeyRegistry, KeyCode,
};
use aoe4_overlay::model::HotkeyConfig;

fn keys(overlay: &str, pause: &str) -> HotkeyConfig {
    HotkeyConfig {
        toggle_overlay: overlay.to_string(),
        previous_step: "F2".to_string(),
        next_step: "F3".to_string(),
        cycle_build_order: "F4".to_string(),
        toggle_click_through: "F5".to_string(),
        toggle_compact: "F6".to_string(),
        reset_build_order: "F7".to_string(),
        toggle_pause: pause.to_string(),
        activate_branch_main: "Alt+0".to_string(),
        activate_branch_1: "Alt+1".to_string(),
        activate_branch_2: "Alt+2".to_string(),
        activate_branch_3: "Alt+3".to_string(),
        activate_branch_4: "Alt+4".to_string(),
        toggle_counters: "TAB".to_string(),
    }
}

#[test]
fn test_string_to_code() {
    assert_eq!(string_to_code("F1"), Some(KeyCode::F1));
    assert_eq!(string_to_code("f1"), Some(KeyCode::F1)); // Case insensitive
    assert_eq!(string_to_code("F12"), Some(KeyCode::F12));
    assert_eq!(string_to_code("A"), Some(KeyCode::KeyA));
    assert_eq!(string_to_code("a"), Some(KeyCode::KeyA));
    assert_eq!(string_to_code("0"), Some(KeyCode::Digit0));
    assert_eq!(string_to_code("Space"), Some(KeyCode::Space));
    assert_eq!(string_to_code("UnknownKey"), None);
    assert_eq!(string_to_code(""), None);
}

#[test]
fn test_all_function_keys() {
    assert_eq!(string_to_code("F1"), Some(KeyCode::F1));
    assert_eq!(string_to_code("F2"), Some(KeyCode::F2));
    assert_eq!(string_to_code("F3"), Some(KeyCode::F3));
    assert_eq!(string_to_code("F4"), Some(KeyCode::F4));
    assert_eq!(string_to_code("F5"), Some(KeyCode::F5));
    assert_eq!(string_to_code("F6"), Some(KeyCode::F6));
    assert_eq!(string_to_code("F7"), Some(KeyCode::F7));
    assert_eq!(string_to_code("F8"), Some(KeyCode::F8));
    assert_eq!(string_to_code("F9"), Some(KeyCode::F9));
    assert_eq!(string_to_code("F10"), Some(KeyCode::F10));
    assert_eq!(string_to_code("F11"), Some(KeyCode::F11));
    assert_eq!(string_to_code("F12"), Some(KeyCode::F12));
}

#[test]
fn test_all_digits() {
    assert_eq!(string_to_code("0"), Some(KeyCode::Digit0));
    assert_eq!(string_to_code("1"), Some(KeyCode::Digit1));
    assert_eq!(string_to_code("2"), Some(KeyCode::Digit2));
    assert_eq!(string_to_code("3"), Some(KeyCode::Digit3));
    assert_eq!(string_to_code("4"), Some(KeyCode::Digit4));
    assert_eq!(string_to_code("5"), Some(KeyCode::Digit5));
    assert_eq!(string_to_code("6"), Some(KeyCode::Digit6));
    assert_eq!(string_to_code("7"), Some(KeyCode::Digit7));
    assert_eq!(string_to_code("8"), Some(KeyCode::Digit8));
    assert_eq!(string_to_code("9"), Some(KeyCode::Digit9));
}

#[test]
fn test_all_letters() {
    let letters = [
        ("A", KeyCode::KeyA), ("B", KeyCode::KeyB), ("C", KeyCode::KeyC),
        ("D", KeyCode::KeyD), ("E", KeyCode::KeyE), ("F", KeyCode::KeyF),
        ("G", KeyCode::KeyG), ("H", KeyCode::KeyH), ("I", KeyCode::KeyI),
        ("J", KeyCode::KeyJ), ("K", KeyCode::KeyK), ("L", KeyCode::KeyL),
        ("M", KeyCode::KeyM), ("N", KeyCode::KeyN), ("O", KeyCode::KeyO),
        ("P", KeyCode::KeyP), ("Q", KeyCode::KeyQ), ("R", KeyCode::KeyR),
        ("S", KeyCode::KeyS), ("T", KeyCode::KeyT), ("U", KeyCode::KeyU),
        ("V", KeyCode::KeyV), ("W", KeyCode::KeyW), ("X", KeyCode::KeyX),
        ("Y", KeyCode::KeyY), ("Z", KeyCode::KeyZ),
    ];
    for (letter, code) in letters {
        assert_eq!(string_to_code(letter), Some(code), "Failed for {}", letter);
    }
}

#[test]
fn test_special_keys() {
    assert_eq!(string_to_code("SPACE"), Some(KeyCode::Space));
    assert_eq!(string_to_code("ESCAPE"), Some(KeyCode::Escape));
    assert_eq!(string_to_code("ESC"), Some(KeyCode::Escape));
    assert_eq!(string_to_code("ENTER"), Some(KeyCode::Enter));
    assert_eq!(string_to_code("RETURN"), Some(KeyCode::Enter));
    assert_eq!(string_to_code("TAB"), Some(KeyCode::Tab));
    assert_eq!(string_to_code("BACKSPACE"), Some(KeyCode::Backspace));
    assert_eq!(string_to_code("INSERT"), Some(KeyCode::Insert));
    assert_eq!(string_to_code("DELETE"), Some(KeyCode::Delete));
    assert_eq!(string_to_code("DEL"), Some(KeyCode::Delete));
}

#[test]
fn test_navigation_keys() {
    assert_eq!(string_to_code("HOME"), Some(KeyCode::Home));
    assert_eq!(string_to_code("END"), Some(KeyCode::End));
    assert_eq!(string_to_code("PAGEUP"), Some(KeyCode::PageUp));
    assert_eq!(string_to_code("PGUP"), Some(KeyCode::PageUp));
    assert_eq!(string_to_code("PAGEDOWN"), Some(KeyCode::PageDown));
    assert_eq!(string_to_code("PGDN"), Some(KeyCode::PageDown));
}

#[test]
fn test_arrow_keys() {
    assert_eq!(string_to_code("UP"), Some(KeyCode::ArrowUp));
    assert_eq!(string_to_code("DOWN"), Some(KeyCode::ArrowDown));
    assert_eq!(string_to_code("LEFT"), Some(KeyCode::ArrowLeft));
    assert_eq!(string_to_code("RIGHT"), Some(KeyCode::ArrowRight));
}

#[test]
fn test_case_insensitivity() {
    assert_eq!(string_to_code("space"), Some(KeyCode::Space));
    assert_eq!(string_to_code("SPACE"), Some(KeyCode::Space));
    assert_eq!(string_to_code("Space"), Some(KeyCode::Space));
    assert_eq!(string_to_code("sPaCe"), Some(KeyCode::Space));
    assert_eq!(string_to_code("escape"), Some(KeyCode::Escape));
    assert_eq!(string_to_code("Escape"), Some(KeyCode::Escape));
}

#[test]
fn test_invalid_keys() {
    assert_eq!(string_to_code(""), None);
    assert_eq!(string_to_code("F13"), None);
    assert_eq!(string_to_code("F0"), None);
    assert_eq!(string_to_code("CTRL"), None);
    assert_eq!(string_to_code("ALT"), None);
    assert_eq!(string_to_code("SHIFT"), None);
    assert_eq!(string_to_code("META"), None);
    assert_eq!(string_to_code("COMMAND"), None);
    assert_eq!(string_to_code("WINDOWS"), None);
    assert_eq!(string_to_code("invalid"), None);
    assert_eq!(string_to_code("123"), None);
    assert_eq!(string_to_code("AB"), None);
}

#[test]
fn test_whitespace_handling() {
    // Key names are matched exactly; surrounding whitespace is not trimmed.
    assert_eq!(string_to_code(" F1"), None);
    assert_eq!(string_to_code("F1 "), None);
    assert_eq!(string_to_code(" F1 "), None);
}

#[test]
fn bindings_cover_each_recognized_action_once() {
    let h = keys("F1", "F8");
    let bindings = hotkey_bindings(&h);
    assert_eq!(bindings.len(), 8);
    assert_eq!(bindings[0], (HotkeyAction::ToggleOverlay, KeyCode::F1));
    assert_eq!(bindings[7], (HotkeyAction::TogglePause, KeyCode::F8));
    for i in 0..bindings.len() {
        for j in (i + 1)..bindings.len() {
            assert_ne!(bindings[i].0, bindings[j].0);
        }
    }
}

#[test]
fn unrecognized_binding_is_skipped_not_fatal() {
    // A bad binding disables only its own action; the rest still register.
    let h = keys("NoSuchKey", "F8");
    let bindings = hotkey_bindings(&h);
    assert_eq!(bindings.len(), 7);
    assert!(bindings.iter().all(|b| b.0 != HotkeyAction::ToggleOverlay));
    assert!(bindings.iter().any(|b| b.0 == HotkeyAction::TogglePause));
}

#[test]
fn register_hotkeys_twice_is_idempotent() {
    let h = keys("F1", "F8");
    let mut reg = HotkeyRegistry::new();
    assert_eq!(reg.registered().len(), 0);
    reg.register_hotkeys(&h);
    let first: Vec<_> = reg.registered().clone();
    reg.register_hotkeys(&h);
    let second: Vec<_> = reg.registered().clone();
    assert_eq!(first, second);
    assert_eq!(second.len(), 8);
}

#[test]
fn reregistration_fully_replaces_stale_bindings() {
    let mut reg = HotkeyRegistry::new();
    reg.register_hotkeys(&keys("F1", "F8"));
    assert!(reg.registered().contains(&(HotkeyAction::ToggleOverlay, KeyCode::F1)));
    reg.register_hotkeys(&keys("F9", "F8"));
    assert!(reg.registered().contains(&(HotkeyAction::ToggleOverlay, KeyCode::F9)));
    assert!(!reg.registered().contains(&(HotkeyAction::ToggleOverlay, KeyCode::F1)));
}

#[test]
fn unregister_all_clears_the_registry() {
    let mut reg = HotkeyRegistry::new();
    reg.register_hotkeys(&keys("F1", "F8"));
    reg.unregister_all();
    assert_eq!(reg.registered().len(), 0);
}

#[test]
fn event_names_match_the_emitted_events() {
    assert_eq!(event_name(HotkeyAction::ToggleOverlay), "hotkey-toggle-overlay");
    assert_eq!(event_name(HotkeyAction::PreviousStep), "hotkey-previous-step");
    assert_eq!(event_name(HotkeyAction::NextStep), "hotkey-next-step");
    assert_eq!(event_name(HotkeyAction::CycleBuildOrder), "hotkey-cycle-build-order");
    assert_eq!(event_name(HotkeyAction::ToggleClickThrough), "hotkey-toggle-click-through");
    assert_eq!(event_name(HotkeyAction::ToggleCompact), "hotkey-toggle-compact");
    assert_eq!(event_name(HotkeyAction::ResetBuildOrder), "hotkey-reset-build-order");
    assert_eq!(event_name(HotkeyAction::TogglePause), "hotkey-toggle-pause");
}
