use tosa_core::config::{ConfigStore, ConfigValue};
use tosa_core::events::{handle_hotkey, HotkeyAction};
use tosa_core::hotkey::init_hotkey;

fn store(entries: &[(&str, &str)]) -> ConfigStore {
    let mut s = ConfigStore::new();
    for (k, v) in entries {
        s.insert(k.to_string(), ConfigValue::Text(v.to_string()));
    }
    s
}

fn pairs(s: &ConfigStore) -> Vec<(String, String)> {
    init_hotkey(s).into_iter().map(|b| (b.name.to_string(), b.key)).collect()
}

fn expected(items: &[(&str, &str)]) -> Vec<(String, String)> {
    items.iter().map(|(a, b)| (a.to_string(), b.to_string())).collect()
}

#[test]
fn no_settings_no_hotkeys() {
    assert!(init_hotkey(&ConfigStore::new()).is_empty());
}

#[test]
fn hotkeys_come_in_the_order_of_the_actions() {
    let s = store(&[
        ("screenshot_recognizer", "Alt+R"),
        ("selection_translate", "Alt+S"),
        ("screenshot_translate", "Alt+T"),
        ("show_translator", "Alt+A"),
    ]);
    assert_eq!(
        pairs(&s),
        expected(&[
            ("show_translator", "Alt+A"),
            ("screenshot_translate", "Alt+T"),
            ("selection_translate", "Alt+S"),
            ("screenshot_recognizer", "Alt+R"),
        ])
    );
}

#[test]
fn empty_and_missing_keys_are_passed_over() {
    let mut s = store(&[
        ("show_translator", ""),
        ("selection_translate", "Ctrl+Q"),
        ("win_position", "center"),
    ]);
    s.insert("screenshot_recognizer".to_string(), ConfigValue::Bool(true));
    assert_eq!(pairs(&s), expected(&[("selection_translate", "Ctrl+Q")]));
}

#[test]
fn same_key_may_be_bound_twice() {
    let s = store(&[("show_translator", "F1"), ("screenshot_translate", "F1")]);
    assert_eq!(pairs(&s), expected(&[("show_translator", "F1"), ("screenshot_translate", "F1")]));
}

#[test]
fn every_hotkey_does_something() {
    let s = store(&[
        ("show_translator", "F1"),
        ("screenshot_translate", "F2"),
        ("selection_translate", "F3"),
        ("screenshot_recognizer", "F4"),
    ]);
    let bindings = init_hotkey(&s);
    assert_eq!(bindings.len(), 4);
    for binding in bindings {
        assert!(!binding.key.is_empty());
        assert_ne!(handle_hotkey(binding.name.to_string(), binding.key), HotkeyAction::Nothing);
    }
}
