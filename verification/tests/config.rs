use tosa_core::config::{
    get_config, get_config_with_default, get_or_array, get_or_bool, get_or_string, init_config,
    is_first_run, set_config_by_key, ConfigNumber, ConfigStore, ConfigValue, CONFIG_FILE_NAME,
};
use tosa_core::events::handle_config_change;

fn text(s: &str) -> ConfigValue {
    ConfigValue::Text(s.to_string())
}

fn store(entries: Vec<(&str, ConfigValue)>) -> ConfigStore {
    let mut s = ConfigStore::new();
    for (k, v) in entries {
        s.insert(k.to_string(), v);
    }
    s
}

fn keys(s: &ConfigStore) -> Vec<String> {
    get_config(s).iter().map(|(k, _)| k.clone()).collect()
}

#[test]
fn new_store_is_a_first_run() {
    let s = ConfigStore::new();
    assert!(is_first_run(&s));
    assert!(s.is_empty());
    assert!(get_config(&s).is_empty());
    assert!(s.get("anything").is_none());
}

#[test]
fn any_entry_ends_the_first_run() {
    let s = store(vec![("a", ConfigValue::Null)]);
    assert!(!is_first_run(&s));
}

#[test]
fn flag_is_read_or_defaulted() {
    let s = store(vec![
        ("on", ConfigValue::Bool(true)),
        ("off", ConfigValue::Bool(false)),
        ("text", text("true")),
        ("number", ConfigValue::Number(ConfigNumber::Unsigned(1))),
        ("null", ConfigValue::Null),
    ]);
    assert!(get_or_bool(&s, "on", false));
    assert!(!get_or_bool(&s, "off", true));
    assert!(get_or_bool(&s, "text", true));
    assert!(!get_or_bool(&s, "text", false));
    assert!(!get_or_bool(&s, "number", false));
    assert!(get_or_bool(&s, "null", true));
    assert!(get_or_bool(&s, "missing", true));
    assert!(!get_or_bool(&s, "missing", false));
    assert!(!get_or_bool(&s, "ON", false));
}

#[test]
fn text_is_read_or_defaulted() {
    let s = store(vec![
        ("key", text("Ctrl+Alt+T")),
        ("empty", text("")),
        ("flag", ConfigValue::Bool(true)),
        ("list", ConfigValue::List(vec![text("a")])),
    ]);
    assert_eq!(get_or_string(&s, "key", "x".to_string()), "Ctrl+Alt+T");
    assert_eq!(get_or_string(&s, "empty", "x".to_string()), "");
    assert_eq!(get_or_string(&s, "flag", "x".to_string()), "x");
    assert_eq!(get_or_string(&s, "list", "x".to_string()), "x");
    assert_eq!(get_or_string(&s, "missing", "auto".to_string()), "auto");
}

#[test]
fn list_gives_its_strings_in_order() {
    let s = store(vec![
        (
            "rules",
            ConfigValue::List(vec![
                text("b"),
                ConfigValue::Number(ConfigNumber::Signed(-3)),
                text(""),
                ConfigValue::Null,
                ConfigValue::List(vec![text("nested")]),
                text("a"),
                ConfigValue::Bool(true),
                ConfigValue::Object(vec![("k".to_string(), text("v"))]),
                text("b"),
            ]),
        ),
        ("none", ConfigValue::List(vec![])),
        ("text", text("a,b")),
    ]);
    assert_eq!(get_or_array(&s, "rules"), vec!["b", "", "a", "b"]);
    assert!(get_or_array(&s, "none").is_empty());
    assert!(get_or_array(&s, "text").is_empty());
    assert!(get_or_array(&s, "missing").is_empty());
}

#[test]
fn values_give_what_they_are() {
    assert_eq!(ConfigValue::Bool(true).as_bool(), Some(true));
    assert_eq!(text("x").as_bool(), None);
    assert_eq!(text("x").as_str(), Some("x"));
    assert_eq!(ConfigValue::Null.as_str(), None);
    assert_eq!(ConfigValue::List(vec![text("x"), ConfigValue::Null]).as_strings(), Some(vec!["x".to_string()]));
    assert_eq!(text("x").as_strings(), None);
}

#[test]
fn read_goes_through_the_function_given() {
    let s = store(vec![
        ("n", ConfigValue::Number(ConfigNumber::Unsigned(7))),
        ("t", text("seven")),
    ]);
    let number = |v: &ConfigValue| match v {
        ConfigValue::Number(ConfigNumber::Unsigned(n)) => Some(*n),
        _ => None,
    };
    assert_eq!(get_config_with_default(&s, "n", 1, number), 7);
    assert_eq!(get_config_with_default(&s, "t", 1, number), 1);
    assert_eq!(get_config_with_default(&s, "missing", 1, number), 1);
}

#[test]
fn setting_replaces_and_keeps_each_name_once() {
    let mut s = ConfigStore::new();
    set_config_by_key(&mut s, "a".to_string(), text("1"));
    set_config_by_key(&mut s, "b".to_string(), text("2"));
    set_config_by_key(&mut s, "a".to_string(), text("3"));
    assert_eq!(keys(&s), vec!["a", "b"]);
    assert_eq!(get_or_string(&s, "a", String::new()), "3");
    assert_eq!(get_or_string(&s, "b", String::new()), "2");
    set_config_by_key(&mut s, "a".to_string(), ConfigValue::Bool(true));
    assert_eq!(get_or_string(&s, "a", "gone".to_string()), "gone");
    assert!(get_or_bool(&s, "a", false));
    assert_eq!(get_config(&s).len(), 2);
}

#[test]
fn names_differ_by_case_and_space() {
    let s = store(vec![("a", text("1")), ("A", text("2")), ("a ", text("3")), ("", text("4"))]);
    assert_eq!(keys(&s), vec!["a", "A", "a ", ""]);
    assert_eq!(get_or_string(&s, "a", String::new()), "1");
    assert_eq!(get_or_string(&s, "A", String::new()), "2");
    assert_eq!(get_or_string(&s, "a ", String::new()), "3");
    assert_eq!(get_or_string(&s, "", String::new()), "4");
}

#[test]
fn loaded_settings_take_over() {
    let mut s = store(vec![("old", text("1"))]);
    init_config(&mut s, store(vec![("new", text("2"))]));
    assert_eq!(keys(&s), vec!["new"]);
    assert_eq!(get_or_string(&s, "old", "none".to_string()), "none");
}

#[test]
fn nothing_loaded_changes_nothing() {
    let mut s = store(vec![("old", text("1"))]);
    init_config(&mut s, ConfigStore::new());
    assert_eq!(keys(&s), vec!["old"]);
    let mut s = ConfigStore::new();
    init_config(&mut s, ConfigStore::new());
    assert!(is_first_run(&s));
}

#[test]
fn change_of_a_hotkey_calls_for_new_hotkeys() {
    assert!(handle_config_change("show_translator"));
    assert!(handle_config_change("screenshot_translate"));
    assert!(handle_config_change("selection_translate"));
    assert!(handle_config_change("screenshot_recognizer"));
    assert!(!handle_config_change("win_position"));
    assert!(!handle_config_change("Show_translator"));
    assert!(!handle_config_change(""));
}

#[test]
fn settings_have_their_file() {
    assert_eq!(CONFIG_FILE_NAME, ".config.dat");
}
