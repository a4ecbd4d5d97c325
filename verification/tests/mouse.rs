use tosa_core::config::{ConfigStore, ConfigValue};
use tosa_core::mouse::{
    clear_mouse_history, deliver_selected_text, handle_mouse_left_down, handle_mouse_left_up,
    hide_window, hook_message, inspect_window, mouse_hook, selection_start, selection_state,
    selection_stop, ClickKind, HookMessage, MouseEvent, MouseSample, Release, Selection,
    WindowInfo, ALREADY_ENABLED, DEFAULT_DOUBLE_CLICK_TIME, WM_LBUTTONDOWN, WM_LBUTTONUP,
    WM_MBUTTONDOWN, WM_RBUTTONDOWN,
};

fn sample(time: u128, x: i32, y: i32) -> MouseSample {
    MouseSample { time, x, y }
}

fn window(title: &str, pid: u64, path: &str, app: &str) -> WindowInfo {
    WindowInfo {
        title: title.to_string(),
        process_id: pid,
        process_path: path.to_string(),
        app_name: app.to_string(),
    }
}

fn rules(enabled: bool, list: &[&str]) -> ConfigStore {
    let mut store = ConfigStore::new();
    store.insert("enable_rule".to_string(), ConfigValue::Bool(enabled));
    store.insert(
        "assistant_rules".to_string(),
        ConfigValue::List(list.iter().map(|r| ConfigValue::Text(r.to_string())).collect()),
    );
    store
}

#[test]
fn release_without_press_is_ignored() {
    let mut history: Vec<MouseSample> = Vec::new();
    assert_eq!(handle_mouse_left_up(&mut history, 1000, 5, 5, 700), Release::Ignore);
    assert!(history.is_empty());
}

#[test]
fn press_is_recorded_at_the_end() {
    let mut history = vec![sample(1, 2, 3)];
    handle_mouse_left_down(&mut history, 10, -20, 30);
    assert_eq!(history, vec![sample(1, 2, 3), sample(10, -20, 30)]);
}

#[test]
fn clearing_forgets_every_press() {
    let mut history = vec![sample(1, 2, 3), sample(4, 5, 6)];
    clear_mouse_history(&mut history);
    assert!(history.is_empty());
}

#[test]
fn click_in_place_is_dismissed() {
    let mut history: Vec<MouseSample> = Vec::new();
    handle_mouse_left_down(&mut history, 1000, 100, 100);
    let r = handle_mouse_left_up(&mut history, 1100, 104, 98, 700);
    assert_eq!(r, Release::Dismiss { action: ClickKind::Click, last_x: 100, last_y: 100 });
    assert_eq!(history, vec![sample(1100, 104, 98)]);
}

#[test]
fn quick_drag_is_followed_up_as_click() {
    let mut history = vec![sample(1000, 100, 100)];
    let r = handle_mouse_left_up(&mut history, 1500, 300, 100, 700);
    assert_eq!(r, Release::Inspect { action: ClickKind::Click });
    assert_eq!(history, vec![sample(1000, 100, 100)]);
}

#[test]
fn slow_drag_is_long_click_and_empties_history() {
    let mut history = vec![sample(10, 0, 0), sample(1000, 100, 100)];
    let r = handle_mouse_left_up(&mut history, 1700, 300, 120, 700);
    assert_eq!(r, Release::Inspect { action: ClickKind::LongClick });
    assert!(history.is_empty());
}

#[test]
fn long_press_in_place_is_dismissed_and_leaves_the_release() {
    let mut history = vec![sample(1000, 100, 100)];
    let r = handle_mouse_left_up(&mut history, 5000, 100, 100, 700);
    assert_eq!(r, Release::Dismiss { action: ClickKind::LongClick, last_x: 100, last_y: 100 });
    assert_eq!(history, vec![sample(5000, 100, 100)]);
}

#[test]
fn interval_is_exclusive() {
    let mut history = vec![sample(1000, 0, 0)];
    let r = handle_mouse_left_up(&mut history, 1699, 50, 0, 700);
    assert_eq!(r, Release::Inspect { action: ClickKind::Click });
    let mut history = vec![sample(1000, 0, 0)];
    let r = handle_mouse_left_up(&mut history, 1700, 50, 0, 700);
    assert_eq!(r, Release::Inspect { action: ClickKind::LongClick });
}

#[test]
fn clock_that_ran_backwards_is_a_long_click() {
    let mut history = vec![sample(2000, 0, 0)];
    let r = handle_mouse_left_up(&mut history, 1000, 50, 0, 700);
    assert_eq!(r, Release::Inspect { action: ClickKind::LongClick });
    assert!(history.is_empty());
}

#[test]
fn second_click_in_place_is_a_double_click() {
    let mut history: Vec<MouseSample> = Vec::new();
    handle_mouse_left_down(&mut history, 1000, 100, 100);
    let first = handle_mouse_left_up(&mut history, 1080, 100, 100, 500);
    assert_eq!(first, Release::Dismiss { action: ClickKind::Click, last_x: 100, last_y: 100 });
    handle_mouse_left_down(&mut history, 1200, 101, 100);
    let second = handle_mouse_left_up(&mut history, 1280, 101, 101, 500);
    assert_eq!(second, Release::Inspect { action: ClickKind::DoubleClick });
    assert_eq!(history, vec![sample(1080, 100, 100), sample(1200, 101, 100)]);
}

#[test]
fn double_click_needs_the_earlier_press_within_three_pixels() {
    let mut history = vec![sample(1000, 100, 100), sample(1100, 102, 100)];
    let r = handle_mouse_left_up(&mut history, 1150, 102, 100, 500);
    assert_eq!(r, Release::Inspect { action: ClickKind::DoubleClick });
    let mut history = vec![sample(1000, 100, 100), sample(1100, 103, 100)];
    let r = handle_mouse_left_up(&mut history, 1150, 103, 100, 500);
    assert_eq!(r, Release::Dismiss { action: ClickKind::Click, last_x: 103, last_y: 100 });
    assert_eq!(history, vec![sample(1150, 103, 100)]);
}

#[test]
fn double_click_needs_the_earlier_press_within_the_interval() {
    let mut history = vec![sample(1000, 100, 100), sample(1400, 100, 100)];
    let r = handle_mouse_left_up(&mut history, 1500, 100, 100, 500);
    assert_eq!(r, Release::Dismiss { action: ClickKind::Click, last_x: 100, last_y: 100 });
}

#[test]
fn drag_reach_is_ten_pixels_on_each_axis() {
    let mut history = vec![sample(1000, 100, 100)];
    let r = handle_mouse_left_up(&mut history, 1100, 109, 91, 700);
    assert_eq!(r, Release::Dismiss { action: ClickKind::Click, last_x: 100, last_y: 100 });
    let mut history = vec![sample(1000, 100, 100)];
    let r = handle_mouse_left_up(&mut history, 1100, 110, 100, 700);
    assert_eq!(r, Release::Inspect { action: ClickKind::Click });
    let mut history = vec![sample(1000, 100, 100)];
    let r = handle_mouse_left_up(&mut history, 1100, 100, 90, 700);
    assert_eq!(r, Release::Inspect { action: ClickKind::Click });
}

#[test]
fn far_corners_do_not_overflow() {
    let mut history = vec![sample(0, i32::MIN, i32::MAX), sample(1, i32::MAX, i32::MIN)];
    let r = handle_mouse_left_up(&mut history, u128::MAX, i32::MIN, i32::MAX, u128::MAX);
    assert_eq!(r, Release::Inspect { action: ClickKind::Click });
    let mut history = vec![sample(0, i32::MIN, i32::MAX), sample(1, i32::MAX, i32::MIN)];
    let r = handle_mouse_left_up(&mut history, 5, i32::MIN, i32::MAX, 10);
    assert_eq!(r, Release::Inspect { action: ClickKind::DoubleClick });
}

#[test]
fn default_interval_is_700_milliseconds() {
    assert_eq!(DEFAULT_DOUBLE_CLICK_TIME, 700);
}

#[test]
fn gestures_have_their_names() {
    assert_eq!(ClickKind::Click.name(), "click");
    assert_eq!(ClickKind::DoubleClick.name(), "double-click");
    assert_eq!(ClickKind::LongClick.name(), "long-click");
}

#[test]
fn unknown_window_is_reported_and_followed_up() {
    let store = rules(true, &["anything"]);
    let r = inspect_window(&store, ClickKind::Click, 7, 8, None, 42);
    assert!(r.proceed);
    assert_eq!(r.events.len(), 1);
    assert!(matches!(
        r.events[0],
        MouseEvent::ProcessInfoError { action: ClickKind::Click, x: 7, y: 8 }
    ));
    assert_eq!(r.events[0].kind_name(), "process_info_error");
}

#[test]
fn own_window_ends_the_gesture() {
    let store = rules(false, &[]);
    let w = window("Tosa", 42, "C:\\tosa.exe", "tosa");
    let r = inspect_window(&store, ClickKind::DoubleClick, 1, 2, Some(w), 42);
    assert!(!r.proceed);
    assert_eq!(r.events.len(), 1);
    match &r.events[0] {
        MouseEvent::ProcessInfo { own, action, x, y, title, pid, path, app_name } => {
            assert!(*own);
            assert_eq!(*action, ClickKind::DoubleClick);
            assert_eq!((*x, *y), (1, 2));
            assert_eq!(title, "Tosa");
            assert_eq!(*pid, 42);
            assert_eq!(path, "C:\\tosa.exe");
            assert_eq!(app_name, "tosa");
        }
        other => panic!("unexpected {:?}", other),
    }
    assert_eq!(r.events[0].kind_name(), "process_info_self");
}

#[test]
fn pid_beyond_32_bits_is_never_the_own() {
    let store = ConfigStore::new();
    let w = window("t", (1u64 << 32) + 42, "p", "a");
    let r = inspect_window(&store, ClickKind::Click, 0, 0, Some(w), 42);
    assert!(r.proceed);
    assert_eq!(r.events[0].kind_name(), "process_info");
}

#[test]
fn foreign_window_without_rules_is_followed_up() {
    let store = ConfigStore::new();
    let w = window("Editor", 7, "/usr/bin/editor", "editor");
    let r = inspect_window(&store, ClickKind::Click, 3, 4, Some(w), 42);
    assert!(r.proceed);
    assert_eq!(r.events.len(), 1);
    assert_eq!(r.events[0].kind_name(), "process_info");
}

#[test]
fn first_rule_that_applies_ends_the_gesture() {
    let store = rules(true, &["firefox", "EDITOR$", "edit"]);
    let w = window("notes - ", 7, "/usr/bin/", "editor");
    let r = inspect_window(&store, ClickKind::LongClick, 3, 4, Some(w), 42);
    assert!(!r.proceed);
    assert_eq!(r.events.len(), 2);
    assert_eq!(r.events[0].kind_name(), "process_info");
    match &r.events[1] {
        MouseEvent::HitRule { action, x, y, rule } => {
            assert_eq!(*action, ClickKind::LongClick);
            assert_eq!((*x, *y), (3, 4));
            assert_eq!(rule, "EDITOR$");
        }
        other => panic!("unexpected {:?}", other),
    }
    assert_eq!(r.events[1].kind_name(), "hit_rule");
}

#[test]
fn rules_are_held_against_title_path_and_name_joined() {
    let store = rules(true, &["tail/usr"]);
    let w = window("a tail", 7, "/usr/bin/x", "x");
    let r = inspect_window(&store, ClickKind::Click, 0, 0, Some(w), 42);
    assert!(!r.proceed);
}

#[test]
fn rules_switched_off_are_not_applied() {
    let store = rules(false, &["editor"]);
    let w = window("Editor", 7, "/usr/bin/editor", "editor");
    let r = inspect_window(&store, ClickKind::Click, 3, 4, Some(w), 42);
    assert!(r.proceed);
    assert_eq!(r.events.len(), 1);
}

#[test]
fn rule_that_is_no_expression_is_read_as_plain_text() {
    let store = rules(true, &["[NOTES"]);
    let w = window("my [notes]", 7, "/bin/n", "n");
    let r = inspect_window(&store, ClickKind::Click, 3, 4, Some(w), 42);
    assert!(!r.proceed);
    assert_eq!(r.events.len(), 2);
}

#[test]
fn short_text_is_reported_and_empties_history() {
    let mut history = vec![sample(1, 2, 3)];
    let r = deliver_selected_text(&mut history, ClickKind::Click, 5, 6, "ab".to_string());
    assert!(history.is_empty());
    assert_eq!(r.selected, None);
    match &r.event {
        MouseEvent::Text { short, action, x, y, text } => {
            assert!(*short);
            assert_eq!(*action, ClickKind::Click);
            assert_eq!((*x, *y), (5, 6));
            assert_eq!(text, "ab");
        }
        other => panic!("unexpected {:?}", other),
    }
    assert_eq!(r.event.kind_name(), "text_short");
}

#[test]
fn text_of_three_bytes_is_delivered() {
    let mut history = vec![sample(1, 2, 3)];
    let r = deliver_selected_text(&mut history, ClickKind::DoubleClick, 5, 6, "abc".to_string());
    assert_eq!(history, vec![sample(1, 2, 3)]);
    assert_eq!(r.selected, Some("abc".to_string()));
    assert_eq!(r.event.kind_name(), "text");
}

#[test]
fn length_is_counted_in_bytes() {
    let mut history: Vec<MouseSample> = Vec::new();
    let r = deliver_selected_text(&mut history, ClickKind::Click, 0, 0, "中".to_string());
    assert_eq!(r.selected, Some("中".to_string()));
    let r = deliver_selected_text(&mut history, ClickKind::Click, 0, 0, "é".to_string());
    assert_eq!(r.selected, None);
    let r = deliver_selected_text(&mut history, ClickKind::Click, 0, 0, String::new());
    assert_eq!(r.selected, None);
}

#[test]
fn distance_report_has_its_name() {
    let e = MouseEvent::DistanceInsufficient {
        action: ClickKind::Click,
        x: 1,
        y: 2,
        last_x: 3,
        last_y: 4,
    };
    assert_eq!(e.kind_name(), "distance_insufficient");
}

#[test]
fn window_is_told_to_hide_only_when_in_sight() {
    assert!(hide_window(Some(true)));
    assert!(!hide_window(Some(false)));
    assert!(!hide_window(None));
}

#[test]
fn hook_messages_are_told_apart() {
    assert_eq!(hook_message(0, WM_LBUTTONDOWN), HookMessage::LeftDown);
    assert_eq!(hook_message(0, 0x0201), HookMessage::LeftDown);
    assert_eq!(hook_message(3, WM_LBUTTONUP), HookMessage::LeftUp);
    assert_eq!(hook_message(0, 0x0202), HookMessage::LeftUp);
    assert_eq!(hook_message(0, WM_RBUTTONDOWN), HookMessage::Reset);
    assert_eq!(hook_message(0, 0x0204), HookMessage::Reset);
    assert_eq!(hook_message(0, WM_MBUTTONDOWN), HookMessage::Reset);
    assert_eq!(hook_message(0, 0x0207), HookMessage::Reset);
    assert_eq!(hook_message(0, 0x0200), HookMessage::Pass);
    assert_eq!(hook_message(0, 0x0205), HookMessage::Pass);
    assert_eq!(hook_message(-1, WM_LBUTTONDOWN), HookMessage::Pass);
    assert_eq!(hook_message(i32::MIN, WM_RBUTTONDOWN), HookMessage::Pass);
}

#[test]
fn selection_is_switched_on_once() {
    let mut s = Selection::new();
    assert_eq!(s, Selection { enabled: false, hooked: false });
    assert_eq!(selection_start(&mut s), Ok(()));
    assert_eq!(s, Selection { enabled: true, hooked: false });
    assert_eq!(selection_start(&mut s), Err(ALREADY_ENABLED));
    assert_eq!(selection_start(&mut s), Err("划词功能已开启"));
    assert_eq!(s, Selection { enabled: true, hooked: false });
}

#[test]
fn hook_that_is_in_place_answers_false() {
    let mut s = Selection { enabled: true, hooked: false };
    assert!(!mouse_hook(&mut s, true));
    assert_eq!(s, Selection { enabled: true, hooked: true });
    assert!(selection_state(&s));
}

#[test]
fn hook_that_failed_answers_true_and_switches_off() {
    let mut s = Selection { enabled: true, hooked: false };
    assert!(mouse_hook(&mut s, false));
    assert_eq!(s, Selection { enabled: false, hooked: false });
    assert!(!selection_state(&s));
}

#[test]
fn stopping_unhooks_and_forgets() {
    let mut s = Selection { enabled: true, hooked: true };
    let mut history = vec![sample(1, 2, 3)];
    assert!(selection_stop(&mut s, &mut history));
    assert_eq!(s, Selection { enabled: false, hooked: false });
    assert!(history.is_empty());
    assert!(!selection_stop(&mut s, &mut history));
}

#[test]
fn only_the_last_two_presses_count() {
    let tail = [sample(1000, 100, 100), sample(1100, 101, 100)];
    let short = tail.to_vec();
    let long = [vec![sample(1, 1, 1), sample(2, 500, 500), sample(900, 100, 100)], tail.to_vec()].concat();
    for (time, x, y) in [(1150, 101, 100), (1150, 300, 100), (2500, 101, 100), (2500, 300, 300)] {
        let mut a = short.clone();
        let mut b = long.clone();
        assert_eq!(
            handle_mouse_left_up(&mut a, time, x, y, 500),
            handle_mouse_left_up(&mut b, time, x, y, 500)
        );
    }
}
