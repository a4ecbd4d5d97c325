use tosa_core::events::{tray_event_handler, HotkeyAction, TrayAction, TrayEvent};
use tosa_core::tray::{generate_tray, tray_tooltip, TrayEntry};

fn item(entry: &TrayEntry) -> Option<(&'static str, &'static str)> {
    match entry {
        TrayEntry::Item { id, title } => Some((*id, *title)),
        TrayEntry::Separator => None,
    }
}

#[test]
fn menu_has_its_eight_lines() {
    let menu = generate_tray();
    let lines: Vec<Option<(&str, &str)>> = menu.iter().map(item).collect();
    assert_eq!(
        lines,
        vec![
            Some(("show_translator", "打开翻译窗口")),
            Some(("screenshot_translate", "截图翻译")),
            Some(("screenshot_recognizer", "图片识别")),
            None,
            Some(("setting", "设置")),
            None,
            Some(("relaunch", "重启")),
            Some(("quit", "退出")),
        ]
    );
}

#[test]
fn every_entry_does_something() {
    for entry in generate_tray().iter() {
        if let Some((id, _)) = item(entry) {
            let action = tray_event_handler(&TrayEvent::MenuItemClick(id.to_string()));
            assert!(action.is_some());
            assert_ne!(action, Some(TrayAction::Hotkey(HotkeyAction::Nothing)));
        }
    }
}

#[test]
fn tooltip_names_the_version() {
    assert_eq!(tray_tooltip("1.2.3"), "Tosa 1.2.3");
    assert_eq!(tray_tooltip(""), "Tosa ");
}
