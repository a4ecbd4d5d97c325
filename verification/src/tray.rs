//! The tray icon's menu.

use vstd::prelude::*;
use vstd::string::StringExecFns;
use crate::events::{MENU_QUIT, MENU_RELAUNCH, MENU_SETTING};
use crate::names::{SCREENSHOT_RECOGNIZER, SCREENSHOT_TRANSLATE, SHOW_TRANSLATOR};

verus! {

/// What the tooltip begins with; the program's version follows.
pub const TOOLTIP_PREFIX: &'static str = "Tosa ";

/// One line of the tray menu.
#[derive(Clone, Copy, Debug)]
pub enum TrayEntry {
    /// An entry that can be clicked: its identifier and what it reads.
    Item { id: &'static str, title: &'static str },
    /// A line between two groups of entries.
    Separator,
}

/// A `TrayEntry` with its texts as sequences of characters.
pub enum TrayEntryView {
    Item { id: Seq<char>, title: Seq<char> },
    Separator,
}

impl View for TrayEntry {
    type V = TrayEntryView;

    open spec fn view(&self) -> TrayEntryView {
        match self {
            TrayEntry::Item { id, title } => TrayEntryView::Item { id: id@, title: title@ },
            TrayEntry::Separator => TrayEntryView::Separator,
        }
    }
}

/// The views of `entries`.
pub open spec fn entry_views(entries: Seq<TrayEntry>) -> Seq<TrayEntryView> {
    Seq::new(entries.len(), |i: int| entries[i]@)
}

/// The menu: the actions that need no selection, the settings, and the two
/// ways out.
pub open spec fn tray_menu() -> Seq<TrayEntryView> {
    seq![
        TrayEntryView::Item { id: SHOW_TRANSLATOR@, title: "打开翻译窗口"@ },
        TrayEntryView::Item { id: SCREENSHOT_TRANSLATE@, title: "截图翻译"@ },
        TrayEntryView::Item { id: SCREENSHOT_RECOGNIZER@, title: "图片识别"@ },
        TrayEntryView::Separator,
        TrayEntryView::Item { id: MENU_SETTING@, title: "设置"@ },
        TrayEntryView::Separator,
        TrayEntryView::Item { id: MENU_RELAUNCH@, title: "重启"@ },
        TrayEntryView::Item { id: MENU_QUIT@, title: "退出"@ },
    ]
}

/// The lines of the tray menu, from the top.
pub fn generate_tray() -> (r: Vec<TrayEntry>)
    ensures
        entry_views(r@) == tray_menu(),
{
    let mut menu: Vec<TrayEntry> = Vec::new();
    menu.push(TrayEntry::Item { id: SHOW_TRANSLATOR, title: "打开翻译窗口" });
    menu.push(TrayEntry::Item { id: SCREENSHOT_TRANSLATE, title: "截图翻译" });
    menu.push(TrayEntry::Item { id: SCREENSHOT_RECOGNIZER, title: "图片识别" });
    menu.push(TrayEntry::Separator);
    menu.push(TrayEntry::Item { id: MENU_SETTING, title: "设置" });
    menu.push(TrayEntry::Separator);
    menu.push(TrayEntry::Item { id: MENU_RELAUNCH, title: "重启" });
    menu.push(TrayEntry::Item { id: MENU_QUIT, title: "退出" });
    assert(entry_views(menu@) =~= tray_menu());
    menu
}

/// The tooltip of the tray icon for the program in the version `version`.
pub fn tray_tooltip(version: &str) -> (r: String)
    ensures
        r@ == TOOLTIP_PREFIX@ + version@,
{
    String::from_str(TOOLTIP_PREFIX).concat(version)
}

/// Every entry of the menu does something: a click on it is answered by an
/// action, and never by the action that does nothing.
pub proof fn lemma_every_tray_item_acts(i: int)
    requires
        0 <= i < tray_menu().len(),
        tray_menu()[i] is Item,
    ensures
        crate::events::tray_action_for(tray_menu()[i]->id) != crate::events::TrayAction::Hotkey(
            crate::events::HotkeyAction::Nothing,
        ),
{
    reveal_strlit("show_translator");
    reveal_strlit("screenshot_translate");
    reveal_strlit("selection_translate");
    reveal_strlit("screenshot_recognizer");
    reveal_strlit("setting");
    reveal_strlit("relaunch");
    reveal_strlit("quit");
}

} // verus!
