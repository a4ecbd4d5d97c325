//! What the program does when something asks for an action: a hotkey, the
//! tray menu, or a line from the scripting worker.

use vstd::prelude::*;
use crate::names::{
    SCREENSHOT_RECOGNIZER,
    SCREENSHOT_TRANSLATE,
    SELECTION_TRANSLATE,
    SHOW_TRANSLATOR,
    MIN_TEXT_BYTES,
};
use crate::protocol::{
    line_member,
    read_action,
    state_action_of,
    Member,
    MemberView,
    ACTION_KEY,
    NOT_RUNNING,
    RUNNING,
};
use crate::text::{byte_len, same_text, utf8_len};
use crate::worker::Worker;

verus! {

/// Tray menu entry: open the settings.
pub const MENU_SETTING: &'static str = "setting";

/// Tray menu entry: start the program anew.
pub const MENU_RELAUNCH: &'static str = "relaunch";

/// Tray menu entry: leave the program.
pub const MENU_QUIT: &'static str = "quit";

/// What a screenshot is taken for.
#[derive(Clone, Copy, PartialEq, Eq, Debug, Structural)]
pub enum CaptureKind {
    /// For translation.
    Translate,
    /// For text recognition.
    Recognize,
}

impl CaptureKind {
    /// The name of the action that asks for such a screenshot.
    pub open spec fn name_of(self) -> Seq<char> {
        match self {
            CaptureKind::Translate => SCREENSHOT_TRANSLATE@,
            CaptureKind::Recognize => SCREENSHOT_RECOGNIZER@,
        }
    }

    pub fn name(&self) -> (r: &'static str)
        ensures
            r@ == self.name_of(),
    {
        match self {
            CaptureKind::Translate => SCREENSHOT_TRANSLATE,
            CaptureKind::Recognize => SCREENSHOT_RECOGNIZER,
        }
    }
}

/// What a named action asks the program to do.
#[derive(Clone, Copy, PartialEq, Eq, Debug, Structural)]
pub enum HotkeyAction {
    /// Show the translator window and give it the focus.
    ShowTranslator,
    /// Take a screenshot and send it to the capture window under the name
    /// of its kind.
    Screenshot(CaptureKind),
    /// Fetch the selected text and hand it to the translator.
    SelectionTranslate,
    /// The name is none of the actions: do nothing.
    Nothing,
}

/// What the tray reports.
#[derive(Debug)]
pub enum TrayEvent {
    /// A double click on the icon.
    DoubleClick,
    /// A click on the menu entry with this identifier.
    MenuItemClick(String),
    /// Anything else.
    Other,
}

/// What the program does about a tray event.
#[derive(Clone, Copy, PartialEq, Eq, Debug, Structural)]
pub enum TrayAction {
    /// Show the settings window.
    ShowSettings,
    /// Start the program anew.
    Relaunch,
    /// Leave the program.
    Quit,
    /// Do what the named action asks.
    Hotkey(HotkeyAction),
}

/// What the parent does about a line from the worker.
#[derive(Clone, Copy, PartialEq, Eq, Debug, Structural)]
pub enum AhkStep {
    /// The worker said whether its interpreter runs. That is noted and the
    /// line goes no further.
    Noted,
    /// Do what the line's action asks, if it asks for anything, and pass the
    /// line on to the settings window.
    Forward(HotkeyAction),
    /// The line's action is no string. No rule covers such a line.
    Malformed,
}

/// The action that goes by `name`.
pub open spec fn hotkey_action(name: Seq<char>) -> HotkeyAction {
    if name == SHOW_TRANSLATOR@ {
        HotkeyAction::ShowTranslator
    } else if name == SCREENSHOT_TRANSLATE@ {
        HotkeyAction::Screenshot(CaptureKind::Translate)
    } else if name == SCREENSHOT_RECOGNIZER@ {
        HotkeyAction::Screenshot(CaptureKind::Recognize)
    } else if name == SELECTION_TRANSLATE@ {
        HotkeyAction::SelectionTranslate
    } else {
        HotkeyAction::Nothing
    }
}

/// Finds the action that goes by `name`.
pub fn handle_hotkey_name_event(name: &str) -> (r: HotkeyAction)
    ensures
        r == hotkey_action(name@),
{
    if same_text(name, SHOW_TRANSLATOR) {
        HotkeyAction::ShowTranslator
    } else if same_text(name, SCREENSHOT_TRANSLATE) {
        HotkeyAction::Screenshot(CaptureKind::Translate)
    } else if same_text(name, SCREENSHOT_RECOGNIZER) {
        HotkeyAction::Screenshot(CaptureKind::Recognize)
    } else if same_text(name, SELECTION_TRANSLATE) {
        HotkeyAction::SelectionTranslate
    } else {
        HotkeyAction::Nothing
    }
}

/// The hotkey `key`, registered for the action `name`, was pressed.
pub fn handle_hotkey(name: String, key: String) -> (r: HotkeyAction)
    ensures
        r == hotkey_action(name@),
{
    handle_hotkey_name_event(name.as_str())
}

/// The text to hand to the translator after a selection was fetched: the
/// selection itself unless it is shorter than `MIN_TEXT_BYTES`.
pub fn selection_to_translate(selected_text: String) -> (r: Option<String>)
    ensures
        r == if utf8_len(selected_text@) < MIN_TEXT_BYTES {
            None
        } else {
            Some(selected_text)
        },
{
    if byte_len(selected_text.as_str()) < MIN_TEXT_BYTES {
        None
    } else {
        Some(selected_text)
    }
}

/// What a click on the menu entry `id` asks for.
pub open spec fn tray_action_for(id: Seq<char>) -> TrayAction {
    if id == MENU_SETTING@ {
        TrayAction::ShowSettings
    } else if id == MENU_RELAUNCH@ {
        TrayAction::Relaunch
    } else if id == MENU_QUIT@ {
        TrayAction::Quit
    } else {
        TrayAction::Hotkey(hotkey_action(id))
    }
}

/// What a tray event asks for; `None` where it asks for nothing.
pub open spec fn tray_action(event: TrayEvent) -> Option<TrayAction> {
    match event {
        TrayEvent::DoubleClick => Some(TrayAction::Hotkey(HotkeyAction::ShowTranslator)),
        TrayEvent::MenuItemClick(id) => Some(tray_action_for(id@)),
        TrayEvent::Other => None,
    }
}

/// Decides what to do about a tray event.
pub fn tray_event_handler(event: &TrayEvent) -> (r: Option<TrayAction>)
    ensures
        r == tray_action(*event),
{
    match event {
        TrayEvent::DoubleClick => Some(TrayAction::Hotkey(HotkeyAction::ShowTranslator)),
        TrayEvent::MenuItemClick(id) => {
            let id = id.as_str();
            if same_text(id, MENU_SETTING) {
                Some(TrayAction::ShowSettings)
            } else if same_text(id, MENU_RELAUNCH) {
                Some(TrayAction::Relaunch)
            } else if same_text(id, MENU_QUIT) {
                Some(TrayAction::Quit)
            } else {
                Some(TrayAction::Hotkey(handle_hotkey_name_event(id)))
            }
        },
        TrayEvent::Other => None,
    }
}

/// What to do about a line, given what it holds under `action`.
pub open spec fn ahk_step(action: MemberView) -> AhkStep {
    match action {
        MemberView::Absent => AhkStep::Forward(HotkeyAction::Nothing),
        MemberView::Other => AhkStep::Malformed,
        MemberView::Text(name) => if name == NOT_RUNNING@ || name == RUNNING@ {
            AhkStep::Noted
        } else {
            AhkStep::Forward(hotkey_action(name))
        },
    }
}

/// Whether the worker's interpreter runs, after a line that holds `action`.
pub open spec fn running_after(running: bool, action: MemberView) -> bool {
    match action {
        MemberView::Text(name) => if name == NOT_RUNNING@ {
            false
        } else if name == RUNNING@ {
            true
        } else {
            running
        },
        _ => running,
    }
}

/// Takes note of what a line from the worker holds under `action`, and says
/// what to do about the line.
pub fn worker_said(worker: &mut Worker, action: &Member) -> (r: AhkStep)
    ensures
        r == ahk_step(action@),
        *final(worker) == (Worker { running: running_after(old(worker).running, action@), ..*old(worker) }),
{
    match action {
        Member::Absent => AhkStep::Forward(HotkeyAction::Nothing),
        Member::Other => AhkStep::Malformed,
        Member::Text(name) => {
            let name = name.as_str();
            if same_text(name, NOT_RUNNING) {
                worker.running = false;
                AhkStep::Noted
            } else if same_text(name, RUNNING) {
                worker.running = true;
                AhkStep::Noted
            } else {
                AhkStep::Forward(handle_hotkey_name_event(name))
            }
        },
    }
}

/// Reads one line from the worker, takes note of it, and says what to do
/// about it.
pub fn handle_ahk_event(worker: &mut Worker, line: &str) -> (r: AhkStep)
    ensures
        r == ahk_step(line_member(line@, ACTION_KEY@)),
        *final(worker) == (Worker {
            running: running_after(old(worker).running, line_member(line@, ACTION_KEY@)),
            ..*old(worker)
        }),
{
    let action = read_action(line);
    worker_said(worker, &action)
}

/// Takes the screenshot that waits to be fetched, and leaves none behind.
pub fn get_image_base64(slot: &mut String) -> (r: String)
    ensures
        r@ == old(slot)@,
        final(slot)@ == Seq::<char>::empty(),
{
    let mut taken = String::new();
    core::mem::swap(slot, &mut taken);
    taken
}

/// Whether a change of the setting `key` calls for the hotkeys to be
/// registered anew: it does when `key` names one of the actions.
pub fn handle_config_change(key: &str) -> (r: bool)
    ensures
        r == crate::names::is_action_name(key@),
{
    same_text(key, SHOW_TRANSLATOR) || same_text(key, SCREENSHOT_TRANSLATE) || same_text(
        key,
        SELECTION_TRANSLATE,
    ) || same_text(key, SCREENSHOT_RECOGNIZER)
}

/// What the child reports of its interpreter is what the parent notes: a
/// line with the action for a state leaves the parent with that state, and
/// goes no further.
pub proof fn lemma_state_report_is_noted(running_before: bool, running: bool)
    ensures
        ahk_step(MemberView::Text(state_action_of(running))) == AhkStep::Noted,
        running_after(running_before, MemberView::Text(state_action_of(running))) == running,
{
    reveal_strlit("running");
    reveal_strlit("not_running");
    assert(RUNNING@.len() == 7);
    assert(NOT_RUNNING@.len() == 11);
}

} // verus!
