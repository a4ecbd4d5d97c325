//! The fixed names that the parts of the program know each other by: the
//! actions that a hotkey, the tray menu or the script can ask for, the
//! windows, and the events sent to them.

use vstd::prelude::*;

verus! {

/// Action: bring up the translator window.
pub const SHOW_TRANSLATOR: &'static str = "show_translator";

/// Action: capture the screen and translate what is on it.
pub const SCREENSHOT_TRANSLATE: &'static str = "screenshot_translate";

/// Action: translate the text that is selected.
pub const SELECTION_TRANSLATE: &'static str = "selection_translate";

/// Action: capture the screen and recognise the text on it.
pub const SCREENSHOT_RECOGNIZER: &'static str = "screenshot_recognizer";

/// Window: the translator.
pub const TRANSLATOR_LABEL: &'static str = "translator";

/// Window: the settings.
pub const SETTING_LABEL: &'static str = "setting";

/// Window: the translator that floats beside a selection.
pub const SELECTION_TRANSLATOR_LABEL: &'static str = "selection-translator";

/// Window: the screen capture.
pub const SCREEN_CAPTURE_LABEL: &'static str = "screen-capture";

/// Event to the floating translator: go out of sight.
pub const EVENT_HIDE_WINDOW: &'static str = "selection://hide-window";

/// Event to the settings: what the mouse hook has seen.
pub const EVENT_MOUSE: &'static str = "selection://mouse-event";

/// Event to the floating translator: text was selected with the mouse.
pub const EVENT_SELECTED_TEXT: &'static str = "selection://mouse-selected_text";

/// Event to the translator: translate this text.
pub const EVENT_TRANSLATE_TEXT: &'static str = "translator://text";

/// Event to the translator: it has the focus.
pub const EVENT_TRANSLATOR_FOCUS: &'static str = "translator://focus";

/// Event to the screen capture: a screenshot was taken.
pub const EVENT_CAPTURE: &'static str = "screenshot://capture";

/// Event to the settings: a line from the scripting worker.
pub const EVENT_WORKER: &'static str = "ahk://event";

/// Event to every other window: a setting has changed.
pub const EVENT_CONFIG_UPDATED: &'static str = "config://updated";

/// Text shorter than this many bytes is taken for no selection at all.
pub const MIN_TEXT_BYTES: usize = 3;

/// Whether `name` is one of the four actions, which are also the names
/// under which their hotkeys are stored in the settings.
pub open spec fn is_action_name(name: Seq<char>) -> bool {
    ||| name == SHOW_TRANSLATOR@
    ||| name == SCREENSHOT_TRANSLATE@
    ||| name == SELECTION_TRANSLATE@
    ||| name == SCREENSHOT_RECOGNIZER@
}

} // verus!
