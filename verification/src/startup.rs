//! What the program does of itself when it starts, and when a window is
//! asked to close.

use vstd::prelude::*;
use crate::config::{bool_or, get_or_bool, is_first_run, lookup, ConfigStore, ConfigValue};
use crate::names::TRANSLATOR_LABEL;
use crate::text::same_text;

verus! {

/// The setting that asks for the scripting worker.
pub const ENABLE_AHK: &'static str = "enable_ahk";

/// The setting that asks for selecting with the mouse.
pub const ENABLE_SELECTION_ASSISTANT: &'static str = "enable_selection_assistant";

/// Whether to start the scripting worker at launch: where the settings ask
/// for it, and never on a first run.
pub fn worker_at_launch(store: &ConfigStore) -> (r: bool)
    ensures
        r == (store@ != Map::<Seq<char>, ConfigValue>::empty() && bool_or(
            lookup(store@, ENABLE_AHK@),
            false,
        )),
{
    !is_first_run(store) && get_or_bool(store, ENABLE_AHK, false)
}

/// Whether to switch selecting with the mouse on once the program is ready.
pub fn selection_at_launch(store: &ConfigStore) -> (r: bool)
    ensures
        r == bool_or(lookup(store@, ENABLE_SELECTION_ASSISTANT@), false),
{
    get_or_bool(store, ENABLE_SELECTION_ASSISTANT, false)
}

/// Whether to open the settings window at launch: on a first run.
pub fn settings_at_launch(store: &ConfigStore) -> (r: bool)
    ensures
        r == (store@ == Map::<Seq<char>, ConfigValue>::empty()),
{
    is_first_run(store)
}

/// Whether a request to close the window `label` is answered by hiding the
/// window and keeping it: so it is for the translator, and for no other.
pub fn hide_on_close(label: &str) -> (r: bool)
    ensures
        r == (label@ == TRANSLATOR_LABEL@),
{
    same_text(label, TRANSLATOR_LABEL)
}

} // verus!
