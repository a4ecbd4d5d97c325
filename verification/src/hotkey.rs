//! The global hotkeys: which keys the settings bind to which actions.

use vstd::prelude::*;
use crate::config::{get_or_string, lookup, text_or, ConfigStore, ConfigValue};
use crate::names::{
    SCREENSHOT_RECOGNIZER,
    SCREENSHOT_TRANSLATE,
    SELECTION_TRANSLATE,
    SHOW_TRANSLATOR,
};

verus! {

/// A hotkey to register: the action's name and the key.
#[derive(Debug)]
pub struct HotkeyBinding {
    pub name: &'static str,
    pub key: String,
}

/// A `HotkeyBinding` with its texts as sequences of characters.
pub struct HotkeyBindingView {
    pub name: Seq<char>,
    pub key: Seq<char>,
}

impl View for HotkeyBinding {
    type V = HotkeyBindingView;

    open spec fn view(&self) -> HotkeyBindingView {
        HotkeyBindingView { name: self.name@, key: self.key@ }
    }
}

/// The views of `bindings`.
pub open spec fn binding_views(bindings: Seq<HotkeyBinding>) -> Seq<HotkeyBindingView> {
    Seq::new(bindings.len(), |i: int| bindings[i]@)
}

/// The key that the settings hold for the action `name`; empty where they
/// hold none.
pub open spec fn key_for(settings: Map<Seq<char>, ConfigValue>, name: Seq<char>) -> Seq<char> {
    text_or(lookup(settings, name), Seq::empty())
}

/// The binding of the action `name`, if the settings hold a key for it.
pub open spec fn binding_of(settings: Map<Seq<char>, ConfigValue>, name: Seq<char>) -> Seq<
    HotkeyBindingView,
> {
    let key = key_for(settings, name);
    if key.len() == 0 {
        Seq::empty()
    } else {
        seq![HotkeyBindingView { name, key }]
    }
}

/// The hotkeys that the settings ask for, in the fixed order of the actions.
pub open spec fn bindings_of(settings: Map<Seq<char>, ConfigValue>) -> Seq<HotkeyBindingView> {
    binding_of(settings, SHOW_TRANSLATOR@) + binding_of(settings, SCREENSHOT_TRANSLATE@)
        + binding_of(settings, SELECTION_TRANSLATE@) + binding_of(settings, SCREENSHOT_RECOGNIZER@)
}

fn bind(store: &ConfigStore, name: &'static str, bindings: &mut Vec<HotkeyBinding>)
    ensures
        binding_views(final(bindings)@) == binding_views(old(bindings)@) + binding_of(store@, name@),
{
    let key = get_or_string(store, name, String::new());
    if key.as_str().is_empty() {
        assert(binding_views(bindings@) =~= binding_views(bindings@) + binding_of(store@, name@));
    } else {
        let ghost before = bindings@;
        bindings.push(HotkeyBinding { name, key });
        assert(binding_views(bindings@) =~= binding_views(before) + binding_of(store@, name@));
    }
}

/// The hotkeys to register once all those registered before are dropped:
/// one for each action that the settings hold a key for.
pub fn init_hotkey(store: &ConfigStore) -> (r: Vec<HotkeyBinding>)
    ensures
        binding_views(r@) == bindings_of(store@),
{
    let mut bindings: Vec<HotkeyBinding> = Vec::new();
    assert(binding_views(bindings@) =~= Seq::<HotkeyBindingView>::empty());
    bind(store, SHOW_TRANSLATOR, &mut bindings);
    bind(store, SCREENSHOT_TRANSLATE, &mut bindings);
    bind(store, SELECTION_TRANSLATE, &mut bindings);
    bind(store, SCREENSHOT_RECOGNIZER, &mut bindings);
    assert(binding_views(bindings@) =~= bindings_of(store@));
    bindings
}

/// Every hotkey that is registered does something when it is pressed: its
/// name is one of the actions, and its key is not empty.
pub proof fn lemma_every_binding_acts(settings: Map<Seq<char>, ConfigValue>, i: int)
    requires
        0 <= i < bindings_of(settings).len(),
    ensures
        bindings_of(settings)[i].key.len() > 0,
        crate::names::is_action_name(bindings_of(settings)[i].name),
        crate::events::hotkey_action(bindings_of(settings)[i].name)
            != crate::events::HotkeyAction::Nothing,
{
    reveal_strlit("show_translator");
    reveal_strlit("screenshot_translate");
    reveal_strlit("selection_translate");
    reveal_strlit("screenshot_recognizer");
}

} // verus!
