//! Fetching the text that is selected in the window in front: which source
//! to ask, when to fall back on another, and how to go about the clipboard.

use vstd::prelude::*;
use vstd::string::StringExecFns;
use crate::config::{get_or_string, lookup, text_or, ConfigStore, ConfigValue};
use crate::platform::Platform;
use crate::text::{latin1, latin1_string, same_text, texts_of, trim, trimmed};

verus! {

/// The setting that says how the selected text is fetched.
pub const PICKWORD_TYPE: &'static str = "pickword_type";

/// Fetching: by automation first, then by the clipboard. This is the way
/// where the settings name none.
pub const PICK_AUTO: &'static str = "auto";

/// Fetching: by the clipboard only.
pub const PICK_COPY: &'static str = "copy";

/// What stands in the clipboard while a copy is awaited.
pub const CLIPBOARD_PLACEHOLDER: &'static str = "";

/// A way to get at the selected text.
#[derive(Clone, Copy, PartialEq, Eq, Debug, Structural)]
pub enum Source {
    /// The system's automation interface.
    Automation,
    /// A simulated copy, read back from the clipboard.
    Clipboard,
    /// A script that asks the accessibility interface.
    Accessibility,
    /// A script that copies and reads the clipboard.
    Script,
}

/// How the settings and the caller want the text fetched.
#[derive(Clone, Copy, PartialEq, Eq, Debug, Structural)]
pub enum PickMode {
    /// By automation, and by the clipboard where that brings nothing.
    Auto,
    /// By the clipboard.
    Copy,
    /// By automation.
    Automation,
}

/// What to do next while fetching.
#[derive(Debug)]
pub enum Fetch {
    /// Ask this source, and come back with what it brings.
    Ask(Source),
    /// The fetching is over, with this text or this error.
    Done(Result<String, String>),
}

/// A `Fetch` with its texts as sequences of characters.
pub enum FetchView {
    Ask(Source),
    Done(Result<Seq<char>, Seq<char>>),
}

impl View for Fetch {
    type V = FetchView;

    open spec fn view(&self) -> FetchView {
        match self {
            Fetch::Ask(source) => FetchView::Ask(*source),
            Fetch::Done(Ok(text)) => FetchView::Done(Ok(text@)),
            Fetch::Done(Err(error)) => FetchView::Done(Err(error@)),
        }
    }
}

/// The view of what a source has brought.
pub open spec fn outcome_view(outcome: Result<String, String>) -> Result<Seq<char>, Seq<char>> {
    match outcome {
        Ok(text) => Ok(text@),
        Err(error) => Err(error@),
    }
}

/// The mode that follows from the settings; a caller that asks for a copy
/// gets the mode `Auto` whatever they say.
pub open spec fn pick_mode_of(settings: Map<Seq<char>, ConfigValue>, enable_copy: bool) -> PickMode {
    let name = text_or(lookup(settings, PICKWORD_TYPE@), PICK_AUTO@);
    if name == PICK_AUTO@ || enable_copy {
        PickMode::Auto
    } else if name == PICK_COPY@ {
        PickMode::Copy
    } else {
        PickMode::Automation
    }
}

/// Reads from the settings how the text is fetched.
pub fn pick_mode(store: &ConfigStore, enable_copy: bool) -> (r: PickMode)
    ensures
        r == pick_mode_of(store@, enable_copy),
{
    let name = get_or_string(store, PICKWORD_TYPE, String::from_str(PICK_AUTO));
    if same_text(name.as_str(), PICK_AUTO) || enable_copy {
        PickMode::Auto
    } else if same_text(name.as_str(), PICK_COPY) {
        PickMode::Copy
    } else {
        PickMode::Automation
    }
}

/// The source that is asked first.
pub open spec fn first_source(platform: Platform, mode: PickMode) -> Source {
    match platform {
        Platform::Windows => match mode {
            PickMode::Copy => Source::Clipboard,
            _ => Source::Automation,
        },
        Platform::MacOs => Source::Accessibility,
        Platform::Other => Source::Clipboard,
    }
}

/// What follows when `source` has brought `outcome`.
///
/// - On Windows an error counts as no text. Where automation brings no text
///   in the mode `Auto`, the clipboard is asked; else the text stands, empty
///   or not.
/// - On macOS the script is asked where the accessibility interface fails;
///   else the outcome stands.
/// - Elsewhere the outcome stands.
pub open spec fn fetch_after(
    platform: Platform,
    mode: PickMode,
    source: Source,
    outcome: Result<Seq<char>, Seq<char>>,
) -> FetchView {
    match platform {
        Platform::Windows => {
            let text = match outcome {
                Ok(text) => text,
                Err(_) => Seq::empty(),
            };
            if source == Source::Automation && mode == PickMode::Auto && text.len() == 0 {
                FetchView::Ask(Source::Clipboard)
            } else {
                FetchView::Done(Ok(text))
            }
        },
        Platform::MacOs => if source == Source::Accessibility && outcome is Err {
            FetchView::Ask(Source::Script)
        } else {
            FetchView::Done(outcome)
        },
        Platform::Other => FetchView::Done(outcome),
    }
}

/// Begins to fetch the selected text: says which source to ask first.
pub fn get_selected_text(platform: Platform, store: &ConfigStore, enable_copy: bool) -> (r: Source)
    ensures
        r == first_source(platform, pick_mode_of(store@, enable_copy)),
{
    match platform {
        Platform::Windows => match pick_mode(store, enable_copy) {
            PickMode::Copy => Source::Clipboard,
            _ => Source::Automation,
        },
        Platform::MacOs => Source::Accessibility,
        Platform::Other => Source::Clipboard,
    }
}

/// Goes on fetching once `source` has brought `outcome`: says which source
/// to ask next, or what the fetching has come to.
pub fn selected_text_after(
    platform: Platform,
    mode: PickMode,
    source: Source,
    outcome: Result<String, String>,
) -> (r: Fetch)
    ensures
        r@ == fetch_after(platform, mode, source, outcome_view(outcome)),
{
    match platform {
        Platform::Windows => {
            let text = match outcome {
                Ok(text) => text,
                Err(_) => String::new(),
            };
            if source == Source::Automation && mode == PickMode::Auto && text.as_str().is_empty() {
                Fetch::Ask(Source::Clipboard)
            } else {
                Fetch::Done(Ok(text))
            }
        },
        Platform::MacOs => {
            if source == Source::Accessibility && outcome.is_err() {
                Fetch::Ask(Source::Script)
            } else {
                Fetch::Done(outcome)
            }
        },
        Platform::Other => Fetch::Done(outcome),
    }
}

/// What an element of the automation tree offers.
#[derive(Clone, Copy, PartialEq, Eq, Debug, Structural)]
pub enum Probe {
    /// It holds text: read its selection.
    Read,
    /// It is part of a text container: read the container's selection.
    ReadContainer,
    /// Neither: try its parent.
    Ascend,
}

/// Decides, while looking for the selection by automation, what to do with
/// an element that has or lacks the text pattern and the text child pattern.
pub fn probe_element(text_pattern: bool, text_child_pattern: bool) -> (r: Probe)
    ensures
        r == if text_pattern {
            Probe::Read
        } else if text_child_pattern {
            Probe::ReadContainer
        } else {
            Probe::Ascend
        },
{
    if text_pattern {
        Probe::Read
    } else if text_child_pattern {
        Probe::ReadContainer
    } else {
        Probe::Ascend
    }
}

/// The text of a selection that is made of the ranges `parts`: the parts one
/// after the other, without the white space at either end of the whole.
pub fn get_selected_text_by_automation(parts: &Vec<String>) -> (r: String)
    ensures
        r@ == trimmed(texts_of(parts@).flatten()),
{
    let mut whole = String::new();
    let mut i: usize = 0;
    assert(texts_of(parts@).take(0) =~= Seq::<Seq<char>>::empty());
    while i < parts.len()
        invariant
            i <= parts.len(),
            whole@ == texts_of(parts@).take(i as int).flatten(),
        decreases parts.len() - i,
    {
        proof {
            let all = texts_of(parts@);
            assert(all.take(i + 1) =~= all.take(i as int).push(all[i as int]));
            all.take(i as int).lemma_flatten_push(all[i as int]);
        }
        whole.append(parts[i].as_str());
        i += 1;
    }
    assert(texts_of(parts@).take(i as int) =~= texts_of(parts@));
    String::from_str(trim(whole.as_str()))
}

/// What goes back into the clipboard after a copy was read from it.
#[derive(Clone, Copy, PartialEq, Eq, Debug, Structural)]
pub enum Restore {
    /// The text that was there.
    Text,
    /// The image that was there.
    Image,
    /// Nothing: the clipboard is emptied.
    Clear,
}

/// Decides what to put back into the clipboard, given what could be read
/// from it before the copy. Text goes before an image.
pub fn clipboard_restore(had_text: bool, had_image: bool) -> (r: Restore)
    ensures
        r == if had_text {
            Restore::Text
        } else if had_image {
            Restore::Image
        } else {
            Restore::Clear
        },
{
    if had_text {
        Restore::Text
    } else if had_image {
        Restore::Image
    } else {
        Restore::Clear
    }
}

/// The selected text, given what the clipboard held after the copy: that
/// text as it is unless it is missing or nothing but white space, which
/// count as no selection.
pub fn get_selected_text_by_clipboard(copied: Option<String>) -> (r: String)
    ensures
        r@ == match copied {
            Some(text) => if trimmed(text@).len() == 0 {
                Seq::empty()
            } else {
                text@
            },
            None => Seq::empty(),
        },
{
    match copied {
        Some(text) => {
            if trim(text.as_str()).is_empty() {
                String::new()
            } else {
                text
            }
        },
        None => String::new(),
    }
}

/// A key of the keyboard.
#[derive(Clone, Copy, PartialEq, Eq, Debug, Structural)]
pub enum Key {
    Control,
    Alt,
    Shift,
    Space,
    Tab,
    Escape,
    CapsLock,
    C,
    LWin,
    /// The key that gives this character in the layout in use.
    Layout(char),
}

/// One step of a simulated key stroke.
#[derive(Clone, Copy, PartialEq, Eq, Debug, Structural)]
pub enum KeyStep {
    Up(Key),
    Down(Key),
    Click(Key),
    /// Wait this many milliseconds.
    Wait(u64),
}

/// The steps of a simulated copy: let go of every key that would change the
/// meaning of the stroke, then press Control, click `c` and release, with a
/// pause after each.
pub open spec fn copy_script() -> Seq<KeyStep> {
    seq![
        KeyStep::Up(Key::Control),
        KeyStep::Up(Key::Alt),
        KeyStep::Up(Key::Shift),
        KeyStep::Up(Key::Space),
        KeyStep::Up(Key::Tab),
        KeyStep::Up(Key::Escape),
        KeyStep::Up(Key::CapsLock),
        KeyStep::Up(Key::C),
        KeyStep::Up(Key::LWin),
        KeyStep::Down(Key::Control),
        KeyStep::Wait(50),
        KeyStep::Click(Key::Layout('c')),
        KeyStep::Wait(50),
        KeyStep::Up(Key::Control),
        KeyStep::Wait(100),
    ]
}

/// The steps of a simulated copy, in their order.
pub fn copy_steps() -> (r: Vec<KeyStep>)
    ensures
        r@ == copy_script(),
{
    let mut steps: Vec<KeyStep> = Vec::new();
    steps.push(KeyStep::Up(Key::Control));
    steps.push(KeyStep::Up(Key::Alt));
    steps.push(KeyStep::Up(Key::Shift));
    steps.push(KeyStep::Up(Key::Space));
    steps.push(KeyStep::Up(Key::Tab));
    steps.push(KeyStep::Up(Key::Escape));
    steps.push(KeyStep::Up(Key::CapsLock));
    steps.push(KeyStep::Up(Key::C));
    steps.push(KeyStep::Up(Key::LWin));
    steps.push(KeyStep::Down(Key::Control));
    steps.push(KeyStep::Wait(50));
    steps.push(KeyStep::Click(Key::Layout('c')));
    steps.push(KeyStep::Wait(50));
    steps.push(KeyStep::Up(Key::Control));
    steps.push(KeyStep::Wait(100));
    assert(steps@ =~= copy_script());
    steps
}

/// Whether the simulated copy has put anything into the clipboard: it has
/// where the clipboard's sequence number is no longer what it was.
pub fn copy(sequence_before: u32, sequence_after: u32) -> (r: bool)
    ensures
        r == (sequence_before != sequence_after),
{
    sequence_after != sequence_before
}

/// What a script that was run for the selection has come to: where it
/// succeeded, what it wrote, without the white space at either end; where it
/// failed, its complaint, each byte read as one character.
pub fn script_outcome(success: bool, output: &str, complaint: &Vec<u8>) -> (r: Result<
    String,
    String,
>)
    ensures
        match r {
            Ok(text) => success && text@ == trimmed(output@),
            Err(error) => !success && error@ == latin1(complaint@),
        },
{
    if success {
        Ok(String::from_str(trim(output)))
    } else {
        Err(latin1_string(complaint))
    }
}

/// A fallback is the last word: once the source that a fallback names has
/// been asked, the fetching is over whatever it brought. So no fetching asks
/// more than two sources.
pub proof fn lemma_fallback_is_last(
    platform: Platform,
    mode: PickMode,
    first: Source,
    first_outcome: Result<Seq<char>, Seq<char>>,
    second_outcome: Result<Seq<char>, Seq<char>>,
)
    requires
        fetch_after(platform, mode, first, first_outcome) is Ask,
    ensures
        fetch_after(
            platform,
            mode,
            fetch_after(platform, mode, first, first_outcome)->Ask_0,
            second_outcome,
        ) is Done,
{
}

} // verus!
