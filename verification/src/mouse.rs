//! Reading mouse gestures: a short history of left-button presses, and the
//! rules that tell a click from a double click and from a drag.

use vstd::prelude::*;
use vstd::string::StringExecFns;
use crate::config::{bool_or, get_or_array, get_or_bool, lookup, texts_or_none, ConfigStore};
use crate::names::MIN_TEXT_BYTES;
use crate::rules::{first_hit, first_matching_rule, no_hit};
use crate::text::{byte_len, texts_of, utf8_len};

verus! {

/// The setting that switches the exclusion rules on.
pub const ENABLE_RULE: &'static str = "enable_rule";

/// The setting that holds the exclusion rules.
pub const ASSISTANT_RULES: &'static str = "assistant_rules";

/// The double-click interval, in milliseconds, where the system offers none.
pub const DEFAULT_DOUBLE_CLICK_TIME: u128 = 700;

/// A release counts toward a double click only if it lands fewer than this
/// many pixels, on each axis, from the press before the last.
pub const DOUBLE_CLICK_REACH: i64 = 3;

/// A release fewer than this many pixels, on each axis, from its press has
/// not dragged far enough to select anything.
pub const DRAG_REACH: i64 = 10;

/// How a press and release of the left button is read.
#[derive(Clone, Copy, PartialEq, Eq, Debug, Structural)]
pub enum ClickKind {
    Click,
    DoubleClick,
    LongClick,
}

impl ClickKind {
    /// The name under which the gesture is reported.
    pub open spec fn name_of(self) -> Seq<char> {
        match self {
            ClickKind::Click => "click"@,
            ClickKind::DoubleClick => "double-click"@,
            ClickKind::LongClick => "long-click"@,
        }
    }

    pub fn name(&self) -> (r: &'static str)
        ensures
            r@ == self.name_of(),
    {
        match self {
            ClickKind::Click => "click",
            ClickKind::DoubleClick => "double-click",
            ClickKind::LongClick => "long-click",
        }
    }
}

/// One entry of the press history: a time in milliseconds and a position.
#[derive(Clone, Copy, PartialEq, Eq, Debug, Structural)]
pub struct MouseSample {
    pub time: u128,
    pub x: i32,
    pub y: i32,
}

/// `to` comes after `from` by less than `window`. A clock that ran backwards
/// is never within the window.
pub open spec fn within(from: u128, to: u128, window: u128) -> bool {
    from <= to && to - from < window
}

/// `a` and `b` differ by less than `reach`.
pub open spec fn near(a: i32, b: i32, reach: int) -> bool {
    -reach < a - b < reach
}

/// The gesture that a release at `time` and `(x, y)` completes, given the
/// presses on record, the last of which is the press being released.
pub open spec fn click_kind(
    history: Seq<MouseSample>,
    time: u128,
    x: i32,
    y: i32,
    double_click_time: u128,
) -> ClickKind
    recommends
        history.len() > 0,
{
    let last = history[history.len() - 1];
    if !within(last.time, time, double_click_time) {
        ClickKind::LongClick
    } else if history.len() >= 2 && {
        let before = history[history.len() - 2];
        &&& within(before.time, time, double_click_time)
        &&& near(before.x, x, DOUBLE_CLICK_REACH as int)
        &&& near(before.y, y, DOUBLE_CLICK_REACH as int)
    } {
        ClickKind::DoubleClick
    } else {
        ClickKind::Click
    }
}

/// The release stayed within `DRAG_REACH` of its press and is no double
/// click, so nothing can have been selected.
pub open spec fn too_close(
    history: Seq<MouseSample>,
    time: u128,
    x: i32,
    y: i32,
    double_click_time: u128,
) -> bool
    recommends
        history.len() > 0,
{
    let last = history[history.len() - 1];
    &&& near(x, last.x, DRAG_REACH as int)
    &&& near(y, last.y, DRAG_REACH as int)
    &&& click_kind(history, time, x, y, double_click_time) != ClickKind::DoubleClick
}

/// The history that a release leaves behind. A release that went nowhere
/// takes the place of everything before it, so that the next press can be
/// measured against it; a long press empties the history; otherwise the
/// history stays.
pub open spec fn history_after_release(
    history: Seq<MouseSample>,
    time: u128,
    x: i32,
    y: i32,
    double_click_time: u128,
) -> Seq<MouseSample> {
    if history.len() == 0 {
        history
    } else if too_close(history, time, x, y, double_click_time) {
        seq![MouseSample { time, x, y }]
    } else if click_kind(history, time, x, y, double_click_time) == ClickKind::LongClick {
        Seq::empty()
    } else {
        history
    }
}

/// What the caller does after a release of the left button.
#[derive(Clone, Copy, PartialEq, Eq, Debug, Structural)]
pub enum Release {
    /// No press was on record: do nothing.
    Ignore,
    /// The pointer did not move far enough: report it and hide the
    /// selection window.
    Dismiss { action: ClickKind, last_x: i32, last_y: i32 },
    /// Text may have been selected: look at the window in front next.
    Inspect { action: ClickKind },
}

/// What `handle_mouse_left_up` returns for a history, a release and an interval.
pub open spec fn release_step(
    history: Seq<MouseSample>,
    time: u128,
    x: i32,
    y: i32,
    double_click_time: u128,
) -> Release {
    if history.len() == 0 {
        Release::Ignore
    } else {
        let last = history[history.len() - 1];
        let action = click_kind(history, time, x, y, double_click_time);
        if too_close(history, time, x, y, double_click_time) {
            Release::Dismiss { action, last_x: last.x, last_y: last.y }
        } else {
            Release::Inspect { action }
        }
    }
}

fn is_within(from: u128, to: u128, window: u128) -> (r: bool)
    ensures
        r == within(from, to, window),
{
    from <= to && to - from < window
}

fn is_near(a: i32, b: i32, reach: i64) -> (r: bool)
    requires
        0 <= reach <= 0x7fff_ffff,
    ensures
        r == near(a, b, reach as int),
{
    let d: i64 = a as i64 - b as i64;
    -reach < d && d < reach
}

/// Records a press of the left button at `time`.
pub fn handle_mouse_left_down(history: &mut Vec<MouseSample>, time: u128, x: i32, y: i32)
    ensures
        final(history)@ == old(history)@.push(MouseSample { time, x, y }),
{
    history.push(MouseSample { time, x, y });
}

/// Forgets every press, as after a right or middle click.
pub fn clear_mouse_history(history: &mut Vec<MouseSample>)
    ensures
        final(history)@ == Seq::<MouseSample>::empty(),
{
    history.clear();
}

/// Reads the release of the left button at `time` and `(x, y)` against the
/// presses on record, and updates the record.
pub fn handle_mouse_left_up(
    history: &mut Vec<MouseSample>,
    time: u128,
    x: i32,
    y: i32,
    double_click_time: u128,
) -> (r: Release)
    ensures
        r == release_step(old(history)@, time, x, y, double_click_time),
        final(history)@ == history_after_release(old(history)@, time, x, y, double_click_time),
{
    let n = history.len();
    if n == 0 {
        return Release::Ignore;
    }
    let last = history[n - 1];
    let mut action = ClickKind::Click;
    if is_within(last.time, time, double_click_time) {
        if n >= 2 {
            let before = history[n - 2];
            if is_within(before.time, time, double_click_time) && is_near(
                before.x,
                x,
                DOUBLE_CLICK_REACH,
            ) && is_near(before.y, y, DOUBLE_CLICK_REACH) {
                action = ClickKind::DoubleClick;
            }
        }
    } else {
        action = ClickKind::LongClick;
        history.clear();
    }
    if is_near(x, last.x, DRAG_REACH) && is_near(y, last.y, DRAG_REACH) && action
        != ClickKind::DoubleClick {
        history.clear();
        history.push(MouseSample { time, x, y });
        return Release::Dismiss { action, last_x: last.x, last_y: last.y };
    }
    Release::Inspect { action }
}

/// What is known of the window in front.
#[derive(Debug)]
pub struct WindowInfo {
    pub title: String,
    pub process_id: u64,
    pub process_path: String,
    pub app_name: String,
}

/// A `WindowInfo` with its texts as sequences of characters.
pub struct WindowInfoView {
    pub title: Seq<char>,
    pub process_id: u64,
    pub process_path: Seq<char>,
    pub app_name: Seq<char>,
}

impl View for WindowInfo {
    type V = WindowInfoView;

    open spec fn view(&self) -> WindowInfoView {
        WindowInfoView {
            title: self.title@,
            process_id: self.process_id,
            process_path: self.process_path@,
            app_name: self.app_name@,
        }
    }
}

impl WindowInfoView {
    /// The text that the exclusion rules are held against: title, path and
    /// name, one after the other.
    pub open spec fn rule_text(self) -> Seq<char> {
        self.title + self.process_path + self.app_name
    }
}

/// A report to the settings window on what the mouse hook has seen.
#[derive(Debug)]
pub enum MouseEvent {
    /// The pointer did not move far enough to select anything.
    DistanceInsufficient { action: ClickKind, x: i32, y: i32, last_x: i32, last_y: i32 },
    /// The window in front; `own` where it is the program's own.
    ProcessInfo {
        own: bool,
        action: ClickKind,
        x: i32,
        y: i32,
        title: String,
        pid: u64,
        path: String,
        app_name: String,
    },
    /// The window in front could not be made out.
    ProcessInfoError { action: ClickKind, x: i32, y: i32 },
    /// The window in front falls under an exclusion rule.
    HitRule { action: ClickKind, x: i32, y: i32, rule: String },
    /// The text that was fetched; `short` where it is too short to count.
    Text { short: bool, action: ClickKind, x: i32, y: i32, text: String },
}

/// A `MouseEvent` with its texts as sequences of characters.
pub enum MouseEventView {
    DistanceInsufficient { action: ClickKind, x: i32, y: i32, last_x: i32, last_y: i32 },
    ProcessInfo {
        own: bool,
        action: ClickKind,
        x: i32,
        y: i32,
        title: Seq<char>,
        pid: u64,
        path: Seq<char>,
        app_name: Seq<char>,
    },
    ProcessInfoError { action: ClickKind, x: i32, y: i32 },
    HitRule { action: ClickKind, x: i32, y: i32, rule: Seq<char> },
    Text { short: bool, action: ClickKind, x: i32, y: i32, text: Seq<char> },
}

impl View for MouseEvent {
    type V = MouseEventView;

    open spec fn view(&self) -> MouseEventView {
        match self {
            MouseEvent::DistanceInsufficient { action, x, y, last_x, last_y } => {
                MouseEventView::DistanceInsufficient {
                    action: *action,
                    x: *x,
                    y: *y,
                    last_x: *last_x,
                    last_y: *last_y,
                }
            },
            MouseEvent::ProcessInfo { own, action, x, y, title, pid, path, app_name } => {
                MouseEventView::ProcessInfo {
                    own: *own,
                    action: *action,
                    x: *x,
                    y: *y,
                    title: title@,
                    pid: *pid,
                    path: path@,
                    app_name: app_name@,
                }
            },
            MouseEvent::ProcessInfoError { action, x, y } => MouseEventView::ProcessInfoError {
                action: *action,
                x: *x,
                y: *y,
            },
            MouseEvent::HitRule { action, x, y, rule } => MouseEventView::HitRule {
                action: *action,
                x: *x,
                y: *y,
                rule: rule@,
            },
            MouseEvent::Text { short, action, x, y, text } => MouseEventView::Text {
                short: *short,
                action: *action,
                x: *x,
                y: *y,
                text: text@,
            },
        }
    }
}

impl MouseEventView {
    /// The name under which the report is sent.
    pub open spec fn kind_name(self) -> Seq<char> {
        match self {
            MouseEventView::DistanceInsufficient { .. } => "distance_insufficient"@,
            MouseEventView::ProcessInfo { own, .. } => if own {
                "process_info_self"@
            } else {
                "process_info"@
            },
            MouseEventView::ProcessInfoError { .. } => "process_info_error"@,
            MouseEventView::HitRule { .. } => "hit_rule"@,
            MouseEventView::Text { short, .. } => if short {
                "text_short"@
            } else {
                "text"@
            },
        }
    }
}

impl MouseEvent {
    /// The name under which the report is sent.
    pub fn kind_name(&self) -> (r: &'static str)
        ensures
            r@ == self@.kind_name(),
    {
        match self {
            MouseEvent::DistanceInsufficient { .. } => "distance_insufficient",
            MouseEvent::ProcessInfo { own, .. } => if *own {
                "process_info_self"
            } else {
                "process_info"
            },
            MouseEvent::ProcessInfoError { .. } => "process_info_error",
            MouseEvent::HitRule { .. } => "hit_rule",
            MouseEvent::Text { short, .. } => if *short {
                "text_short"
            } else {
                "text"
            },
        }
    }
}

/// What the look at the window in front has brought: the reports to send, in
/// their order, and whether to go on and fetch the selected text. Where not,
/// the selection window is hidden.
#[derive(Debug)]
pub struct Inspection {
    pub events: Vec<MouseEvent>,
    pub proceed: bool,
}

/// The views of the reports `events`.
pub open spec fn event_views(events: Seq<MouseEvent>) -> Seq<MouseEventView> {
    Seq::new(events.len(), |i: int| events[i]@)
}

/// The report on the window in front.
pub open spec fn process_info(
    action: ClickKind,
    x: i32,
    y: i32,
    window: WindowInfoView,
    own_pid: u32,
) -> MouseEventView {
    MouseEventView::ProcessInfo {
        own: own_pid as int == window.process_id as int,
        action,
        x,
        y,
        title: window.title,
        pid: window.process_id,
        path: window.process_path,
        app_name: window.app_name,
    }
}

/// The rules in force: those of the settings where they are switched on,
/// else none.
pub open spec fn rules_in_force(settings: Map<Seq<char>, crate::config::ConfigValue>) -> Seq<
    Seq<char>,
> {
    if bool_or(lookup(settings, ENABLE_RULE@), false) {
        texts_or_none(lookup(settings, ASSISTANT_RULES@))
    } else {
        Seq::empty()
    }
}

/// Reads the exclusion rules that are in force from the settings.
pub fn active_rules(store: &ConfigStore) -> (r: Vec<String>)
    ensures
        texts_of(r@) == rules_in_force(store@),
{
    if get_or_bool(store, ENABLE_RULE, false) {
        get_or_array(store, ASSISTANT_RULES)
    } else {
        let none: Vec<String> = Vec::new();
        assert(texts_of(none@) =~= Seq::<Seq<char>>::empty());
        none
    }
}

/// Whether `r` is what follows from the look at the window in front, for a
/// gesture `action` that ended at `(x, y)`, under `rules`.
///
/// - No window could be made out: that is reported, and the text is fetched.
/// - The window is the program's own: it is reported as such, and that is all.
/// - A rule applies to the window's title, path and name: the window is
///   reported, then the first such rule, and that is all.
/// - Else the window is reported and the text is fetched.
pub open spec fn inspection_of(
    r: Inspection,
    action: ClickKind,
    x: i32,
    y: i32,
    window: Option<WindowInfoView>,
    own_pid: u32,
    rules: Seq<Seq<char>>,
) -> bool {
    match window {
        None => {
            &&& r.proceed
            &&& event_views(r.events@) == seq![MouseEventView::ProcessInfoError { action, x, y }]
        },
        Some(window) => {
            let info = process_info(action, x, y, window, own_pid);
            if own_pid as int == window.process_id as int {
                !r.proceed && event_views(r.events@) == seq![info]
            } else if no_hit(window.rule_text(), rules) {
                r.proceed && event_views(r.events@) == seq![info]
            } else {
                !r.proceed && exists|at: int|
                    first_hit(window.rule_text(), rules, at) && event_views(r.events@) == seq![
                        info,
                        MouseEventView::HitRule { action, x, y, rule: #[trigger] rules[at] },
                    ]
            }
        },
    }
}

/// Decides, from the window in front, whether the gesture `action` that ended
/// at `(x, y)` is followed up, and what is reported of it.
pub fn inspect_window(
    store: &ConfigStore,
    action: ClickKind,
    x: i32,
    y: i32,
    window: Option<WindowInfo>,
    own_pid: u32,
) -> (r: Inspection)
    ensures
        inspection_of(
            r,
            action,
            x,
            y,
            match window {
                Some(w) => Some(w@),
                None => None,
            },
            own_pid,
            rules_in_force(store@),
        ),
{
    let mut events: Vec<MouseEvent> = Vec::new();
    match window {
        None => {
            events.push(MouseEvent::ProcessInfoError { action, x, y });
            assert(event_views(events@) =~= seq![MouseEventView::ProcessInfoError { action, x, y }]);
            Inspection { events, proceed: true }
        },
        Some(window) => {
            let ghost seen = window@;
            let ghost info = process_info(action, x, y, seen, own_pid);
            let own = own_pid as u64 == window.process_id;
            let rule_text = window.title.clone().concat(window.process_path.as_str()).concat(
                window.app_name.as_str(),
            );
            assert(rule_text@ == seen.rule_text());
            events.push(
                MouseEvent::ProcessInfo {
                    own,
                    action,
                    x,
                    y,
                    title: window.title,
                    pid: window.process_id,
                    path: window.process_path,
                    app_name: window.app_name,
                },
            );
            assert(event_views(events@) =~= seq![info]);
            if own {
                return Inspection { events, proceed: false };
            }
            let rules = active_rules(store);
            match first_matching_rule(rule_text.as_str(), &rules) {
                Some(at) => {
                    events.push(MouseEvent::HitRule { action, x, y, rule: rules[at].clone() });
                    assert(event_views(events@) =~= seq![
                        info,
                        MouseEventView::HitRule { action, x, y, rule: rules_in_force(store@)[at as int] },
                    ]);
                    Inspection { events, proceed: false }
                },
                None => Inspection { events, proceed: true },
            }
        },
    }
}

/// What follows the fetching of the selected text: the report to send, and
/// the text to show beside the pointer unless it is too short.
#[derive(Debug)]
pub struct Delivery {
    pub event: MouseEvent,
    pub selected: Option<String>,
}

/// Decides what to do with the text that was fetched after the gesture
/// `action` that ended at `(x, y)`. Text shorter than `MIN_TEXT_BYTES` is
/// taken for no selection: the history is emptied, and the caller hides the
/// selection window. Longer text is delivered and the history is kept.
pub fn deliver_selected_text(
    history: &mut Vec<MouseSample>,
    action: ClickKind,
    x: i32,
    y: i32,
    text: String,
) -> (r: Delivery)
    ensures
        r.event@ == (MouseEventView::Text {
            short: utf8_len(text@) < MIN_TEXT_BYTES,
            action,
            x,
            y,
            text: text@,
        }),
        utf8_len(text@) < MIN_TEXT_BYTES ==> r.selected is None && final(history)@
            == Seq::<MouseSample>::empty(),
        utf8_len(text@) >= MIN_TEXT_BYTES ==> r.selected == Some(text) && final(history)@ == old(
            history,
        )@,
{
    let short = byte_len(text.as_str()) < MIN_TEXT_BYTES;
    let event = MouseEvent::Text { short, action, x, y, text: text.clone() };
    if short {
        clear_mouse_history(history);
        Delivery { event, selected: None }
    } else {
        Delivery { event, selected: Some(text) }
    }
}

/// Whether to tell the selection window to go out of sight: only where it
/// exists and is in sight.
pub fn hide_window(visible: Option<bool>) -> (r: bool)
    ensures
        r == (visible == Some(true)),
{
    match visible {
        Some(visible) => visible,
        None => false,
    }
}

/// Hook message: the left button went down.
pub const WM_LBUTTONDOWN: u32 = 0x0201;

/// Hook message: the left button came up.
pub const WM_LBUTTONUP: u32 = 0x0202;

/// Hook message: the right button went down.
pub const WM_RBUTTONDOWN: u32 = 0x0204;

/// Hook message: the middle button went down.
pub const WM_MBUTTONDOWN: u32 = 0x0207;

/// The error that answers a request to switch on what is on already.
pub const ALREADY_ENABLED: &'static str = "划词功能已开启";

/// What a message to the mouse hook means to this program.
#[derive(Clone, Copy, PartialEq, Eq, Debug, Structural)]
pub enum HookMessage {
    /// A press: record it.
    LeftDown,
    /// A release: read the gesture.
    LeftUp,
    /// Another button: forget the history and hide the selection window.
    Reset,
    /// Nothing to this program.
    Pass,
}

/// The meaning of the hook message `message` that came with `code`. A
/// negative code marks a message that is not to be looked at.
pub open spec fn hook_message_of(code: i32, message: u32) -> HookMessage {
    if code < 0 {
        HookMessage::Pass
    } else if message == WM_LBUTTONDOWN {
        HookMessage::LeftDown
    } else if message == WM_LBUTTONUP {
        HookMessage::LeftUp
    } else if message == WM_RBUTTONDOWN || message == WM_MBUTTONDOWN {
        HookMessage::Reset
    } else {
        HookMessage::Pass
    }
}

/// Reads a message to the mouse hook. Whatever it means, the caller passes
/// it on to the next hook.
pub fn hook_message(code: i32, message: u32) -> (r: HookMessage)
    ensures
        r == hook_message_of(code, message),
{
    if code < 0 {
        HookMessage::Pass
    } else if message == WM_LBUTTONDOWN {
        HookMessage::LeftDown
    } else if message == WM_LBUTTONUP {
        HookMessage::LeftUp
    } else if message == WM_RBUTTONDOWN || message == WM_MBUTTONDOWN {
        HookMessage::Reset
    } else {
        HookMessage::Pass
    }
}

/// Whether selecting with the mouse is switched on, and whether the hook
/// that it needs is in place.
#[derive(Clone, Copy, PartialEq, Eq, Debug, Structural)]
pub struct Selection {
    pub enabled: bool,
    pub hooked: bool,
}

impl Selection {
    /// Switched off, no hook.
    pub fn new() -> (r: Selection)
        ensures
            r == (Selection { enabled: false, hooked: false }),
    {
        Selection { enabled: false, hooked: false }
    }
}

/// Switches selecting with the mouse on. After `Ok` the caller makes sure
/// that the selection window exists, installs the hook and reports with
/// `mouse_hook` how that went.
pub fn selection_start(selection: &mut Selection) -> (r: Result<(), &'static str>)
    ensures
        match r {
            Ok(()) => !old(selection).enabled,
            Err(message) => old(selection).enabled && message@ == ALREADY_ENABLED@,
        },
        *final(selection) == (Selection { enabled: true, ..*old(selection) }),
{
    if selection.enabled {
        return Err(ALREADY_ENABLED);
    }
    selection.enabled = true;
    Ok(())
}

/// Takes note of whether the hook could be installed. Where it could not,
/// selecting is switched off again. The result is the answer to the request
/// that began with `selection_start`: `true` says that the hook could not be
/// installed, `false` that it is in place.
pub fn mouse_hook(selection: &mut Selection, installed: bool) -> (failed: bool)
    ensures
        failed == !installed,
        *final(selection) == if installed {
            Selection { hooked: true, ..*old(selection) }
        } else {
            Selection { enabled: false, hooked: false }
        },
{
    if installed {
        selection.hooked = true;
        false
    } else {
        selection.enabled = false;
        selection.hooked = false;
        true
    }
}

/// Whether the hook is in place.
pub fn selection_state(selection: &Selection) -> (r: bool)
    ensures
        r == selection.hooked,
{
    selection.hooked
}

/// Switches selecting with the mouse off and forgets the history. Returns
/// whether there is a hook to remove. The caller closes the selection window.
pub fn selection_stop(selection: &mut Selection, history: &mut Vec<MouseSample>) -> (unhook: bool)
    ensures
        unhook == old(selection).hooked,
        *final(selection) == (Selection { enabled: false, hooked: false }),
        final(history)@ == Seq::<MouseSample>::empty(),
{
    let unhook = selection.hooked;
    selection.enabled = false;
    selection.hooked = false;
    history.clear();
    unhook
}

/// A click in place makes the next one a double click: after a release that
/// went nowhere, a press and a release at the same spot, within the
/// double-click time of that release, are read as a double click.
pub proof fn lemma_second_click_is_double(
    history: Seq<MouseSample>,
    first_up: u128,
    second_down: u128,
    second_up: u128,
    x: i32,
    y: i32,
    double_click_time: u128,
)
    requires
        history.len() > 0,
        too_close(history, first_up, x, y, double_click_time),
        first_up <= second_down <= second_up,
        second_up - first_up < double_click_time,
    ensures
        click_kind(
            history_after_release(history, first_up, x, y, double_click_time).push(
                MouseSample { time: second_down, x, y },
            ),
            second_up,
            x,
            y,
            double_click_time,
        ) == ClickKind::DoubleClick,
{
}

/// A release that is followed up leaves at most what was there: the history
/// never grows by a release.
pub proof fn lemma_release_never_grows_history(
    history: Seq<MouseSample>,
    time: u128,
    x: i32,
    y: i32,
    double_click_time: u128,
)
    ensures
        history_after_release(history, time, x, y, double_click_time).len() <= history.len(),
{
}

/// Only the last two presses count: two histories that end with the same
/// two presses give the same reading of a release.
pub proof fn lemma_only_the_last_two_presses_count(
    one: Seq<MouseSample>,
    other: Seq<MouseSample>,
    time: u128,
    x: i32,
    y: i32,
    double_click_time: u128,
)
    requires
        one.len() >= 2,
        other.len() >= 2,
        one[one.len() - 1] == other[other.len() - 1],
        one[one.len() - 2] == other[other.len() - 2],
    ensures
        release_step(one, time, x, y, double_click_time) == release_step(
            other,
            time,
            x,
            y,
            double_click_time,
        ),
{
}

} // verus!
