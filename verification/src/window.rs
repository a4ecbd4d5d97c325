//! Where the translator window goes when it is shown, and which windows hear
//! of a change.

use vstd::prelude::*;
use vstd::string::StringExecFns;
use crate::config::{get_or_string, lookup, text_or, ConfigStore, ConfigValue};
use crate::text::{same_text, texts_of};

verus! {

/// The setting that says where the translator window is shown.
pub const WIN_POSITION: &'static str = "win_position";

/// Position: where the window was last.
pub const POSITION_LAST: &'static str = "last";

/// Position: the middle of the screen.
pub const POSITION_CENTER: &'static str = "center";

/// Position: the upper right corner of the screen that holds the pointer.
/// This is the position where the settings name none.
pub const POSITION_RIGHT_TOP: &'static str = "right-top";

/// The distance, in pixels, that the window keeps from the screen's edges in
/// the upper right corner.
pub const CORNER_MARGIN: i64 = 50;

/// How the translator window is placed.
#[derive(Clone, Copy, PartialEq, Eq, Debug, Structural)]
pub enum PositionMode {
    /// It stays where it is.
    Last,
    /// It goes to the middle of the screen.
    Center,
    /// It goes to the upper right corner of the pointer's screen.
    RightTop,
    /// It goes to the pointer.
    Pointer,
}

/// A screen: the position of its upper left corner, and its size.
#[derive(Clone, Copy, PartialEq, Eq, Debug, Structural)]
pub struct Monitor {
    pub x: i32,
    pub y: i32,
    pub width: u32,
    pub height: u32,
}

/// The mode that the settings `settings` ask for.
pub open spec fn position_mode_of(settings: Map<Seq<char>, ConfigValue>) -> PositionMode {
    let name = text_or(lookup(settings, WIN_POSITION@), POSITION_RIGHT_TOP@);
    if name == POSITION_LAST@ {
        PositionMode::Last
    } else if name == POSITION_CENTER@ {
        PositionMode::Center
    } else if name == POSITION_RIGHT_TOP@ {
        PositionMode::RightTop
    } else {
        PositionMode::Pointer
    }
}

/// Reads from the settings how the translator window is placed.
pub fn position_mode(store: &ConfigStore) -> (r: PositionMode)
    ensures
        r == position_mode_of(store@),
{
    let name = get_or_string(store, WIN_POSITION, String::from_str(POSITION_RIGHT_TOP));
    if same_text(name.as_str(), POSITION_LAST) {
        PositionMode::Last
    } else if same_text(name.as_str(), POSITION_CENTER) {
        PositionMode::Center
    } else if same_text(name.as_str(), POSITION_RIGHT_TOP) {
        PositionMode::RightTop
    } else {
        PositionMode::Pointer
    }
}

impl Monitor {
    /// Whether the point `(x, y)` lies on the screen, its edges included.
    pub open spec fn holds(self, x: i32, y: i32) -> bool {
        &&& self.x <= x <= self.x + self.width
        &&& self.y <= y <= self.y + self.height
    }

    /// The position of a window of width `window_width` in the screen's upper
    /// right corner.
    pub open spec fn corner(self, window_width: u32) -> (int, int) {
        (self.x + self.width - window_width - CORNER_MARGIN, self.y + CORNER_MARGIN)
    }

    pub fn contains(&self, x: i32, y: i32) -> (r: bool)
        ensures
            r == self.holds(x, y),
    {
        let left = self.x as i64;
        let top = self.y as i64;
        let px = x as i64;
        let py = y as i64;
        left <= px && px <= left + self.width as i64 && top <= py && py <= top + self.height as i64
    }

    /// Where to put a window of width `window_width` so that it sits in the
    /// screen's upper right corner.
    pub fn right_top(&self, window_width: u32) -> (r: (i64, i64))
        ensures
            (r.0 as int, r.1 as int) == self.corner(window_width),
    {
        (
            self.x as i64 + self.width as i64 - window_width as i64 - CORNER_MARGIN,
            self.y as i64 + CORNER_MARGIN,
        )
    }
}

/// The first of `monitors` that holds the point `(x, y)`.
pub fn monitor_at(monitors: &Vec<Monitor>, x: i32, y: i32) -> (r: Option<usize>)
    ensures
        match r {
            Some(at) => {
                &&& at < monitors@.len()
                &&& monitors@[at as int].holds(x, y)
                &&& forall|i: int| 0 <= i < at ==> !(#[trigger] monitors@[i]).holds(x, y)
            },
            None => forall|i: int| 0 <= i < monitors@.len() ==> !(#[trigger] monitors@[i]).holds(x, y),
        },
{
    let mut i: usize = 0;
    while i < monitors.len()
        invariant
            i <= monitors.len(),
            forall|j: int| 0 <= j < i ==> !(#[trigger] monitors@[j]).holds(x, y),
        decreases monitors.len() - i,
    {
        if monitors[i].contains(x, y) {
            return Some(i);
        }
        i += 1;
    }
    None
}

/// The windows that are told of a change made in the window `current`: all
/// of `labels` but `current`, in their order.
pub fn other_windows(labels: &Vec<String>, current: &str) -> (r: Vec<String>)
    ensures
        texts_of(r@) == texts_of(labels@).filter(|label: Seq<char>| label != current@),
{
    let mut others: Vec<String> = Vec::new();
    let mut i: usize = 0;
    let ghost keep = |label: Seq<char>| label != current@;
    assert(texts_of(labels@).take(0) =~= Seq::<Seq<char>>::empty());
    assert(texts_of(others@) =~= texts_of(labels@).take(0).filter(keep));
    while i < labels.len()
        invariant
            i <= labels.len(),
            keep == |label: Seq<char>| label != current@,
            texts_of(others@) == texts_of(labels@).take(i as int).filter(keep),
        decreases labels.len() - i,
    {
        proof {
            let all = texts_of(labels@);
            assert(all.take(i + 1) =~= all.take(i as int).push(all[i as int]));
            all.take(i as int).lemma_filter_push(all[i as int], keep);
        }
        if !same_text(labels[i].as_str(), current) {
            let ghost before = others@;
            others.push(labels[i].clone());
            assert(texts_of(others@) =~= texts_of(before).push(labels@[i as int]@));
        }
        i += 1;
    }
    assert(texts_of(labels@).take(i as int) =~= texts_of(labels@));
    others
}

} // verus!
