use crate::structs::{Point, TextEntries};
use vstd::prelude::*;

verus! {

/// Two presses at most this many milliseconds apart can form a double click.
pub const DOUBLE_CLICK_THRESHOLD_MS: u64 = 500;

/// Two presses at most this many pixels apart can form a double click.
pub const DOUBLE_CLICK_DISTANCE: i64 = 5;

/// The caret shows and hides every this many milliseconds while typing.
pub const CURSOR_BLINK_INTERVAL_MS: u64 = 500;

/// A press at `now` and `p` follows the last one closely enough, in time and
/// in straight-line distance, to make a double click. A clock that reads
/// earlier than the last press counts as no time elapsed.
pub open spec fn spec_is_double_click(
    now: u64,
    p: Point,
    last_time: Option<u64>,
    last_position: Option<Point>,
) -> bool {
    match (last_time, last_position) {
        (Some(t), Some(q)) => {
            let dx = p.x - q.x;
            let dy = p.y - q.y;
            &&& now <= t + DOUBLE_CLICK_THRESHOLD_MS
            &&& dx * dx + dy * dy <= DOUBLE_CLICK_DISTANCE * DOUBLE_CLICK_DISTANCE
        },
        _ => false,
    }
}

pub fn is_double_click(
    now: u64,
    p: Point,
    last_time: Option<u64>,
    last_position: Option<Point>,
) -> (r: bool)
    ensures
        r == spec_is_double_click(now, p, last_time, last_position),
{
    match (last_time, last_position) {
        (Some(t), Some(q)) => {
            if now > t && now - t > DOUBLE_CLICK_THRESHOLD_MS {
                return false;
            }
            let dx = p.x as i128 - q.x as i128;
            let dy = p.y as i128 - q.y as i128;
            assert(dx * dx <= 0x1_0000_0000_0000_0000) by (nonlinear_arith)
                requires
                    -0x1_0000_0000 <= dx <= 0x1_0000_0000,
            ;
            assert(dy * dy <= 0x1_0000_0000_0000_0000) by (nonlinear_arith)
                requires
                    -0x1_0000_0000 <= dy <= 0x1_0000_0000,
            ;
            assert(dx * dx >= 0 && dy * dy >= 0) by (nonlinear_arith);
            let limit = DOUBLE_CLICK_DISTANCE as i128;
            dx * dx + dy * dy <= limit * limit
        },
        _ => false,
    }
}

/// `i` is the first entry whose bounds hold `p`.
pub open spec fn is_first_hit(texts: Seq<TextEntries>, p: Point, i: int) -> bool {
    &&& 0 <= i < texts.len()
    &&& texts[i].bounds.spec_contains(p)
    &&& forall|j: int| 0 <= j < i ==> !(#[trigger] texts[j]).bounds.spec_contains(p)
}

/// Some entry's bounds hold `p`.
pub open spec fn any_hit(texts: Seq<TextEntries>, p: Point) -> bool {
    exists|i: int| 0 <= i < texts.len() && (#[trigger] texts[i]).bounds.spec_contains(p)
}

/// The first entry, in order, whose bounds hold `p`.
pub fn first_hit(texts: &Vec<TextEntries>, p: Point) -> (r: Option<usize>)
    ensures
        r matches Some(i) ==> is_first_hit(texts@, p, i as int),
        r is None <==> !any_hit(texts@, p),
{
    let mut i: usize = 0;
    while i < texts.len()
        invariant
            i <= texts@.len(),
            forall|j: int| 0 <= j < i ==> !(#[trigger] texts@[j]).bounds.spec_contains(p),
        decreases texts.len() - i,
    {
        if texts[i].bounds.contains(p) {
            return Some(i);
        }
        i = i + 1;
    }
    None
}

/// Relies on std's `String::pop`: it removes and returns the last character,
/// and leaves an empty string as it is.
#[verifier::external_body]
pub(crate) fn pop_char(s: &mut String) -> (r: Option<char>)
    ensures
        old(s)@.len() == 0 ==> r is None && final(s)@ == old(s)@,
        old(s)@.len() > 0 ==> r == Some(old(s)@.last()) && final(s)@ == old(s)@.drop_last(),
{
    s.pop()
}

/// Relies on std's `String::push_str`: it appends `t` to `s`.
#[verifier::external_body]
pub(crate) fn push_text(s: &mut String, t: &str)
    ensures
        final(s)@ == old(s)@ + t@,
{
    s.push_str(t)
}

/// Whether text is being typed, into which entry, and the state that double
/// clicks and the caret need.
#[derive(Clone, Copy, Debug)]
pub struct TextSession {
    /// Typing is under way.
    pub start_typing: bool,
    /// The existing entry being edited again; `None` while typing means the
    /// newest entry.
    pub editing_text_index: Option<usize>,
    pub last_click_time: Option<u64>,
    pub last_click_position: Option<Point>,
    pub cursor_visible: bool,
    /// When the caret last changed, in milliseconds.
    pub cursor_timer: u64,
}

impl TextSession {
    pub fn new() -> (r: Self)
        ensures
            !r.start_typing,
            r.editing_text_index is None,
            r.last_click_time is None,
            r.last_click_position is None,
            r.cursor_visible,
            r.cursor_timer == 0,
    {
        TextSession {
            start_typing: false,
            editing_text_index: None,
            last_click_time: None,
            last_click_position: None,
            cursor_visible: true,
            cursor_timer: 0,
        }
    }

    /// The index of the entry that keys go to while typing.
    pub open spec fn target(self, n_texts: int) -> int {
        match self.editing_text_index {
            Some(i) => i as int,
            None => n_texts - 1,
        }
    }

    /// The caret toggles when typing and a full interval has passed since
    /// it last changed.
    pub open spec fn blink_due(self, now: u64) -> bool {
        self.start_typing && now >= self.cursor_timer + CURSOR_BLINK_INTERVAL_MS
    }

    /// Toggles the caret when it is due; nothing else changes.
    pub fn blink(&mut self, now: u64)
        ensures
            old(self).blink_due(now) ==> *final(self) == (TextSession {
                cursor_visible: !old(self).cursor_visible,
                cursor_timer: now,
                ..*old(self)
            }),
            !old(self).blink_due(now) ==> *final(self) == *old(self),
    {
        if self.start_typing && now >= self.cursor_timer && now - self.cursor_timer
            >= CURSOR_BLINK_INTERVAL_MS {
            self.cursor_visible = !self.cursor_visible;
            self.cursor_timer = now;
        }
    }
}

} // verus!
