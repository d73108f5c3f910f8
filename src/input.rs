use crate::structs::{Point, Vertex};
use vstd::prelude::*;

verus! {

/// A key, as far as drawing and typing tell keys apart.
#[derive(Clone, Debug)]
pub enum Key {
    /// A key that produces text.
    Character(String),
    Control,
    Enter,
    Backspace,
    Delete,
    /// The "navigate back" key.
    GoBack,
    Other,
}

impl Key {
    /// The same key: the same variant, and the same text for characters.
    pub open spec fn same(self, o: Key) -> bool {
        match (self, o) {
            (Key::Character(a), Key::Character(b)) => a@ == b@,
            (Key::Control, Key::Control) => true,
            (Key::Enter, Key::Enter) => true,
            (Key::Backspace, Key::Backspace) => true,
            (Key::Delete, Key::Delete) => true,
            (Key::GoBack, Key::GoBack) => true,
            (Key::Other, Key::Other) => true,
            _ => false,
        }
    }

    pub fn same_key(&self, o: &Key) -> (r: bool)
        ensures
            r == self.same(*o),
    {
        match (self, o) {
            (Key::Character(a), Key::Character(b)) => *a == *b,
            (Key::Control, Key::Control) => true,
            (Key::Enter, Key::Enter) => true,
            (Key::Backspace, Key::Backspace) => true,
            (Key::Delete, Key::Delete) => true,
            (Key::GoBack, Key::GoBack) => true,
            (Key::Other, Key::Other) => true,
            _ => false,
        }
    }

    /// A copy equal to the original.
    pub fn snapshot(&self) -> (r: Key)
        ensures
            r == *self,
    {
        match self {
            Key::Character(s) => Key::Character(s.clone()),
            Key::Control => Key::Control,
            Key::Enter => Key::Enter,
            Key::Backspace => Key::Backspace,
            Key::Delete => Key::Delete,
            Key::GoBack => Key::GoBack,
            Key::Other => Key::Other,
        }
    }

    /// The character key that produces `c` alone.
    pub fn character(c: &str) -> (r: Key)
        ensures
            r is Character,
            r->Character_0@ == c@,
    {
        Key::Character(c.to_owned())
    }
}

/// `keys` holds a key that is the same as `k`.
pub open spec fn held(keys: Seq<Key>, k: Key) -> bool {
    exists|i: int| 0 <= i < keys.len() && (#[trigger] keys[i]).same(k)
}

/// `keys` holds the character key that produces `c`.
pub open spec fn char_held(keys: Seq<Key>, c: Seq<char>) -> bool {
    exists|i: int|
        0 <= i < keys.len() && (#[trigger] keys[i]) is Character && keys[i]->Character_0@ == c
}

/// `keys` holds the control key.
pub open spec fn control_held(keys: Seq<Key>) -> bool {
    exists|i: int| 0 <= i < keys.len() && (#[trigger] keys[i]) is Control
}

pub fn is_held(keys: &Vec<Key>, k: &Key) -> (r: bool)
    ensures
        r == held(keys@, *k),
{
    let mut i: usize = 0;
    while i < keys.len()
        invariant
            i <= keys@.len(),
            forall|j: int| 0 <= j < i ==> !(#[trigger] keys@[j]).same(*k),
        decreases keys.len() - i,
    {
        if keys[i].same_key(k) {
            return true;
        }
        i = i + 1;
    }
    false
}

/// Adds `k` to the held keys unless the same key is held already.
pub fn press_key(keys: &mut Vec<Key>, k: &Key)
    ensures
        held(old(keys)@, *k) ==> final(keys)@ == old(keys)@,
        !held(old(keys)@, *k) ==> final(keys)@ == old(keys)@.push(*k),
{
    if !is_held(keys, k) {
        keys.push(k.snapshot());
    }
}

/// Drops every held key that is the same as `k`, keeping the others in order.
pub fn release_key(keys: &mut Vec<Key>, k: &Key)
    ensures
        final(keys)@ == old(keys)@.filter(|x: Key| !x.same(*k)),
{
    let ghost pre = keys@;
    let mut kept: Vec<Key> = Vec::new();
    let mut i: usize = 0;
    while i < keys.len()
        invariant
            i <= pre.len(),
            keys@ == pre,
            kept@ == pre.subrange(0, i as int).filter(|x: Key| !x.same(*k)),
        decreases keys.len() - i,
    {
        proof {
            reveal(Seq::filter);
            assert(pre.subrange(0, i + 1).drop_last() =~= pre.subrange(0, i as int));
        }
        if !keys[i].same_key(k) {
            kept.push(keys[i].snapshot());
        }
        i = i + 1;
    }
    assert(pre.subrange(0, pre.len() as int) =~= pre);
    *keys = kept;
}

/// The pointer's buttons.
#[derive(Clone, Copy, Debug, PartialEq, Eq, Structural)]
pub enum MouseButton {
    Left,
    Right,
    Middle,
    Other,
}

/// An input event, already in device pixels and milliseconds.
#[derive(Clone, Debug)]
pub enum InputEvent {
    Focused { focused: bool, now_ms: u64 },
    CursorMoved { position: Point },
    MouseInput { button: MouseButton, pressed: bool, control: bool, now_ms: u64 },
    KeyboardInput { key: Key, pressed: bool },
    Resized { width: u32, height: u32 },
}

/// The gesture under way: the button state, the stroke being drawn and the
/// rectangle's handles.
#[derive(Clone, Debug)]
pub struct Gesture {
    pub mouse_pressed: bool,
    pub current_stroke: Vec<Vertex>,
    /// The first handle, then the latest one: at most two.
    pub shape_positions: Vec<Vertex>,
    /// The rectangle tool is armed.
    pub create_rect: bool,
}

impl Gesture {
    pub fn new() -> (r: Self)
        ensures
            !r.mouse_pressed,
            r.current_stroke@ == Seq::<Vertex>::empty(),
            r.shape_positions@ == Seq::<Vertex>::empty(),
            !r.create_rect,
    {
        Gesture {
            mouse_pressed: false,
            current_stroke: Vec::new(),
            shape_positions: Vec::new(),
            create_rect: false,
        }
    }
}

} // verus!
