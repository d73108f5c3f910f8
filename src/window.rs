use crate::ids::draw_id;
use crate::input::{
    char_held, control_held, held, press_key, release_key, Gesture, InputEvent, Key, MouseButton,
};
use crate::log::{ids_of, without_last, ActionLog};
use crate::structs::{
    Action, ActionId, ActionType, Point, Rect, Rectangle, Rgba, TextEntries, Vertex,
};
use crate::text::{
    any_hit, first_hit, is_double_click, is_first_hit, pop_char, push_text, spec_is_double_click,
    TextSession,
};
use crate::wire::{carries, delete_batch, BatchKind, PaintBatch};
use vstd::prelude::*;

verus! {

/// With `id` fresh to `log`, `actions` is the log's history with the action
/// `(id, t)` appended; otherwise it is the history unchanged.
pub open spec fn committed(log: ActionLog, actions: Seq<Action>, id: ActionId, t: ActionType) -> bool {
    if log.known(id) {
        actions == log.actions@
    } else {
        actions == log.actions@.push(Action { id, action_type: t })
    }
}

/// The rectangle spanned by the first and the latest handle.
pub open spec fn rectangle_of(handles: Seq<Vertex>, color: Rgba) -> Rectangle {
    Rectangle { first: handles[0].position, last: handles.last().position, color }
}

/// A fresh entry for typing at `p`.
pub open spec fn is_new_entry(e: TextEntries, p: Point, color: Rgba, font_size: i32) -> bool {
    &&& e.position == p
    &&& e.color == color
    &&& e.text@ == Seq::<char>::empty()
    &&& e.pending
    &&& e.bounds == (Rect { x: 0, y: 0, width: 0, height: 0 })
    &&& e.font_size == font_size
}

/// `after` is `before` with the text of entry `t` replaced by `text`.
pub open spec fn text_edited(
    before: Seq<TextEntries>,
    after: Seq<TextEntries>,
    t: int,
    text: Seq<char>,
) -> bool {
    &&& after.len() == before.len()
    &&& forall|j: int| 0 <= j < before.len() && j != t ==> after[j] == before[j]
    &&& after[t].text@ == text
    &&& after[t].position == before[t].position
    &&& after[t].color == before[t].color
    &&& after[t].pending == before[t].pending
    &&& after[t].bounds == before[t].bounds
    &&& after[t].font_size == before[t].font_size
}

/// The drawing session: viewport, tools, the gesture and text session under
/// way, the action log, and the batches waiting for the transport.
pub struct WindowState {
    pub width: u32,
    pub height: u32,
    pub pressed_keys: Vec<Key>,
    pub font_size: i32,
    pub current_color: Rgba,
    pub last_cursor_position: Point,
    /// A primary press with control held also counts as a secondary press.
    pub ctrl_click_is_secondary: bool,
    pub gesture: Gesture,
    pub session: TextSession,
    pub log: ActionLog,
    /// Batches for the transport, oldest first.
    pub outbox: Vec<PaintBatch>,
}

impl WindowState {
    /// The log is well formed, the rectangle capture holds two handles at
    /// most, the entry being typed exists, and it is the only open one.
    pub open spec fn wf(&self) -> bool {
        &&& self.log.wf()
        &&& self.gesture.shape_positions@.len() <= 2
        &&& self.session.start_typing ==> self.log.texts@.len() > 0
        &&& self.session.editing_text_index matches Some(i) ==> {
            &&& self.session.start_typing
            &&& i < self.log.texts@.len()
        }
        &&& forall|j: int|
            0 <= j < self.log.texts@.len() && (#[trigger] self.log.texts@[j]).pending ==> {
                &&& self.session.start_typing
                &&& j == self.target()
            }
    }

    /// The fields that only tools, keys and the viewport change.
    pub open spec fn same_frame(&self, o: &Self) -> bool {
        &&& self.width == o.width
        &&& self.height == o.height
        &&& self.pressed_keys == o.pressed_keys
        &&& self.font_size == o.font_size
        &&& self.current_color == o.current_color
        &&& self.last_cursor_position == o.last_cursor_position
        &&& self.ctrl_click_is_secondary == o.ctrl_click_is_secondary
    }

    /// The entry that keys go to while typing.
    pub open spec fn target(&self) -> int {
        self.session.target(self.log.texts@.len() as int)
    }

    /// An empty session for a viewport of `width` by `height` pixels.
    pub fn new(width: u32, height: u32) -> (r: Self)
        ensures
            r.wf(),
            r.width == width,
            r.height == height,
            r.log.actions@ == Seq::<Action>::empty(),
            r.log.texts@ == Seq::<TextEntries>::empty(),
            r.log.events_id@ == Set::<u128>::empty(),
            r.outbox@ == Seq::<PaintBatch>::empty(),
            !r.session.start_typing,
            !r.gesture.mouse_pressed,
            r.gesture.current_stroke@ == Seq::<Vertex>::empty(),
            r.gesture.shape_positions@ == Seq::<Vertex>::empty(),
            !r.gesture.create_rect,
            r.pressed_keys@ == Seq::<Key>::empty(),
            r.font_size == 16,
            r.current_color == (Rgba { r: 0, g: 0, b: 0, a: 255 }),
            r.last_cursor_position == (Point { x: 0, y: 0 }),
            !r.ctrl_click_is_secondary,
            r.session.editing_text_index is None,
            r.session.last_click_time is None,
            r.session.last_click_position is None,
    {
        WindowState {
            width,
            height,
            pressed_keys: Vec::new(),
            font_size: 16,
            current_color: Rgba { r: 0, g: 0, b: 0, a: 255 },
            last_cursor_position: Point { x: 0, y: 0 },
            ctrl_click_is_secondary: false,
            gesture: Gesture::new(),
            session: TextSession::new(),
            log: ActionLog::new(),
            outbox: Vec::new(),
        }
    }

    /// Records a new viewport size; a size with a zero side is ignored.
    pub fn resize(&mut self, width: u32, height: u32)
        ensures
            width > 0 && height > 0 ==> *final(self) == (Self { width, height, ..*old(self) }),
            !(width > 0 && height > 0) ==> *final(self) == *old(self),
    {
        if width > 0 && height > 0 {
            self.width = width;
            self.height = height;
        }
    }

    /// What a move of the pointer to `p` does: while the button is held it
    /// extends the stroke, or moves the rectangle's second handle when the
    /// rectangle tool is armed.
    pub open spec fn moved_to(self, new: Self, p: Point) -> bool {
        let g = self.gesture;
        let v = Vertex { position: p, color: self.current_color };
        &&& new.last_cursor_position == p
        &&& new.gesture.mouse_pressed == g.mouse_pressed
        &&& new.gesture.create_rect == g.create_rect
        &&& if !g.mouse_pressed {
            new.gesture == g
        } else if g.create_rect {
            &&& new.gesture.current_stroke == g.current_stroke
            &&& new.gesture.shape_positions@ == if g.shape_positions@.len() == 0 {
                seq![v]
            } else {
                seq![g.shape_positions@[0], v]
            }
        } else {
            &&& new.gesture.current_stroke@ == g.current_stroke@.push(v)
            &&& new.gesture.shape_positions == g.shape_positions
        }
        &&& new.log == self.log
        &&& new.session == self.session
        &&& new.outbox == self.outbox
        &&& new.width == self.width
        &&& new.height == self.height
        &&& new.pressed_keys == self.pressed_keys
        &&& new.font_size == self.font_size
        &&& new.current_color == self.current_color
        &&& new.ctrl_click_is_secondary == self.ctrl_click_is_secondary
    }

    pub fn pointer_moved(&mut self, p: Point)
        requires
            old(self).wf(),
        ensures
            final(self).wf(),
            old(self).moved_to(*final(self), p),
    {
        self.last_cursor_position = p;
        if self.gesture.mouse_pressed {
            let v = Vertex { position: p, color: self.current_color };
            if self.gesture.create_rect {
                if self.gesture.shape_positions.len() > 1 {
                    self.gesture.shape_positions.pop();
                }
                self.gesture.shape_positions.push(v);
                assert(self.gesture.shape_positions@ =~= if old(self).gesture.shape_positions@.len()
                    == 0 {
                    seq![v]
                } else {
                    seq![old(self).gesture.shape_positions@[0], v]
                });
            } else {
                self.gesture.current_stroke.push(v);
            }
        }
    }

    /// What a press of the primary button does: a new stroke starts, and when
    /// the rectangle tool is armed, or `s` is held, a rectangle capture
    /// starts with its first handle at the pointer.
    pub open spec fn pressed_primary(self, new: Self) -> bool {
        let armed = self.gesture.create_rect || char_held(self.pressed_keys@, seq!['s']);
        let v = Vertex { position: self.last_cursor_position, color: self.current_color };
        &&& new.gesture.mouse_pressed
        &&& new.gesture.current_stroke@ == Seq::<Vertex>::empty()
        &&& new.gesture.create_rect == armed
        &&& new.gesture.shape_positions@ == if armed {
            seq![v]
        } else {
            Seq::<Vertex>::empty()
        }
        &&& new.same_frame(&self)
        &&& new.log == self.log
        &&& new.session == self.session
        &&& new.outbox == self.outbox
    }

    pub fn press_primary(&mut self)
        requires
            old(self).wf(),
        ensures
            final(self).wf(),
            old(self).pressed_primary(*final(self)),
    {
        self.gesture.mouse_pressed = true;
        self.gesture.current_stroke = Vec::new();
        if is_char_held(&self.pressed_keys, "s") {
            self.gesture.create_rect = true;
        }
        let mut handles: Vec<Vertex> = Vec::new();
        if self.gesture.create_rect {
            handles.push(Vertex { position: self.last_cursor_position, color: self.current_color });
        }
        self.gesture.shape_positions = handles;
        proof {
            reveal_strlit("s");
            assert("s"@ =~= seq!['s']);
        }
    }

    /// What ending a rectangle capture does: a capture with a handle is
    /// committed as a rectangle named `id`; the capture and the tool are
    /// cleared.
    pub open spec fn finished_rectangle(self, new: Self, id: ActionId) -> bool {
        let g = self.gesture;
        &&& if g.shape_positions@.len() > 0 {
            committed(
                self.log,
                new.log.actions@,
                id,
                ActionType::Shapes(rectangle_of(g.shape_positions@, self.current_color)),
            )
        } else {
            new.log.actions == self.log.actions
        }
        &&& new.log.texts == self.log.texts
        &&& new.log.events_id == self.log.events_id
        &&& new.gesture.shape_positions@ == Seq::<Vertex>::empty()
        &&& !new.gesture.create_rect
        &&& new.gesture.mouse_pressed == g.mouse_pressed
        &&& new.gesture.current_stroke == g.current_stroke
        &&& new.same_frame(&self)
        &&& new.session == self.session
        &&& new.outbox == self.outbox
    }

    fn finish_rectangle(&mut self, id: ActionId) -> (committed_one: bool)
        requires
            old(self).wf(),
        ensures
            final(self).wf(),
            old(self).finished_rectangle(*final(self), id),
            committed_one == (old(self).gesture.shape_positions@.len() > 0),
            !committed_one ==> final(self).log == old(self).log,
    {
        self.gesture.create_rect = false;
        let n = self.gesture.shape_positions.len();
        let committed_one = n > 0;
        if committed_one {
            let rectangle = Rectangle {
                first: self.gesture.shape_positions[0].position,
                last: self.gesture.shape_positions[n - 1].position,
                color: self.current_color,
            };
            self.log.append(Action { id, action_type: ActionType::Shapes(rectangle) });
        }
        self.gesture.shape_positions = Vec::new();
        committed_one
    }

    /// What a release of the primary button does. A rectangle capture with a
    /// handle is committed as a rectangle; otherwise a stroke of two points
    /// or more is committed as a stroke. Either way `id` names the new
    /// action, and the gesture is cleared.
    pub open spec fn released_primary(self, new: Self, id: ActionId) -> bool {
        let g = self.gesture;
        &&& if g.shape_positions@.len() > 0 {
            committed(
                self.log,
                new.log.actions@,
                id,
                ActionType::Shapes(rectangle_of(g.shape_positions@, self.current_color)),
            )
        } else if g.current_stroke@.len() >= 2 {
            committed(self.log, new.log.actions@, id, ActionType::Stroke(g.current_stroke))
        } else {
            new.log == self.log
        }
        &&& new.log.texts == self.log.texts
        &&& new.log.events_id == self.log.events_id
        &&& !new.gesture.mouse_pressed
        &&& !new.gesture.create_rect
        &&& new.gesture.current_stroke@ == Seq::<Vertex>::empty()
        &&& new.gesture.shape_positions@ == Seq::<Vertex>::empty()
        &&& new.same_frame(&self)
        &&& new.session == self.session
        &&& new.outbox == self.outbox
    }

    pub fn release_primary(&mut self, id: ActionId)
        requires
            old(self).wf(),
        ensures
            final(self).wf(),
            old(self).released_primary(*final(self), id),
    {
        self.gesture.mouse_pressed = false;
        let mut stroke: Vec<Vertex> = Vec::new();
        std::mem::swap(&mut stroke, &mut self.gesture.current_stroke);
        if !self.finish_rectangle(id) && stroke.len() >= 2 {
            self.log.append(Action { id, action_type: ActionType::Stroke(stroke) });
        }
    }

    /// The entry being typed, closed for typing.
    pub open spec fn closed_entry(self) -> TextEntries {
        TextEntries { pending: false, ..self.log.texts@[self.target()] }
    }

    /// The text entries once the entry being typed, if any, is closed.
    pub open spec fn texts_after_commit(self) -> Seq<TextEntries> {
        if self.session.start_typing {
            self.log.texts@.update(self.target(), self.closed_entry())
        } else {
            self.log.texts@
        }
    }

    /// The log, sent-id set and derived collections but the texts, unchanged.
    pub open spec fn history_kept(self, new: Self) -> bool {
        &&& new.log.actions == self.log.actions
        &&& new.log.strokes == self.log.strokes
        &&& new.log.shapes == self.log.shapes
        &&& new.log.events_id == self.log.events_id
    }

    /// What committing the entry being typed does: it is closed, appended to
    /// the log as a text action named `id`, and typing ends.
    pub open spec fn committed_text(self, new: Self, id: ActionId) -> bool {
        &&& new.log.texts@ == self.texts_after_commit()
        &&& committed(self.log, new.log.actions@, id, ActionType::Text(self.closed_entry()))
        &&& new.log.events_id == self.log.events_id
        &&& new.session == (TextSession {
            start_typing: false,
            editing_text_index: None,
            ..self.session
        })
        &&& new.gesture == self.gesture
        &&& new.same_frame(&self)
        &&& new.outbox == self.outbox
    }

    fn commit_text(&mut self, id: ActionId)
        requires
            old(self).wf(),
            old(self).session.start_typing,
        ensures
            final(self).wf(),
            old(self).committed_text(*final(self), id),
    {
        let t = match self.session.editing_text_index {
            Some(i) => i,
            None => self.log.texts.len() - 1,
        };
        let mut e = self.log.texts[t].snapshot();
        e.pending = false;
        let entry = e.snapshot();
        self.log.texts.set(t, e);
        self.log.append(Action { id, action_type: ActionType::Text(entry) });
        self.session.start_typing = false;
        self.session.editing_text_index = None;
    }

    /// What a secondary press does. Typing under way is committed first, as
    /// a text action named `id`. Then a double click on an existing entry
    /// opens that entry for editing, without creating one; otherwise, from
    /// idle, a new entry is started at the pointer, and while typing the
    /// session simply goes idle.
    pub open spec fn clicked_secondary(self, new: Self, now: u64, id: ActionId) -> bool {
        let p = self.last_cursor_position;
        let double = spec_is_double_click(
            now,
            p,
            self.session.last_click_time,
            self.session.last_click_position,
        );
        let base = self.texts_after_commit();
        &&& new.session.last_click_time == Some(now)
        &&& new.session.last_click_position == Some(p)
        &&& if self.session.start_typing {
            committed(self.log, new.log.actions@, id, ActionType::Text(self.closed_entry()))
        } else {
            new.log.actions == self.log.actions
        }
        &&& if double && any_hit(self.log.texts@, p) {
            &&& new.session.start_typing
            &&& new.session.editing_text_index matches Some(i) && is_first_hit(
                self.log.texts@,
                p,
                i as int,
            ) && new.log.texts@ == base.update(i as int, TextEntries { pending: true, ..base[i as int] })
            &&& new.session.cursor_visible
            &&& new.session.cursor_timer == now
        } else if self.session.start_typing {
            &&& new.log.texts@ == base
            &&& !new.session.start_typing
            &&& new.session.editing_text_index is None
            &&& new.session.cursor_visible == self.session.cursor_visible
            &&& new.session.cursor_timer == self.session.cursor_timer
        } else {
            &&& new.log.texts@.len() == base.len() + 1
            &&& new.log.texts@.drop_last() == base
            &&& is_new_entry(new.log.texts@.last(), p, self.current_color, self.font_size)
            &&& new.session.start_typing
            &&& new.session.editing_text_index is None
            &&& new.session.cursor_visible
            &&& new.session.cursor_timer == now
        }
        &&& new.log.events_id == self.log.events_id
        &&& new.gesture == self.gesture
        &&& new.same_frame(&self)
        &&& new.outbox == self.outbox
    }

    pub fn secondary_click(&mut self, now: u64, id: ActionId)
        requires
            old(self).wf(),
        ensures
            final(self).wf(),
            old(self).clicked_secondary(*final(self), now, id),
    {
        let p = self.last_cursor_position;
        let double = is_double_click(
            now,
            p,
            self.session.last_click_time,
            self.session.last_click_position,
        );
        let was_typing = self.session.start_typing;
        if was_typing {
            self.commit_text(id);
        }
        self.session.last_click_time = Some(now);
        self.session.last_click_position = Some(p);
        let ghost base = self.log.texts@;
        assert(base == old(self).texts_after_commit());
        assert(forall|j: int| 0 <= j < base.len() ==> (#[trigger] base[j]).bounds
            == old(self).log.texts@[j].bounds);
        let hit = if double {
            first_hit(&self.log.texts, p)
        } else {
            None
        };
        match hit {
            Some(i) => {
                assert(is_first_hit(old(self).log.texts@, p, i as int)) by {
                    assert forall|j: int| 0 <= j < i implies !(#[trigger] old(
                        self,
                    ).log.texts@[j]).bounds.spec_contains(p) by {
                        assert(base[j].bounds == old(self).log.texts@[j].bounds);
                    }
                }
                assert(any_hit(old(self).log.texts@, p)) by {
                    assert(old(self).log.texts@[i as int].bounds.spec_contains(p));
                }
                let mut e = self.log.texts[i].snapshot();
                e.pending = true;
                self.log.texts.set(i, e);
                self.session.editing_text_index = Some(i);
                self.session.start_typing = true;
                self.session.cursor_visible = true;
                self.session.cursor_timer = now;
            },
            None => {
                if double {
                    assert(!any_hit(old(self).log.texts@, p)) by {
                        if any_hit(old(self).log.texts@, p) {
                            let j = choose|j: int| 0 <= j < old(self).log.texts@.len()
                                && (#[trigger] old(self).log.texts@[j]).bounds.spec_contains(p);
                            assert(base[j].bounds.spec_contains(p));
                        }
                    }
                }
                if !was_typing {
                    let mut e = TextEntries::null(self.current_color, self.font_size);
                    e.position = p;
                    self.log.texts.push(e);
                    self.session.start_typing = true;
                    self.session.cursor_visible = true;
                    self.session.cursor_timer = now;
                    assert(self.log.texts@.drop_last() =~= base);
                }
            },
        }
    }

    /// What an undo does when idle: the newest action leaves the log and
    /// its derived collection, and a batch that withdraws it joins the
    /// outbox. The sent-id set keeps its id. On an empty log nothing changes.
    pub open spec fn undone(self, new: Self) -> bool {
        let a = self.log.actions@;
        &&& if a.len() == 0 {
            &&& new.log == self.log
            &&& new.outbox == self.outbox
        } else {
            &&& new.log.actions@ == a.drop_last()
            &&& new.log.texts@ == if a.last().action_type is Text {
                without_last(self.log.texts@)
            } else {
                self.log.texts@
            }
            &&& new.log.events_id == self.log.events_id
            &&& new.outbox@.len() == self.outbox@.len() + 1
            &&& new.outbox@.drop_last() == self.outbox@
            &&& carries(new.outbox@.last(), seq![a.last()], BatchKind::IsDeleted)
        }
        &&& new.session == self.session
        &&& new.gesture == self.gesture
        &&& new.same_frame(&self)
    }

    /// Withdraws the newest action, unless text is being typed, in which
    /// case nothing changes. Returns whether an action was withdrawn.
    pub fn undo(&mut self) -> (r: bool)
        requires
            old(self).wf(),
        ensures
            final(self).wf(),
            r == (!old(self).session.start_typing && old(self).log.actions@.len() > 0),
            old(self).session.start_typing ==> *final(self) == *old(self),
            !old(self).session.start_typing ==> old(self).undone(*final(self)),
    {
        if self.session.start_typing {
            return false;
        }
        match self.log.undo() {
            Some(action) => {
                self.outbox.push(delete_batch(&action));
                assert(self.outbox@.drop_last() =~= old(self).outbox@);
                true
            },
            None => false,
        }
    }

    /// What a key press does. The key joins the held keys. While typing,
    /// a character key extends the entry being typed, Enter and the back key
    /// commit it as a text action named `id`, and Delete and Backspace take
    /// its last character off (Backspace only while the entry is open).
    /// When idle, holding control and `z` undoes the newest action.
    pub open spec fn pressed_key(self, new: Self, key: Key, id: ActionId) -> bool {
        let keys = if held(self.pressed_keys@, key) {
            self.pressed_keys@
        } else {
            self.pressed_keys@.push(key)
        };
        let typed = Self { pressed_keys: new.pressed_keys, ..self };
        let texts = self.log.texts@;
        let t = self.target();
        &&& new.pressed_keys@ == keys
        &&& if self.session.start_typing {
            match key {
                Key::Enter => typed.committed_text(new, id),
                Key::GoBack => typed.committed_text(new, id),
                _ => {
                    &&& self.history_kept(new)
                    &&& new.session == self.session
                    &&& new.gesture == self.gesture
                    &&& new.outbox == self.outbox
                    &&& match key {
                        Key::Character(c) => if texts[t].pending {
                            text_edited(texts, new.log.texts@, t, texts[t].text@ + c@)
                        } else {
                            new.log.texts == self.log.texts
                        },
                        Key::Delete => text_edited(
                            texts,
                            new.log.texts@,
                            t,
                            without_last(texts[t].text@),
                        ),
                        Key::Backspace => if texts[t].pending {
                            text_edited(texts, new.log.texts@, t, without_last(texts[t].text@))
                        } else {
                            new.log.texts == self.log.texts
                        },
                        _ => new.log.texts == self.log.texts,
                    }
                }
            }
        } else if control_held(keys) && char_held(keys, seq!['z']) {
            typed.undone(new)
        } else {
            &&& new.log == self.log
            &&& new.session == self.session
            &&& new.gesture == self.gesture
            &&& new.outbox == self.outbox
        }
        &&& new.width == self.width
        &&& new.height == self.height
        &&& new.font_size == self.font_size
        &&& new.current_color == self.current_color
        &&& new.last_cursor_position == self.last_cursor_position
        &&& new.ctrl_click_is_secondary == self.ctrl_click_is_secondary
    }

    /// Appends `append` to the text of entry `t`, or, given `None`, takes
    /// its last character off.
    fn edit_text(&mut self, t: usize, append: Option<&str>)
        requires
            old(self).wf(),
            t < old(self).log.texts@.len(),
        ensures
            final(self).wf(),
            text_edited(
                old(self).log.texts@,
                final(self).log.texts@,
                t as int,
                match append {
                    Some(c) => old(self).log.texts@[t as int].text@ + c@,
                    None => without_last(old(self).log.texts@[t as int].text@),
                },
            ),
            old(self).history_kept(*final(self)),
            final(self).session == old(self).session,
            final(self).gesture == old(self).gesture,
            final(self).outbox == old(self).outbox,
            final(self).same_frame(old(self)),
    {
        let mut e = self.log.texts[t].snapshot();
        match append {
            Some(c) => push_text(&mut e.text, c),
            None => {
                pop_char(&mut e.text);
            },
        }
        self.log.texts.set(t, e);
    }

    pub fn key_pressed(&mut self, key: Key, id: ActionId)
        requires
            old(self).wf(),
        ensures
            final(self).wf(),
            old(self).pressed_key(*final(self), key, id),
    {
        press_key(&mut self.pressed_keys, &key);
        let ghost typed = *self;
        assert(typed == (Self { pressed_keys: typed.pressed_keys, ..*old(self) }));
        proof {
            reveal_strlit("z");
            assert("z"@ =~= seq!['z']);
        }
        if self.session.start_typing {
            let t = match self.session.editing_text_index {
                Some(i) => i,
                None => self.log.texts.len() - 1,
            };
            let pending = self.log.texts[t].pending;
            match &key {
                Key::Character(c) => {
                    if pending {
                        self.edit_text(t, Some(c.as_str()));
                    }
                },
                Key::Enter | Key::GoBack => self.commit_text(id),
                Key::Delete => self.edit_text(t, None),
                Key::Backspace => {
                    if pending {
                        self.edit_text(t, None);
                    }
                },
                _ => {},
            }
        } else if is_control_held(&self.pressed_keys) && is_char_held(&self.pressed_keys, "z") {
            self.undo();
        }
        assert(final(self).pressed_keys == typed.pressed_keys);
    }

    /// What a key release does: the key leaves the held keys, and a
    /// rectangle capture under way ends as `finish_rectangle` ends it.
    pub open spec fn released_key(self, new: Self, key: Key, id: ActionId) -> bool {
        &&& new.pressed_keys@ == self.pressed_keys@.filter(|x: Key| !x.same(key))
        &&& (Self { pressed_keys: new.pressed_keys, ..self }).finished_rectangle(new, id)
    }

    pub fn key_released(&mut self, key: Key, id: ActionId)
        requires
            old(self).wf(),
        ensures
            final(self).wf(),
            old(self).released_key(*final(self), key, id),
    {
        release_key(&mut self.pressed_keys, &key);
        self.finish_rectangle(id);
    }

    /// The session with the caret toggled when it is due.
    pub open spec fn blinked(self, new: Self, now: u64) -> bool {
        &&& new.session == if self.session.blink_due(now) {
            TextSession { cursor_visible: !self.session.cursor_visible, cursor_timer: now, ..self.session }
        } else {
            self.session
        }
        &&& new.log == self.log
        &&& new.gesture == self.gesture
        &&& new.outbox == self.outbox
        &&& new.same_frame(&self)
    }

    /// What a processing pass does: the caret blinks when due, and when no
    /// text is being typed and some action has not been handed to
    /// replication yet, one batch of all such actions, in log order, joins
    /// the outbox and every id of the log counts as sent. While typing
    /// nothing is flushed.
    pub open spec fn updated(self, new: Self, now: u64) -> bool {
        let pending = self.log.pending_delivery();
        &&& new.session == if self.session.blink_due(now) {
            TextSession { cursor_visible: !self.session.cursor_visible, cursor_timer: now, ..self.session }
        } else {
            self.session
        }
        &&& if self.session.start_typing || pending.len() == 0 {
            &&& new.log == self.log
            &&& new.outbox == self.outbox
        } else {
            &&& new.log.actions == self.log.actions
            &&& new.log.strokes == self.log.strokes
            &&& new.log.shapes == self.log.shapes
            &&& new.log.texts == self.log.texts
            &&& new.log.events_id@ == self.log.events_id@.union(ids_of(self.log.actions@).to_set())
            &&& new.outbox@.len() == self.outbox@.len() + 1
            &&& new.outbox@.drop_last() == self.outbox@
            &&& carries(new.outbox@.last(), pending, BatchKind::ActionRequest)
        }
        &&& new.gesture == self.gesture
        &&& new.same_frame(&self)
    }

    pub fn update(&mut self, now: u64)
        requires
            old(self).wf(),
        ensures
            final(self).wf(),
            old(self).updated(*final(self), now),
    {
        self.session.blink(now);
        if !self.session.start_typing {
            if let Some(batch) = self.log.flush() {
                self.outbox.push(batch);
                assert(self.outbox@.drop_last() =~= old(self).outbox@);
            }
        }
    }

    /// What `input_with_id` does with `event`, where `id` names the action
    /// it may commit, and `r` tells whether the event was taken.
    pub open spec fn handled(self, new: Self, event: InputEvent, id: ActionId, r: bool) -> bool {
        match event {
            InputEvent::Focused { now_ms, .. } => r && self.blinked(new, now_ms),
            InputEvent::CursorMoved { position } => r && self.moved_to(new, position),
            InputEvent::MouseInput { button, pressed, control, now_ms } => {
                let alias = button == MouseButton::Left && control && self.ctrl_click_is_secondary;
                if button == MouseButton::Other {
                    !r && new == self
                } else if button == MouseButton::Left && pressed && alias {
                    r && exists|mid: Self|
                        self.clicked_secondary(mid, now_ms, id) && #[trigger] mid.pressed_primary(
                            new,
                        )
                } else if button == MouseButton::Left && pressed {
                    r && self.pressed_primary(new)
                } else if button == MouseButton::Left {
                    r && self.released_primary(new, id)
                } else if button == MouseButton::Right && pressed {
                    r && self.clicked_secondary(new, now_ms, id)
                } else {
                    r && new == self
                }
            },
            InputEvent::KeyboardInput { key, pressed } => r && if pressed {
                self.pressed_key(new, key, id)
            } else {
                self.released_key(new, key, id)
            },
            InputEvent::Resized { width, height } => {
                &&& r
                &&& if width > 0 && height > 0 {
                    new == (Self { width, height, ..self })
                } else {
                    new == self
                }
            },
        }
    }

    /// Interprets one input event; `id` names the action it may commit.
    pub fn input_with_id(&mut self, event: InputEvent, id: ActionId) -> (r: bool)
        requires
            old(self).wf(),
        ensures
            final(self).wf(),
            old(self).handled(*final(self), event, id, r),
    {
        match event {
            InputEvent::Focused { now_ms, .. } => {
                self.session.blink(now_ms);
                true
            },
            InputEvent::CursorMoved { position } => {
                self.pointer_moved(position);
                true
            },
            InputEvent::MouseInput { button, pressed, control, now_ms } => {
                if button == MouseButton::Other {
                    return false;
                }
                let alias = button == MouseButton::Left && control && self.ctrl_click_is_secondary;
                if pressed && (button == MouseButton::Right || alias) {
                    self.secondary_click(now_ms, id);
                }
                let ghost mid = *self;
                if button == MouseButton::Left {
                    if pressed {
                        self.press_primary();
                    } else {
                        self.release_primary(id);
                    }
                }
                assert(alias && pressed ==> mid.pressed_primary(*self));
                true
            },
            InputEvent::KeyboardInput { key, pressed } => {
                if pressed {
                    self.key_pressed(key, id);
                } else {
                    self.key_released(key, id);
                }
                true
            },
            InputEvent::Resized { width, height } => {
                self.resize(width, height);
                true
            },
        }
    }

    /// Interprets one input event, naming any action it commits with a
    /// freshly drawn UUID.
    pub fn input(&mut self, event: InputEvent) -> (r: bool)
        requires
            old(self).wf(),
        ensures
            final(self).wf(),
            exists|id: ActionId| old(self).handled(*final(self), event, id, r),
    {
        let id = draw_id();
        self.input_with_id(event, id)
    }

    /// Hands the waiting batches to the caller, oldest first, and empties
    /// the outbox.
    pub fn take_outbox(&mut self) -> (r: Vec<PaintBatch>)
        ensures
            r@ == old(self).outbox@,
            final(self).outbox@ == Seq::<PaintBatch>::empty(),
            *final(self) == (Self { outbox: final(self).outbox, ..*old(self) }),
    {
        let mut r: Vec<PaintBatch> = Vec::new();
        std::mem::swap(&mut r, &mut self.outbox);
        r
    }

    /// The colour of what is drawn or typed next.
    pub fn set_current_color(&mut self, color: Rgba)
        ensures
            *final(self) == (Self { current_color: color, ..*old(self) }),
    {
        self.current_color = color;
    }

    /// The font size of the next text entry.
    pub fn set_font_size(&mut self, font_size: i32)
        ensures
            *final(self) == (Self { font_size, ..*old(self) }),
    {
        self.font_size = font_size;
    }

    /// Arms the rectangle tool for the next drag.
    pub fn arm_rectangle_tool(&mut self)
        ensures
            *final(self) == (Self {
                gesture: Gesture { create_rect: true, ..old(self).gesture },
                ..*old(self)
            }),
    {
        self.gesture.create_rect = true;
    }

    /// Records the laid-out bounds of text entry `index`; returns whether
    /// there is such an entry. Nothing else changes.
    pub fn set_text_bounds(&mut self, index: usize, bounds: Rect) -> (r: bool)
        requires
            old(self).wf(),
        ensures
            final(self).wf(),
            r == (index < old(self).log.texts@.len()),
            r ==> final(self).log.texts@ == old(self).log.texts@.update(
                index as int,
                TextEntries { bounds, ..old(self).log.texts@[index as int] },
            ),
            !r ==> final(self).log.texts == old(self).log.texts,
            old(self).history_kept(*final(self)),
            final(self).session == old(self).session,
            final(self).gesture == old(self).gesture,
            final(self).outbox == old(self).outbox,
            final(self).same_frame(old(self)),
    {
        if index >= self.log.texts.len() {
            return false;
        }
        let mut e = self.log.texts[index].snapshot();
        e.bounds = bounds;
        self.log.texts.set(index, e);
        true
    }
}

/// The vertices of a path drawn in `color`.
pub open spec fn path_vertices(path: Seq<Point>, color: Rgba) -> Seq<Vertex> {
    path.map_values(|p: Point| Vertex { position: p, color })
}

/// A drag draws its path. Take a press of the primary button with the
/// rectangle tool unarmed and `s` not held, moves through `path`, and a
/// release naming the new action `id`, each step as its handler states it.
/// With two points or more and `id` new to the log, the log gains exactly
/// one action: a stroke whose vertices are the points of `path` in order,
/// in the colour of the session.
pub proof fn lemma_drag_commits_path(states: Seq<WindowState>, path: Seq<Point>, id: ActionId)
    requires
        states.len() == path.len() + 3,
        path.len() >= 2,
        !states[0].gesture.create_rect,
        !char_held(states[0].pressed_keys@, seq!['s']),
        !states[0].log.known(id),
        states[0].pressed_primary(states[1]),
        forall|k: int| 0 <= k < path.len() ==> #[trigger] states[k + 1].moved_to(states[k + 2], path[k]),
        states[path.len() + 1 as int].released_primary(states[path.len() + 2 as int], id),
    ensures
        states.last().log.actions@.len() == states[0].log.actions@.len() + 1,
        states.last().log.actions@.drop_last() == states[0].log.actions@,
        states.last().log.actions@.last().id == id,
        states.last().log.actions@.last().action_type matches ActionType::Stroke(v) && v@
            == path_vertices(path, states[0].current_color),
{
    let n = path.len() as int;
    let color = states[0].current_color;
    assert forall|k: int| 0 <= k <= n implies {
        &&& (#[trigger] states[k + 1]).gesture.mouse_pressed
        &&& !states[k + 1].gesture.create_rect
        &&& states[k + 1].gesture.shape_positions@ == Seq::<Vertex>::empty()
        &&& states[k + 1].gesture.current_stroke@ == path_vertices(path.take(k), color)
        &&& states[k + 1].log == states[0].log
        &&& states[k + 1].current_color == color
    } by {
        lemma_drag_prefix(states, path, k);
    }
    let last = states[n + 1];
    assert(path.take(n) =~= path);
    assert(last.gesture.current_stroke@.len() == n);
    assert(states.last() == states[n + 2]);
}

proof fn lemma_drag_prefix(states: Seq<WindowState>, path: Seq<Point>, k: int)
    requires
        states.len() == path.len() + 3,
        !states[0].gesture.create_rect,
        !char_held(states[0].pressed_keys@, seq!['s']),
        states[0].pressed_primary(states[1]),
        forall|j: int| 0 <= j < path.len() ==> #[trigger] states[j + 1].moved_to(states[j + 2], path[j]),
        0 <= k <= path.len(),
    ensures
        states[k + 1].gesture.mouse_pressed,
        !states[k + 1].gesture.create_rect,
        states[k + 1].gesture.shape_positions@ == Seq::<Vertex>::empty(),
        states[k + 1].gesture.current_stroke@ == path_vertices(path.take(k), states[0].current_color),
        states[k + 1].log == states[0].log,
        states[k + 1].current_color == states[0].current_color,
    decreases k,
{
    let color = states[0].current_color;
    if k == 0 {
        assert(path_vertices(path.take(0), color) =~= Seq::<Vertex>::empty());
    } else {
        lemma_drag_prefix(states, path, k - 1);
        assert(states[(k - 1) + 1].moved_to(states[(k - 1) + 2], path[k - 1]));
        assert(path_vertices(path.take(k), color) =~= path_vertices(path.take(k - 1), color).push(
            Vertex { position: path[k - 1], color },
        ));
    }
}

/// A double click re-opens the entry it lands on. Take a secondary press
/// at `p1` and time `t1`, a move of the pointer to `p2`, and a second
/// secondary press at time `t2`, each step as its handler states it. When
/// the second press follows within the time and distance limits and lands
/// inside an entry's bounds, typing goes on in the first such entry, which
/// is open again, and no entry is created.
pub proof fn lemma_double_click_reopens_entry(
    s0: WindowState,
    s1: WindowState,
    s2: WindowState,
    s3: WindowState,
    p2: Point,
    t1: u64,
    t2: u64,
    id1: ActionId,
    id2: ActionId,
)
    requires
        s2.wf(),
        s0.clicked_secondary(s1, t1, id1),
        s1.moved_to(s2, p2),
        s2.clicked_secondary(s3, t2, id2),
        t2 <= t1 + crate::text::DOUBLE_CLICK_THRESHOLD_MS,
        ({
            let p1 = s0.last_cursor_position;
            (p2.x - p1.x) * (p2.x - p1.x) + (p2.y - p1.y) * (p2.y - p1.y) <= 25
        }),
        any_hit(s2.log.texts@, p2),
    ensures
        s3.session.start_typing,
        s3.session.editing_text_index matches Some(i) && is_first_hit(s2.log.texts@, p2, i as int)
            && s3.log.texts@[i as int].pending,
        s3.log.texts@.len() == s2.log.texts@.len(),
{
    assert(s2.session.last_click_time == Some(t1));
    assert(s2.session.last_click_position == Some(s0.last_cursor_position));
    assert(spec_is_double_click(t2, p2, Some(t1), Some(s0.last_cursor_position)));
    assert(s2.texts_after_commit().len() == s2.log.texts@.len());
}

/// From idle, a secondary press that is not a double click onto an entry
/// starts a new, empty entry at the pointer, and typing goes to it.
pub proof fn lemma_click_outside_starts_entry(s0: WindowState, s1: WindowState, now: u64, id: ActionId)
    requires
        !s0.session.start_typing,
        s0.clicked_secondary(s1, now, id),
        !spec_is_double_click(
            now,
            s0.last_cursor_position,
            s0.session.last_click_time,
            s0.session.last_click_position,
        ) || !any_hit(s0.log.texts@, s0.last_cursor_position),
    ensures
        s1.log.texts@.len() == s0.log.texts@.len() + 1,
        s1.log.texts@.drop_last() == s0.log.texts@,
        s1.log.texts@.last().position == s0.last_cursor_position,
        s1.log.texts@.last().text@ == Seq::<char>::empty(),
        s1.log.texts@.last().pending,
        s1.session.start_typing,
        s1.session.editing_text_index is None,
        s1.log.actions == s0.log.actions,
{
}

/// Whether `keys` holds the character key that produces `c`.
pub fn is_char_held(keys: &Vec<Key>, c: &str) -> (r: bool)
    ensures
        r == char_held(keys@, c@),
{
    let wanted = c.to_owned();
    let mut i: usize = 0;
    while i < keys.len()
        invariant
            i <= keys@.len(),
            wanted@ == c@,
            forall|j: int|
                0 <= j < i ==> !((#[trigger] keys@[j]) is Character && keys@[j]->Character_0@ == c@),
        decreases keys.len() - i,
    {
        if let Key::Character(s) = &keys[i] {
            if *s == wanted {
                return true;
            }
        }
        i = i + 1;
    }
    false
}

/// Whether `keys` holds the control key.
pub fn is_control_held(keys: &Vec<Key>) -> (r: bool)
    ensures
        r == control_held(keys@),
{
    let mut i: usize = 0;
    while i < keys.len()
        invariant
            i <= keys@.len(),
            forall|j: int| 0 <= j < i ==> !((#[trigger] keys@[j]) is Control),
        decreases keys.len() - i,
    {
        if let Key::Control = &keys[i] {
            return true;
        }
        i = i + 1;
    }
    false
}

} // verus!
