use crate::ids::{hyphenated, id_text};
use crate::structs::{Action, ActionType};
use vstd::prelude::*;

verus! {

/// Whether a batch carries new actions or withdraws an undone one.
#[derive(Clone, Copy, Debug, PartialEq, Eq, Structural)]
pub enum BatchKind {
    ActionRequest,
    IsDeleted,
}

/// One action as it is sent: its id in text form and its payload.
#[derive(Clone, Debug)]
pub struct WireAction {
    pub id: String,
    pub payload: ActionType,
}

/// One outbound paint event: a room, the actions, and what they mean.
/// The send time is stamped by the transport.
#[derive(Clone, Debug)]
pub struct PaintBatch {
    pub room: String,
    pub actions: Vec<WireAction>,
    pub kind: BatchKind,
}

/// The logical channel every batch is sent to.
pub open spec fn room_name() -> Seq<char> {
    seq!['g', 'e', 'n', 'e', 'r', 'a', 'l']
}

/// `w` is the sent form of `a`.
pub open spec fn wire_of(w: WireAction, a: Action) -> bool {
    &&& w.id@ == hyphenated(a.id.value)
    &&& w.payload.same_as(a.action_type)
}

/// `b` is a batch of `kind` that carries `s`, in order.
pub open spec fn carries(b: PaintBatch, s: Seq<Action>, kind: BatchKind) -> bool {
    &&& b.room@ == room_name()
    &&& b.kind == kind
    &&& b.actions@.len() == s.len()
    &&& forall|i: int| 0 <= i < s.len() ==> wire_of(#[trigger] b.actions@[i], s[i])
}

/// The sent form of an action.
pub fn to_wire(a: &Action) -> (w: WireAction)
    ensures
        wire_of(w, *a),
{
    WireAction { id: id_text(a.id), payload: a.action_type.snapshot() }
}

/// An empty batch of `kind`.
pub fn empty_batch(kind: BatchKind) -> (b: PaintBatch)
    ensures
        carries(b, Seq::empty(), kind),
{
    let room = "general".to_owned();
    proof {
        reveal_strlit("general");
        assert(room@ =~= room_name());
    }
    PaintBatch { room, actions: Vec::new(), kind }
}

/// The batch that withdraws one undone action.
pub fn delete_batch(a: &Action) -> (b: PaintBatch)
    ensures
        carries(b, seq![*a], BatchKind::IsDeleted),
{
    let mut b = empty_batch(BatchKind::IsDeleted);
    b.actions.push(to_wire(a));
    b
}

} // verus!
