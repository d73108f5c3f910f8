use crate::structs::{copy_vertices, Action, ActionId, ActionType, Rectangle, TextEntries, Vertex};
use crate::wire::{carries, empty_batch, to_wire, BatchKind, PaintBatch};
use std::collections::HashSet;
use vstd::prelude::*;
use vstd::std_specs::hash::group_hash_axioms;

verus! {

broadcast use group_hash_axioms;

/// The ids of a sequence of actions, in order.
pub open spec fn ids_of(s: Seq<Action>) -> Seq<u128> {
    s.map_values(|a: Action| a.id.value)
}

/// The strokes among `s`, in order.
pub open spec fn strokes_of(s: Seq<Action>) -> Seq<Seq<Vertex>>
    decreases s.len(),
{
    if s.len() == 0 {
        Seq::empty()
    } else {
        let before = strokes_of(s.drop_last());
        match s.last().action_type {
            ActionType::Stroke(v) => before.push(v@),
            _ => before,
        }
    }
}

/// The rectangles among `s`, in order.
pub open spec fn shapes_of(s: Seq<Action>) -> Seq<Rectangle>
    decreases s.len(),
{
    if s.len() == 0 {
        Seq::empty()
    } else {
        let before = shapes_of(s.drop_last());
        match s.last().action_type {
            ActionType::Shapes(r) => before.push(r),
            _ => before,
        }
    }
}

/// The actions of `s` whose ids are not in `sent`, in order.
pub open spec fn unsent(s: Seq<Action>, sent: Set<u128>) -> Seq<Action>
    decreases s.len(),
{
    if s.len() == 0 {
        Seq::empty()
    } else {
        let before = unsent(s.drop_last(), sent);
        if sent.contains(s.last().id.value) {
            before
        } else {
            before.push(s.last())
        }
    }
}

/// `s` without its last element; the empty sequence stays empty.
pub open spec fn without_last<A>(s: Seq<A>) -> Seq<A> {
    if s.len() == 0 {
        s
    } else {
        s.drop_last()
    }
}

/// The ordered history of committed actions, the collections derived from
/// it for drawing, and the ids already handed to replication.
pub struct ActionLog {
    pub actions: Vec<Action>,
    pub strokes: Vec<Vec<Vertex>>,
    pub shapes: Vec<Rectangle>,
    /// Every text label on the canvas, the one being typed included.
    pub texts: Vec<TextEntries>,
    /// Ids of the actions already scheduled for delivery.
    pub events_id: HashSet<u128>,
}

impl ActionLog {
    /// Ids are unique, and the stroke and rectangle collections mirror the log.
    pub open spec fn wf(&self) -> bool {
        &&& ids_of(self.actions@).no_duplicates()
        &&& self.strokes@.map_values(|v: Vec<Vertex>| v@) == strokes_of(self.actions@)
        &&& self.shapes@ == shapes_of(self.actions@)
    }

    /// The log or the sent-id set already holds `id`.
    pub open spec fn known(&self, id: ActionId) -> bool {
        ids_of(self.actions@).contains(id.value) || self.events_id@.contains(id.value)
    }

    /// The actions that replication has not been handed yet.
    pub open spec fn pending_delivery(&self) -> Seq<Action> {
        unsent(self.actions@, self.events_id@)
    }

    pub fn new() -> (r: Self)
        ensures
            r.wf(),
            r.actions@ == Seq::<Action>::empty(),
            r.texts@ == Seq::<TextEntries>::empty(),
            r.events_id@ == Set::<u128>::empty(),
    {
        let r = ActionLog {
            actions: Vec::new(),
            strokes: Vec::new(),
            shapes: Vec::new(),
            texts: Vec::new(),
            events_id: HashSet::new(),
        };
        assert(ids_of(r.actions@) =~= Seq::empty());
        assert(r.strokes@.map_values(|v: Vec<Vertex>| v@) =~= Seq::empty());
        r
    }

    pub fn len(&self) -> (r: usize)
        ensures
            r == self.actions@.len(),
    {
        self.actions.len()
    }

    pub fn is_known(&self, id: ActionId) -> (r: bool)
        ensures
            r == self.known(id),
    {
        if self.events_id.contains(&id.value) {
            return true;
        }
        let mut i: usize = 0;
        while i < self.actions.len()
            invariant
                i <= self.actions@.len(),
                forall|j: int| 0 <= j < i ==> self.actions@[j].id.value != id.value,
            decreases self.actions.len() - i,
        {
            if self.actions[i].id.value == id.value {
                assert(ids_of(self.actions@)[i as int] == id.value);
                return true;
            }
            i = i + 1;
        }
        assert(!ids_of(self.actions@).contains(id.value)) by {
            if ids_of(self.actions@).contains(id.value) {
                let j = choose|j: int| 0 <= j < ids_of(self.actions@).len()
                    && ids_of(self.actions@)[j] == id.value;
                assert(self.actions@[j].id.value == id.value);
            }
        }
        false
    }

    /// Appends `action` and its entry in the matching derived collection,
    /// unless its id is already known, in which case nothing changes.
    pub fn append(&mut self, action: Action) -> (r: bool)
        requires
            old(self).wf(),
        ensures
            final(self).wf(),
            r == !old(self).known(action.id),
            r ==> final(self).actions@ == old(self).actions@.push(action),
            !r ==> final(self).actions@ == old(self).actions@,
            final(self).texts == old(self).texts,
            final(self).events_id == old(self).events_id,
    {
        if self.is_known(action.id) {
            return false;
        }
        let ghost pre = self.actions@;
        let ghost strokes_pre = self.strokes@;
        match &action.action_type {
            ActionType::Stroke(v) => {
                self.strokes.push(copy_vertices(v));
            },
            ActionType::Shapes(s) => {
                self.shapes.push(*s);
            },
            ActionType::Text(_) => {},
        }
        self.actions.push(action);
        proof {
            let post = self.actions@;
            assert(post.drop_last() =~= pre);
            assert(ids_of(post) =~= ids_of(pre).push(action.id.value));
            assert(!ids_of(pre).contains(action.id.value));
            assert(self.strokes@.map_values(|v: Vec<Vertex>| v@) =~= strokes_of(post));
            assert(self.shapes@ =~= shapes_of(post));
        }
        true
    }

    /// Removes the newest action and its entry in the matching derived
    /// collection, and returns it; on an empty log nothing changes. The
    /// sent-id set is left as it is.
    pub fn undo(&mut self) -> (r: Option<Action>)
        requires
            old(self).wf(),
        ensures
            final(self).wf(),
            old(self).actions@.len() == 0 ==> r.is_none() && *final(self) == *old(self),
            old(self).actions@.len() > 0 ==> {
                &&& r == Some(old(self).actions@.last())
                &&& final(self).actions@ == old(self).actions@.drop_last()
                &&& final(self).texts@ == if old(self).actions@.last().action_type is Text {
                    without_last(old(self).texts@)
                } else {
                    old(self).texts@
                }
            },
            final(self).events_id == old(self).events_id,
    {
        if self.actions.len() == 0 {
            return None;
        }
        let ghost pre = self.actions@;
        let ghost strokes_pre = self.strokes@;
        match self.actions.pop() {
            None => None,
            Some(action) => {
                match &action.action_type {
                    ActionType::Stroke(_) => {
                        self.strokes.pop();
                    },
                    ActionType::Shapes(_) => {
                        self.shapes.pop();
                    },
                    ActionType::Text(_) => {
                        self.texts.pop();
                    },
                }
                proof {
                    let post = self.actions@;
                    assert(post =~= pre.drop_last());
                    assert(ids_of(post) =~= ids_of(pre).drop_last());
                    assert(pre.last() == action);
                    assert(pre.drop_last() == post);
                    if action.action_type is Stroke {
                        assert(strokes_of(pre) == strokes_of(post).push(
                            action.action_type->Stroke_0@));
                        assert(strokes_pre.map_values(|v: Vec<Vertex>| v@).len() > 0);
                        assert(self.strokes@ =~= strokes_pre.drop_last());
                        assert(strokes_pre.map_values(|v: Vec<Vertex>| v@).drop_last()
                            =~= self.strokes@.map_values(|v: Vec<Vertex>| v@));
                    }
                    if old(self).texts@.len() == 0 {
                        assert(self.texts@ =~= old(self).texts@);
                    }
                    assert(self.strokes@.map_values(|v: Vec<Vertex>| v@) =~= strokes_of(post));
                    assert(self.shapes@ =~= shapes_of(post));
                    if !(action.action_type is Text) {
                        assert(self.texts@ =~= old(self).texts@);
                    }
                }
                Some(action)
            },
        }
    }

    /// Gathers every action that replication has not been handed yet into one
    /// batch, in log order, and marks every id of the log as sent. With
    /// nothing to send it returns `None` and changes nothing.
    pub fn flush(&mut self) -> (r: Option<PaintBatch>)
        requires
            old(self).wf(),
        ensures
            final(self).wf(),
            final(self).actions == old(self).actions,
            final(self).strokes == old(self).strokes,
            final(self).shapes == old(self).shapes,
            final(self).texts == old(self).texts,
            old(self).pending_delivery().len() == 0 ==> r.is_none() && final(self).events_id
                == old(self).events_id,
            old(self).pending_delivery().len() > 0 ==> {
                &&& r is Some
                &&& carries(r->0, old(self).pending_delivery(), BatchKind::ActionRequest)
                &&& final(self).events_id@ == old(self).events_id@.union(
                    ids_of(old(self).actions@).to_set(),
                )
            },
    {
        let ghost sent = self.events_id@;
        let ghost all = self.actions@;
        let mut b = empty_batch(BatchKind::ActionRequest);
        let mut i: usize = 0;
        assert(all.subrange(0, 0) =~= Seq::<Action>::empty());
        while i < self.actions.len()
            invariant
                i <= all.len(),
                all == self.actions@,
                self.actions == old(self).actions,
                self.strokes == old(self).strokes,
                self.shapes == old(self).shapes,
                self.texts == old(self).texts,
                sent == self.events_id@,
                carries(b, unsent(all.subrange(0, i as int), sent), BatchKind::ActionRequest),
            decreases self.actions.len() - i,
        {
            let a = &self.actions[i];
            proof {
                assert(all.subrange(0, i + 1).drop_last() =~= all.subrange(0, i as int));
                assert(all.subrange(0, i + 1).last() == all[i as int]);
            }
            if !self.events_id.contains(&a.id.value) {
                b.actions.push(to_wire(a));
            }
            i = i + 1;
        }
        assert(all.subrange(0, all.len() as int) =~= all);
        if b.actions.len() == 0 {
            return None;
        }
        let mut k: usize = 0;
        while k < self.actions.len()
            invariant
                k <= all.len(),
                all == self.actions@,
                self.actions == old(self).actions,
                self.strokes == old(self).strokes,
                self.shapes == old(self).shapes,
                self.texts == old(self).texts,
                self.events_id@ == sent.union(ids_of(all.subrange(0, k as int)).to_set()),
            decreases self.actions.len() - k,
        {
            let id = self.actions[k].id.value;
            self.events_id.insert(id);
            k = k + 1;
            assert(ids_of(all.subrange(0, k as int)) =~= ids_of(all.subrange(0, k - 1)).push(id));
            proof {
                ids_of(all.subrange(0, k - 1)).lemma_push_to_set_commute(id);
            }
            assert(self.events_id@ =~= sent.union(ids_of(all.subrange(0, k as int)).to_set()));
        }
        assert(all.subrange(0, all.len() as int) =~= all);
        Some(b)
    }
}

/// Every action that `unsent` keeps is an action of `s` whose id is not in
/// `sent`.
pub proof fn lemma_unsent_members(s: Seq<Action>, sent: Set<u128>)
    ensures
        forall|i: int|
            0 <= i < unsent(s, sent).len() ==> {
                &&& s.contains(#[trigger] unsent(s, sent)[i])
                &&& !sent.contains(unsent(s, sent)[i].id.value)
            },
    decreases s.len(),
{
    if s.len() > 0 {
        lemma_unsent_members(s.drop_last(), sent);
        let before = unsent(s.drop_last(), sent);
        assert forall|i: int| 0 <= i < unsent(s, sent).len() implies {
            &&& s.contains(#[trigger] unsent(s, sent)[i])
            &&& !sent.contains(unsent(s, sent)[i].id.value)
        } by {
            if i < before.len() {
                assert(unsent(s, sent)[i] == before[i]);
                let j = choose|j: int| 0 <= j < s.drop_last().len() && s.drop_last()[j] == before[i];
                assert(s[j] == before[i]);
            } else {
                assert(unsent(s, sent)[i] == s.last());
                assert(s[s.len() - 1] == s.last());
            }
        }
    }
}

/// A flush sends only what was not sent: no action of the batch that
/// `flush` gathers from `s` has an id in `sent`, and every id it carries
/// is in the sent-id set that `flush` leaves.
pub proof fn lemma_flush_sends_only_unsent(s: Seq<Action>, sent: Set<u128>)
    ensures
        forall|i: int|
            0 <= i < unsent(s, sent).len() ==> {
                &&& !sent.contains(#[trigger] unsent(s, sent)[i].id.value)
                &&& sent.union(ids_of(s).to_set()).contains(unsent(s, sent)[i].id.value)
            },
{
    lemma_unsent_members(s, sent);
    assert forall|i: int| 0 <= i < unsent(s, sent).len() implies sent.union(
        ids_of(s).to_set(),
    ).contains(#[trigger] unsent(s, sent)[i].id.value) by {
        let a = unsent(s, sent)[i];
        assert(s.contains(a));
        let j = choose|j: int| 0 <= j < s.len() && s[j] == a;
        assert(ids_of(s)[j] == a.id.value);
        assert(ids_of(s).contains(a.id.value));
    }
}

/// `states[k]` is the history after `k` undos, as `ActionLog::undo` states
/// them: each removes the newest action and returns it as `returned[k]`.
pub open spec fn undo_chain(states: Seq<Seq<Action>>, returned: Seq<Action>) -> bool {
    &&& states.len() == returned.len() + 1
    &&& forall|k: int|
        0 <= k < returned.len() && states[k].len() > 0 ==> {
            &&& states[k + 1] == states[k].drop_last()
            &&& #[trigger] returned[k] == states[k].last()
        }
}

proof fn lemma_undo_chain_prefix(states: Seq<Seq<Action>>, returned: Seq<Action>, k: int)
    requires
        undo_chain(states, returned),
        returned.len() == states[0].len(),
        0 <= k <= returned.len(),
    ensures
        states[k] == states[0].subrange(0, states[0].len() - k),
    decreases k,
{
    if k > 0 {
        lemma_undo_chain_prefix(states, returned, k - 1);
        assert(returned[k - 1] == states[k - 1].last());
        assert(states[k] == states[k - 1].drop_last());
        assert(states[k] =~= states[0].subrange(0, states[0].len() - k));
    } else {
        assert(states[0] =~= states[0].subrange(0, states[0].len() as int));
    }
}

/// Undo is last-in, first-out: undoing as many times as the log holds
/// actions empties it, and the undone actions come back newest first, so
/// their ids are the log's ids in reverse.
pub proof fn lemma_undo_is_lifo(states: Seq<Seq<Action>>, returned: Seq<Action>)
    requires
        undo_chain(states, returned),
        returned.len() == states[0].len(),
    ensures
        states.last().len() == 0,
        ids_of(returned) == ids_of(states[0]).reverse(),
{
    let n = returned.len();
    lemma_undo_chain_prefix(states, returned, n as int);
    assert forall|k: int| 0 <= k < n implies #[trigger] returned[k] == states[0][n - 1 - k] by {
        lemma_undo_chain_prefix(states, returned, k);
        assert(states[k].len() == n - k);
        assert(returned[k] == states[k].last());
    }
    assert(ids_of(returned) =~= ids_of(states[0]).reverse());
}

} // verus!
