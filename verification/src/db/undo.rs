//! The undo log: the mutations made, with a cursor that parts those still in
//! effect from those taken back.

use vstd::prelude::*;
use crate::db::kv::{store_apply, store_apply_all, store_get, Mutation, MutationView, Store};

verus! {

/// The record of one mutation, with what it needs to be taken back.
#[derive(Clone, Debug)]
pub enum Op {
    /// `key` of space `db` was set to `new`; it held `prev` before.
    Put { db: String, key: String, prev: Option<Vec<u8>>, new: Vec<u8> },
    /// `key` of space `db` was deleted; it held `prev` before.
    Delete { db: String, key: String, prev: Option<Vec<u8>> },
}

/// A record as a mathematical value.
pub enum OpView {
    Put { db: Seq<char>, key: Seq<char>, prev: Option<Seq<u8>>, new: Seq<u8> },
    Delete { db: Seq<char>, key: Seq<char>, prev: Option<Seq<u8>> },
}

/// The bytes of an optional value.
pub open spec fn bytes_view(value: Option<Vec<u8>>) -> Option<Seq<u8>> {
    match value {
        Some(v) => Some(v@),
        None => None,
    }
}

impl View for Op {
    type V = OpView;

    open spec fn view(&self) -> OpView {
        match self {
            Op::Put { db, key, prev, new } => OpView::Put {
                db: db@,
                key: key@,
                prev: bytes_view(*prev),
                new: new@,
            },
            Op::Delete { db, key, prev } => OpView::Delete {
                db: db@,
                key: key@,
                prev: bytes_view(*prev),
            },
        }
    }
}

/// The records of a sequence of `Op`s.
pub open spec fn ops_view(ops: Seq<Op>) -> Seq<OpView> {
    Seq::new(ops.len(), |i: int| ops[i]@)
}

/// The write that takes `op` back.
pub open spec fn op_inverse(op: OpView) -> MutationView {
    match op {
        OpView::Put { db, key, prev: Some(v), .. } => MutationView::Put { db, key, value: v },
        OpView::Put { db, key, prev: None, .. } => MutationView::Delete { db, key },
        OpView::Delete { db, key, prev: Some(v) } => MutationView::Put { db, key, value: v },
        OpView::Delete { prev: None, .. } => MutationView::Nothing,
    }
}

/// The write that makes `op` again.
pub open spec fn op_forward(op: OpView) -> MutationView {
    match op {
        OpView::Put { db, key, new, .. } => MutationView::Put { db, key, value: new },
        OpView::Delete { db, key, .. } => MutationView::Delete { db, key },
    }
}

/// The record that a write leaves when it is made on `store`: a put or a
/// delete with the value that its key held just before. `Nothing` leaves no
/// record.
pub open spec fn op_recorded(store: Store, mutation: MutationView) -> Option<OpView> {
    match mutation {
        MutationView::Put { db, key, value } => Some(
            OpView::Put { db, key, prev: store_get(store, db, key), new: value },
        ),
        MutationView::Delete { db, key } => Some(
            OpView::Delete { db, key, prev: store_get(store, db, key) },
        ),
        MutationView::Nothing => None,
    }
}

/// The records that the writes of `mutations` leave when they are made in
/// order, starting on `store`.
pub open spec fn ops_recorded(store: Store, mutations: Seq<MutationView>) -> Seq<OpView>
    decreases mutations.len(),
{
    if mutations.len() == 0 {
        Seq::empty()
    } else {
        let before = ops_recorded(store, mutations.drop_last());
        match op_recorded(store_apply_all(store, mutations.drop_last()), mutations.last()) {
            Some(op) => before.push(op),
            None => before,
        }
    }
}

/// The store after every record of `ops` was taken back, the last one first.
pub open spec fn store_undo_all(store: Store, ops: Seq<OpView>) -> Store
    decreases ops.len(),
{
    if ops.len() == 0 {
        store
    } else {
        store_undo_all(store_apply(store, op_inverse(ops.last())), ops.drop_last())
    }
}

/// The store after every record of `ops` was made again, the first one
/// first.
pub open spec fn store_redo_all(store: Store, ops: Seq<OpView>) -> Store
    decreases ops.len(),
{
    if ops.len() == 0 {
        store
    } else {
        store_apply(store_redo_all(store, ops.drop_last()), op_forward(ops.last()))
    }
}

/// Taking back a write that was just made and recorded leaves the store as it
/// was before the write, and making it again leaves the store as the write
/// left it.
pub proof fn lemma_undo_then_redo_one(store: Store, mutation: MutationView)
    requires
        !(mutation is Nothing),
    ensures
        store_apply(
            store_apply(store, mutation),
            op_inverse(op_recorded(store, mutation)->0),
        ) == store,
        store_apply(store, op_forward(op_recorded(store, mutation)->0)) == store_apply(
            store,
            mutation,
        ),
{
    let after = store_apply(store, mutation);
    let op = op_recorded(store, mutation)->0;
    assert(store_apply(after, op_inverse(op)) =~= store);
}

/// The undo law. When any sequence of writes is made on a store and each is
/// recorded with the value its key held just before, taking all records back,
/// the last one first, gives the store as it was before the first write; and
/// making them all again from there, the first one first, gives the store as
/// it was after the last write.
pub proof fn lemma_undo_all_then_redo_all(store: Store, mutations: Seq<MutationView>)
    ensures
        store_undo_all(store_apply_all(store, mutations), ops_recorded(store, mutations))
            == store,
        store_redo_all(store, ops_recorded(store, mutations)) == store_apply_all(
            store,
            mutations,
        ),
    decreases mutations.len(),
{
    if mutations.len() > 0 {
        let head = mutations.drop_last();
        let last = mutations.last();
        let mid = store_apply_all(store, head);
        lemma_undo_all_then_redo_all(store, head);
        if !(last is Nothing) {
            let op = op_recorded(mid, last)->0;
            let ops = ops_recorded(store, mutations);
            lemma_undo_then_redo_one(mid, last);
            assert(ops.last() == op);
            assert(ops.drop_last() =~= ops_recorded(store, head));
        }
    }
}

/// The log as a mathematical value: its records and its cursor.
pub struct UndoView {
    /// Every record, oldest first.
    pub ops: Seq<OpView>,
    /// The records below this position are in effect; those from it on were
    /// taken back and can be made again.
    pub pos: nat,
}

/// The log of mutations with its cursor.
pub struct UndoStack {
    ops: Vec<Op>,
    pos: usize,
}

impl View for UndoStack {
    type V = UndoView;

    closed spec fn view(&self) -> UndoView {
        UndoView { ops: ops_view(self.ops@), pos: self.pos as nat }
    }
}

/// Clones an optional value.
fn clone_bytes(value: &Option<Vec<u8>>) -> (r: Option<Vec<u8>>)
    ensures
        bytes_view(r) == bytes_view(*value),
{
    match value {
        Some(v) => Some(v.clone()),
        None => None,
    }
}

impl UndoStack {
    /// The cursor lies within the log.
    pub closed spec fn wf(&self) -> bool {
        self.pos <= self.ops@.len()
    }

    /// In a well-formed log the cursor is at most the number of records.
    pub proof fn lemma_cursor_in_range(&self)
        requires
            self.wf(),
        ensures
            self@.pos <= self@.ops.len(),
    {
    }

    /// An empty log.
    pub fn new() -> (r: Self)
        ensures
            r.wf(),
            r@.ops == Seq::<OpView>::empty(),
            r@.pos == 0,
    {
        let r = UndoStack { ops: Vec::new(), pos: 0 };
        assert(r@.ops =~= Seq::<OpView>::empty());
        r
    }

    /// Whether a record is in effect that can be taken back.
    pub fn can_undo(&self) -> (r: bool)
        requires
            self.wf(),
        ensures
            r == (self@.pos > 0),
            self@.pos <= self@.ops.len(),
    {
        self.pos > 0
    }

    /// Whether a record was taken back that can be made again.
    pub fn can_redo(&self) -> (r: bool)
        requires
            self.wf(),
        ensures
            r == (self@.pos < self@.ops.len()),
            self@.pos <= self@.ops.len(),
    {
        self.pos < self.ops.len()
    }

    /// The number of records that can be taken back.
    pub fn undo_count(&self) -> (n: usize)
        requires
            self.wf(),
        ensures
            n == self@.pos,
            n <= self@.ops.len(),
    {
        self.pos
    }

    /// The number of records that can be made again.
    pub fn redo_count(&self) -> (n: usize)
        requires
            self.wf(),
        ensures
            n == self@.ops.len() - self@.pos,
    {
        self.ops.len() - self.pos
    }

    /// Appends `op` behind the records in effect. Records that were taken
    /// back are dropped first; afterwards nothing can be made again.
    pub fn push(&mut self, op: Op)
        requires
            old(self).wf(),
        ensures
            final(self).wf(),
            final(self)@.ops == old(self)@.ops.take(old(self)@.pos as int).push(op@),
            final(self)@.pos == final(self)@.ops.len(),
            final(self)@.pos == old(self)@.pos + 1,
    {
        if self.pos < self.ops.len() {
            self.ops.truncate(self.pos);
        }
        self.ops.push(op);
        self.pos = self.ops.len();
        assert(self@.ops =~= old(self)@.ops.take(old(self)@.pos as int).push(op@));
    }

    /// The write that takes back the newest record in effect; `None` where
    /// no record is in effect. The log is left as it is: `undo` moves the
    /// cursor once the write was made.
    pub fn pending_undo(&self) -> (r: Option<Mutation>)
        requires
            self.wf(),
        ensures
            self@.pos <= self@.ops.len(),
            match r {
                Some(m) => self@.pos > 0 && m@ == op_inverse(self@.ops[self@.pos - 1]),
                None => self@.pos == 0,
            },
    {
        if self.pos == 0 {
            return None;
        }
        let m = match &self.ops[self.pos - 1] {
            Op::Put { db, key, prev, .. } => match prev {
                Some(v) => Mutation::Put { db: db.clone(), key: key.clone(), value: v.clone() },
                None => Mutation::Delete { db: db.clone(), key: key.clone() },
            },
            Op::Delete { db, key, prev } => match prev {
                Some(v) => Mutation::Put { db: db.clone(), key: key.clone(), value: v.clone() },
                None => Mutation::Nothing,
            },
        };
        Some(m)
    }

    /// The write that makes the oldest record taken back again; `None` where
    /// no record was taken back. The log is left as it is: `redo` moves the
    /// cursor once the write was made.
    pub fn pending_redo(&self) -> (r: Option<Mutation>)
        requires
            self.wf(),
        ensures
            self@.pos <= self@.ops.len(),
            match r {
                Some(m) => self@.pos < self@.ops.len() && m@ == op_forward(
                    self@.ops[self@.pos as int],
                ),
                None => self@.pos == self@.ops.len(),
            },
    {
        if self.pos == self.ops.len() {
            return None;
        }
        let m = match &self.ops[self.pos] {
            Op::Put { db, key, new, .. } => Mutation::Put {
                db: db.clone(),
                key: key.clone(),
                value: new.clone(),
            },
            Op::Delete { db, key, .. } => Mutation::Delete { db: db.clone(), key: key.clone() },
        };
        Some(m)
    }

    /// Moves the cursor back over the newest record in effect, once its
    /// inverse was written. Returns `false`, and changes nothing, where no
    /// record is in effect.
    pub fn undo(&mut self) -> (moved: bool)
        requires
            old(self).wf(),
        ensures
            final(self).wf(),
            moved == (old(self)@.pos > 0),
            final(self)@.ops == old(self)@.ops,
            final(self)@.pos == if moved { (old(self)@.pos - 1) as nat } else { old(self)@.pos },
            final(self)@.pos <= final(self)@.ops.len(),
    {
        if self.pos == 0 {
            return false;
        }
        self.pos -= 1;
        true
    }

    /// Moves the cursor forward over the oldest record taken back, once it
    /// was written again. Returns `false`, and changes nothing, where no
    /// record was taken back.
    pub fn redo(&mut self) -> (moved: bool)
        requires
            old(self).wf(),
        ensures
            final(self).wf(),
            moved == (old(self)@.pos < old(self)@.ops.len()),
            final(self)@.ops == old(self)@.ops,
            final(self)@.pos == if moved { old(self)@.pos + 1 } else { old(self)@.pos },
            final(self)@.pos <= final(self)@.ops.len(),
    {
        if self.pos == self.ops.len() {
            return false;
        }
        self.pos += 1;
        true
    }
}

impl Default for UndoStack {
    fn default() -> (r: Self)
        ensures
            r.wf(),
            r@.ops == Seq::<OpView>::empty(),
            r@.pos == 0,
    {
        UndoStack::new()
    }
}

} // verus!
