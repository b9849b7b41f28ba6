//! Writes to the store, and the model of a store by which their effect is
//! stated.
//!
//! The store itself is kept by the program around this library. The library
//! decides which writes are made and says here what each of them does.

use vstd::prelude::*;

verus! {

/// A write that the store is asked to perform.
#[derive(Debug)]
pub enum Mutation {
    /// Set `key` in space `db` to `value`, whatever it held.
    Put { db: String, key: String, value: Vec<u8> },
    /// Remove `key` from space `db`; nothing happens where it is absent.
    Delete { db: String, key: String },
    /// Leave the store as it is.
    Nothing,
}

/// A write as a mathematical value.
pub enum MutationView {
    Put { db: Seq<char>, key: Seq<char>, value: Seq<u8> },
    Delete { db: Seq<char>, key: Seq<char> },
    Nothing,
}

impl View for Mutation {
    type V = MutationView;

    open spec fn view(&self) -> MutationView {
        match self {
            Mutation::Put { db, key, value } => MutationView::Put {
                db: db@,
                key: key@,
                value: value@,
            },
            Mutation::Delete { db, key } => MutationView::Delete { db: db@, key: key@ },
            Mutation::Nothing => MutationView::Nothing,
        }
    }
}

/// The contents of a store: the value of every key of every space that holds
/// one. A key occurs at most once in a space.
pub type Store = Map<(Seq<char>, Seq<char>), Seq<u8>>;

/// The value of `key` in space `db`, if it has one.
pub open spec fn store_get(store: Store, db: Seq<char>, key: Seq<char>) -> Option<Seq<u8>> {
    if store.contains_key((db, key)) {
        Some(store[(db, key)])
    } else {
        None
    }
}

/// The store after `mutation` was performed on `store`.
pub open spec fn store_apply(store: Store, mutation: MutationView) -> Store {
    match mutation {
        MutationView::Put { db, key, value } => store.insert((db, key), value),
        MutationView::Delete { db, key } => store.remove((db, key)),
        MutationView::Nothing => store,
    }
}

/// The store after the writes of `mutations` were performed in order.
pub open spec fn store_apply_all(store: Store, mutations: Seq<MutationView>) -> Store
    decreases mutations.len(),
{
    if mutations.len() == 0 {
        store
    } else {
        store_apply(store_apply_all(store, mutations.drop_last()), mutations.last())
    }
}

/// Within one transaction, a key that was put reads back as the value put,
/// and a key that was deleted reads back as absent.
pub proof fn lemma_read_your_writes(store: Store, db: Seq<char>, key: Seq<char>, value: Seq<u8>)
    ensures
        store_get(store_apply(store, MutationView::Put { db, key, value }), db, key) == Some(
            value,
        ),
        store_get(store_apply(store, MutationView::Delete { db, key }), db, key)
            == None::<Seq<u8>>,
{
}

/// A write touches no key but its own.
pub proof fn lemma_write_is_local(
    store: Store,
    mutation: MutationView,
    db: Seq<char>,
    key: Seq<char>,
)
    requires
        match mutation {
            MutationView::Put { db: d, key: k, .. } => (d, k) != (db, key),
            MutationView::Delete { db: d, key: k } => (d, k) != (db, key),
            MutationView::Nothing => true,
        },
    ensures
        store_get(store_apply(store, mutation), db, key) == store_get(store, db, key),
{
}

} // verus!
