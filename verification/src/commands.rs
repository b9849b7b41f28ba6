//! The commands of the editor: mutations recorded for undo, and the records
//! by which a space is exported and imported.

use vstd::prelude::*;
use vstd::slice::slice_to_vec;
use vstd::string::*;
use crate::db::env::{entries_view, entry_view, strictly_ascending, EntryView};
use crate::db::kv::{store_apply, store_apply_all, store_get, MutationView, Store};
use crate::db::order::{key_bytes, lemma_lex_lt_asymmetric};
use crate::db::undo::{bytes_view, Op, OpView, UndoStack};
use crate::errors::AppError;
use crate::trusted::{base64_bytes, base64_decode, base64_encode, base64_text};

verus! {

/// Records that `key` of space `db` was set to `value`, after the store took
/// the write. `prev` is the value that the key held just before, as the
/// transaction saw it.
pub fn put(undo: &mut UndoStack, db: &str, key: &str, prev: Option<Vec<u8>>, value: &[u8])
    requires
        old(undo).wf(),
    ensures
        final(undo).wf(),
        final(undo)@.ops == old(undo)@.ops.take(old(undo)@.pos as int).push(
            OpView::Put { db: db@, key: key@, prev: bytes_view(prev), new: value@ },
        ),
        final(undo)@.pos == final(undo)@.ops.len(),
{
    undo.push(Op::Put { db: db.to_owned(), key: key.to_owned(), prev, new: slice_to_vec(value) });
}

/// Records that `key` of space `db` was deleted, after the store took the
/// write. `prev` is the value that the key held just before, `None` where it
/// held none: the delete then changed nothing, and neither will taking it
/// back.
pub fn delete(undo: &mut UndoStack, db: &str, key: &str, prev: Option<Vec<u8>>)
    requires
        old(undo).wf(),
    ensures
        final(undo).wf(),
        final(undo)@.ops == old(undo)@.ops.take(old(undo)@.pos as int).push(
            OpView::Delete { db: db@, key: key@, prev: bytes_view(prev) },
        ),
        final(undo)@.pos == final(undo)@.ops.len(),
{
    undo.push(Op::Delete { db: db.to_owned(), key: key.to_owned(), prev });
}

/// One record of an export: the key as text, and the bytes of the value as
/// standard padded base64, which carries every byte sequence.
#[derive(Debug)]
pub struct ExportItem {
    pub key: String,
    pub value: String,
}

/// A record as a mathematical value: the key and the base64 text.
pub type ItemView = (Seq<char>, Seq<char>);

impl View for ExportItem {
    type V = ItemView;

    open spec fn view(&self) -> ItemView {
        (self.key@, self.value@)
    }
}

/// The mathematical values of a sequence of records.
pub open spec fn items_view(items: Seq<ExportItem>) -> Seq<ItemView> {
    Seq::new(items.len(), |i: int| items[i]@)
}

/// The record of an entry.
pub open spec fn exported(entry: EntryView) -> ItemView {
    (entry.0, base64_text(entry.1))
}

/// The base64 text of a value of this length fits in memory.
pub open spec fn encodable(value: Seq<u8>) -> bool {
    (value.len() / 3) * 4 + 4 <= usize::MAX
}

/// `item` carries `entry`: it has the entry's key, and its text decodes to
/// the entry's value.
pub open spec fn carries(item: ItemView, entry: EntryView) -> bool {
    item.0 == entry.0 && base64_bytes(item.1) == Some(entry.1)
}

/// Makes the record of one entry.
fn export_item(key: &String, value: &Vec<u8>) -> (item: ExportItem)
    requires
        encodable(value@),
    ensures
        item@ == exported((key@, value@)),
        carries(item@, (key@, value@)),
{
    ExportItem { key: key.clone(), value: base64_encode(value.as_slice()) }
}

/// The records of the entries of a space, in their order: what an export as
/// structured text writes.
pub fn export_json(entries: &[(String, Vec<u8>)]) -> (items: Vec<ExportItem>)
    requires
        forall|i: int| 0 <= i < entries@.len() ==> encodable((#[trigger] entries@[i]).1@),
    ensures
        items@.len() == entries@.len(),
        forall|i: int|
            0 <= i < items@.len() ==> (#[trigger] items@[i])@ == exported(entry_view(entries@[i])),
        forall|i: int|
            0 <= i < items@.len() ==> carries((#[trigger] items@[i])@, entry_view(entries@[i])),
{
    let mut items: Vec<ExportItem> = Vec::new();
    let mut i: usize = 0;
    while i < entries.len()
        invariant
            i <= entries@.len(),
            items@.len() == i,
            forall|j: int| 0 <= j < entries@.len() ==> encodable((#[trigger] entries@[j]).1@),
            forall|j: int|
                0 <= j < i ==> (#[trigger] items@[j])@ == exported(entry_view(entries@[j])),
            forall|j: int|
                0 <= j < i ==> carries((#[trigger] items@[j])@, entry_view(entries@[j])),
        decreases entries@.len() - i,
    {
        items.push(export_item(&entries[i].0, &entries[i].1));
        i += 1;
    }
    items
}

/// The rows of the entries of a space, behind a header row of `key` and
/// `value`: what an export as a table writes. Each row holds the key and the
/// base64 text of the value.
pub fn export_csv(entries: &[(String, Vec<u8>)]) -> (rows: Vec<Vec<String>>)
    requires
        forall|i: int| 0 <= i < entries@.len() ==> encodable((#[trigger] entries@[i]).1@),
    ensures
        rows@.len() == entries@.len() + 1,
        rows@[0]@.len() == 2 && rows@[0]@[0]@ == "key"@ && rows@[0]@[1]@ == "value"@,
        forall|i: int|
            0 <= i < entries@.len() ==> row_view((#[trigger] rows@[i + 1])@) == Some(
                exported(entry_view(entries@[i])),
            ),
        forall|i: int|
            0 <= i < entries@.len() ==> carries(
                row_view((#[trigger] rows@[i + 1])@)->0,
                entry_view(entries@[i]),
            ),
{
    let mut rows: Vec<Vec<String>> = Vec::new();
    let mut header: Vec<String> = Vec::new();
    header.push("key".to_owned());
    header.push("value".to_owned());
    rows.push(header);
    let mut i: usize = 0;
    while i < entries.len()
        invariant
            i <= entries@.len(),
            rows@.len() == i + 1,
            rows@[0]@.len() == 2 && rows@[0]@[0]@ == "key"@ && rows@[0]@[1]@ == "value"@,
            forall|j: int| 0 <= j < entries@.len() ==> encodable((#[trigger] entries@[j]).1@),
            forall|j: int|
                0 <= j < i ==> row_view((#[trigger] rows@[j + 1])@) == Some(
                    exported(entry_view(entries@[j])),
                ),
            forall|j: int|
                0 <= j < i ==> carries(
                    row_view((#[trigger] rows@[j + 1])@)->0,
                    entry_view(entries@[j]),
                ),
        decreases entries@.len() - i,
    {
        let item = export_item(&entries[i].0, &entries[i].1);
        let mut row: Vec<String> = Vec::new();
        row.push(item.key);
        row.push(item.value);
        rows.push(row);
        i += 1;
    }
    rows
}

/// The record that a row of a table holds in its first two fields; `None`
/// where it has fewer.
pub open spec fn row_view(row: Seq<String>) -> Option<ItemView> {
    if row.len() >= 2 {
        Some((row[0]@, row[1]@))
    } else {
        None
    }
}

/// The records of the rows of a table.
pub open spec fn rows_view(rows: Seq<Vec<String>>) -> Seq<Option<ItemView>> {
    Seq::new(rows.len(), |i: int| row_view(rows[i]@))
}

/// The entry that a record carries; `None` where the record is incomplete
/// or its text is no base64.
pub open spec fn imported(record: Option<ItemView>) -> Option<EntryView> {
    match record {
        Some(item) => match base64_bytes(item.1) {
            Some(value) => Some((item.0, value)),
            None => None,
        },
        None => None,
    }
}

/// What an import does with the records of a stream: it puts the entries of
/// the records before the first that carries none, in their order, and fails
/// on that record if there is one.
pub open spec fn import_agrees(
    records: Seq<Option<ItemView>>,
    puts: Seq<EntryView>,
    failed: bool,
) -> bool {
    &&& puts.len() <= records.len()
    &&& forall|i: int| 0 <= i < puts.len() ==> imported(#[trigger] records[i]) == Some(puts[i])
    &&& failed == (puts.len() < records.len())
    &&& failed ==> imported(records[puts.len() as int]) is None
}

/// The outcome of an import: the entries to put, in order, and the error on
/// which the import stopped, if it did. The entries are put whether or not
/// an error follows; the transaction decides what becomes of them.
#[derive(Debug)]
pub struct ImportPlan {
    /// The entries to put into the space, in this order.
    pub puts: Vec<(String, Vec<u8>)>,
    /// Why the import stopped before the end of the stream.
    pub error: Option<AppError>,
}

/// Reads the entry of one record.
fn import_record(key: &String, value: &String) -> (r: Option<(String, Vec<u8>)>)
    ensures
        match r {
            Some(entry) => imported(Some((key@, value@))) == Some(entry_view(entry)),
            None => imported(Some((key@, value@))) is None,
        },
{
    match base64_decode(value.as_str()) {
        Some(bytes) => Some((key.clone(), bytes)),
        None => None,
    }
}

/// Reads the records of a structured-text stream into the entries to put.
/// The import stops at the first record whose value is no base64.
pub fn import_json(items: &[ExportItem]) -> (plan: ImportPlan)
    ensures
        import_agrees(
            Seq::new(items@.len(), |i: int| Some(items@[i]@)),
            entries_view(plan.puts@),
            plan.error is Some,
        ),
        plan.error matches Some(e) ==> e matches AppError::Storage(reason) && reason@
            == "invalid base64 value"@,
{
    let ghost records = Seq::new(items@.len(), |i: int| Some(items@[i]@));
    let mut puts: Vec<(String, Vec<u8>)> = Vec::new();
    let mut i: usize = 0;
    while i < items.len()
        invariant
            i <= items@.len(),
            puts@.len() == i,
            records == Seq::new(items@.len(), |i: int| Some(items@[i]@)),
            forall|j: int|
                0 <= j < i ==> imported(#[trigger] records[j]) == Some(entries_view(puts@)[j]),
        decreases items@.len() - i,
    {
        match import_record(&items[i].key, &items[i].value) {
            Some(entry) => {
                let ghost held = entries_view(puts@);
                puts.push(entry);
                assert(entries_view(puts@) =~= held.push(entry_view(entry)));
            },
            None => {
                return ImportPlan {
                    puts,
                    error: Some(AppError::Storage("invalid base64 value".to_owned())),
                };
            },
        }
        i += 1;
    }
    ImportPlan { puts, error: None }
}

/// Reads the rows of a table, without its header row, into the entries to
/// put. The import stops at the first row without a key, without a value, or
/// whose value is no base64.
pub fn import_csv(rows: &[Vec<String>]) -> (plan: ImportPlan)
    ensures
        import_agrees(rows_view(rows@), entries_view(plan.puts@), plan.error is Some),
        plan.error matches Some(e) ==> e matches AppError::Storage(reason) && {
            let row = rows@[plan.puts@.len() as int]@;
            if row.len() == 0 {
                reason@ == "missing key"@
            } else if row.len() == 1 {
                reason@ == "missing value"@
            } else {
                reason@ == "invalid base64 value"@
            }
        },
{
    let ghost records = rows_view(rows@);
    let mut puts: Vec<(String, Vec<u8>)> = Vec::new();
    let mut i: usize = 0;
    while i < rows.len()
        invariant
            i <= rows@.len(),
            puts@.len() == i,
            records == rows_view(rows@),
            forall|j: int|
                0 <= j < i ==> imported(#[trigger] records[j]) == Some(entries_view(puts@)[j]),
        decreases rows@.len() - i,
    {
        let row = &rows[i];
        if row.len() == 0 {
            return ImportPlan { puts, error: Some(AppError::Storage("missing key".to_owned())) };
        }
        if row.len() == 1 {
            return ImportPlan { puts, error: Some(AppError::Storage("missing value".to_owned())) };
        }
        match import_record(&row[0], &row[1]) {
            Some(entry) => {
                let ghost held = entries_view(puts@);
                puts.push(entry);
                assert(entries_view(puts@) =~= held.push(entry_view(entry)));
            },
            None => {
                return ImportPlan {
                    puts,
                    error: Some(AppError::Storage("invalid base64 value".to_owned())),
                };
            },
        }
        i += 1;
    }
    ImportPlan { puts, error: None }
}

/// The round trip: when every record of a stream carries the entry at its
/// place in a space, as the records of an export do, an import of the stream
/// puts exactly the entries of the space, in their order, and does not
/// fail.
pub proof fn lemma_import_of_export(
    entries: Seq<EntryView>,
    records: Seq<Option<ItemView>>,
    puts: Seq<EntryView>,
    failed: bool,
)
    requires
        records.len() == entries.len(),
        forall|i: int|
            0 <= i < entries.len() ==> (#[trigger] records[i]) is Some && carries(
                records[i]->0,
                entries[i],
            ),
        import_agrees(records, puts, failed),
    ensures
        !failed,
        puts == entries,
{
    if failed {
        assert(imported(records[puts.len() as int]) is Some);
    }
    assert forall|i: int| 0 <= i < puts.len() implies puts[i] == entries[i] by {
        assert(imported(records[i]) == Some(puts[i]));
    }
    assert(puts =~= entries);
}

/// The writes by which an import puts `entries` into space `db`, in their
/// order.
pub open spec fn puts_into(db: Seq<char>, entries: Seq<EntryView>) -> Seq<MutationView> {
    Seq::new(
        entries.len(),
        |i: int| MutationView::Put { db, key: entries[i].0, value: entries[i].1 },
    )
}

/// Whether `entries` holds `key`.
pub open spec fn holds_key(entries: Seq<EntryView>, key: Seq<char>) -> bool {
    exists|i: int| 0 <= i < entries.len() && (#[trigger] entries[i]).0 == key
}

/// An import of the entries of a space restores the space: afterwards every
/// key of the entries holds its value in space `db`, and every other key of
/// the store holds what it held. Put into an empty space, the entries of an
/// export are the space again.
pub proof fn lemma_import_fills_space(store: Store, db: Seq<char>, entries: Seq<EntryView>)
    requires
        strictly_ascending(entries),
    ensures
        forall|i: int|
            0 <= i < entries.len() ==> store_get(
                store_apply_all(store, puts_into(db, entries)),
                db,
                (#[trigger] entries[i]).0,
            ) == Some(entries[i].1),
        forall|d: Seq<char>, k: Seq<char>|
            !(d == db && holds_key(entries, k)) ==> #[trigger] store_get(
                store_apply_all(store, puts_into(db, entries)),
                d,
                k,
            ) == store_get(store, d, k),
    decreases entries.len(),
{
    let after = store_apply_all(store, puts_into(db, entries));
    if entries.len() > 0 {
        let head = entries.drop_last();
        let last = entries.last();
        let mid = store_apply_all(store, puts_into(db, head));
        lemma_import_fills_space(store, db, head);
        assert(puts_into(db, entries).drop_last() =~= puts_into(db, head));
        assert(after == store_apply(
            mid,
            MutationView::Put { db, key: last.0, value: last.1 },
        ));
        assert forall|i: int| 0 <= i < entries.len() implies store_get(
            after,
            db,
            (#[trigger] entries[i]).0,
        ) == Some(entries[i].1) by {
            if i < head.len() {
                assert(head[i] == entries[i]);
                lemma_lex_lt_asymmetric(key_bytes(entries[i].0), key_bytes(last.0));
                assert(entries[i].0 != last.0);
            }
        }
        assert forall|d: Seq<char>, k: Seq<char>| !(d == db && holds_key(entries, k)) implies
            #[trigger] store_get(after, d, k) == store_get(store, d, k) by {
            if d == db {
                assert(entries[entries.len() - 1].0 != k);
                if holds_key(head, k) {
                    let i = choose|i: int| 0 <= i < head.len() && (#[trigger] head[i]).0 == k;
                    assert(entries[i] == head[i]);
                    assert(holds_key(entries, k));
                }
            }
            assert(store_get(mid, d, k) == store_get(store, d, k));
            assert((d, k) != (db, last.0));
        }
    }
}

} // verus!
