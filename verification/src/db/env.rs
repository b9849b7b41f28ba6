//! Spaces as the reader sees them: the entries of a space in key order, and
//! the names under which spaces are addressed.

use vstd::prelude::*;
use vstd::string::*;
use crate::db::order::{key_before, key_bytes, key_lt, lemma_lex_lt_transitive};

verus! {

/// An entry as a mathematical value: the text of its key and the bytes of
/// its value.
pub type EntryView = (Seq<char>, Seq<u8>);

/// The mathematical value of an entry.
pub open spec fn entry_view(entry: (String, Vec<u8>)) -> EntryView {
    (entry.0@, entry.1@)
}

/// The mathematical values of a sequence of entries.
pub open spec fn entries_view(entries: Seq<(String, Vec<u8>)>) -> Seq<EntryView> {
    Seq::new(entries.len(), |i: int| entry_view(entries[i]))
}

/// The entries come in strictly ascending key order, as a space hands them
/// out: every key sorts before all keys behind it, so none occurs twice.
pub open spec fn strictly_ascending(entries: Seq<EntryView>) -> bool {
    forall|i: int, j: int|
        0 <= i < j < entries.len() ==> key_lt((#[trigger] entries[i]).0, (#[trigger] entries[j]).0)
}

/// The window of `items` that starts behind the first `offset` of them and
/// holds at most `limit`.
pub open spec fn window<A>(items: Seq<A>, offset: nat, limit: nat) -> Seq<A> {
    let from = if offset <= items.len() {
        offset as int
    } else {
        items.len() as int
    };
    let to = if offset + limit <= items.len() {
        (offset + limit) as int
    } else {
        items.len() as int
    };
    items.subrange(from, to)
}

/// The name under which the anonymous space of an environment is addressed.
/// No space is created under this name.
pub const UNNAMED: &'static str = "(unnamed)";

/// The space that `name` addresses: `None` for the anonymous space, which
/// the reserved name selects, else the space of that name.
pub fn resolve(name: &str) -> (r: Option<&str>)
    ensures
        match r {
            Some(space) => name@ != "(unnamed)"@ && space@ == name@,
            None => name@ == "(unnamed)"@,
        },
{
    if same_text(name, UNNAMED) {
        None
    } else {
        Some(name)
    }
}

/// Whether two texts are the same.
pub fn same_text(a: &str, b: &str) -> (r: bool)
    ensures
        r == (a@ == b@),
{
    let x = a.as_bytes();
    let y = b.as_bytes();
    if x.len() != y.len() {
        proof {
            if a@ == b@ {
                assert(x@ == y@);
            }
        }
        return false;
    }
    let mut i: usize = 0;
    while i < x.len()
        invariant
            i <= x@.len() == y@.len(),
            x@ == a.spec_bytes(),
            y@ == b.spec_bytes(),
            forall|j: int| 0 <= j < i ==> x@[j] == y@[j],
        decreases x@.len() - i,
    {
        if x[i] != y[i] {
            return false;
        }
        i += 1;
    }
    proof {
        assert(x@ =~= y@);
        vstd::utf8::encode_utf8_decode_utf8(a@);
        vstd::utf8::encode_utf8_decode_utf8(b@);
    }
    true
}

/// The names of the catalog that open as spaces, in catalog order.
pub open spec fn opening_names(catalog: Seq<(String, bool)>) -> Seq<Seq<char>>
    decreases catalog.len(),
{
    if catalog.len() == 0 {
        Seq::empty()
    } else {
        let before = opening_names(catalog.drop_last());
        if catalog.last().1 {
            before.push(catalog.last().0@)
        } else {
            before
        }
    }
}

/// The names that an environment lists: the names of its catalog that open
/// as spaces; where there is none and the anonymous space holds entries, the
/// reserved name alone.
pub open spec fn listed_names(catalog: Seq<(String, bool)>, unnamed_has_entries: bool) -> Seq<
    Seq<char>,
> {
    if opening_names(catalog).len() == 0 && unnamed_has_entries {
        seq!["(unnamed)"@]
    } else {
        opening_names(catalog)
    }
}

/// The texts of a sequence of names.
pub open spec fn names_view(names: Seq<String>) -> Seq<Seq<char>> {
    Seq::new(names.len(), |i: int| names[i]@)
}

/// Lists the spaces of an environment, in catalog order. `catalog` holds
/// each name of the root catalog with whether it opens as a space of byte
/// keys and byte values; `unnamed_has_entries` says whether the anonymous
/// space holds an entry.
pub fn list_databases(catalog: &[(String, bool)], unnamed_has_entries: bool) -> (names: Vec<
    String,
>)
    ensures
        names_view(names@) == listed_names(catalog@, unnamed_has_entries),
{
    let mut names: Vec<String> = Vec::new();
    let mut i: usize = 0;
    assert(catalog@.take(0) =~= Seq::<(String, bool)>::empty());
    assert(names_view(names@) =~= Seq::<Seq<char>>::empty());
    while i < catalog.len()
        invariant
            i <= catalog@.len(),
            names_view(names@) == opening_names(catalog@.take(i as int)),
        decreases catalog@.len() - i,
    {
        let ghost held = names_view(names@);
        assert(catalog@.take(i as int + 1).drop_last() =~= catalog@.take(i as int));
        if catalog[i].1 {
            names.push(catalog[i].0.clone());
            assert(names_view(names@) =~= held.push(catalog@[i as int].0@));
        }
        i += 1;
    }
    assert(catalog@.take(i as int) =~= catalog@);
    if names.len() == 0 && unnamed_has_entries {
        names.push(UNNAMED.to_owned());
        assert(names_view(names@) =~= seq!["(unnamed)"@]);
    }
    names
}

/// Copies an entry.
pub fn clone_entry(entry: &(String, Vec<u8>)) -> (r: (String, Vec<u8>))
    ensures
        entry_view(r) == entry_view(*entry),
{
    (entry.0.clone(), entry.1.clone())
}

/// Reads one page of a space: the entries behind the first `offset`, at
/// most `limit` of them, in key order. An offset at or behind the end gives
/// an empty page.
pub fn list_entries_paginated(entries: &[(String, Vec<u8>)], offset: usize, limit: usize) -> (page:
    Vec<(String, Vec<u8>)>)
    ensures
        entries_view(page@) == window(entries_view(entries@), offset as nat, limit as nat),
{
    let ghost all = entries_view(entries@);
    let mut page: Vec<(String, Vec<u8>)> = Vec::new();
    if offset >= entries.len() {
        assert(entries_view(page@) =~= window(all, offset as nat, limit as nat));
        return page;
    }
    let room = entries.len() - offset;
    let count = if limit < room {
        limit
    } else {
        room
    };
    let mut i: usize = 0;
    while i < count
        invariant
            i <= count,
            offset + count <= entries.len(),
            entries.len() == entries@.len(),
            all == entries_view(entries@),
            entries_view(page@) == all.subrange(offset as int, offset + i),
        decreases count - i,
    {
        let ghost held = entries_view(page@);
        page.push(clone_entry(&entries[offset + i]));
        assert(entries_view(page@) =~= held.push(all[offset + i]));
        assert(entries_view(page@) =~= all.subrange(offset as int, offset + i + 1));
        i += 1;
    }
    assert(entries_view(page@) =~= window(all, offset as nat, limit as nat));
    page
}

/// Reads the first `limit` entries of a space, in key order.
pub fn list_entries(entries: &[(String, Vec<u8>)], limit: usize) -> (page: Vec<(String, Vec<u8>)>)
    ensures
        entries_view(page@) == window(entries_view(entries@), 0, limit as nat),
{
    list_entries_paginated(entries, 0, limit)
}

/// Counts the entries of a space.
pub fn count_entries(entries: &[(String, Vec<u8>)]) -> (n: usize)
    ensures
        n == entries_view(entries@).len(),
{
    entries.len()
}

/// Whether the entries come in strictly ascending key order.
pub fn is_strictly_ascending(entries: &[(String, Vec<u8>)]) -> (r: bool)
    ensures
        r == strictly_ascending(entries_view(entries@)),
{
    let ghost all = entries_view(entries@);
    if entries.len() < 2 {
        return true;
    }
    let mut i: usize = 1;
    while i < entries.len()
        invariant
            1 <= i <= entries@.len(),
            all == entries_view(entries@),
            strictly_ascending(all.take(i as int)),
        decreases entries@.len() - i,
    {
        if !key_before(entries[i - 1].0.as_str(), entries[i].0.as_str()) {
            assert(all[i - 1] == entry_view(entries@[i - 1]));
            assert(all[i as int] == entry_view(entries@[i as int]));
            return false;
        }
        assert forall|a: int, b: int| 0 <= a < b < i + 1 implies key_lt(
            (#[trigger] all.take(i + 1)[a]).0,
            (#[trigger] all.take(i + 1)[b]).0,
        ) by {
            let head = all.take(i as int);
            assert(all.take(i + 1)[a] == all[a] && all.take(i + 1)[b] == all[b]);
            if b < i {
                assert(key_lt(head[a].0, head[b].0));
            } else if a < i - 1 {
                assert(key_lt(head[a].0, head[i - 1].0));
                lemma_lex_lt_transitive(
                    key_bytes(all[a].0),
                    key_bytes(all[i - 1].0),
                    key_bytes(all[i as int].0),
                );
            }
        }
        i += 1;
    }
    assert(all.take(i as int) =~= all);
    true
}

} // verus!
