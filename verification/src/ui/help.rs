//! The entries of the help popup and their search.

use vstd::prelude::*;
use crate::trusted::{lowercase, str_contains, text_contains, to_lowercase};

verus! {

/// One line of the help: a key and what it does.
#[derive(Clone, Debug)]
pub struct HelpEntry {
    pub key: &'static str,
    pub action: &'static str,
}

/// The keys and the actions of the explorer's help.
pub open spec fn help_table() -> Seq<(Seq<char>, Seq<char>)> {
    seq![
        ("o"@, "Open env path"@),
        ("c"@, "Create key/value"@),
        ("e"@, "Edit selected value"@),
        ("d"@, "Delete (prompts)"@),
        ("/"@, "Search in focused pane"@),
        ("Ctrl+s"@, "Commit transaction"@),
        ("Ctrl+z"@, "Abort transaction"@),
        ("g/G"@, "Jump top/bottom"@),
        ("?"@, "Toggle help"@),
        ("F5"@, "Refresh database view"@),
        ("F6"@, "Cycle theme (Dark/Light/High Contrast)"@),
    ]
}

/// The keys and actions of a sequence of help entries.
pub open spec fn table_of(entries: Seq<HelpEntry>) -> Seq<(Seq<char>, Seq<char>)> {
    Seq::new(entries.len(), |i: int| (entries[i].key@, entries[i].action@))
}

/// The help entries of the explorer.
pub fn default_entries() -> (entries: Vec<HelpEntry>)
    ensures
        table_of(entries@) == help_table(),
{
    let mut entries: Vec<HelpEntry> = Vec::new();
    entries.push(HelpEntry { key: "o", action: "Open env path" });
    entries.push(HelpEntry { key: "c", action: "Create key/value" });
    entries.push(HelpEntry { key: "e", action: "Edit selected value" });
    entries.push(HelpEntry { key: "d", action: "Delete (prompts)" });
    entries.push(HelpEntry { key: "/", action: "Search in focused pane" });
    entries.push(HelpEntry { key: "Ctrl+s", action: "Commit transaction" });
    entries.push(HelpEntry { key: "Ctrl+z", action: "Abort transaction" });
    entries.push(HelpEntry { key: "g/G", action: "Jump top/bottom" });
    entries.push(HelpEntry { key: "?", action: "Toggle help" });
    entries.push(HelpEntry { key: "F5", action: "Refresh database view" });
    entries.push(HelpEntry { key: "F6", action: "Cycle theme (Dark/Light/High Contrast)" });
    assert(table_of(entries@) =~= help_table());
    entries
}

/// Whether `entry` answers a search for `query`: an empty query finds
/// everything; else the query, in lower case, stands in the key or in the
/// action, in lower case.
pub open spec fn entry_found(entry: HelpEntry, query: Seq<char>) -> bool {
    query.len() == 0 || text_contains(lowercase(entry.key@), lowercase(query)) || text_contains(
        lowercase(entry.action@),
        lowercase(query),
    )
}

/// The entries among `entries` that answer a search for `query`, in their
/// order.
pub open spec fn found_entries(entries: Seq<HelpEntry>, query: Seq<char>) -> Seq<HelpEntry>
    decreases entries.len(),
{
    if entries.len() == 0 {
        Seq::empty()
    } else {
        let before = found_entries(entries.drop_last(), query);
        if entry_found(entries.last(), query) {
            before.push(entries.last())
        } else {
            before
        }
    }
}

/// The entries behind a sequence of references.
pub open spec fn entries_of(found: Seq<&HelpEntry>) -> Seq<HelpEntry> {
    Seq::new(found.len(), |i: int| *found[i])
}

/// Filters help entries by a query, without regard to case.
pub fn filter_entries<'a>(entries: &'a [HelpEntry], query: &str) -> (found: Vec<&'a HelpEntry>)
    ensures
        entries_of(found@) == found_entries(entries@, query@),
{
    let mut found: Vec<&'a HelpEntry> = Vec::new();
    let needle = to_lowercase(query);
    let all = query.is_empty();
    let mut i: usize = 0;
    assert(entries@.take(0) =~= Seq::<HelpEntry>::empty());
    assert(entries_of(found@) =~= Seq::<HelpEntry>::empty());
    while i < entries.len()
        invariant
            i <= entries@.len(),
            all == (query@.len() == 0),
            needle@ == lowercase(query@),
            entries_of(found@) == found_entries(entries@.take(i as int), query@),
        decreases entries@.len() - i,
    {
        let ghost held = entries_of(found@);
        assert(entries@.take(i as int + 1).drop_last() =~= entries@.take(i as int));
        let entry = &entries[i];
        let hit = all || str_contains(to_lowercase(entry.key).as_str(), needle.as_str())
            || str_contains(to_lowercase(entry.action).as_str(), needle.as_str());
        if hit {
            found.push(entry);
            assert(entries_of(found@) =~= held.push(entries@[i as int]));
        }
        i += 1;
    }
    assert(entries@.take(i as int) =~= entries@);
    found
}

} // verus!
