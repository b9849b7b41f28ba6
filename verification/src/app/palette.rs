//! The command palette: its commands, their search, and the places that it
//! offers to jump to.

use vstd::prelude::*;
use vstd::string::*;
use vstd::view::View as _;
use crate::app::{commands_view, texts_view, Command, CommandId, CommandView};
use crate::bookmarks::{places_view, Bookmarks, JumpHistory, PlaceView};
use crate::trusted::{fuzzy_match, fuzzy_score};

verus! {

/// The commands of the palette, in the order in which it shows them.
pub open spec fn command_table() -> Seq<CommandView> {
    seq![
        CommandView {
            id: CommandId::CreateEntry,
            name: "Create Entry"@,
            description: "Create a new key-value pair"@,
            keywords: seq!["create"@, "new"@, "add"@, "insert"@],
            keybinding: Some("c"@),
        },
        CommandView {
            id: CommandId::EditEntry,
            name: "Edit Entry"@,
            description: "Edit the selected entry"@,
            keywords: seq!["edit"@, "modify"@, "update"@],
            keybinding: Some("e"@),
        },
        CommandView {
            id: CommandId::DeleteEntry,
            name: "Delete Entry"@,
            description: "Delete the selected entry"@,
            keywords: seq!["delete"@, "remove"@, "del"@],
            keybinding: Some("d"@),
        },
        CommandView {
            id: CommandId::EnterQuery,
            name: "Search"@,
            description: "Enter query mode to search entries"@,
            keywords: seq!["search"@, "query"@, "find"@, "filter"@],
            keybinding: Some("/"@),
        },
        CommandView {
            id: CommandId::ToggleHelp,
            name: "Help"@,
            description: "Toggle help panel"@,
            keywords: seq!["help"@, "commands"@, "keys"@],
            keybinding: Some("?"@),
        },
        CommandView {
            id: CommandId::ShowBookmarks,
            name: "Show Bookmarks"@,
            description: "View bookmarked entries"@,
            keywords: seq!["bookmarks"@, "favorites"@, "saved"@],
            keybinding: Some("B"@),
        },
        CommandView {
            id: CommandId::Undo,
            name: "Undo"@,
            description: "Undo last operation"@,
            keywords: seq!["undo"@, "revert"@],
            keybinding: Some("Ctrl+z"@),
        },
        CommandView {
            id: CommandId::Redo,
            name: "Redo"@,
            description: "Redo last undone operation"@,
            keywords: seq!["redo"@, "restore"@],
            keybinding: Some("Ctrl+y"@),
        },
        CommandView {
            id: CommandId::Refresh,
            name: "Refresh"@,
            description: "Refresh database view"@,
            keywords: seq!["refresh"@, "reload"@, "update"@],
            keybinding: Some("F5"@),
        },
        CommandView {
            id: CommandId::CycleTheme,
            name: "Cycle Theme"@,
            description: "Switch between Dark, Light, and High Contrast themes"@,
            keywords: seq!["theme"@, "color"@, "appearance"@, "dark"@, "light"@],
            keybinding: Some("F6"@),
        },
        CommandView {
            id: CommandId::ExportDatabase,
            name: "Export Database"@,
            description: "Export current database to file"@,
            keywords: seq!["export"@, "save"@, "backup"@],
            keybinding: None,
        },
        CommandView {
            id: CommandId::ImportDatabase,
            name: "Import Database"@,
            description: "Import data from file"@,
            keywords: seq!["import"@, "load"@, "restore"@],
            keybinding: None,
        },
        CommandView {
            id: CommandId::Quit,
            name: "Quit"@,
            description: "Exit the application"@,
            keywords: seq!["quit"@, "exit"@, "close"@],
            keybinding: Some("q"@),
        },
    ]
}

/// Two words as owned texts.
fn words2(a: &str, b: &str) -> (r: Vec<String>)
    ensures
        texts_view(r@) == seq![a@, b@],
{
    let mut r: Vec<String> = Vec::new();
    r.push(a.to_owned());
    r.push(b.to_owned());
    assert(texts_view(r@) =~= seq![a@, b@]);
    r
}

/// Three words as owned texts.
fn words3(a: &str, b: &str, c: &str) -> (r: Vec<String>)
    ensures
        texts_view(r@) == seq![a@, b@, c@],
{
    let mut r: Vec<String> = Vec::new();
    r.push(a.to_owned());
    r.push(b.to_owned());
    r.push(c.to_owned());
    assert(texts_view(r@) =~= seq![a@, b@, c@]);
    r
}

/// Four words as owned texts.
fn words4(a: &str, b: &str, c: &str, d: &str) -> (r: Vec<String>)
    ensures
        texts_view(r@) == seq![a@, b@, c@, d@],
{
    let mut r = words3(a, b, c);
    let ghost held = texts_view(r@);
    r.push(d.to_owned());
    assert(texts_view(r@) =~= held.push(d@));
    assert(texts_view(r@) =~= seq![a@, b@, c@, d@]);
    r
}

/// Five words as owned texts.
fn words5(a: &str, b: &str, c: &str, d: &str, e: &str) -> (r: Vec<String>)
    ensures
        texts_view(r@) == seq![a@, b@, c@, d@, e@],
{
    let mut r = words4(a, b, c, d);
    let ghost held = texts_view(r@);
    r.push(e.to_owned());
    assert(texts_view(r@) =~= held.push(e@));
    assert(texts_view(r@) =~= seq![a@, b@, c@, d@, e@]);
    r
}

/// A command of the palette.
fn command(id: CommandId, name: &str, description: &str, keywords: Vec<String>, key: &str) -> (r:
    Command)
    ensures
        r@ == (CommandView {
            id,
            name: name@,
            description: description@,
            keywords: texts_view(keywords@),
            keybinding: if key@.len() == 0 {
                None
            } else {
                Some(key@)
            },
        }),
{
    Command {
        id,
        name: name.to_owned(),
        description: description.to_owned(),
        keywords,
        keybinding: if key.is_empty() {
            None
        } else {
            Some(key.to_owned())
        },
    }
}

/// Copies texts.
pub fn copy_texts(texts: &Vec<String>) -> (r: Vec<String>)
    ensures
        texts_view(r@) == texts_view(texts@),
{
    let mut r: Vec<String> = Vec::new();
    let mut i: usize = 0;
    while i < texts.len()
        invariant
            i <= texts@.len(),
            texts_view(r@) == texts_view(texts@).take(i as int),
        decreases texts@.len() - i,
    {
        let ghost held = texts_view(r@);
        r.push(texts[i].clone());
        assert(texts_view(r@) =~= held.push(texts@[i as int]@));
        assert(texts_view(r@) =~= texts_view(texts@).take(i as int + 1));
        i += 1;
    }
    assert(texts_view(texts@).take(i as int) =~= texts_view(texts@));
    r
}

/// Copies a command.
pub fn copy_command(command: &Command) -> (r: Command)
    ensures
        r@ == command@,
{
    Command {
        id: command.id,
        name: command.name.clone(),
        description: command.description.clone(),
        keywords: copy_texts(&command.keywords),
        keybinding: match &command.keybinding {
            Some(key) => Some(key.clone()),
            None => None,
        },
    }
}

/// The commands of the palette.
#[verifier::rlimit(40)]
pub fn build_command_list() -> (r: Vec<Command>)
    ensures
        commands_view(r@) == command_table(),
{
    proof {
        reveal_strlit("");
        reveal_strlit("c");
        reveal_strlit("e");
        reveal_strlit("d");
        reveal_strlit("/");
        reveal_strlit("?");
        reveal_strlit("B");
        reveal_strlit("Ctrl+z");
        reveal_strlit("Ctrl+y");
        reveal_strlit("F5");
        reveal_strlit("F6");
        reveal_strlit("q");
    }
    let mut r: Vec<Command> = Vec::new();
    r.push(
        command(
            CommandId::CreateEntry,
            "Create Entry",
            "Create a new key-value pair",
            words4("create", "new", "add", "insert"),
            "c",
        ),
    );
    r.push(
        command(
            CommandId::EditEntry,
            "Edit Entry",
            "Edit the selected entry",
            words3("edit", "modify", "update"),
            "e",
        ),
    );
    r.push(
        command(
            CommandId::DeleteEntry,
            "Delete Entry",
            "Delete the selected entry",
            words3("delete", "remove", "del"),
            "d",
        ),
    );
    r.push(
        command(
            CommandId::EnterQuery,
            "Search",
            "Enter query mode to search entries",
            words4("search", "query", "find", "filter"),
            "/",
        ),
    );
    r.push(
        command(
            CommandId::ToggleHelp,
            "Help",
            "Toggle help panel",
            words3("help", "commands", "keys"),
            "?",
        ),
    );
    r.push(
        command(
            CommandId::ShowBookmarks,
            "Show Bookmarks",
            "View bookmarked entries",
            words3("bookmarks", "favorites", "saved"),
            "B",
        ),
    );
    r.push(
        command(CommandId::Undo, "Undo", "Undo last operation", words2("undo", "revert"), "Ctrl+z"),
    );
    r.push(
        command(
            CommandId::Redo,
            "Redo",
            "Redo last undone operation",
            words2("redo", "restore"),
            "Ctrl+y",
        ),
    );
    r.push(
        command(
            CommandId::Refresh,
            "Refresh",
            "Refresh database view",
            words3("refresh", "reload", "update"),
            "F5",
        ),
    );
    r.push(
        command(
            CommandId::CycleTheme,
            "Cycle Theme",
            "Switch between Dark, Light, and High Contrast themes",
            words5("theme", "color", "appearance", "dark", "light"),
            "F6",
        ),
    );
    r.push(
        command(
            CommandId::ExportDatabase,
            "Export Database",
            "Export current database to file",
            words3("export", "save", "backup"),
            "",
        ),
    );
    r.push(
        command(
            CommandId::ImportDatabase,
            "Import Database",
            "Import data from file",
            words3("import", "load", "restore"),
            "",
        ),
    );
    r.push(
        command(
            CommandId::Quit,
            "Quit",
            "Exit the application",
            words3("quit", "exit", "close"),
            "q",
        ),
    );
    assert(commands_view(r@) =~= command_table());
    r
}

/// The larger of two scores.
pub open spec fn larger(a: i64, b: i64) -> i64 {
    if a >= b {
        a
    } else {
        b
    }
}

/// The score of `pattern` in `choice`, 0 where it does not match.
pub open spec fn score_or_zero(choice: Seq<char>, pattern: Seq<char>) -> i64 {
    match fuzzy_score(choice, pattern) {
        Some(score) => score,
        None => 0,
    }
}

/// The best score of `pattern` in one of `keywords`, 0 where there is no
/// keyword.
pub open spec fn keywords_score(keywords: Seq<Seq<char>>, pattern: Seq<char>) -> i64
    decreases keywords.len(),
{
    if keywords.len() == 0 {
        0
    } else if keywords.len() == 1 {
        score_or_zero(keywords[0], pattern)
    } else {
        larger(
            keywords_score(keywords.drop_last(), pattern),
            score_or_zero(keywords.last(), pattern),
        )
    }
}

/// The score of a command for a search: the best that the pattern reaches
/// in its name, in its description or in one of its keywords.
pub open spec fn command_score(command: CommandView, pattern: Seq<char>) -> i64 {
    larger(
        larger(score_or_zero(command.name, pattern), score_or_zero(command.description, pattern)),
        keywords_score(command.keywords, pattern),
    )
}

/// Where a command of `score` goes into a list in falling order of score:
/// before the first command that scores less, behind all others.
pub open spec fn rank_of(ranked: Seq<CommandView>, pattern: Seq<char>, score: i64, from: int)
    -> int
    decreases ranked.len() - from,
{
    if 0 <= from < ranked.len() && command_score(ranked[from], pattern) >= score {
        rank_of(ranked, pattern, score, from + 1)
    } else {
        from
    }
}

/// The commands among `commands` that a search for `pattern` finds, the
/// best first: those that score above 0, in falling order of score, and
/// among equal scores in the order of `commands`.
pub open spec fn ranked(commands: Seq<CommandView>, pattern: Seq<char>) -> Seq<CommandView>
    decreases commands.len(),
{
    if commands.len() == 0 {
        Seq::empty()
    } else {
        let before = ranked(commands.drop_last(), pattern);
        let last = commands.last();
        let score = command_score(last, pattern);
        if score > 0 {
            before.insert(rank_of(before, pattern, score, 0), last)
        } else {
            before
        }
    }
}

/// What the palette shows for a search: every command for an empty
/// pattern, else the commands that the pattern finds, the best first.
pub open spec fn palette_for(pattern: Seq<char>) -> Seq<CommandView> {
    if pattern.len() == 0 {
        command_table()
    } else {
        ranked(command_table(), pattern)
    }
}

/// The score of `pattern` in `choice`, 0 where it does not match.
fn score_of(choice: &str, pattern: &str) -> (r: i64)
    ensures
        r == score_or_zero(choice@, pattern@),
{
    match fuzzy_match(choice, pattern) {
        Some(score) => score,
        None => 0,
    }
}

/// The score of a command for a search.
fn score_command(command: &Command, pattern: &str) -> (r: i64)
    ensures
        r == command_score(command@, pattern@),
{
    let name = score_of(command.name.as_str(), pattern);
    let description = score_of(command.description.as_str(), pattern);
    let mut best = if name >= description {
        name
    } else {
        description
    };
    let mut words: i64 = 0;
    let mut i: usize = 0;
    let ghost keywords = texts_view(command.keywords@);
    assert(keywords.take(0) =~= Seq::<Seq<char>>::empty());
    while i < command.keywords.len()
        invariant
            i <= command.keywords@.len(),
            keywords == texts_view(command.keywords@),
            words == keywords_score(keywords.take(i as int), pattern@),
        decreases command.keywords@.len() - i,
    {
        let score = score_of(command.keywords[i].as_str(), pattern);
        assert(keywords.take(i as int + 1).drop_last() =~= keywords.take(i as int));
        assert(keywords.take(i as int + 1).last() == command.keywords@[i as int]@);
        if i == 0 {
            assert(keywords.take(1)[0] == command.keywords@[0]@);
            words = score;
        } else if score > words {
            words = score;
        }
        i += 1;
    }
    assert(keywords.take(i as int) =~= keywords);
    if words > best {
        best = words;
    }
    best
}

/// Filters the commands of the palette by a search: every command for an
/// empty pattern, else those that the pattern finds, the best first.
#[verifier::rlimit(40)]
pub fn filter_commands(pattern: &str) -> (r: Vec<Command>)
    ensures
        commands_view(r@) == palette_for(pattern@),
{
    let all = build_command_list();
    if pattern.is_empty() {
        return all;
    }
    let ghost table = commands_view(all@);
    let mut found: Vec<Command> = Vec::new();
    let mut i: usize = 0;
    assert(table.take(0) =~= Seq::<CommandView>::empty());
    assert(commands_view(found@) =~= Seq::<CommandView>::empty());
    while i < all.len()
        invariant
            i <= all@.len(),
            table == commands_view(all@),
            commands_view(found@) == ranked(table.take(i as int), pattern@),
        decreases all@.len() - i,
    {
        let ghost held = commands_view(found@);
        assert(table.take(i as int + 1).drop_last() =~= table.take(i as int));
        assert(table.take(i as int + 1).last() == all@[i as int]@);
        let score = score_command(&all[i], pattern);
        if score > 0 {
            let mut at: usize = 0;
            while at < found.len() && score_command(&found[at], pattern) >= score
                invariant
                    at <= found@.len(),
                    held == commands_view(found@),
                    rank_of(held, pattern@, score, 0) == rank_of(held, pattern@, score, at as int),
                decreases found@.len() - at,
            {
                at += 1;
            }
            found.insert(at, copy_command(&all[i]));
            assert(found@[at as int]@ == all@[i as int]@);
            assert(commands_view(found@) =~= held.insert(at as int, all@[i as int]@));
        }
        i += 1;
    }
    assert(table.take(i as int) =~= table);
    found
}

/// A place that the palette offers to jump to: a space, a key, and whether
/// the key is bookmarked there.
pub type OfferView = (Seq<char>, Seq<char>, bool);

/// The mathematical value of an offered place.
pub open spec fn offer_view(offer: (String, String, bool)) -> OfferView {
    (offer.0@, offer.1@, offer.2)
}

/// The mathematical values of a sequence of offered places.
pub open spec fn offers_view(offers: Seq<(String, String, bool)>) -> Seq<OfferView> {
    Seq::new(offers.len(), |i: int| offer_view(offers[i]))
}

/// The bookmarks as offered places.
pub open spec fn marked_offers(bookmarks: Seq<PlaceView>) -> Seq<OfferView> {
    Seq::new(bookmarks.len(), |i: int| (bookmarks[i].0, bookmarks[i].1, true))
}

/// The places of the history that are not bookmarked, as offered places, in
/// the order of the history.
pub open spec fn recent_offers(history: Seq<PlaceView>, bookmarks: Seq<PlaceView>) -> Seq<
    OfferView,
>
    decreases history.len(),
{
    if history.len() == 0 {
        Seq::empty()
    } else {
        let before = recent_offers(history.drop_last(), bookmarks);
        let last = history.last();
        if bookmarks.contains(last) {
            before
        } else {
            before.push((last.0, last.1, false))
        }
    }
}

/// The places that the palette offers: the bookmarks, then the places of
/// the history that are not bookmarked.
pub open spec fn offers_for(bookmarks: Seq<PlaceView>, history: Seq<PlaceView>) -> Seq<
    OfferView,
> {
    marked_offers(bookmarks) + recent_offers(history, bookmarks)
}

/// The command that jumps to the offered place of number `index`.
pub open spec fn offer_command(index: int, offer: OfferView) -> CommandView {
    CommandView {
        id: CommandId::GoToBookmark(index as usize),
        name: (if offer.2 {
            "\u{1f4ce}"@
        } else {
            "\u{1f552}"@
        }) + " "@ + offer.0 + ": "@ + offer.1,
        description: "Jump to "@ + (if offer.2 {
            "bookmarked"@
        } else {
            "recent"@
        }) + " entry in "@ + offer.0,
        keywords: seq![
            offer.0,
            offer.1,
            if offer.2 {
                "bookmark"@
            } else {
                "history"@
            },
        ],
        keybinding: None,
    }
}

/// What the palette shows where there is no place to offer.
pub open spec fn no_offer_command() -> CommandView {
    CommandView {
        id: CommandId::ShowBookmarks,
        name: "No bookmarks found"@,
        description: "Use 'b' to bookmark the current entry"@,
        keywords: seq!["bookmark"@, "empty"@],
        keybinding: Some("b"@),
    }
}

/// The commands that the palette shows for the offered places: one for
/// each, or a note where there is none.
pub open spec fn offer_commands(offers: Seq<OfferView>) -> Seq<CommandView> {
    if offers.len() == 0 {
        seq![no_offer_command()]
    } else {
        Seq::new(offers.len(), |i: int| offer_command(i, offers[i]))
    }
}

/// The places that the palette offers to jump to.
#[verifier::rlimit(40)]
pub fn bookmark_offers(bookmarks: &Bookmarks, history: &JumpHistory) -> (r: Vec<
    (String, String, bool),
>)
    requires
        bookmarks.wf(),
    ensures
        offers_view(r@) == offers_for(bookmarks@, history@.list),
{
    let mut r: Vec<(String, String, bool)> = Vec::new();
    let marked = bookmarks.entries();
    let mut i: usize = 0;
    while i < marked.len()
        invariant
            i <= marked@.len(),
            places_view(marked@) == bookmarks@,
            offers_view(r@) == marked_offers(bookmarks@).take(i as int),
        decreases marked@.len() - i,
    {
        let ghost held = offers_view(r@);
        r.push((marked[i].0.clone(), marked[i].1.clone(), true));
        assert(places_view(marked@)[i as int] == bookmarks@[i as int]);
        assert(offers_view(r@) =~= held.push(marked_offers(bookmarks@)[i as int]));
        assert(offers_view(r@) =~= marked_offers(bookmarks@).take(i as int + 1));
        i += 1;
    }
    assert(marked_offers(bookmarks@).take(i as int) =~= marked_offers(bookmarks@));
    let recent = history.entries();
    let ghost list = history@.list;
    let mut j: usize = 0;
    assert(list.take(0) =~= Seq::<PlaceView>::empty());
    assert(offers_view(r@) =~= marked_offers(bookmarks@) + recent_offers(list.take(0), bookmarks@));
    while j < recent.len()
        invariant
            j <= recent@.len(),
            places_view(recent@) == list,
            offers_view(r@) == marked_offers(bookmarks@) + recent_offers(
                list.take(j as int),
                bookmarks@,
            ),
        decreases recent@.len() - j,
    {
        let ghost held = offers_view(r@);
        assert(list.take(j as int + 1).drop_last() =~= list.take(j as int));
        assert(list.take(j as int + 1).last() == places_view(recent@)[j as int]);
        if !bookmarks.contains(recent[j].0.as_str(), recent[j].1.as_str()) {
            r.push((recent[j].0.clone(), recent[j].1.clone(), false));
            assert(offers_view(r@) =~= held.push((recent@[j as int].0@, recent@[j as int].1@, false)));
            assert(offers_view(r@) =~= marked_offers(bookmarks@) + recent_offers(
                list.take(j as int + 1),
                bookmarks@,
            ));
        }
        j += 1;
    }
    assert(list.take(j as int) =~= list);
    r
}

/// The commands that the palette shows for the offered places.
#[verifier::rlimit(40)]
pub fn bookmark_commands(offers: &Vec<(String, String, bool)>) -> (r: Vec<Command>)
    ensures
        commands_view(r@) == offer_commands(offers_view(offers@)),
{
    let mut r: Vec<Command> = Vec::new();
    if offers.len() == 0 {
        r.push(
            Command {
                id: CommandId::ShowBookmarks,
                name: "No bookmarks found".to_owned(),
                description: "Use 'b' to bookmark the current entry".to_owned(),
                keywords: words2("bookmark", "empty"),
                keybinding: Some("b".to_owned()),
            },
        );
        assert(commands_view(r@) =~= seq![no_offer_command()]);
        return r;
    }
    let ghost all = offers_view(offers@);
    let mut i: usize = 0;
    while i < offers.len()
        invariant
            i <= offers@.len(),
            all == offers_view(offers@),
            r@.len() == i,
            forall|j: int| 0 <= j < i ==> (#[trigger] r@[j])@ == offer_command(j, all[j]),
        decreases offers@.len() - i,
    {
        let offer = &offers[i];
        let mut name = if offer.2 {
            "\u{1f4ce}".to_owned()
        } else {
            "\u{1f552}".to_owned()
        };
        name.append(" ");
        name.append(offer.0.as_str());
        name.append(": ");
        name.append(offer.1.as_str());
        let mut description = "Jump to ".to_owned();
        description.append(
            if offer.2 {
                "bookmarked"
            } else {
                "recent"
            },
        );
        description.append(" entry in ");
        description.append(offer.0.as_str());
        let kind = if offer.2 {
            "bookmark"
        } else {
            "history"
        };
        let keywords = words3(offer.0.as_str(), offer.1.as_str(), kind);
        r.push(
            Command { id: CommandId::GoToBookmark(i), name, description, keywords, keybinding: None },
        );
        assert(all[i as int] == offer_view(offers@[i as int]));
        i += 1;
    }
    assert(commands_view(r@) =~= offer_commands(all));
    r
}

} // verus!
