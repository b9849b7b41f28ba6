//! The hints of the status line.

use vstd::prelude::*;
use vstd::string::*;
use vstd::view::View as _;
use crate::app::state::{current_key_of, App, AppView};
use crate::app::{top_view, View};
use crate::config::{Key, KeyBindings};
use crate::trusted::string_push;
use crate::util::decimal;

verus! {

/// The label of a key.
pub open spec fn key_text(key: Key) -> Seq<char> {
    match key {
        Key::Char(c) => seq![c],
        Key::Enter => "Enter"@,
        Key::Tab => "Tab"@,
        Key::Backspace => "Backspace"@,
        Key::Delete => "Delete"@,
        Key::Esc => "Esc"@,
        Key::Up => "Up"@,
        Key::Down => "Down"@,
        Key::Left => "Left"@,
        Key::Right => "Right"@,
        Key::Home => "Home"@,
        Key::End => "End"@,
        Key::PageUp => "PageUp"@,
        Key::PageDown => "PageDown"@,
        Key::F(n) => "F("@ + decimal(n as nat) + ")"@,
        Key::Null => "Null"@,
    }
}

/// Appends the decimal digits of `n`.
fn push_number(text: &mut String, n: u8)
    ensures
        final(text)@ == old(text)@ + decimal(n as nat),
{
    if n >= 100 {
        string_push(text, (0x30u8 + n / 100) as char);
        string_push(text, (0x30u8 + (n / 10) % 10) as char);
        string_push(text, (0x30u8 + n % 10) as char);
        assert(decimal(n as nat) =~= seq![
            crate::util::digit((n / 100) as nat),
            crate::util::digit(((n / 10) % 10) as nat),
            crate::util::digit((n % 10) as nat),
        ]) by {
            reveal_with_fuel(decimal, 3);
            assert((n as nat / 10) / 10 == n as nat / 100);
        }
    } else if n >= 10 {
        string_push(text, (0x30u8 + n / 10) as char);
        string_push(text, (0x30u8 + n % 10) as char);
        assert(decimal(n as nat) =~= seq![
            crate::util::digit((n / 10) as nat),
            crate::util::digit((n % 10) as nat),
        ]) by {
            reveal_with_fuel(decimal, 2);
        }
    } else {
        string_push(text, (0x30u8 + n) as char);
    }
    assert(text@ =~= old(text)@ + decimal(n as nat));
}

/// A readable label for a key.
pub fn key_label(key: Key) -> (label: String)
    ensures
        label@ == key_text(key),
{
    match key {
        Key::Char(c) => {
            let mut label = String::new();
            string_push(&mut label, c);
            assert(label@ =~= seq![c]);
            label
        },
        Key::Enter => "Enter".to_owned(),
        Key::Tab => "Tab".to_owned(),
        Key::Backspace => "Backspace".to_owned(),
        Key::Delete => "Delete".to_owned(),
        Key::Esc => "Esc".to_owned(),
        Key::Up => "Up".to_owned(),
        Key::Down => "Down".to_owned(),
        Key::Left => "Left".to_owned(),
        Key::Right => "Right".to_owned(),
        Key::Home => "Home".to_owned(),
        Key::End => "End".to_owned(),
        Key::PageUp => "PageUp".to_owned(),
        Key::PageDown => "PageDown".to_owned(),
        Key::F(n) => {
            let mut label = "F(".to_owned();
            push_number(&mut label, n);
            label.append(")");
            label
        },
        Key::Null => "Null".to_owned(),
    }
}

/// The hints of the main view, in order.
pub open spec fn main_hints(s: AppView, keys: KeyBindings) -> Seq<Seq<char>> {
    let first = seq![
        key_text(keys.quit) + ": quit"@,
        key_text(keys.help) + ": help"@,
        key_text(keys.query) + ": query"@,
    ];
    let spaces = if s.db_names.len() > 0 {
        seq![
            key_text(keys.up) + "/"@ + key_text(keys.down) + ": entries"@,
            "\u{2190}/\u{2192}: databases"@,
            if is_bookmarked(s) {
                "b: remove bookmark"@
            } else {
                "b: bookmark"@
            },
            "B: show history"@,
            "Ctrl+P: commands"@,
        ]
    } else {
        Seq::empty()
    };
    first + spaces + undo_hints(s)
}

/// Whether the key that the view points at is bookmarked.
pub open spec fn is_bookmarked(s: AppView) -> bool {
    match current_key_of(s) {
        Some(key) => s.selected < s.db_names.len() && s.bookmarks.contains(
            (s.db_names[s.selected as int], key),
        ),
        None => false,
    }
}

/// The hints of undo and redo, where there is something to take back or to
/// make again.
pub open spec fn undo_hints(s: AppView) -> Seq<Seq<char>> {
    (if s.undo.pos > 0 {
        seq!["Ctrl+Z: undo"@]
    } else {
        Seq::empty()
    }) + (if s.undo.pos < s.undo.ops.len() {
        seq!["Ctrl+Y: redo"@]
    } else {
        Seq::empty()
    })
}

/// The hints of the query view, in order.
pub open spec fn query_hints(s: AppView, keys: KeyBindings) -> Seq<Seq<char>> {
    let first = seq!["Esc: back"@, key_text(keys.quit) + ": quit"@];
    let moving = if s.entries.len() > 0 {
        seq![key_text(keys.up) + ": up"@, key_text(keys.down) + ": down"@]
    } else {
        Seq::empty()
    };
    let pages = if s.total_entries > s.entries.len() {
        seq!["PgUp/PgDn: pages"@]
    } else {
        Seq::empty()
    };
    let select = if s.entries.len() > 0 {
        seq!["Enter: select"@]
    } else {
        Seq::empty()
    };
    first + moving + pages + select + undo_hints(s)
}

/// Texts joined with a bar between two of them.
pub open spec fn joined(parts: Seq<Seq<char>>) -> Seq<char>
    decreases parts.len(),
{
    if parts.len() == 0 {
        Seq::empty()
    } else if parts.len() == 1 {
        parts[0]
    } else {
        joined(parts.drop_last()) + " | "@ + parts.last()
    }
}

/// The hints of the view on top.
pub open spec fn view_hints(s: AppView, keys: KeyBindings) -> Seq<char> {
    match top_view(s.view) {
        View::Main => joined(main_hints(s, keys)),
        View::Query => joined(query_hints(s, keys)),
        View::CommandPalette =>
            "Type to search commands \u{2022} \u{2191}/\u{2193}: navigate \u{2022} Enter: execute \u{2022} Esc: close"@,
        View::Preview => "Esc: close preview \u{2022} q: quit"@,
        View::CreateEntry => "Tab: switch fields \u{2022} Enter: create \u{2022} Esc: cancel"@,
        View::EditEntry => "Tab: switch fields \u{2022} Enter: save \u{2022} Esc: cancel"@,
        View::DeleteConfirm => "Y/Enter: confirm delete \u{2022} N/Esc: cancel"@,
    }
}

/// The text of the status line: the hints of the view on top, behind a
/// bullet where changes wait to be committed.
pub open spec fn status_of(s: AppView, keys: KeyBindings) -> Seq<char> {
    if s.has_pending_changes {
        "\u{25cf} "@ + view_hints(s, keys) + " "@
    } else {
        view_hints(s, keys)
    }
}

/// The texts of a sequence of parts.
pub open spec fn parts_view(parts: Seq<String>) -> Seq<Seq<char>> {
    Seq::new(parts.len(), |i: int| parts[i]@)
}

/// Joins texts with a bar between two of them.
fn join(parts: &Vec<String>) -> (r: String)
    ensures
        r@ == joined(parts_view(parts@)),
{
    let mut r = String::new();
    let mut i: usize = 0;
    let ghost all = parts_view(parts@);
    assert(all.take(0) =~= Seq::<Seq<char>>::empty());
    while i < parts.len()
        invariant
            i <= parts@.len(),
            all == parts_view(parts@),
            r@ == joined(all.take(i as int)),
        decreases parts@.len() - i,
    {
        assert(all.take(i as int + 1).drop_last() =~= all.take(i as int));
        assert(all.take(i as int + 1).last() == parts@[i as int]@);
        if i > 0 {
            r.append(" | ");
        } else {
            assert(all.take(1)[0] == parts@[0]@);
            assert(r@ + parts@[0]@ =~= parts@[0]@);
        }
        r.append(parts[i].as_str());
        i += 1;
    }
    assert(all.take(i as int) =~= all);
    r
}

/// A label and what it stands for, as one hint.
fn hint(label: String, meaning: &str) -> (r: String)
    ensures
        r@ == label@ + meaning@,
{
    let mut r = label;
    r.append(meaning);
    r
}

/// Appends the hints of undo and redo.
fn push_undo_hints(app: &App, hints: &mut Vec<String>)
    requires
        app.wf(),
    ensures
        parts_view(final(hints)@) == parts_view(old(hints)@) + undo_hints(app@),
{
    let ghost before = parts_view(hints@);
    if app.can_undo() {
        hints.push("Ctrl+Z: undo".to_owned());
    }
    let ghost mid = parts_view(hints@);
    if app.can_redo() {
        hints.push("Ctrl+Y: redo".to_owned());
    }
    assert(parts_view(hints@) =~= before + undo_hints(app@)) by {
        if app@.undo.pos > 0 {
            assert(mid =~= before.push("Ctrl+Z: undo"@));
        } else {
            assert(mid =~= before);
        }
        if app@.undo.pos < app@.undo.ops.len() {
            assert(parts_view(hints@) =~= mid.push("Ctrl+Y: redo"@));
        } else {
            assert(parts_view(hints@) =~= mid);
        }
    }
}

/// The hints of the main view.
#[verifier::rlimit(40)]
fn main_view_hints(app: &App, keys: &KeyBindings) -> (r: String)
    requires
        app.wf(),
    ensures
        r@ == joined(main_hints(app@, *keys)),
{
    let mut hints: Vec<String> = Vec::new();
    hints.push(hint(key_label(keys.quit), ": quit"));
    hints.push(hint(key_label(keys.help), ": help"));
    hints.push(hint(key_label(keys.query), ": query"));
    if app.db_names.len() > 0 {
        let mut moving = key_label(keys.up);
        moving.append("/");
        moving.append(key_label(keys.down).as_str());
        moving.append(": entries");
        hints.push(moving);
        hints.push("\u{2190}/\u{2192}: databases".to_owned());
        if app.is_current_bookmarked() {
            hints.push("b: remove bookmark".to_owned());
        } else {
            hints.push("b: bookmark".to_owned());
        }
        hints.push("B: show history".to_owned());
        hints.push("Ctrl+P: commands".to_owned());
    }
    let ghost head = parts_view(hints@);
    push_undo_hints(app, &mut hints);
    assert(parts_view(hints@) =~= main_hints(app@, *keys));
    join(&hints)
}

/// The hints of the query view.
#[verifier::rlimit(40)]
fn query_view_hints(app: &App, keys: &KeyBindings) -> (r: String)
    requires
        app.wf(),
    ensures
        r@ == joined(query_hints(app@, *keys)),
{
    let mut hints: Vec<String> = Vec::new();
    hints.push("Esc: back".to_owned());
    hints.push(hint(key_label(keys.quit), ": quit"));
    if app.entries.len() > 0 {
        hints.push(hint(key_label(keys.up), ": up"));
        hints.push(hint(key_label(keys.down), ": down"));
    }
    if app.total_entries > app.entries.len() {
        hints.push("PgUp/PgDn: pages".to_owned());
    }
    if app.entries.len() > 0 {
        hints.push("Enter: select".to_owned());
    }
    push_undo_hints(app, &mut hints);
    assert(parts_view(hints@) =~= query_hints(app@, *keys));
    join(&hints)
}

/// The text of the status line.
pub fn status_text(app: &App, keys: &KeyBindings) -> (r: String)
    requires
        app.wf(),
    ensures
        r@ == status_of(app@, *keys),
{
    let hints = match app.current_view() {
        View::Main => main_view_hints(app, keys),
        View::Query => query_view_hints(app, keys),
        View::CommandPalette =>
            "Type to search commands \u{2022} \u{2191}/\u{2193}: navigate \u{2022} Enter: execute \u{2022} Esc: close".to_owned(),
        View::Preview => "Esc: close preview \u{2022} q: quit".to_owned(),
        View::CreateEntry => "Tab: switch fields \u{2022} Enter: create \u{2022} Esc: cancel".to_owned(),
        View::EditEntry => "Tab: switch fields \u{2022} Enter: save \u{2022} Esc: cancel".to_owned(),
        View::DeleteConfirm => "Y/Enter: confirm delete \u{2022} N/Esc: cancel".to_owned(),
    };
    if app.has_pending_changes {
        let mut text = "\u{25cf} ".to_owned();
        text.append(hints.as_str());
        text.append(" ");
        text
    } else {
        hints
    }
}

} // verus!
