//! The state of the explorer's views and the actions that change it.

pub mod palette;
pub mod state;

pub use crate::app::state::App;

use vstd::prelude::*;
use vstd::view::View as _;
use crate::db::env::{clone_entry, entries_view, entry_view, strictly_ascending, EntryView};
use crate::db::parser::{parse_agrees, parsed, parsed_mode, Parsed};
use crate::db::query::{
    count_matches, count_of, mode_answers_all, page_of, parse_query, scan_paginated, ModeView,
};
use crate::config::{Key, KeyBindings};
use crate::constants::FILE_WATCH_DEBOUNCE_SECS;
use crate::errors::AppError;
use crate::plugins::{Decoder, DecoderRegistry};

verus! {

/// The field of an entry dialog that has the focus.
#[derive(Copy, Clone, Debug, PartialEq, Eq)]
pub enum DialogField {
    Key,
    Value,
}

/// The views of the explorer.
#[derive(Copy, Clone, Debug, PartialEq, Eq)]
pub enum View {
    Main,
    Query,
    CommandPalette,
    Preview,
    CreateEntry,
    EditEntry,
    DeleteConfirm,
}

/// The actions that change the state of the explorer.
#[derive(Copy, Clone, Debug, PartialEq, Eq)]
pub enum Action {
    NextDb,
    PrevDb,
    NextEntry,
    PrevEntry,
    EnterQuery,
    ExitView,
    ToggleHelp,
    Undo,
    Redo,
    NextPage,
    PrevPage,
    ToggleBookmark,
    ShowBookmarks,
    OpenCommandPalette,
    ExecuteCommand(CommandId),
    EnterPreview,
    ConfirmCreate,
    ConfirmEdit,
    ConfirmDelete,
    Refresh,
    CycleTheme,
    NextPageMain,
    PrevPageMain,
    Quit,
}

/// The commands of the command palette.
#[derive(Copy, Clone, Debug, PartialEq, Eq)]
pub enum CommandId {
    CreateEntry,
    EditEntry,
    DeleteEntry,
    ExportDatabase,
    ImportDatabase,
    JumpToDatabase(usize),
    GoToBookmark(usize),
    ShowBookmarks,
    ToggleHelp,
    EnterQuery,
    ClearQuery,
    Commit,
    Abort,
    Undo,
    Redo,
    Refresh,
    CycleTheme,
    Quit,
}

/// A command as the palette shows it.
#[derive(Clone, Debug)]
pub struct Command {
    pub id: CommandId,
    pub name: String,
    pub description: String,
    pub keywords: Vec<String>,
    pub keybinding: Option<String>,
}

/// A command as a mathematical value.
pub struct CommandView {
    pub id: CommandId,
    pub name: Seq<char>,
    pub description: Seq<char>,
    pub keywords: Seq<Seq<char>>,
    pub keybinding: Option<Seq<char>>,
}

/// The texts of a sequence of strings.
pub open spec fn texts_view(texts: Seq<String>) -> Seq<Seq<char>> {
    Seq::new(texts.len(), |i: int| texts[i]@)
}

/// The text of an optional string.
pub open spec fn text_view(text: Option<String>) -> Option<Seq<char>> {
    match text {
        Some(t) => Some(t@),
        None => None,
    }
}

impl vstd::view::View for Command {
    type V = CommandView;

    open spec fn view(&self) -> CommandView {
        CommandView {
            id: self.id,
            name: self.name@,
            description: self.description@,
            keywords: texts_view(self.keywords@),
            keybinding: text_view(self.keybinding),
        }
    }
}

/// The mathematical values of a sequence of commands.
pub open spec fn commands_view(commands: Seq<Command>) -> Seq<CommandView> {
    Seq::new(commands.len(), |i: int| commands[i]@)
}

/// The position behind `index` in a list of `len` items, the first behind
/// the last.
pub fn next_index(index: usize, len: usize) -> (r: usize)
    requires
        len > 0,
        index < usize::MAX,
    ensures
        r == (index + 1) % (len as int),
{
    (index + 1) % len
}

/// The position before `index` in a list of `len` items, the last before
/// the first.
pub fn prev_index(index: usize, len: usize) -> (r: usize)
    requires
        len > 0,
    ensures
        r == if index == 0 {
            len - 1
        } else {
            index - 1
        },
{
    if index == 0 {
        len - 1
    } else {
        index - 1
    }
}

/// Where the next page of `page_size` results starts, in a list of `total`
/// results shown from `offset`: one page on, but no further than where the
/// last full page starts. `None` where the view is there already.
pub fn next_page_offset(offset: usize, total: usize, page_size: usize) -> (r: Option<usize>)
    ensures
        ({
            let last = if total >= page_size {
                total - page_size
            } else {
                0
            };
            r == if offset < last {
                Some(
                    if offset + page_size < last {
                        (offset + page_size) as usize
                    } else {
                        last as usize
                    },
                )
            } else {
                None
            }
        }),
{
    let last = if total >= page_size {
        total - page_size
    } else {
        0
    };
    if offset < last {
        if page_size < last - offset {
            Some(offset + page_size)
        } else {
            Some(last)
        }
    } else {
        None
    }
}

/// Where the page before starts: one page back, but not before the start.
/// `None` where the view is at the start.
pub fn prev_page_offset(offset: usize, page_size: usize) -> (r: Option<usize>)
    ensures
        r == if offset >= page_size && (page_size > 0 || offset > 0) {
            Some((offset - page_size) as usize)
        } else if offset > 0 {
            Some(0usize)
        } else {
            None
        },
{
    if offset >= page_size {
        if page_size == 0 && offset == 0 {
            None
        } else {
            Some(offset - page_size)
        }
    } else if offset > 0 {
        Some(0)
    } else {
        None
    }
}

/// The cursor kept within a list of `len` items: on the last item where it
/// stood behind it, and at the start of an empty list.
pub fn clamp_cursor(cursor: usize, len: usize) -> (r: usize)
    ensures
        r == if len == 0 {
            0
        } else if cursor >= len {
            (len - 1) as usize
        } else {
            cursor
        },
{
    if len == 0 {
        0
    } else if cursor >= len {
        len - 1
    } else {
        cursor
    }
}

/// The view on top of the stack; the main view where the stack is empty.
pub open spec fn top_view(views: Seq<View>) -> View {
    if views.len() == 0 {
        View::Main
    } else {
        views.last()
    }
}

/// The view under the one on top; the main view where there is none.
pub open spec fn view_below(views: Seq<View>) -> View {
    if views.len() < 2 {
        View::Main
    } else {
        views[views.len() - 2]
    }
}

/// The cursor that points at the current entry: the main cursor in the main
/// view, the query cursor in the query view, and in an entry dialog the
/// cursor of the view that it lies on. The palette and the preview have
/// none.
pub open spec fn cursor_in_view(views: Seq<View>, cursor: usize, query_cursor: usize) -> Option<
    usize,
> {
    let shown = match top_view(views) {
        View::CreateEntry | View::EditEntry | View::DeleteConfirm => view_below(views),
        View::Main => View::Main,
        View::Query => View::Query,
        _ => View::CommandPalette,
    };
    match shown {
        View::Main => Some(cursor),
        View::Query => Some(query_cursor),
        _ => None,
    }
}

/// The view on top of the stack.
pub fn current_view(views: &[View]) -> (r: View)
    ensures
        r == top_view(views@),
{
    if views.len() == 0 {
        View::Main
    } else {
        views[views.len() - 1]
    }
}

/// The position of the current entry in the list shown, if the view has a
/// current entry and the list holds it.
pub fn current_index(views: &[View], cursor: usize, query_cursor: usize, len: usize) -> (r: Option<
    usize,
>)
    ensures
        r == match cursor_in_view(views@, cursor, query_cursor) {
            Some(at) => if at < len {
                Some(at)
            } else {
                None
            },
            None => None,
        },
{
    let top = current_view(views);
    let shown = match top {
        View::CreateEntry | View::EditEntry | View::DeleteConfirm => if views.len() < 2 {
            View::Main
        } else {
            views[views.len() - 2]
        },
        View::Main => View::Main,
        View::Query => View::Query,
        _ => View::CommandPalette,
    };
    let at = match shown {
        View::Main => cursor,
        View::Query => query_cursor,
        _ => {
            return None;
        },
    };
    if at < len {
        Some(at)
    } else {
        None
    }
}

/// The entry that the view points at, copied.
pub fn current_entry(
    views: &[View],
    entries: &[(String, Vec<u8>)],
    cursor: usize,
    query_cursor: usize,
) -> (r: Option<(String, Vec<u8>)>)
    ensures
        match cursor_in_view(views@, cursor, query_cursor) {
            Some(at) => if at < entries@.len() {
                r matches Some(entry) && entry_view(entry) == entry_view(entries@[at as int])
            } else {
                r is None
            },
            None => r is None,
        },
{
    match current_index(views, cursor, query_cursor, entries.len()) {
        Some(at) => Some(clone_entry(&entries[at])),
        None => None,
    }
}

/// The state of the loading spinner one tick on: it turns through eight
/// states while a query loads and rests otherwise.
pub fn next_spinner(state: usize, loading: bool) -> (r: usize)
    requires
        state < usize::MAX,
    ensures
        r == if loading {
            ((state + 1) % 8) as usize
        } else {
            state
        },
{
    if loading {
        (state + 1) % 8
    } else {
        state
    }
}

/// The character of the spinner in `state`; nothing while no query loads.
pub open spec fn spinner_text(state: usize, loading: bool) -> Seq<char> {
    if !loading {
        ""@
    } else if state == 1 {
        "\u{2819}"@
    } else if state == 2 {
        "\u{2839}"@
    } else if state == 3 {
        "\u{2838}"@
    } else if state == 4 {
        "\u{283c}"@
    } else if state == 5 {
        "\u{2834}"@
    } else if state == 6 {
        "\u{2826}"@
    } else if state == 7 {
        "\u{2827}"@
    } else {
        "\u{280b}"@
    }
}

/// The character of the spinner in `state`; nothing while no query loads.
pub fn spinner_char(state: usize, loading: bool) -> (r: &'static str)
    ensures
        r@ == spinner_text(state, loading),
{
    if !loading {
        ""
    } else if state == 1 {
        "\u{2819}"
    } else if state == 2 {
        "\u{2839}"
    } else if state == 3 {
        "\u{2838}"
    } else if state == 4 {
        "\u{283c}"
    } else if state == 5 {
        "\u{2834}"
    } else if state == 6 {
        "\u{2826}"
    } else if state == 7 {
        "\u{2827}"
    } else {
        "\u{280b}"
    }
}

/// What the query view shows for a query: the number of matches, one page
/// of them, and the cursor within the page.
#[derive(Debug)]
pub struct QueryResults {
    /// The number of entries that match the query.
    pub total_entries: usize,
    /// The page of matches shown.
    pub entries: Vec<(String, Vec<u8>)>,
    /// The cursor, kept within the page.
    pub query_cursor: usize,
}

/// A scan for the query that `query` spells can look at each of `entries`.
pub open spec fn query_answers_all<D: Decoder>(
    query: Seq<char>,
    decoders: Seq<D>,
    entries: Seq<EntryView>,
) -> bool {
    match parsed(query) {
        Parsed::JsonPath(path) => mode_answers_all(ModeView::JsonPath(path), decoders, entries),
        _ => true,
    }
}

/// `results` is what the query view shows for `mode` on a space: the count
/// of the matches, the page of `page_size` matches from `page_offset`, and
/// the cursor on the last entry of the page where it stood behind it.
pub open spec fn results_agree<D: Decoder>(
    results: QueryResults,
    mode: ModeView,
    decoders: Seq<D>,
    entries: Seq<EntryView>,
    page_offset: usize,
    page_size: usize,
    query_cursor: usize,
) -> bool {
    &&& results.total_entries == count_of(mode, decoders, entries)
    &&& entries_view(results.entries@) == page_of(
        mode,
        decoders,
        entries,
        page_offset as nat,
        page_size as nat,
    )
    &&& results.query_cursor == if query_cursor < results.entries@.len() {
        query_cursor
    } else if results.entries@.len() == 0 {
        0
    } else {
        (results.entries@.len() - 1) as usize
    }
}

/// Runs the query of the query view on a space: parses the text, counts the
/// matches, collects the page shown and keeps the cursor within it. Fails as
/// the parser does, with nothing computed.
pub fn query_results<D: Decoder>(
    entries: &[(String, Vec<u8>)],
    query: &str,
    plugins: &DecoderRegistry<D>,
    page_offset: usize,
    page_size: usize,
    query_cursor: usize,
) -> (r: Result<QueryResults, AppError>)
    requires
        plugins.wf(),
        strictly_ascending(entries_view(entries@)),
        query_answers_all(query@, plugins@, entries_view(entries@)),
    ensures
        match parsed_mode(parsed(query@)) {
            Some(mode) => r matches Ok(results) && results_agree(
                results,
                mode,
                plugins@,
                entries_view(entries@),
                page_offset,
                page_size,
                query_cursor,
            ),
            None => r matches Err(e) && parse_agrees(query@, Err(e)),
        },
{
    let mode = match parse_query(query) {
        Ok(mode) => mode,
        Err(e) => {
            return Err(e);
        },
    };
    let total_entries = count_matches(entries, mode.duplicate(), plugins);
    let page = scan_paginated(entries, mode, plugins, page_offset, page_size);
    let query_cursor = if query_cursor < page.len() {
        query_cursor
    } else if page.len() == 0 {
        0
    } else {
        page.len() - 1
    };
    Ok(QueryResults { total_entries, entries: page, query_cursor })
}

/// What a key press asks for.
#[derive(Copy, Clone, Debug, PartialEq, Eq)]
pub enum KeyEffect {
    /// An action for the reducer.
    Do(Action),
    /// Move the cursor of the list shown one down (`true`) or up, around the
    /// ends.
    MoveCursor(bool),
    /// Run the selected command of the palette.
    RunSelected,
    /// Take the last character from the text being typed.
    Pop,
    /// Add a character to the text being typed.
    Push(char),
    /// Move the focus of an entry dialog to its other field.
    SwitchField,
    /// Delete the character before the cursor of the dialog field.
    Backspace,
    /// Move the cursor of the dialog field one left.
    Left,
    /// Move the cursor of the dialog field one right.
    Right,
    /// Insert a character at the cursor of the dialog field.
    Insert(char),
    /// Nothing.
    Ignore,
}

/// What a key asks for while the help is shown: Escape and the quit key
/// close the help, Backspace and characters edit its search.
pub open spec fn help_key_effect(key: Key, bindings: KeyBindings) -> KeyEffect {
    match key {
        Key::Esc => KeyEffect::Do(Action::ToggleHelp),
        Key::Backspace => KeyEffect::Pop,
        Key::Char(c) => if key == bindings.quit {
            KeyEffect::Do(Action::ToggleHelp)
        } else {
            KeyEffect::Push(c)
        },
        _ => KeyEffect::Ignore,
    }
}

/// What a key asks for in the main view.
pub open spec fn main_key_effect(key: Key, ctrl: bool, bindings: KeyBindings) -> KeyEffect {
    if key == bindings.quit {
        KeyEffect::Do(Action::Quit)
    } else if key == bindings.help {
        KeyEffect::Do(Action::ToggleHelp)
    } else if key == bindings.query {
        KeyEffect::Do(Action::EnterQuery)
    } else if key == bindings.down {
        KeyEffect::Do(Action::NextEntry)
    } else if key == bindings.up {
        KeyEffect::Do(Action::PrevEntry)
    } else if key == Key::Left {
        KeyEffect::Do(Action::PrevDb)
    } else if key == Key::Right {
        KeyEffect::Do(Action::NextDb)
    } else if key == Key::Char('z') && ctrl {
        KeyEffect::Do(Action::Undo)
    } else if key == Key::Char('y') && ctrl {
        KeyEffect::Do(Action::Redo)
    } else if key == Key::Char('b') {
        KeyEffect::Do(Action::ToggleBookmark)
    } else if key == Key::Char('B') {
        KeyEffect::Do(Action::ShowBookmarks)
    } else if key == Key::Char('p') && ctrl {
        KeyEffect::Do(Action::OpenCommandPalette)
    } else if key == Key::Enter {
        KeyEffect::Do(Action::EnterPreview)
    } else if key == Key::Char('e') {
        KeyEffect::Do(Action::ExecuteCommand(CommandId::EditEntry))
    } else if key == Key::Char('c') {
        KeyEffect::Do(Action::ExecuteCommand(CommandId::CreateEntry))
    } else if key == Key::Char('d') {
        KeyEffect::Do(Action::ExecuteCommand(CommandId::DeleteEntry))
    } else if key == Key::F(5) {
        KeyEffect::Do(Action::Refresh)
    } else if key == Key::F(6) {
        KeyEffect::Do(Action::CycleTheme)
    } else if key == Key::PageDown {
        KeyEffect::Do(Action::NextPageMain)
    } else if key == Key::PageUp {
        KeyEffect::Do(Action::PrevPageMain)
    } else {
        KeyEffect::Ignore
    }
}

/// What a key asks for in the query view.
pub open spec fn query_key_effect(key: Key, ctrl: bool, bindings: KeyBindings) -> KeyEffect {
    if key == Key::Esc || key == bindings.quit {
        KeyEffect::Do(Action::ExitView)
    } else if key == bindings.down {
        KeyEffect::MoveCursor(true)
    } else if key == bindings.up {
        KeyEffect::MoveCursor(false)
    } else if key == Key::Backspace {
        KeyEffect::Pop
    } else if key == Key::Char('z') && ctrl {
        KeyEffect::Do(Action::Undo)
    } else if key == Key::Char('y') && ctrl {
        KeyEffect::Do(Action::Redo)
    } else if key == Key::PageDown {
        KeyEffect::Do(Action::NextPage)
    } else if key == Key::PageUp {
        KeyEffect::Do(Action::PrevPage)
    } else if key == Key::Enter {
        KeyEffect::Do(Action::EnterPreview)
    } else {
        match key {
            Key::Char(c) => if ctrl {
                KeyEffect::Ignore
            } else if c == 'b' {
                KeyEffect::Do(Action::ToggleBookmark)
            } else if c == 'B' {
                KeyEffect::Do(Action::ShowBookmarks)
            } else {
                KeyEffect::Push(c)
            },
            _ => KeyEffect::Ignore,
        }
    }
}

/// What a key asks for in the command palette.
pub open spec fn palette_key_effect(key: Key, ctrl: bool, bindings: KeyBindings) -> KeyEffect {
    if key == Key::Esc || key == bindings.quit {
        KeyEffect::Do(Action::ExitView)
    } else if key == bindings.down {
        KeyEffect::MoveCursor(true)
    } else if key == bindings.up {
        KeyEffect::MoveCursor(false)
    } else if key == Key::Enter {
        KeyEffect::RunSelected
    } else if key == Key::Backspace {
        KeyEffect::Pop
    } else {
        match key {
            Key::Char(c) => if ctrl {
                KeyEffect::Ignore
            } else {
                KeyEffect::Push(c)
            },
            _ => KeyEffect::Ignore,
        }
    }
}

/// What a key asks for in the dialog that creates (`creating`) or edits an
/// entry.
pub open spec fn dialog_key_effect(key: Key, creating: bool) -> KeyEffect {
    match key {
        Key::Esc => KeyEffect::Do(Action::ExitView),
        Key::Tab => KeyEffect::SwitchField,
        Key::Enter => if creating {
            KeyEffect::Do(Action::ConfirmCreate)
        } else {
            KeyEffect::Do(Action::ConfirmEdit)
        },
        Key::Backspace => KeyEffect::Backspace,
        Key::Left => KeyEffect::Left,
        Key::Right => KeyEffect::Right,
        Key::Char(c) => KeyEffect::Insert(c),
        _ => KeyEffect::Ignore,
    }
}

/// What a key asks for where a delete is to be confirmed.
pub open spec fn confirm_key_effect(key: Key) -> KeyEffect {
    match key {
        Key::Esc => KeyEffect::Do(Action::ExitView),
        Key::Enter => KeyEffect::Do(Action::ConfirmDelete),
        Key::Char(c) => if c == 'y' || c == 'Y' {
            KeyEffect::Do(Action::ConfirmDelete)
        } else if c == 'n' || c == 'N' {
            KeyEffect::Do(Action::ExitView)
        } else {
            KeyEffect::Ignore
        },
        _ => KeyEffect::Ignore,
    }
}

/// What a key press asks for: the help, while it is shown, takes every key;
/// else the view on top does.
pub open spec fn key_effect_of(
    show_help: bool,
    view: View,
    key: Key,
    ctrl: bool,
    bindings: KeyBindings,
) -> KeyEffect {
    if show_help {
        help_key_effect(key, bindings)
    } else {
        match view {
            View::Main => main_key_effect(key, ctrl, bindings),
            View::Query => query_key_effect(key, ctrl, bindings),
            View::CommandPalette => palette_key_effect(key, ctrl, bindings),
            View::Preview => if key == Key::Esc || key == bindings.quit {
                KeyEffect::Do(Action::ExitView)
            } else {
                KeyEffect::Ignore
            },
            View::CreateEntry => dialog_key_effect(key, true),
            View::EditEntry => dialog_key_effect(key, false),
            View::DeleteConfirm => confirm_key_effect(key),
        }
    }
}

/// Says what a key press asks for. `ctrl` says whether the
/// control key was held.
pub fn key_effect(show_help: bool, view: View, key: Key, ctrl: bool, bindings: &KeyBindings) -> (r:
    KeyEffect)
    ensures
        r == key_effect_of(show_help, view, key, ctrl, *bindings),
{
    if show_help {
        return match key {
            Key::Esc => KeyEffect::Do(Action::ToggleHelp),
            Key::Backspace => KeyEffect::Pop,
            Key::Char(c) => if key == bindings.quit {
                KeyEffect::Do(Action::ToggleHelp)
            } else {
                KeyEffect::Push(c)
            },
            _ => KeyEffect::Ignore,
        };
    }
    match view {
        View::Main => main_keys(key, ctrl, bindings),
        View::Query => query_keys(key, ctrl, bindings),
        View::CommandPalette => palette_keys(key, ctrl, bindings),
        View::Preview => if key == Key::Esc || key == bindings.quit {
            KeyEffect::Do(Action::ExitView)
        } else {
            KeyEffect::Ignore
        },
        View::CreateEntry | View::EditEntry => {
            let creating = match view {
                View::CreateEntry => true,
                _ => false,
            };
            match key {
                Key::Esc => KeyEffect::Do(Action::ExitView),
                Key::Tab => KeyEffect::SwitchField,
                Key::Enter => if creating {
                    KeyEffect::Do(Action::ConfirmCreate)
                } else {
                    KeyEffect::Do(Action::ConfirmEdit)
                },
                Key::Backspace => KeyEffect::Backspace,
                Key::Left => KeyEffect::Left,
                Key::Right => KeyEffect::Right,
                Key::Char(c) => KeyEffect::Insert(c),
                _ => KeyEffect::Ignore,
            }
        },
        View::DeleteConfirm => match key {
            Key::Esc => KeyEffect::Do(Action::ExitView),
            Key::Enter => KeyEffect::Do(Action::ConfirmDelete),
            Key::Char(c) => if c == 'y' || c == 'Y' {
                KeyEffect::Do(Action::ConfirmDelete)
            } else if c == 'n' || c == 'N' {
                KeyEffect::Do(Action::ExitView)
            } else {
                KeyEffect::Ignore
            },
            _ => KeyEffect::Ignore,
        },
    }
}

/// The keys of the main view.
fn main_keys(key: Key, ctrl: bool, bindings: &KeyBindings) -> (r: KeyEffect)
    ensures
        r == main_key_effect(key, ctrl, *bindings),
{
    if key == bindings.quit {
        KeyEffect::Do(Action::Quit)
    } else if key == bindings.help {
        KeyEffect::Do(Action::ToggleHelp)
    } else if key == bindings.query {
        KeyEffect::Do(Action::EnterQuery)
    } else if key == bindings.down {
        KeyEffect::Do(Action::NextEntry)
    } else if key == bindings.up {
        KeyEffect::Do(Action::PrevEntry)
    } else if key == Key::Left {
        KeyEffect::Do(Action::PrevDb)
    } else if key == Key::Right {
        KeyEffect::Do(Action::NextDb)
    } else if key == Key::Char('z') && ctrl {
        KeyEffect::Do(Action::Undo)
    } else if key == Key::Char('y') && ctrl {
        KeyEffect::Do(Action::Redo)
    } else if key == Key::Char('b') {
        KeyEffect::Do(Action::ToggleBookmark)
    } else if key == Key::Char('B') {
        KeyEffect::Do(Action::ShowBookmarks)
    } else if key == Key::Char('p') && ctrl {
        KeyEffect::Do(Action::OpenCommandPalette)
    } else if key == Key::Enter {
        KeyEffect::Do(Action::EnterPreview)
    } else if key == Key::Char('e') {
        KeyEffect::Do(Action::ExecuteCommand(CommandId::EditEntry))
    } else if key == Key::Char('c') {
        KeyEffect::Do(Action::ExecuteCommand(CommandId::CreateEntry))
    } else if key == Key::Char('d') {
        KeyEffect::Do(Action::ExecuteCommand(CommandId::DeleteEntry))
    } else if key == Key::F(5) {
        KeyEffect::Do(Action::Refresh)
    } else if key == Key::F(6) {
        KeyEffect::Do(Action::CycleTheme)
    } else if key == Key::PageDown {
        KeyEffect::Do(Action::NextPageMain)
    } else if key == Key::PageUp {
        KeyEffect::Do(Action::PrevPageMain)
    } else {
        KeyEffect::Ignore
    }
}

/// The keys of the query view.
fn query_keys(key: Key, ctrl: bool, bindings: &KeyBindings) -> (r: KeyEffect)
    ensures
        r == query_key_effect(key, ctrl, *bindings),
{
    if key == Key::Esc || key == bindings.quit {
        KeyEffect::Do(Action::ExitView)
    } else if key == bindings.down {
        KeyEffect::MoveCursor(true)
    } else if key == bindings.up {
        KeyEffect::MoveCursor(false)
    } else if key == Key::Backspace {
        KeyEffect::Pop
    } else if key == Key::Char('z') && ctrl {
        KeyEffect::Do(Action::Undo)
    } else if key == Key::Char('y') && ctrl {
        KeyEffect::Do(Action::Redo)
    } else if key == Key::PageDown {
        KeyEffect::Do(Action::NextPage)
    } else if key == Key::PageUp {
        KeyEffect::Do(Action::PrevPage)
    } else if key == Key::Enter {
        KeyEffect::Do(Action::EnterPreview)
    } else {
        match key {
            Key::Char(c) => if ctrl {
                KeyEffect::Ignore
            } else if c == 'b' {
                KeyEffect::Do(Action::ToggleBookmark)
            } else if c == 'B' {
                KeyEffect::Do(Action::ShowBookmarks)
            } else {
                KeyEffect::Push(c)
            },
            _ => KeyEffect::Ignore,
        }
    }
}

/// The keys of the command palette.
fn palette_keys(key: Key, ctrl: bool, bindings: &KeyBindings) -> (r: KeyEffect)
    ensures
        r == palette_key_effect(key, ctrl, *bindings),
{
    if key == Key::Esc || key == bindings.quit {
        KeyEffect::Do(Action::ExitView)
    } else if key == bindings.down {
        KeyEffect::MoveCursor(true)
    } else if key == bindings.up {
        KeyEffect::MoveCursor(false)
    } else if key == Key::Enter {
        KeyEffect::RunSelected
    } else if key == Key::Backspace {
        KeyEffect::Pop
    } else {
        match key {
            Key::Char(c) => if ctrl {
                KeyEffect::Ignore
            } else {
                KeyEffect::Push(c)
            },
            _ => KeyEffect::Ignore,
        }
    }
}

/// Whether a change of the store's files refreshes the view: the first one
/// does, and each one that comes no sooner behind the last that did than
/// the debounce time. `since_last` holds the whole seconds since that one.
pub fn refreshes_view(since_last: Option<u64>) -> (r: bool)
    ensures
        r == match since_last {
            Some(secs) => secs >= FILE_WATCH_DEBOUNCE_SECS,
            None => true,
        },
{
    match since_last {
        Some(secs) => secs >= FILE_WATCH_DEBOUNCE_SECS,
        None => true,
    }
}

} // verus!
