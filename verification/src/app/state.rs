//! The explorer as a state machine: the state of its views, the actions and
//! key presses that change it, and the work on the store that they ask for.
//!
//! The machine touches no store. An action leaves the state changed and
//! names the work to be done outside: entries to read, a query to run, a
//! write to make. What that work brought is handed back to the machine,
//! which may name more work.

use vstd::prelude::*;
use vstd::slice::slice_to_vec;
use vstd::string::*;
use vstd::utf8::encode_utf8;
use vstd::view::View as _;
use crate::app::palette::{
    bookmark_commands, bookmark_offers, build_command_list, filter_commands, offer_commands,
    offers_for, offers_view, palette_for, OfferView,
};
use crate::app::{
    clamp_cursor, commands_view, current_entry, current_index, current_view, cursor_in_view,
    next_index, next_page_offset, next_spinner, prev_index, prev_page_offset, spinner_char,
    top_view, Action, Command, CommandId, CommandView, DialogField, KeyEffect, View,
};
use crate::bookmarks::{
    history_pushed, place_added, place_removed, Bookmarks, HistoryView, JumpHistory, PlaceView,
};
use crate::commands;
use crate::config::{dark_theme, high_contrast_theme, light_theme, Theme, ThemeView};
use crate::constants::{DEFAULT_ENTRY_LIMIT, DEFAULT_PAGE_SIZE, MAX_JUMP_HISTORY};
use crate::db::env::{entries_view, entry_view, EntryView};
use crate::db::kv::{Mutation, MutationView};
use crate::db::undo::{bytes_view, op_forward, op_inverse, OpView, UndoStack, UndoView};
use crate::trusted::{string_push, utf8_lossy, utf8_lossy_text};

verus! {

/// The text without its last character; an empty text stays empty.
pub fn text_pop(text: &str) -> (r: String)
    ensures
        r@ == if text@.len() > 0 {
            text@.drop_last()
        } else {
            text@
        },
{
    let len = text.unicode_len();
    if len == 0 {
        text.to_owned()
    } else {
        text.substring_char(0, len - 1).to_owned()
    }
}

/// The text with `c` put in before the character at position `at`.
pub fn text_insert(text: &str, at: usize, c: char) -> (r: String)
    requires
        at <= text@.len(),
    ensures
        r@ == text@.insert(at as int, c),
{
    let len = text.unicode_len();
    let mut r = text.substring_char(0, at).to_owned();
    string_push(&mut r, c);
    r.append(text.substring_char(at, len));
    assert(r@ =~= text@.insert(at as int, c));
    r
}

/// The text without the character at position `at`.
pub fn text_remove(text: &str, at: usize) -> (r: String)
    requires
        at < text@.len(),
    ensures
        r@ == text@.remove(at as int),
{
    let len = text.unicode_len();
    let mut r = text.substring_char(0, at).to_owned();
    r.append(text.substring_char(at + 1, len));
    assert(r@ =~= text@.remove(at as int));
    r
}

/// What the machine does with entries that were read for it.
#[derive(Debug)]
pub enum Loaded {
    /// Show them in place of the entries shown.
    Replace,
    /// Show them, with the cursor on the first.
    Reset,
    /// Show them, with the cursor on the last where it stood behind it.
    ClampLast,
    /// Show them with the cursor kept within them, and run the query again
    /// where the query view is on top.
    Refresh,
    /// Show them behind the entries shown, and move the cursor one on.
    Append,
    /// Show them, with the cursor on the key where they hold it.
    Select(String),
    /// Show them, with the cursor on the key where they hold it, and note
    /// the jump to the key of the space in the history.
    Jump(String, String),
}

/// What the machine does with entries, as a mathematical value.
pub enum LoadedView {
    Replace,
    Reset,
    ClampLast,
    Refresh,
    Append,
    Select(Seq<char>),
    Jump(Seq<char>, Seq<char>),
}

impl vstd::view::View for Loaded {
    type V = LoadedView;

    open spec fn view(&self) -> LoadedView {
        match self {
            Loaded::Replace => LoadedView::Replace,
            Loaded::Reset => LoadedView::Reset,
            Loaded::ClampLast => LoadedView::ClampLast,
            Loaded::Refresh => LoadedView::Refresh,
            Loaded::Append => LoadedView::Append,
            Loaded::Select(key) => LoadedView::Select(key@),
            Loaded::Jump(db, key) => LoadedView::Jump(db@, key@),
        }
    }
}

/// What a write is made for.
#[derive(Copy, Clone, Debug, PartialEq, Eq)]
pub enum Replay {
    /// A new write, to be recorded in the undo log.
    New,
    /// The inverse of the newest record in effect.
    Undo,
    /// The oldest record taken back, made again.
    Redo,
}

/// The work on the store that the machine asks for.
#[derive(Debug)]
pub enum Effect {
    /// None.
    Nothing,
    /// Read the entries of space `db` behind the first `offset`, at most
    /// `limit`, and hand them to `loaded` with `then`. With `stats`, ask the
    /// worker for the statistics of the space too.
    Load { db: String, offset: usize, limit: usize, then: Loaded, stats: bool },
    /// Count the matches of `query` in space `db`, collect the page of
    /// `limit` matches behind the first `offset`, and hand both to
    /// `query_loaded`.
    Query { db: String, query: String, offset: usize, limit: usize },
    /// Make the write in a writer of its own; once it is committed, hand it
    /// to `written` with the value that its key held before.
    Write { mutation: Mutation, replay: Replay },
}

/// The work asked for, as a mathematical value.
pub enum EffectView {
    Nothing,
    Load { db: Seq<char>, offset: usize, limit: usize, then: LoadedView, stats: bool },
    Query { db: Seq<char>, query: Seq<char>, offset: usize, limit: usize },
    Write { mutation: MutationView, replay: Replay },
}

impl vstd::view::View for Effect {
    type V = EffectView;

    open spec fn view(&self) -> EffectView {
        match self {
            Effect::Nothing => EffectView::Nothing,
            Effect::Load { db, offset, limit, then, stats } => EffectView::Load {
                db: db@,
                offset: *offset,
                limit: *limit,
                then: then@,
                stats: *stats,
            },
            Effect::Query { db, query, offset, limit } => EffectView::Query {
                db: db@,
                query: query@,
                offset: *offset,
                limit: *limit,
            },
            Effect::Write { mutation, replay } => EffectView::Write {
                mutation: mutation@,
                replay: *replay,
            },
        }
    }
}

/// The state of the explorer.
pub struct App {
    /// The spaces of the environment, sorted by name.
    pub db_names: Vec<String>,
    /// The position of the selected space.
    pub selected: usize,
    /// The entries shown: of the selected space, or of the query.
    pub entries: Vec<(String, Vec<u8>)>,
    /// The stack of views, the one shown on top.
    pub view: Vec<View>,
    /// Whether the explorer goes on.
    pub running: bool,
    /// The text of the query.
    pub query: String,
    /// The cursor within the results of the query.
    pub query_cursor: usize,
    /// The number of matches of the query.
    pub total_entries: usize,
    /// Where the page of results shown starts.
    pub page_offset: usize,
    /// Whether the main view reads more entries as the cursor reaches the
    /// last.
    pub lazy_loading_enabled: bool,
    /// Whether a query is being run.
    pub query_loading: bool,
    /// The state of the loading spinner.
    pub loading_spinner_state: usize,
    /// Whether the help is shown.
    pub show_help: bool,
    /// The search of the help.
    pub help_query: String,
    /// The theme.
    pub theme: Theme,
    /// The undo log.
    pub undo_stack: UndoStack,
    /// Whether writes wait to be committed.
    pub has_pending_changes: bool,
    /// The bookmarks.
    pub bookmarks: Bookmarks,
    /// The history of jumps.
    pub jump_history: JumpHistory,
    /// The cursor within the entries of the main view.
    pub cursor: usize,
    /// The search of the palette.
    pub command_palette_query: String,
    /// The cursor within the commands of the palette.
    pub command_palette_selected: usize,
    /// The commands that the palette shows.
    pub filtered_commands: Vec<Command>,
    /// The places that the palette offers to jump to.
    pub filtered_bookmarks: Vec<(String, String, bool)>,
    /// The key shown in the preview.
    pub preview_key: Option<String>,
    /// The value shown in the preview.
    pub preview_value: Option<Vec<u8>>,
    /// The key typed into the entry dialog.
    pub dialog_key: String,
    /// The value typed into the entry dialog.
    pub dialog_value: String,
    /// The cursor within the key of the dialog, in characters.
    pub dialog_key_cursor: usize,
    /// The cursor within the value of the dialog, in characters.
    pub dialog_value_cursor: usize,
    /// The field of the dialog that has the focus.
    pub dialog_field: DialogField,
}

/// The state of the explorer as a mathematical value.
pub struct AppView {
    pub db_names: Seq<Seq<char>>,
    pub selected: usize,
    pub entries: Seq<EntryView>,
    pub view: Seq<View>,
    pub running: bool,
    pub query: Seq<char>,
    pub query_cursor: usize,
    pub total_entries: usize,
    pub page_offset: usize,
    pub lazy_loading_enabled: bool,
    pub query_loading: bool,
    pub loading_spinner_state: usize,
    pub show_help: bool,
    pub help_query: Seq<char>,
    pub theme: ThemeView,
    pub undo: UndoView,
    pub has_pending_changes: bool,
    pub bookmarks: Seq<PlaceView>,
    pub history: HistoryView,
    pub cursor: usize,
    pub palette_query: Seq<char>,
    pub palette_selected: usize,
    pub commands: Seq<CommandView>,
    pub offers: Seq<OfferView>,
    pub preview_key: Option<Seq<char>>,
    pub preview_value: Option<Seq<u8>>,
    pub dialog_key: Seq<char>,
    pub dialog_value: Seq<char>,
    pub dialog_key_cursor: usize,
    pub dialog_value_cursor: usize,
    pub dialog_field: DialogField,
}

/// The texts of a sequence of names.
pub open spec fn names_of(names: Seq<String>) -> Seq<Seq<char>> {
    Seq::new(names.len(), |i: int| names[i]@)
}

/// The text of an optional string.
pub open spec fn text_of(text: Option<String>) -> Option<Seq<char>> {
    match text {
        Some(t) => Some(t@),
        None => None,
    }
}

impl vstd::view::View for App {
    type V = AppView;

    open spec fn view(&self) -> AppView {
        AppView {
            db_names: names_of(self.db_names@),
            selected: self.selected,
            entries: entries_view(self.entries@),
            view: self.view@,
            running: self.running,
            query: self.query@,
            query_cursor: self.query_cursor,
            total_entries: self.total_entries,
            page_offset: self.page_offset,
            lazy_loading_enabled: self.lazy_loading_enabled,
            query_loading: self.query_loading,
            loading_spinner_state: self.loading_spinner_state,
            show_help: self.show_help,
            help_query: self.help_query@,
            theme: self.theme@,
            undo: self.undo_stack@,
            has_pending_changes: self.has_pending_changes,
            bookmarks: self.bookmarks@,
            history: self.jump_history@,
            cursor: self.cursor,
            palette_query: self.command_palette_query@,
            palette_selected: self.command_palette_selected,
            commands: commands_view(self.filtered_commands@),
            offers: offers_view(self.filtered_bookmarks@),
            preview_key: text_of(self.preview_key),
            preview_value: bytes_view(self.preview_value),
            dialog_key: self.dialog_key@,
            dialog_value: self.dialog_value@,
            dialog_key_cursor: self.dialog_key_cursor,
            dialog_value_cursor: self.dialog_value_cursor,
            dialog_field: self.dialog_field,
        }
    }
}

/// A state is sound: the selected space is one of the spaces, the cursors
/// can move on, and the cursors of the dialog lie within its texts.
pub open spec fn sound(s: AppView) -> bool {
    &&& s.db_names.len() == 0 || s.selected < s.db_names.len()
    &&& s.cursor < usize::MAX
    &&& s.query_cursor < usize::MAX
    &&& s.palette_selected < usize::MAX
    &&& s.loading_spinner_state < usize::MAX
    &&& s.dialog_key_cursor <= s.dialog_key.len()
    &&& s.dialog_value_cursor <= s.dialog_value.len()
    &&& s.undo.pos <= s.undo.ops.len()
}

/// The state in which the explorer starts on the given spaces: the main
/// view, the first space selected, nothing shown yet.
pub open spec fn initial(db_names: Seq<Seq<char>>) -> AppView {
    AppView {
        db_names,
        selected: 0,
        entries: Seq::empty(),
        view: seq![View::Main],
        running: true,
        query: Seq::empty(),
        query_cursor: 0,
        total_entries: 0,
        page_offset: 0,
        lazy_loading_enabled: true,
        query_loading: false,
        loading_spinner_state: 0,
        show_help: false,
        help_query: Seq::empty(),
        theme: dark_theme(),
        undo: UndoView { ops: Seq::empty(), pos: 0 },
        has_pending_changes: false,
        bookmarks: Seq::empty(),
        history: HistoryView { list: Seq::empty(), max: MAX_JUMP_HISTORY as nat },
        cursor: 0,
        palette_query: Seq::empty(),
        palette_selected: 0,
        commands: Seq::empty(),
        offers: Seq::empty(),
        preview_key: None,
        preview_value: None,
        dialog_key: Seq::empty(),
        dialog_value: Seq::empty(),
        dialog_key_cursor: 0,
        dialog_value_cursor: 0,
        dialog_field: DialogField::Key,
    }
}

/// The work that reads the first entries of the selected space; none where
/// there is no space.
pub open spec fn load_selected(s: AppView, then: LoadedView, stats: bool) -> EffectView {
    if s.selected < s.db_names.len() {
        EffectView::Load {
            db: s.db_names[s.selected as int],
            offset: 0,
            limit: DEFAULT_ENTRY_LIMIT,
            then,
            stats,
        }
    } else {
        EffectView::Nothing
    }
}

/// The work that runs the query of the query view on the selected space.
pub open spec fn run_query(s: AppView) -> (AppView, EffectView) {
    if s.db_names.len() == 0 {
        (AppView { entries: Seq::empty(), total_entries: 0, ..s }, EffectView::Nothing)
    } else {
        (
            AppView { query_loading: true, ..s },
            EffectView::Query {
                db: s.db_names[s.selected as int],
                query: s.query,
                offset: s.page_offset,
                limit: DEFAULT_PAGE_SIZE,
            },
        )
    }
}

/// The key that the view points at: the key of the preview in the preview,
/// else the key of the current entry.
pub open spec fn current_key_of(s: AppView) -> Option<Seq<char>> {
    if top_view(s.view) == View::Preview {
        s.preview_key
    } else {
        match cursor_in_view(s.view, s.cursor, s.query_cursor) {
            Some(at) => if at < s.entries.len() {
                Some(s.entries[at as int].0)
            } else {
                None
            },
            None => None,
        }
    }
}

/// The entry that the view points at.
pub open spec fn current_entry_of(s: AppView) -> Option<EntryView> {
    match cursor_in_view(s.view, s.cursor, s.query_cursor) {
        Some(at) => if at < s.entries.len() {
            Some(s.entries[at as int])
        } else {
            None
        },
        None => None,
    }
}

impl App {
    /// The well-formedness of the parts and the soundness of the whole.
    pub open spec fn wf(&self) -> bool {
        &&& self.undo_stack.wf()
        &&& self.bookmarks.wf()
        &&& sound(self@)
    }

    /// The explorer on the given spaces, sorted by name, before anything is
    /// shown.
    pub fn new(db_names: Vec<String>) -> (r: Self)
        ensures
            r.wf(),
            r@ == initial(names_of(db_names@)),
    {
        let undo_stack = UndoStack::new();
        proof {
            undo_stack.lemma_cursor_in_range();
        }
        let mut view: Vec<View> = Vec::new();
        view.push(View::Main);
        let r = App {
            db_names,
            selected: 0,
            entries: Vec::new(),
            view,
            running: true,
            query: String::new(),
            query_cursor: 0,
            total_entries: 0,
            page_offset: 0,
            lazy_loading_enabled: true,
            query_loading: false,
            loading_spinner_state: 0,
            show_help: false,
            help_query: String::new(),
            theme: Theme::dark(),
            undo_stack,
            has_pending_changes: false,
            bookmarks: Bookmarks::new(),
            jump_history: JumpHistory::new(MAX_JUMP_HISTORY),
            cursor: 0,
            command_palette_query: String::new(),
            command_palette_selected: 0,
            filtered_commands: Vec::new(),
            filtered_bookmarks: Vec::new(),
            preview_key: None,
            preview_value: None,
            dialog_key: String::new(),
            dialog_value: String::new(),
            dialog_key_cursor: 0,
            dialog_value_cursor: 0,
            dialog_field: DialogField::Key,
        };
        assert(r@.entries =~= Seq::<EntryView>::empty());
        assert(r@.view =~= seq![View::Main]);
        assert(r@.commands =~= Seq::<CommandView>::empty());
        assert(r@.offers =~= Seq::<OfferView>::empty());
        r
    }

    /// The view on top of the stack.
    pub fn current_view(&self) -> (r: View)
        ensures
            r == top_view(self@.view),
    {
        current_view(self.view.as_slice())
    }

    /// Whether a record can be taken back.
    pub fn can_undo(&self) -> (r: bool)
        requires
            self.wf(),
        ensures
            r == (self@.undo.pos > 0),
    {
        self.undo_stack.can_undo()
    }

    /// Whether a record can be made again.
    pub fn can_redo(&self) -> (r: bool)
        requires
            self.wf(),
        ensures
            r == (self@.undo.pos < self@.undo.ops.len()),
    {
        self.undo_stack.can_redo()
    }

    /// The key that the view points at.
    pub fn current_key(&self) -> (r: Option<String>)
        ensures
            text_of(r) == current_key_of(self@),
    {
        match self.current_view() {
            View::Preview => match &self.preview_key {
                Some(key) => Some(key.clone()),
                None => None,
            },
            _ => match current_index(
                self.view.as_slice(),
                self.cursor,
                self.query_cursor,
                self.entries.len(),
            ) {
                Some(at) => {
                    assert(self@.entries[at as int] == entry_view(self.entries@[at as int]));
                    Some(self.entries[at].0.clone())
                },
                None => None,
            },
        }
    }

    /// The entry that the view points at.
    pub fn get_current_entry(&self) -> (r: Option<(String, Vec<u8>)>)
        ensures
            match r {
                Some(entry) => current_entry_of(self@) == Some(entry_view(entry)),
                None => current_entry_of(self@) is None,
            },
    {
        let r = current_entry(
            self.view.as_slice(),
            self.entries.as_slice(),
            self.cursor,
            self.query_cursor,
        );
        proof {
            match cursor_in_view(self@.view, self.cursor, self.query_cursor) {
                Some(at) => {
                    if at < self.entries@.len() {
                        assert(self@.entries[at as int] == entry_view(self.entries@[at as int]));
                    }
                },
                None => {},
            }
        }
        r
    }

    /// Whether the key that the view points at is bookmarked.
    pub fn is_current_bookmarked(&self) -> (r: bool)
        requires
            self.wf(),
        ensures
            r == match current_key_of(self@) {
                Some(key) => self@.selected < self@.db_names.len() && self@.bookmarks.contains(
                    (self@.db_names[self@.selected as int], key),
                ),
                None => false,
            },
    {
        if self.selected < self.db_names.len() {
            match self.current_key() {
                Some(key) => self.bookmarks.contains(
                    self.db_names[self.selected].as_str(),
                    key.as_str(),
                ),
                None => false,
            }
        } else {
            false
        }
    }
}

/// The view stack without the view on top; an empty stack stays empty.
pub open spec fn popped(views: Seq<View>) -> Seq<View> {
    if views.len() > 0 {
        views.drop_last()
    } else {
        views
    }
}

/// Where the next page of results starts; `None` where the view is on the
/// last.
pub open spec fn next_offset(offset: usize, total: usize, page_size: usize) -> Option<usize> {
    let last = if total >= page_size {
        total - page_size
    } else {
        0
    };
    if offset < last {
        Some(
            if offset + page_size < last {
                (offset + page_size) as usize
            } else {
                last as usize
            },
        )
    } else {
        None
    }
}

/// Where the page of results before starts; `None` where the view is on the
/// first.
pub open spec fn prev_offset(offset: usize, page_size: usize) -> Option<usize> {
    if offset >= page_size && (page_size > 0 || offset > 0) {
        Some((offset - page_size) as usize)
    } else if offset > 0 {
        Some(0usize)
    } else {
        None
    }
}

/// The first position from `from` on at which `names` holds `name`.
pub open spec fn name_position(names: Seq<Seq<char>>, name: Seq<char>, from: int) -> Option<int>
    decreases names.len() - from,
{
    if from < 0 || from >= names.len() {
        None
    } else if names[from] == name {
        Some(from)
    } else {
        name_position(names, name, from + 1)
    }
}

/// The first position from `from` on at which `entries` holds `key`.
pub open spec fn key_position(entries: Seq<EntryView>, key: Seq<char>, from: int) -> Option<int>
    decreases entries.len() - from,
{
    if from < 0 || from >= entries.len() {
        None
    } else if entries[from].0 == key {
        Some(from)
    } else {
        key_position(entries, key, from + 1)
    }
}

/// The undo log after `op` was recorded.
pub open spec fn recorded(undo: UndoView, op: OpView) -> UndoView {
    UndoView { ops: undo.ops.take(undo.pos as int).push(op), pos: undo.pos + 1 }
}

/// The state after the selected space changed to `index`, and the work
/// that reads its first entries.
pub open spec fn select_db(s: AppView, index: usize) -> (AppView, EffectView) {
    let t = AppView { selected: index, ..s };
    (t, load_selected(t, LoadedView::Reset, true))
}

/// The state after the query view was entered.
pub open spec fn enter_query(s: AppView) -> AppView {
    AppView {
        view: s.view.push(View::Query),
        query: Seq::empty(),
        entries: Seq::empty(),
        query_cursor: 0,
        total_entries: 0,
        page_offset: 0,
        query_loading: false,
        ..s
    }
}

/// The state after the view on top was left, and the work that reads the
/// entries of the main view where it is on top again. Leaving the last view
/// ends the explorer.
pub open spec fn exit_view(s: AppView) -> (AppView, EffectView) {
    if s.view.len() > 1 {
        let t = AppView { view: s.view.drop_last(), ..s };
        if top_view(t.view) == View::Main {
            (t, load_selected(t, LoadedView::Replace, false))
        } else {
            (t, EffectView::Nothing)
        }
    } else {
        (AppView { running: false, ..s }, EffectView::Nothing)
    }
}

/// The state after the help was toggled: its search is dropped when it
/// closes.
pub open spec fn toggle_help(s: AppView) -> AppView {
    if s.show_help {
        AppView { show_help: false, help_query: Seq::empty(), ..s }
    } else {
        AppView { show_help: true, ..s }
    }
}

/// The write that takes the newest record in effect back; none where no
/// record is in effect.
pub open spec fn ask_undo(s: AppView) -> EffectView {
    if s.undo.pos > 0 {
        EffectView::Write { mutation: op_inverse(s.undo.ops[s.undo.pos - 1]), replay: Replay::Undo }
    } else {
        EffectView::Nothing
    }
}

/// The write that makes the oldest record taken back again; none where no
/// record was taken back.
pub open spec fn ask_redo(s: AppView) -> EffectView {
    if s.undo.pos < s.undo.ops.len() {
        EffectView::Write {
            mutation: op_forward(s.undo.ops[s.undo.pos as int]),
            replay: Replay::Redo,
        }
    } else {
        EffectView::Nothing
    }
}

/// The state after the bookmark of the current key was toggled: a key that
/// is bookmarked loses its bookmark; one that is not gets one and enters the
/// history.
pub open spec fn toggle_bookmark(s: AppView) -> AppView {
    match current_key_of(s) {
        Some(key) => if s.selected < s.db_names.len() {
            let place = (s.db_names[s.selected as int], key);
            if s.bookmarks.contains(place) {
                AppView { bookmarks: place_removed(s.bookmarks, place), ..s }
            } else {
                AppView {
                    bookmarks: place_added(s.bookmarks, place),
                    history: HistoryView {
                        list: history_pushed(s.history.list, s.history.max, place),
                        ..s.history
                    },
                    ..s
                }
            }
        } else {
            s
        },
        None => s,
    }
}

/// The state after the palette was opened on the places to jump to.
pub open spec fn show_bookmarks(s: AppView) -> AppView {
    let offers = offers_for(s.bookmarks, s.history.list);
    AppView {
        view: s.view.push(View::CommandPalette),
        palette_query: Seq::empty(),
        palette_selected: 0,
        offers,
        commands: offer_commands(offers),
        ..s
    }
}

/// The state after the palette was opened on its commands.
pub open spec fn open_palette(s: AppView) -> AppView {
    AppView {
        view: s.view.push(View::CommandPalette),
        palette_query: Seq::empty(),
        palette_selected: 0,
        commands: palette_for(Seq::empty()),
        ..s
    }
}

/// The state after the preview of the current entry was opened.
pub open spec fn enter_preview(s: AppView) -> AppView {
    match current_entry_of(s) {
        Some(entry) => AppView {
            preview_key: Some(entry.0),
            preview_value: Some(entry.1),
            view: s.view.push(View::Preview),
            ..s
        },
        None => s,
    }
}

/// The state after the entry dialog was confirmed, and the put that it asks
/// for: the dialog closes; the text of its value is put under its key into
/// the selected space, unless the key is empty or there is no space.
pub open spec fn confirm_put(s: AppView) -> (AppView, EffectView) {
    let t = AppView { view: popped(s.view), ..s };
    if s.dialog_key.len() > 0 && s.db_names.len() > 0 {
        (
            t,
            EffectView::Write {
                mutation: MutationView::Put {
                    db: s.db_names[s.selected as int],
                    key: s.dialog_key,
                    value: encode_utf8(s.dialog_value),
                },
                replay: Replay::New,
            },
        )
    } else {
        (t, EffectView::Nothing)
    }
}

/// The state after a delete was confirmed, and the delete that it asks for:
/// the dialog closes; the current entry is deleted from the selected space.
pub open spec fn confirm_delete(s: AppView) -> (AppView, EffectView) {
    let t = AppView { view: popped(s.view), ..s };
    match current_entry_of(s) {
        Some(entry) => if s.db_names.len() > 0 {
            (
                t,
                EffectView::Write {
                    mutation: MutationView::Delete {
                        db: s.db_names[s.selected as int],
                        key: entry.0,
                    },
                    replay: Replay::New,
                },
            )
        } else {
            (t, EffectView::Nothing)
        },
        None => (t, EffectView::Nothing),
    }
}

/// The theme that follows in the cycle of themes.
pub open spec fn next_theme(theme: ThemeView) -> ThemeView {
    if theme.name == "Dark"@ {
        light_theme()
    } else if theme.name == "Light"@ {
        high_contrast_theme()
    } else {
        dark_theme()
    }
}

/// The state after the cursor of the main view was asked one on: on the
/// last entry it stays and more entries are read; else it moves.
pub open spec fn next_page_main(s: AppView) -> (AppView, EffectView) {
    if top_view(s.view) == View::Main && s.lazy_loading_enabled {
        if s.cursor + 1 >= s.entries.len() {
            if s.selected < s.db_names.len() {
                (
                    s,
                    EffectView::Load {
                        db: s.db_names[s.selected as int],
                        offset: s.entries.len() as usize,
                        limit: DEFAULT_PAGE_SIZE,
                        then: LoadedView::Append,
                        stats: false,
                    },
                )
            } else {
                (s, EffectView::Nothing)
            }
        } else {
            (AppView { cursor: (s.cursor + 1) as usize, ..s }, EffectView::Nothing)
        }
    } else {
        (s, EffectView::Nothing)
    }
}

/// What an action other than a command of the palette makes of a state,
/// and the work that it asks for.
pub open spec fn acted(s: AppView, action: Action) -> (AppView, EffectView) {
    match action {
        Action::Quit => (AppView { running: false, ..s }, EffectView::Nothing),
        Action::NextDb => if s.db_names.len() > 0 {
            select_db(s, ((s.selected + 1) % (s.db_names.len() as int)) as usize)
        } else {
            (s, EffectView::Nothing)
        },
        Action::PrevDb => if s.db_names.len() > 0 {
            select_db(
                s,
                if s.selected == 0 {
                    (s.db_names.len() - 1) as usize
                } else {
                    (s.selected - 1) as usize
                },
            )
        } else {
            (s, EffectView::Nothing)
        },
        Action::EnterQuery => (enter_query(s), EffectView::Nothing),
        Action::ExitView => exit_view(s),
        Action::ToggleHelp => (toggle_help(s), EffectView::Nothing),
        Action::Undo => (s, ask_undo(s)),
        Action::Redo => (s, ask_redo(s)),
        Action::NextPage => if top_view(s.view) == View::Query {
            match next_offset(s.page_offset, s.total_entries, DEFAULT_PAGE_SIZE) {
                Some(offset) => run_query(AppView { page_offset: offset, query_cursor: 0, ..s }),
                None => (s, EffectView::Nothing),
            }
        } else {
            (s, EffectView::Nothing)
        },
        Action::PrevPage => if top_view(s.view) == View::Query {
            match prev_offset(s.page_offset, DEFAULT_PAGE_SIZE) {
                Some(offset) => run_query(AppView { page_offset: offset, query_cursor: 0, ..s }),
                None => (s, EffectView::Nothing),
            }
        } else {
            (s, EffectView::Nothing)
        },
        Action::NextEntry => if top_view(s.view) == View::Main && s.entries.len() > 0 {
            (
                AppView { cursor: ((s.cursor + 1) % (s.entries.len() as int)) as usize, ..s },
                EffectView::Nothing,
            )
        } else {
            (s, EffectView::Nothing)
        },
        Action::PrevEntry => if top_view(s.view) == View::Main && s.entries.len() > 0 {
            (
                AppView {
                    cursor: if s.cursor == 0 {
                        (s.entries.len() - 1) as usize
                    } else {
                        (s.cursor - 1) as usize
                    },
                    ..s
                },
                EffectView::Nothing,
            )
        } else {
            (s, EffectView::Nothing)
        },
        Action::ToggleBookmark => (toggle_bookmark(s), EffectView::Nothing),
        Action::ShowBookmarks => (show_bookmarks(s), EffectView::Nothing),
        Action::OpenCommandPalette => (open_palette(s), EffectView::Nothing),
        Action::ExecuteCommand(_) => (s, EffectView::Nothing),
        Action::EnterPreview => (enter_preview(s), EffectView::Nothing),
        Action::ConfirmCreate => confirm_put(s),
        Action::ConfirmEdit => confirm_put(s),
        Action::ConfirmDelete => confirm_delete(s),
        Action::Refresh => if s.db_names.len() > 0 {
            (s, load_selected(s, LoadedView::Refresh, false))
        } else {
            (s, EffectView::Nothing)
        },
        Action::CycleTheme => (AppView { theme: next_theme(s.theme), ..s }, EffectView::Nothing),
        Action::NextPageMain => next_page_main(s),
        Action::PrevPageMain => if top_view(s.view) == View::Main && s.cursor > 0 {
            (AppView { cursor: (s.cursor - 1) as usize, ..s }, EffectView::Nothing)
        } else {
            (s, EffectView::Nothing)
        },
    }
}

/// What a command of the palette makes of a state in which the palette is
/// closed, and the work that it asks for.
pub open spec fn commanded(s: AppView, command: CommandId) -> (AppView, EffectView) {
    match command {
        CommandId::CreateEntry => (
            AppView {
                dialog_key: Seq::empty(),
                dialog_value: Seq::empty(),
                dialog_key_cursor: 0,
                dialog_value_cursor: 0,
                dialog_field: DialogField::Key,
                view: s.view.push(View::CreateEntry),
                ..s
            },
            EffectView::Nothing,
        ),
        CommandId::EditEntry => match current_entry_of(s) {
            Some(entry) => (
                AppView {
                    dialog_key: entry.0,
                    dialog_value: utf8_lossy(entry.1),
                    dialog_key_cursor: entry.0.len() as usize,
                    dialog_value_cursor: utf8_lossy(entry.1).len() as usize,
                    dialog_field: DialogField::Key,
                    view: s.view.push(View::EditEntry),
                    ..s
                },
                EffectView::Nothing,
            ),
            None => (s, EffectView::Nothing),
        },
        CommandId::DeleteEntry => if current_entry_of(s) is Some {
            (AppView { view: s.view.push(View::DeleteConfirm), ..s }, EffectView::Nothing)
        } else {
            (s, EffectView::Nothing)
        },
        CommandId::EnterQuery => acted(s, Action::EnterQuery),
        CommandId::ToggleHelp => acted(s, Action::ToggleHelp),
        CommandId::ShowBookmarks => acted(s, Action::ShowBookmarks),
        CommandId::Undo => acted(s, Action::Undo),
        CommandId::Redo => acted(s, Action::Redo),
        CommandId::Refresh => acted(s, Action::Refresh),
        CommandId::CycleTheme => acted(s, Action::CycleTheme),
        CommandId::Quit => acted(s, Action::Quit),
        CommandId::JumpToDatabase(index) => if index < s.db_names.len() {
            select_db(s, index)
        } else {
            (s, EffectView::Nothing)
        },
        CommandId::ExportDatabase => (s, EffectView::Nothing),
        CommandId::ImportDatabase => (s, EffectView::Nothing),
        CommandId::ClearQuery => run_query(AppView { query: Seq::empty(), ..s }),
        CommandId::Commit => (AppView { has_pending_changes: false, ..s }, EffectView::Nothing),
        CommandId::Abort => if s.undo.pos > 0 {
            (s, ask_undo(s))
        } else {
            (AppView { has_pending_changes: false, ..s }, EffectView::Nothing)
        },
        CommandId::GoToBookmark(index) => if index < s.offers.len() {
            let offer = s.offers[index as int];
            match name_position(s.db_names, offer.0, 0) {
                Some(at) => (
                    AppView { selected: at as usize, ..s },
                    EffectView::Load {
                        db: offer.0,
                        offset: 0,
                        limit: DEFAULT_ENTRY_LIMIT,
                        then: LoadedView::Jump(offer.0, offer.1),
                        stats: true,
                    },
                ),
                None => (s, EffectView::Nothing),
            }
        } else {
            (s, EffectView::Nothing)
        },
    }
}

/// What an action makes of a state, and the work that it asks for. A
/// command of the palette closes the palette first.
pub open spec fn reduced(s: AppView, action: Action) -> (AppView, EffectView) {
    match action {
        Action::ExecuteCommand(command) => commanded(
            if top_view(s.view) == View::CommandPalette {
                AppView { view: s.view.drop_last(), ..s }
            } else {
                s
            },
            command,
        ),
        _ => acted(s, action),
    }
}

/// The first position at which `names` holds `name`.
pub fn find_name(names: &Vec<String>, name: &str) -> (r: Option<usize>)
    ensures
        match r {
            Some(at) => name_position(names_of(names@), name@, 0) == Some(at as int) && at
                < names@.len(),
            None => name_position(names_of(names@), name@, 0) is None,
        },
{
    let mut i: usize = 0;
    while i < names.len()
        invariant
            i <= names@.len(),
            name_position(names_of(names@), name@, 0) == name_position(
                names_of(names@),
                name@,
                i as int,
            ),
        decreases names@.len() - i,
    {
        if crate::db::env::same_text(names[i].as_str(), name) {
            return Some(i);
        }
        i += 1;
    }
    None
}

/// The first position at which `entries` holds `key`.
pub fn find_entry(entries: &Vec<(String, Vec<u8>)>, key: &str) -> (r: Option<usize>)
    ensures
        match r {
            Some(at) => key_position(entries_view(entries@), key@, 0) == Some(at as int) && at
                < entries@.len(),
            None => key_position(entries_view(entries@), key@, 0) is None,
        },
{
    let mut i: usize = 0;
    while i < entries.len()
        invariant
            i <= entries@.len(),
            key_position(entries_view(entries@), key@, 0) == key_position(
                entries_view(entries@),
                key@,
                i as int,
            ),
        decreases entries@.len() - i,
    {
        assert(entries_view(entries@)[i as int] == entry_view(entries@[i as int]));
        if crate::db::env::same_text(entries[i].0.as_str(), key) {
            return Some(i);
        }
        i += 1;
    }
    None
}

impl App {
    /// The work that reads the first entries of the selected space.
    fn load(&self, then: Loaded, stats: bool) -> (r: Effect)
        ensures
            r@ == load_selected(self@, then@, stats),
    {
        if self.selected < self.db_names.len() {
            Effect::Load {
                db: self.db_names[self.selected].clone(),
                offset: 0,
                limit: DEFAULT_ENTRY_LIMIT,
                then,
                stats,
            }
        } else {
            Effect::Nothing
        }
    }

    /// Asks for the query of the query view to be run on the selected
    /// space.
    pub fn update_query_results(&mut self) -> (r: Effect)
        requires
            old(self).wf(),
        ensures
            final(self).wf(),
            (final(self)@, r@) == run_query(old(self)@),
    {
        if self.db_names.len() == 0 {
            self.entries = Vec::new();
            self.total_entries = 0;
            assert(self@.entries =~= Seq::<EntryView>::empty());
            Effect::Nothing
        } else {
            self.query_loading = true;
            Effect::Query {
                db: self.db_names[self.selected].clone(),
                query: self.query.clone(),
                offset: self.page_offset,
                limit: DEFAULT_PAGE_SIZE,
            }
        }
    }

    /// Selects the space at `index` and asks for its first entries.
    fn select(&mut self, index: usize) -> (r: Effect)
        requires
            old(self).wf(),
            index < old(self)@.db_names.len(),
        ensures
            final(self).wf(),
            (final(self)@, r@) == select_db(old(self)@, index),
    {
        self.selected = index;
        self.load(Loaded::Reset, true)
    }

    /// Asks for the newest record in effect to be taken back.
    fn undo(&self) -> (r: Effect)
        requires
            self.wf(),
        ensures
            r@ == ask_undo(self@),
    {
        match self.undo_stack.pending_undo() {
            Some(mutation) => Effect::Write { mutation, replay: Replay::Undo },
            None => Effect::Nothing,
        }
    }

    /// Asks for the oldest record taken back to be made again.
    fn redo(&self) -> (r: Effect)
        requires
            self.wf(),
        ensures
            r@ == ask_redo(self@),
    {
        match self.undo_stack.pending_redo() {
            Some(mutation) => Effect::Write { mutation, replay: Replay::Redo },
            None => Effect::Nothing,
        }
    }

    /// Toggles the bookmark of the key that the view points at.
    pub fn toggle_bookmark(&mut self)
        requires
            old(self).wf(),
        ensures
            final(self).wf(),
            final(self)@ == toggle_bookmark(old(self)@),
    {
        if self.selected < self.db_names.len() {
            match self.current_key() {
                Some(key) => {
                    let db = self.db_names[self.selected].clone();
                    if self.bookmarks.contains(db.as_str(), key.as_str()) {
                        self.bookmarks.remove(db.as_str(), key.as_str());
                    } else {
                        self.bookmarks.add(db.clone(), key.clone());
                        self.jump_history.push(db, key);
                    }
                },
                None => {},
            }
        }
    }

    /// Closes the entry dialog and asks for its entry to be put.
    fn confirm_put(&mut self) -> (r: Effect)
        requires
            old(self).wf(),
        ensures
            final(self).wf(),
            (final(self)@, r@) == confirm_put(old(self)@),
    {
        let r = if !self.dialog_key.as_str().is_empty() && self.db_names.len() > 0 {
            Effect::Write {
                mutation: Mutation::Put {
                    db: self.db_names[self.selected].clone(),
                    key: self.dialog_key.clone(),
                    value: slice_to_vec(self.dialog_value.as_str().as_bytes()),
                },
                replay: Replay::New,
            }
        } else {
            Effect::Nothing
        };
        self.view.pop();
        r
    }

    /// Closes the dialog that confirms a delete and asks for the delete.
    fn confirm_delete(&mut self) -> (r: Effect)
        requires
            old(self).wf(),
        ensures
            final(self).wf(),
            (final(self)@, r@) == confirm_delete(old(self)@),
    {
        let r = match self.get_current_entry() {
            Some(entry) => if self.db_names.len() > 0 {
                Effect::Write {
                    mutation: Mutation::Delete {
                        db: self.db_names[self.selected].clone(),
                        key: entry.0,
                    },
                    replay: Replay::New,
                }
            } else {
                Effect::Nothing
            },
            None => Effect::Nothing,
        };
        self.view.pop();
        r
    }

    /// Enters the query view.
    fn enter_query(&mut self)
        requires
            old(self).wf(),
        ensures
            final(self).wf(),
            final(self)@ == enter_query(old(self)@),
    {
        self.view.push(View::Query);
        self.query = String::new();
        self.entries = Vec::new();
        self.query_cursor = 0;
        self.total_entries = 0;
        self.page_offset = 0;
        self.query_loading = false;
        assert(self@.entries =~= Seq::<EntryView>::empty());
    }

    /// Leaves the view on top.
    fn exit_view(&mut self) -> (r: Effect)
        requires
            old(self).wf(),
        ensures
            final(self).wf(),
            (final(self)@, r@) == exit_view(old(self)@),
    {
        if self.view.len() > 1 {
            self.view.pop();
            match self.current_view() {
                View::Main => self.load(Loaded::Replace, false),
                _ => Effect::Nothing,
            }
        } else {
            self.running = false;
            Effect::Nothing
        }
    }

    /// Shows the help, or closes it and drops its search.
    fn toggle_help(&mut self)
        requires
            old(self).wf(),
        ensures
            final(self).wf(),
            final(self)@ == toggle_help(old(self)@),
    {
        if self.show_help {
            self.show_help = false;
            self.help_query = String::new();
        } else {
            self.show_help = true;
        }
    }

    /// Turns the results of the query one page on (`forward`) or back.
    fn turn_page(&mut self, forward: bool) -> (r: Effect)
        requires
            old(self).wf(),
        ensures
            final(self).wf(),
            (final(self)@, r@) == acted(
                old(self)@,
                if forward {
                    Action::NextPage
                } else {
                    Action::PrevPage
                },
            ),
    {
        match self.current_view() {
            View::Query => {
                let to = if forward {
                    next_page_offset(self.page_offset, self.total_entries, DEFAULT_PAGE_SIZE)
                } else {
                    prev_page_offset(self.page_offset, DEFAULT_PAGE_SIZE)
                };
                match to {
                    Some(offset) => {
                        self.page_offset = offset;
                        self.query_cursor = 0;
                        self.update_query_results()
                    },
                    None => Effect::Nothing,
                }
            },
            _ => Effect::Nothing,
        }
    }

    /// Moves the cursor of the main view one entry on (`forward`) or back,
    /// around the ends.
    fn move_entry(&mut self, forward: bool)
        requires
            old(self).wf(),
        ensures
            final(self).wf(),
            final(self)@ == acted(
                old(self)@,
                if forward {
                    Action::NextEntry
                } else {
                    Action::PrevEntry
                },
            ).0,
    {
        match self.current_view() {
            View::Main => if self.entries.len() > 0 {
                self.cursor = if forward {
                    next_index(self.cursor, self.entries.len())
                } else {
                    prev_index(self.cursor, self.entries.len())
                };
            },
            _ => {},
        }
    }

    /// Opens the palette on the places to jump to.
    fn show_bookmarks(&mut self)
        requires
            old(self).wf(),
        ensures
            final(self).wf(),
            final(self)@ == show_bookmarks(old(self)@),
    {
        let offers = bookmark_offers(&self.bookmarks, &self.jump_history);
        self.filtered_commands = bookmark_commands(&offers);
        self.filtered_bookmarks = offers;
        self.view.push(View::CommandPalette);
        self.command_palette_query = String::new();
        self.command_palette_selected = 0;
    }

    /// Opens the palette on its commands.
    fn open_palette(&mut self)
        requires
            old(self).wf(),
        ensures
            final(self).wf(),
            final(self)@ == open_palette(old(self)@),
    {
        self.filtered_commands = build_command_list();
        self.view.push(View::CommandPalette);
        self.command_palette_query = String::new();
        self.command_palette_selected = 0;
    }

    /// Opens the preview of the current entry.
    fn enter_preview(&mut self)
        requires
            old(self).wf(),
        ensures
            final(self).wf(),
            final(self)@ == enter_preview(old(self)@),
    {
        match self.get_current_entry() {
            Some(entry) => {
                self.preview_key = Some(entry.0);
                self.preview_value = Some(entry.1);
                self.view.push(View::Preview);
            },
            None => {},
        }
    }

    /// Moves the cursor of the main view one on, or asks for more entries
    /// where it stands on the last.
    fn next_page_main(&mut self) -> (r: Effect)
        requires
            old(self).wf(),
        ensures
            final(self).wf(),
            (final(self)@, r@) == next_page_main(old(self)@),
    {
        match self.current_view() {
            View::Main => if self.lazy_loading_enabled {
                if self.cursor + 1 >= self.entries.len() {
                    if self.selected < self.db_names.len() {
                        Effect::Load {
                            db: self.db_names[self.selected].clone(),
                            offset: self.entries.len(),
                            limit: DEFAULT_PAGE_SIZE,
                            then: Loaded::Append,
                            stats: false,
                        }
                    } else {
                        Effect::Nothing
                    }
                } else {
                    self.cursor = self.cursor + 1;
                    Effect::Nothing
                }
            } else {
                Effect::Nothing
            },
            _ => Effect::Nothing,
        }
    }

    /// Moves the cursor of the main view one back.
    fn prev_page_main(&mut self)
        requires
            old(self).wf(),
        ensures
            final(self).wf(),
            final(self)@ == acted(old(self)@, Action::PrevPageMain).0,
    {
        match self.current_view() {
            View::Main => if self.cursor > 0 {
                self.cursor = self.cursor - 1;
            },
            _ => {},
        }
    }

    /// Selects the space behind (`forward`) or before the selected one,
    /// around the ends.
    fn move_db(&mut self, forward: bool) -> (r: Effect)
        requires
            old(self).wf(),
        ensures
            final(self).wf(),
            (final(self)@, r@) == acted(
                old(self)@,
                if forward {
                    Action::NextDb
                } else {
                    Action::PrevDb
                },
            ),
    {
        if self.db_names.len() > 0 {
            let index = if forward {
                next_index(self.selected, self.db_names.len())
            } else {
                prev_index(self.selected, self.db_names.len())
            };
            self.select(index)
        } else {
            Effect::Nothing
        }
    }

    /// Performs an action other than a command of the palette.
    #[verifier::rlimit(40)]
    fn act(&mut self, action: Action) -> (r: Effect)
        requires
            old(self).wf(),
        ensures
            final(self).wf(),
            (final(self)@, r@) == acted(old(self)@, action),
    {
        match action {
            Action::Quit => {
                self.running = false;
                Effect::Nothing
            },
            Action::NextDb => self.move_db(true),
            Action::PrevDb => self.move_db(false),
            Action::EnterQuery => {
                self.enter_query();
                Effect::Nothing
            },
            Action::ExitView => self.exit_view(),
            Action::ToggleHelp => {
                self.toggle_help();
                Effect::Nothing
            },
            Action::Undo => self.undo(),
            Action::Redo => self.redo(),
            Action::NextPage => self.turn_page(true),
            Action::PrevPage => self.turn_page(false),
            Action::NextEntry => {
                self.move_entry(true);
                Effect::Nothing
            },
            Action::PrevEntry => {
                self.move_entry(false);
                Effect::Nothing
            },
            Action::ToggleBookmark => {
                self.toggle_bookmark();
                Effect::Nothing
            },
            Action::ShowBookmarks => {
                self.show_bookmarks();
                Effect::Nothing
            },
            Action::OpenCommandPalette => {
                self.open_palette();
                Effect::Nothing
            },
            Action::ExecuteCommand(_) => Effect::Nothing,
            Action::EnterPreview => {
                self.enter_preview();
                Effect::Nothing
            },
            Action::ConfirmCreate => self.confirm_put(),
            Action::ConfirmEdit => self.confirm_put(),
            Action::ConfirmDelete => self.confirm_delete(),
            Action::Refresh => {
                if self.db_names.len() > 0 {
                    self.load(Loaded::Refresh, false)
                } else {
                    Effect::Nothing
                }
            },
            Action::CycleTheme => {
                self.theme = self.theme.next();
                Effect::Nothing
            },
            Action::NextPageMain => self.next_page_main(),
            Action::PrevPageMain => {
                self.prev_page_main();
                Effect::Nothing
            },
        }
    }

    /// Runs a command of the palette, which is closed.
    #[verifier::rlimit(40)]
    fn execute(&mut self, command: CommandId) -> (r: Effect)
        requires
            old(self).wf(),
        ensures
            final(self).wf(),
            (final(self)@, r@) == commanded(old(self)@, command),
    {
        match command {
            CommandId::CreateEntry => {
                self.dialog_key = String::new();
                self.dialog_value = String::new();
                self.dialog_key_cursor = 0;
                self.dialog_value_cursor = 0;
                self.dialog_field = DialogField::Key;
                self.view.push(View::CreateEntry);
                Effect::Nothing
            },
            CommandId::EditEntry => {
                match self.get_current_entry() {
                    Some(entry) => {
                        self.dialog_value = utf8_lossy_text(entry.1.as_slice());
                        self.dialog_key = entry.0;
                        self.dialog_key_cursor = self.dialog_key.as_str().unicode_len();
                        self.dialog_value_cursor = self.dialog_value.as_str().unicode_len();
                        self.dialog_field = DialogField::Key;
                        self.view.push(View::EditEntry);
                    },
                    None => {},
                }
                Effect::Nothing
            },
            CommandId::DeleteEntry => {
                match self.get_current_entry() {
                    Some(_) => {
                        self.view.push(View::DeleteConfirm);
                    },
                    None => {},
                }
                Effect::Nothing
            },
            CommandId::EnterQuery => self.act(Action::EnterQuery),
            CommandId::ToggleHelp => self.act(Action::ToggleHelp),
            CommandId::ShowBookmarks => self.act(Action::ShowBookmarks),
            CommandId::Undo => self.act(Action::Undo),
            CommandId::Redo => self.act(Action::Redo),
            CommandId::Refresh => self.act(Action::Refresh),
            CommandId::CycleTheme => self.act(Action::CycleTheme),
            CommandId::Quit => self.act(Action::Quit),
            CommandId::JumpToDatabase(index) => {
                if index < self.db_names.len() {
                    self.select(index)
                } else {
                    Effect::Nothing
                }
            },
            CommandId::ExportDatabase => Effect::Nothing,
            CommandId::ImportDatabase => Effect::Nothing,
            CommandId::ClearQuery => {
                self.query = String::new();
                self.update_query_results()
            },
            CommandId::Commit => {
                self.has_pending_changes = false;
                Effect::Nothing
            },
            CommandId::Abort => {
                if self.undo_stack.can_undo() {
                    self.undo()
                } else {
                    self.has_pending_changes = false;
                    Effect::Nothing
                }
            },
            CommandId::GoToBookmark(index) => {
                if index < self.filtered_bookmarks.len() {
                    let db = self.filtered_bookmarks[index].0.clone();
                    let key = self.filtered_bookmarks[index].1.clone();
                    match find_name(&self.db_names, db.as_str()) {
                        Some(at) => {
                            self.selected = at;
                            Effect::Load {
                                db: db.clone(),
                                offset: 0,
                                limit: DEFAULT_ENTRY_LIMIT,
                                then: Loaded::Jump(db, key),
                                stats: true,
                            }
                        },
                        None => Effect::Nothing,
                    }
                } else {
                    Effect::Nothing
                }
            },
        }
    }

    /// Performs an action: changes the state and names the work on the
    /// store that the action asks for.
    #[verifier::rlimit(40)]
    pub fn reduce(&mut self, action: Action) -> (r: Effect)
        requires
            old(self).wf(),
        ensures
            final(self).wf(),
            (final(self)@, r@) == reduced(old(self)@, action),
    {
        match action {
            Action::ExecuteCommand(command) => {
                match self.current_view() {
                    View::CommandPalette => {
                        self.view.pop();
                    },
                    _ => {},
                }
                self.execute(command)
            },
            _ => self.act(action),
        }
    }
}

/// The state after entries that were read came in, and the work that
/// follows.
pub open spec fn loaded(s: AppView, entries: Seq<EntryView>, then: LoadedView) -> (
    AppView,
    EffectView,
) {
    match then {
        LoadedView::Replace => (AppView { entries, ..s }, EffectView::Nothing),
        LoadedView::Reset => (AppView { entries, cursor: 0, ..s }, EffectView::Nothing),
        LoadedView::ClampLast => (
            AppView {
                entries,
                cursor: if s.cursor >= entries.len() && entries.len() > 0 {
                    (entries.len() - 1) as usize
                } else {
                    s.cursor
                },
                ..s
            },
            EffectView::Nothing,
        ),
        LoadedView::Refresh => {
            let t = AppView {
                entries,
                cursor: if entries.len() == 0 {
                    0
                } else if s.cursor >= entries.len() {
                    (entries.len() - 1) as usize
                } else {
                    s.cursor
                },
                ..s
            };
            if top_view(t.view) == View::Query {
                run_query(t)
            } else {
                (t, EffectView::Nothing)
            }
        },
        LoadedView::Append => (
            AppView {
                entries: s.entries + entries,
                cursor: if s.cursor + 1 < s.entries.len() + entries.len() {
                    (s.cursor + 1) as usize
                } else {
                    s.cursor
                },
                ..s
            },
            EffectView::Nothing,
        ),
        LoadedView::Select(key) => (
            AppView {
                entries,
                cursor: match key_position(entries, key, 0) {
                    Some(at) => at as usize,
                    None => s.cursor,
                },
                ..s
            },
            EffectView::Nothing,
        ),
        LoadedView::Jump(db, key) => (
            AppView {
                entries,
                cursor: match key_position(entries, key, 0) {
                    Some(at) => at as usize,
                    None => s.cursor,
                },
                history: HistoryView {
                    list: history_pushed(s.history.list, s.history.max, (db, key)),
                    ..s.history
                },
                ..s
            },
            EffectView::Nothing,
        ),
    }
}

/// The state after the results of the query came in: the count, the page,
/// and the cursor kept within the page.
pub open spec fn query_loaded(s: AppView, total: usize, page: Seq<EntryView>) -> AppView {
    AppView {
        total_entries: total,
        entries: page,
        query_cursor: if s.query_cursor < page.len() {
            s.query_cursor
        } else if page.len() == 0 {
            0
        } else {
            (page.len() - 1) as usize
        },
        query_loading: false,
        ..s
    }
}

/// The state after a write was committed, and the work that shows its
/// effect. A new write is recorded with the value that its key held before;
/// a replayed one moves the cursor of the undo log.
pub open spec fn written(s: AppView, mutation: MutationView, prev: Option<Seq<u8>>, replay: Replay)
    -> (AppView, EffectView) {
    match replay {
        Replay::New => match mutation {
            MutationView::Put { db, key, value } => (
                AppView {
                    undo: recorded(s.undo, OpView::Put { db, key, prev, new: value }),
                    has_pending_changes: false,
                    ..s
                },
                EffectView::Load {
                    db,
                    offset: 0,
                    limit: DEFAULT_ENTRY_LIMIT,
                    then: LoadedView::Select(key),
                    stats: false,
                },
            ),
            MutationView::Delete { db, key } => (
                AppView {
                    undo: recorded(s.undo, OpView::Delete { db, key, prev }),
                    has_pending_changes: false,
                    ..s
                },
                EffectView::Load {
                    db,
                    offset: 0,
                    limit: DEFAULT_ENTRY_LIMIT,
                    then: LoadedView::ClampLast,
                    stats: false,
                },
            ),
            MutationView::Nothing => (s, EffectView::Nothing),
        },
        Replay::Undo => {
            let pos = if s.undo.pos > 0 {
                (s.undo.pos - 1) as nat
            } else {
                s.undo.pos
            };
            let t = AppView {
                undo: UndoView { pos, ..s.undo },
                has_pending_changes: pos > 0 || pos < s.undo.ops.len(),
                ..s
            };
            (t, load_selected(t, LoadedView::Replace, false))
        },
        Replay::Redo => {
            let pos = if s.undo.pos < s.undo.ops.len() {
                s.undo.pos + 1
            } else {
                s.undo.pos
            };
            let t = AppView {
                undo: UndoView { pos, ..s.undo },
                has_pending_changes: pos > 0 || pos < s.undo.ops.len(),
                ..s
            };
            (t, load_selected(t, LoadedView::Replace, false))
        },
    }
}

/// A cursor moved one on (`down`) or back within `len` items, around the
/// ends; it stays where there is no item.
pub open spec fn moved(cursor: usize, len: nat, down: bool) -> usize {
    if len == 0 {
        cursor
    } else if down {
        ((cursor + 1) % (len as int)) as usize
    } else if cursor == 0 {
        (len - 1) as usize
    } else {
        (cursor - 1) as usize
    }
}

/// A text without its last character.
pub open spec fn text_popped(text: Seq<char>) -> Seq<char> {
    if text.len() > 0 {
        text.drop_last()
    } else {
        text
    }
}

/// The state after the text being searched for changed to `text`: the
/// palette shows what the text finds, with the cursor on the first command
/// where it stood behind the last; the query view runs the text as its
/// query.
pub open spec fn searched(s: AppView, text: Seq<char>) -> (AppView, EffectView) {
    if top_view(s.view) == View::CommandPalette {
        let commands = palette_for(text);
        (
            AppView {
                palette_query: text,
                commands,
                palette_selected: if s.palette_selected >= commands.len() {
                    0
                } else {
                    s.palette_selected
                },
                ..s
            },
            EffectView::Nothing,
        )
    } else {
        run_query(AppView { query: text, ..s })
    }
}

/// A text and the cursor in it after an edit of the entry dialog:
/// Backspace deletes the character before the cursor, Left and Right move
/// the cursor within the text, a character is put in at the cursor.
pub open spec fn edited(text: Seq<char>, cursor: usize, key: KeyEffect) -> (Seq<char>, usize) {
    match key {
        KeyEffect::Backspace => if cursor > 0 {
            (text.remove(cursor - 1), (cursor - 1) as usize)
        } else {
            (text, cursor)
        },
        KeyEffect::Left => if cursor > 0 {
            (text, (cursor - 1) as usize)
        } else {
            (text, cursor)
        },
        KeyEffect::Right => if cursor < text.len() {
            (text, (cursor + 1) as usize)
        } else {
            (text, cursor)
        },
        KeyEffect::Insert(c) => (text.insert(cursor as int, c), (cursor + 1) as usize),
        _ => (text, cursor),
    }
}

/// The state after an edit of the field of the entry dialog that has the
/// focus.
pub open spec fn dialog_edited(s: AppView, key: KeyEffect) -> AppView {
    match s.dialog_field {
        DialogField::Key => {
            let (text, cursor) = edited(s.dialog_key, s.dialog_key_cursor, key);
            AppView { dialog_key: text, dialog_key_cursor: cursor, ..s }
        },
        DialogField::Value => {
            let (text, cursor) = edited(s.dialog_value, s.dialog_value_cursor, key);
            AppView { dialog_value: text, dialog_value_cursor: cursor, ..s }
        },
    }
}

/// What a key press makes of a state, and the work that it asks for. While
/// the help is shown, keys edit its search or close it.
pub open spec fn keyed(s: AppView, key: KeyEffect) -> (AppView, EffectView) {
    if s.show_help {
        match key {
            KeyEffect::Do(action) => reduced(s, action),
            KeyEffect::Pop => (
                AppView { help_query: text_popped(s.help_query), ..s },
                EffectView::Nothing,
            ),
            KeyEffect::Push(c) => (
                AppView { help_query: s.help_query.push(c), ..s },
                EffectView::Nothing,
            ),
            _ => (s, EffectView::Nothing),
        }
    } else {
        match key {
            KeyEffect::Do(action) => reduced(s, action),
            KeyEffect::MoveCursor(down) => if top_view(s.view) == View::CommandPalette {
                (
                    AppView {
                        palette_selected: moved(s.palette_selected, s.commands.len(), down),
                        ..s
                    },
                    EffectView::Nothing,
                )
            } else {
                (
                    AppView { query_cursor: moved(s.query_cursor, s.entries.len(), down), ..s },
                    EffectView::Nothing,
                )
            },
            KeyEffect::RunSelected => if s.palette_selected < s.commands.len() {
                reduced(s, Action::ExecuteCommand(s.commands[s.palette_selected as int].id))
            } else {
                (s, EffectView::Nothing)
            },
            KeyEffect::Pop => searched(
                s,
                text_popped(
                    if top_view(s.view) == View::CommandPalette {
                        s.palette_query
                    } else {
                        s.query
                    },
                ),
            ),
            KeyEffect::Push(c) => searched(
                s,
                (if top_view(s.view) == View::CommandPalette {
                    s.palette_query
                } else {
                    s.query
                }).push(c),
            ),
            KeyEffect::SwitchField => (
                AppView {
                    dialog_field: match s.dialog_field {
                        DialogField::Key => DialogField::Value,
                        DialogField::Value => DialogField::Key,
                    },
                    ..s
                },
                EffectView::Nothing,
            ),
            KeyEffect::Ignore => (s, EffectView::Nothing),
            _ => (dialog_edited(s, key), EffectView::Nothing),
        }
    }
}

/// Edits a text of the entry dialog at its cursor.
fn edit_text(text: &String, cursor: usize, key: KeyEffect) -> (r: (String, usize))
    requires
        cursor <= text@.len(),
    ensures
        (r.0@, r.1) == edited(text@, cursor, key),
        r.1 <= r.0@.len(),
{
    match key {
        KeyEffect::Backspace => if cursor > 0 {
            (text_remove(text.as_str(), cursor - 1), cursor - 1)
        } else {
            (text.clone(), cursor)
        },
        KeyEffect::Left => if cursor > 0 {
            (text.clone(), cursor - 1)
        } else {
            (text.clone(), cursor)
        },
        KeyEffect::Right => if cursor < text.as_str().unicode_len() {
            (text.clone(), cursor + 1)
        } else {
            (text.clone(), cursor)
        },
        KeyEffect::Insert(c) => {
            let r = text_insert(text.as_str(), cursor, c);
            let len = r.as_str().unicode_len();
            assert(cursor < len);
            (r, cursor + 1)
        },
        _ => (text.clone(), cursor),
    }
}

impl App {
    /// Takes in the entries that were read for the machine.
    #[verifier::rlimit(40)]
    pub fn loaded(&mut self, entries: Vec<(String, Vec<u8>)>, then: Loaded) -> (r: Effect)
        requires
            old(self).wf(),
        ensures
            final(self).wf(),
            (final(self)@, r@) == loaded(old(self)@, entries_view(entries@), then@),
    {
        let len = entries.len();
        match then {
            Loaded::Replace => {
                self.entries = entries;
                Effect::Nothing
            },
            Loaded::Reset => {
                self.entries = entries;
                self.cursor = 0;
                Effect::Nothing
            },
            Loaded::ClampLast => {
                self.entries = entries;
                if self.cursor >= len && len > 0 {
                    self.cursor = len - 1;
                }
                Effect::Nothing
            },
            Loaded::Refresh => {
                self.entries = entries;
                self.cursor = clamp_cursor(self.cursor, len);
                match self.current_view() {
                    View::Query => self.update_query_results(),
                    _ => Effect::Nothing,
                }
            },
            Loaded::Append => {
                let ghost first = entries_view(self.entries@);
                let mut more = entries;
                self.entries.append(&mut more);
                assert(entries_view(self.entries@) =~= first + entries_view(entries@));
                if self.cursor + 1 < self.entries.len() {
                    self.cursor = self.cursor + 1;
                }
                Effect::Nothing
            },
            Loaded::Select(key) => {
                match find_entry(&entries, key.as_str()) {
                    Some(at) => {
                        self.cursor = at;
                    },
                    None => {},
                }
                self.entries = entries;
                Effect::Nothing
            },
            Loaded::Jump(db, key) => {
                match find_entry(&entries, key.as_str()) {
                    Some(at) => {
                        self.cursor = at;
                    },
                    None => {},
                }
                self.entries = entries;
                self.jump_history.push(db, key);
                Effect::Nothing
            },
        }
    }

    /// Takes in the results of the query.
    pub fn query_loaded(&mut self, total: usize, page: Vec<(String, Vec<u8>)>)
        requires
            old(self).wf(),
        ensures
            final(self).wf(),
            final(self)@ == query_loaded(old(self)@, total, entries_view(page@)),
    {
        let len = page.len();
        self.total_entries = total;
        self.entries = page;
        if self.query_cursor >= len {
            self.query_cursor = if len == 0 {
                0
            } else {
                len - 1
            };
        }
        self.query_loading = false;
    }

    /// Takes in a write that was committed, with the value that its key
    /// held before.
    #[verifier::rlimit(40)]
    pub fn written(&mut self, mutation: Mutation, prev: Option<Vec<u8>>, replay: Replay) -> (r:
        Effect)
        requires
            old(self).wf(),
        ensures
            final(self).wf(),
            (final(self)@, r@) == written(old(self)@, mutation@, bytes_view(prev), replay),
    {
        proof {
            self.undo_stack.lemma_cursor_in_range();
        }
        match replay {
            Replay::New => match mutation {
                Mutation::Put { db, key, value } => {
                    commands::put(
                        &mut self.undo_stack,
                        db.as_str(),
                        key.as_str(),
                        prev,
                        value.as_slice(),
                    );
                    self.has_pending_changes = false;
                    Effect::Load {
                        db,
                        offset: 0,
                        limit: DEFAULT_ENTRY_LIMIT,
                        then: Loaded::Select(key),
                        stats: false,
                    }
                },
                Mutation::Delete { db, key } => {
                    commands::delete(&mut self.undo_stack, db.as_str(), key.as_str(), prev);
                    self.has_pending_changes = false;
                    Effect::Load {
                        db,
                        offset: 0,
                        limit: DEFAULT_ENTRY_LIMIT,
                        then: Loaded::ClampLast,
                        stats: false,
                    }
                },
                Mutation::Nothing => Effect::Nothing,
            },
            Replay::Undo => {
                self.undo_stack.undo();
                self.has_pending_changes = self.undo_stack.can_undo()
                    || self.undo_stack.can_redo();
                self.load(Loaded::Replace, false)
            },
            Replay::Redo => {
                self.undo_stack.redo();
                self.has_pending_changes = self.undo_stack.can_undo()
                    || self.undo_stack.can_redo();
                self.load(Loaded::Replace, false)
            },
        }
    }

    /// Takes in a change of the text being searched for.
    fn search(&mut self, text: String) -> (r: Effect)
        requires
            old(self).wf(),
        ensures
            final(self).wf(),
            (final(self)@, r@) == searched(old(self)@, text@),
    {
        match self.current_view() {
            View::CommandPalette => {
                self.filtered_commands = filter_commands(text.as_str());
                self.command_palette_query = text;
                if self.command_palette_selected >= self.filtered_commands.len() {
                    self.command_palette_selected = 0;
                }
                Effect::Nothing
            },
            _ => {
                self.query = text;
                self.update_query_results()
            },
        }
    }

    /// Filters the commands of the palette by its search, and moves the
    /// cursor to the first command where it stood behind the last.
    pub fn filter_commands(&mut self)
        requires
            old(self).wf(),
        ensures
            final(self).wf(),
            final(self)@ == (AppView {
                commands: palette_for(old(self)@.palette_query),
                palette_selected: if old(self)@.palette_selected >= palette_for(
                    old(self)@.palette_query,
                ).len() {
                    0
                } else {
                    old(self)@.palette_selected
                },
                ..old(self)@
            }),
    {
        self.filtered_commands = filter_commands(self.command_palette_query.as_str());
        if self.command_palette_selected >= self.filtered_commands.len() {
            self.command_palette_selected = 0;
        }
    }

    /// Edits the field of the entry dialog that has the focus.
    fn edit_dialog(&mut self, key: KeyEffect)
        requires
            old(self).wf(),
        ensures
            final(self).wf(),
            final(self)@ == dialog_edited(old(self)@, key),
    {
        match self.dialog_field {
            DialogField::Key => {
                let (text, cursor) = edit_text(&self.dialog_key, self.dialog_key_cursor, key);
                self.dialog_key = text;
                self.dialog_key_cursor = cursor;
            },
            DialogField::Value => {
                let (text, cursor) = edit_text(&self.dialog_value, self.dialog_value_cursor, key);
                self.dialog_value = text;
                self.dialog_value_cursor = cursor;
            },
        }
    }

    /// Moves the cursor of the palette or of the query view.
    fn move_cursor(&mut self, down: bool)
        requires
            old(self).wf(),
            !old(self)@.show_help,
        ensures
            final(self).wf(),
            final(self)@ == keyed(old(self)@, KeyEffect::MoveCursor(down)).0,
    {
        match self.current_view() {
            View::CommandPalette => {
                let len = self.filtered_commands.len();
                if len > 0 {
                    self.command_palette_selected = if down {
                        next_index(self.command_palette_selected, len)
                    } else {
                        prev_index(self.command_palette_selected, len)
                    };
                }
            },
            _ => {
                let len = self.entries.len();
                if len > 0 {
                    self.query_cursor = if down {
                        next_index(self.query_cursor, len)
                    } else {
                        prev_index(self.query_cursor, len)
                    };
                }
            },
        }
    }

    /// Does what a key press asks for.
    #[verifier::rlimit(40)]
    pub fn handle_key(&mut self, key: KeyEffect) -> (r: Effect)
        requires
            old(self).wf(),
        ensures
            final(self).wf(),
            (final(self)@, r@) == keyed(old(self)@, key),
    {
        if self.show_help {
            return match key {
                KeyEffect::Do(action) => self.reduce(action),
                KeyEffect::Pop => {
                    self.help_query = text_pop(self.help_query.as_str());
                    Effect::Nothing
                },
                KeyEffect::Push(c) => {
                    string_push(&mut self.help_query, c);
                    Effect::Nothing
                },
                _ => Effect::Nothing,
            };
        }
        match key {
            KeyEffect::Do(action) => self.reduce(action),
            KeyEffect::MoveCursor(down) => {
                self.move_cursor(down);
                Effect::Nothing
            },
            KeyEffect::RunSelected => {
                if self.command_palette_selected < self.filtered_commands.len() {
                    let id = self.filtered_commands[self.command_palette_selected].id;
                    self.reduce(Action::ExecuteCommand(id))
                } else {
                    Effect::Nothing
                }
            },
            KeyEffect::Pop => {
                let text = match self.current_view() {
                    View::CommandPalette => text_pop(self.command_palette_query.as_str()),
                    _ => text_pop(self.query.as_str()),
                };
                self.search(text)
            },
            KeyEffect::Push(c) => {
                let mut text = match self.current_view() {
                    View::CommandPalette => self.command_palette_query.clone(),
                    _ => self.query.clone(),
                };
                string_push(&mut text, c);
                self.search(text)
            },
            KeyEffect::SwitchField => {
                self.dialog_field = match self.dialog_field {
                    DialogField::Key => DialogField::Value,
                    DialogField::Value => DialogField::Key,
                };
                Effect::Nothing
            },
            KeyEffect::Ignore => Effect::Nothing,
            _ => {
                self.edit_dialog(key);
                Effect::Nothing
            },
        }
    }

    /// Turns the loading spinner one state on while a query loads.
    pub fn update_spinner(&mut self)
        requires
            old(self).wf(),
        ensures
            final(self).wf(),
            final(self)@ == (AppView {
                loading_spinner_state: if old(self)@.query_loading {
                    ((old(self)@.loading_spinner_state + 1) % 8) as usize
                } else {
                    old(self)@.loading_spinner_state
                },
                ..old(self)@
            }),
    {
        self.loading_spinner_state = next_spinner(self.loading_spinner_state, self.query_loading);
    }

    /// The character of the loading spinner.
    pub fn get_spinner_char(&self) -> (r: &'static str)
        ensures
            r@ == crate::app::spinner_text(self@.loading_spinner_state, self@.query_loading),
    {
        spinner_char(self.loading_spinner_state, self.query_loading)
    }
}

} // verus!
