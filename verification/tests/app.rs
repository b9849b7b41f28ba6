use lmdb_tui::app::{
    clamp_cursor, current_entry, current_index, current_view, key_effect, next_index,
    next_page_offset, next_spinner, prev_index, prev_page_offset, refreshes_view, spinner_char,
    query_results, Action, CommandId, KeyEffect, View,
};
use lmdb_tui::app::state::find_entry;
use lmdb_tui::config::{Key, KeyBindings};
use lmdb_tui::plugins::DecoderRegistry;
use lmdb_tui::db::stats::{DbStats, EnvStats};
use lmdb_tui::db::txn::{End, EnvHandle, Txn};
use lmdb_tui::errors::AppError;
use lmdb_tui::jobs::{JobResult, StatsBoard};

fn space(pairs: &[(&str, &[u8])]) -> Vec<(String, Vec<u8>)> {
    pairs.iter().map(|(k, v)| (k.to_string(), v.to_vec())).collect()
}

#[test]
fn selection_wraps_around() {
    assert_eq!(next_index(0, 3), 1);
    assert_eq!(next_index(2, 3), 0);
    assert_eq!(next_index(0, 1), 0);
    assert_eq!(prev_index(0, 3), 2);
    assert_eq!(prev_index(2, 3), 1);
    assert_eq!(prev_index(0, 1), 0);
}

#[test]
fn page_offsets_stay_within_the_results() {
    // 250 results in pages of 100: 0 -> 100 -> 150, and back 150 -> 50 -> 0.
    assert_eq!(next_page_offset(0, 250, 100), Some(100));
    assert_eq!(next_page_offset(100, 250, 100), Some(150));
    assert_eq!(next_page_offset(150, 250, 100), None);
    assert_eq!(next_page_offset(0, 100, 100), None);
    assert_eq!(next_page_offset(0, 50, 100), None);
    assert_eq!(next_page_offset(0, 0, 100), None);
    assert_eq!(next_page_offset(usize::MAX - 5, usize::MAX, 3), Some(usize::MAX - 3));
    assert_eq!(prev_page_offset(150, 100), Some(50));
    assert_eq!(prev_page_offset(100, 100), Some(0));
    assert_eq!(prev_page_offset(50, 100), Some(0));
    assert_eq!(prev_page_offset(0, 100), None);
    assert_eq!(prev_page_offset(0, 0), None);
}

#[test]
fn cursor_stays_within_the_list() {
    assert_eq!(clamp_cursor(5, 3), 2);
    assert_eq!(clamp_cursor(2, 3), 2);
    assert_eq!(clamp_cursor(3, 3), 2);
    assert_eq!(clamp_cursor(7, 0), 0);
    assert_eq!(clamp_cursor(0, 0), 0);
}

#[test]
fn current_view_is_the_top_of_the_stack() {
    assert_eq!(current_view(&[]), View::Main);
    assert_eq!(current_view(&[View::Main]), View::Main);
    assert_eq!(current_view(&[View::Main, View::Query]), View::Query);
    assert_eq!(current_view(&[View::Main, View::Query, View::Preview]), View::Preview);
}

#[test]
fn current_entry_follows_the_view() {
    let entries = space(&[("a", b"1"), ("b", b"2"), ("c", b"3")]);
    let at = |views: &[View]| current_index(views, 0, 2, entries.len());
    assert_eq!(at(&[View::Main]), Some(0));
    assert_eq!(at(&[]), Some(0));
    assert_eq!(at(&[View::Main, View::Query]), Some(2));
    assert_eq!(at(&[View::Main, View::CommandPalette]), None);
    assert_eq!(at(&[View::Main, View::Preview]), None);
    assert_eq!(at(&[View::Main, View::EditEntry]), Some(0));
    assert_eq!(at(&[View::Main, View::Query, View::DeleteConfirm]), Some(2));
    assert_eq!(at(&[View::Main, View::Preview, View::CreateEntry]), None);
    assert_eq!(at(&[View::CreateEntry]), Some(0));
    assert_eq!(current_index(&[View::Main], 3, 0, 3), None);
    assert_eq!(
        current_entry(&[View::Main, View::Query], &entries, 0, 1),
        Some(("b".to_string(), b"2".to_vec()))
    );
    assert_eq!(current_entry(&[View::Main], &entries, 9, 1), None);
    assert_eq!(current_entry(&[View::Main], &[], 0, 0), None);
}

#[test]
fn keys_are_found_by_their_text() {
    let entries = space(&[("a", b"1"), ("b", b"2"), ("b", b"3")]);
    assert_eq!(find_entry(&entries, "b"), Some(1));
    assert_eq!(find_entry(&entries, "a"), Some(0));
    assert_eq!(find_entry(&entries, "c"), None);
    assert_eq!(find_entry(&Vec::new(), "a"), None);
}

#[test]
fn spinner_turns_through_eight_states() {
    let mut state = 0;
    let mut shown = Vec::new();
    for _ in 0..9 {
        shown.push(spinner_char(state, true));
        state = next_spinner(state, true);
    }
    assert_eq!(shown, vec!["⠋", "⠙", "⠹", "⠸", "⠼", "⠴", "⠦", "⠧", "⠋"]);
    assert_eq!(state, 1);
    assert_eq!(next_spinner(5, false), 5);
    assert_eq!(spinner_char(5, false), "");
    assert_eq!(spinner_char(8, true), "⠋");
}

#[test]
fn one_writer_at_a_time() {
    let mut env = EnvHandle::new(false);
    assert!(!env.is_read_only());
    assert!(!env.has_writer());
    let txn = Txn::begin(&mut env).unwrap();
    assert!(env.has_writer());
    assert!(matches!(Txn::begin(&mut env), Err(AppError::WriterBusy)));
    assert!(env.has_writer());
    assert_eq!(txn.commit(&mut env), End::Commit);
    assert!(!env.has_writer());
    let txn = Txn::begin(&mut env).unwrap();
    assert_eq!(txn.abort(&mut env), End::Abort);
    assert!(!env.has_writer());
    assert!(Txn::begin(&mut env).is_ok());
}

#[test]
fn read_only_environment_admits_no_writer() {
    let mut env = EnvHandle::new(true);
    assert!(env.is_read_only());
    assert!(matches!(Txn::begin(&mut env), Err(AppError::ReadOnlyEnv)));
    assert!(!env.has_writer());
}

#[test]
fn stats_are_refreshed_by_identity() {
    let env = |id| EnvStats { map_size: 1, last_page_number: 2, last_txn_id: id, max_readers: 4, num_readers: 5 };
    let db = |n| DbStats { page_size: 4096, depth: 1, branch_pages: 0, leaf_pages: 1, overflow_pages: 0, entries: n };
    let mut board = StatsBoard::new();
    assert!(board.env.is_none() && board.db.is_none());
    board.refresh(JobResult::Db("data".into(), db(7)));
    assert!(board.env.is_none());
    board.refresh(JobResult::Env(env(1)));
    board.refresh(JobResult::Env(env(2)));
    assert_eq!(board.env.as_ref().unwrap().last_txn_id, 2);
    assert_eq!(board.db_stats("data").unwrap().entries, 7);
    assert!(board.db_stats("other").is_none());
    board.refresh(JobResult::Db("other".into(), db(9)));
    assert!(board.db_stats("data").is_none());
    assert_eq!(board.db_stats("other").unwrap().entries, 9);
}

#[test]
fn test_file_event_debouncing() {
    assert!(refreshes_view(None));
    assert!(!refreshes_view(Some(0)));
    assert!(refreshes_view(Some(1)));
    assert!(refreshes_view(Some(60)));
}

#[test]
fn keys_of_the_main_view() {
    let b = KeyBindings::default();
    let press = |key, ctrl| key_effect(false, View::Main, key, ctrl, &b);
    assert_eq!(press(Key::Char('q'), false), KeyEffect::Do(Action::Quit));
    assert_eq!(press(Key::Char('?'), false), KeyEffect::Do(Action::ToggleHelp));
    assert_eq!(press(Key::Char('/'), false), KeyEffect::Do(Action::EnterQuery));
    assert_eq!(press(Key::Down, false), KeyEffect::Do(Action::NextEntry));
    assert_eq!(press(Key::Up, false), KeyEffect::Do(Action::PrevEntry));
    assert_eq!(press(Key::Left, false), KeyEffect::Do(Action::PrevDb));
    assert_eq!(press(Key::Right, false), KeyEffect::Do(Action::NextDb));
    assert_eq!(press(Key::Char('z'), true), KeyEffect::Do(Action::Undo));
    assert_eq!(press(Key::Char('z'), false), KeyEffect::Ignore);
    assert_eq!(press(Key::Char('y'), true), KeyEffect::Do(Action::Redo));
    assert_eq!(press(Key::Char('b'), false), KeyEffect::Do(Action::ToggleBookmark));
    assert_eq!(press(Key::Char('B'), false), KeyEffect::Do(Action::ShowBookmarks));
    assert_eq!(press(Key::Char('p'), true), KeyEffect::Do(Action::OpenCommandPalette));
    assert_eq!(press(Key::Enter, false), KeyEffect::Do(Action::EnterPreview));
    assert_eq!(press(Key::Char('e'), false), KeyEffect::Do(Action::ExecuteCommand(CommandId::EditEntry)));
    assert_eq!(press(Key::Char('c'), false), KeyEffect::Do(Action::ExecuteCommand(CommandId::CreateEntry)));
    assert_eq!(press(Key::Char('d'), false), KeyEffect::Do(Action::ExecuteCommand(CommandId::DeleteEntry)));
    assert_eq!(press(Key::F(5), false), KeyEffect::Do(Action::Refresh));
    assert_eq!(press(Key::F(6), false), KeyEffect::Do(Action::CycleTheme));
    assert_eq!(press(Key::F(7), false), KeyEffect::Ignore);
    assert_eq!(press(Key::PageDown, false), KeyEffect::Do(Action::NextPageMain));
    assert_eq!(press(Key::PageUp, false), KeyEffect::Do(Action::PrevPageMain));
    assert_eq!(press(Key::Esc, false), KeyEffect::Ignore);
    // A binding wins over the fixed keys.
    let rebound = KeyBindings { quit: Key::Char('b'), ..KeyBindings::default() };
    assert_eq!(key_effect(false, View::Main, Key::Char('b'), false, &rebound), KeyEffect::Do(Action::Quit));
}

#[test]
fn keys_of_the_other_views() {
    let b = KeyBindings::default();
    let q = |key, ctrl| key_effect(false, View::Query, key, ctrl, &b);
    assert_eq!(q(Key::Esc, false), KeyEffect::Do(Action::ExitView));
    assert_eq!(q(Key::Char('q'), false), KeyEffect::Do(Action::ExitView));
    assert_eq!(q(Key::Down, false), KeyEffect::MoveCursor(true));
    assert_eq!(q(Key::Up, false), KeyEffect::MoveCursor(false));
    assert_eq!(q(Key::Backspace, false), KeyEffect::Pop);
    assert_eq!(q(Key::Char('z'), true), KeyEffect::Do(Action::Undo));
    assert_eq!(q(Key::Char('y'), true), KeyEffect::Do(Action::Redo));
    assert_eq!(q(Key::PageDown, false), KeyEffect::Do(Action::NextPage));
    assert_eq!(q(Key::PageUp, false), KeyEffect::Do(Action::PrevPage));
    assert_eq!(q(Key::Enter, false), KeyEffect::Do(Action::EnterPreview));
    assert_eq!(q(Key::Char('b'), false), KeyEffect::Do(Action::ToggleBookmark));
    assert_eq!(q(Key::Char('B'), false), KeyEffect::Do(Action::ShowBookmarks));
    assert_eq!(q(Key::Char('x'), false), KeyEffect::Push('x'));
    assert_eq!(q(Key::Char('x'), true), KeyEffect::Ignore);
    assert_eq!(q(Key::Tab, false), KeyEffect::Ignore);

    let p = |key, ctrl| key_effect(false, View::CommandPalette, key, ctrl, &b);
    assert_eq!(p(Key::Esc, false), KeyEffect::Do(Action::ExitView));
    assert_eq!(p(Key::Down, false), KeyEffect::MoveCursor(true));
    assert_eq!(p(Key::Up, false), KeyEffect::MoveCursor(false));
    assert_eq!(p(Key::Enter, false), KeyEffect::RunSelected);
    assert_eq!(p(Key::Backspace, false), KeyEffect::Pop);
    assert_eq!(p(Key::Char('b'), false), KeyEffect::Push('b'));
    assert_eq!(p(Key::Char('b'), true), KeyEffect::Ignore);

    assert_eq!(key_effect(false, View::Preview, Key::Esc, false, &b), KeyEffect::Do(Action::ExitView));
    assert_eq!(key_effect(false, View::Preview, Key::Char('q'), false, &b), KeyEffect::Do(Action::ExitView));
    assert_eq!(key_effect(false, View::Preview, Key::Enter, false, &b), KeyEffect::Ignore);

    let c = |key| key_effect(false, View::CreateEntry, key, false, &b);
    assert_eq!(c(Key::Esc), KeyEffect::Do(Action::ExitView));
    assert_eq!(c(Key::Tab), KeyEffect::SwitchField);
    assert_eq!(c(Key::Enter), KeyEffect::Do(Action::ConfirmCreate));
    assert_eq!(key_effect(false, View::EditEntry, Key::Enter, false, &b), KeyEffect::Do(Action::ConfirmEdit));
    assert_eq!(c(Key::Backspace), KeyEffect::Backspace);
    assert_eq!(c(Key::Left), KeyEffect::Left);
    assert_eq!(c(Key::Right), KeyEffect::Right);
    assert_eq!(c(Key::Char('q')), KeyEffect::Insert('q'));
    assert_eq!(c(Key::Home), KeyEffect::Ignore);

    let d = |key| key_effect(false, View::DeleteConfirm, key, false, &b);
    assert_eq!(d(Key::Esc), KeyEffect::Do(Action::ExitView));
    assert_eq!(d(Key::Enter), KeyEffect::Do(Action::ConfirmDelete));
    assert_eq!(d(Key::Char('y')), KeyEffect::Do(Action::ConfirmDelete));
    assert_eq!(d(Key::Char('Y')), KeyEffect::Do(Action::ConfirmDelete));
    assert_eq!(d(Key::Char('n')), KeyEffect::Do(Action::ExitView));
    assert_eq!(d(Key::Char('N')), KeyEffect::Do(Action::ExitView));
    assert_eq!(d(Key::Char('x')), KeyEffect::Ignore);
}

#[test]
fn help_takes_every_key_while_shown() {
    let b = KeyBindings::default();
    for view in [View::Main, View::Query, View::DeleteConfirm] {
        assert_eq!(key_effect(true, view, Key::Esc, false, &b), KeyEffect::Do(Action::ToggleHelp));
        assert_eq!(key_effect(true, view, Key::Char('q'), false, &b), KeyEffect::Do(Action::ToggleHelp));
        assert_eq!(key_effect(true, view, Key::Char('x'), false, &b), KeyEffect::Push('x'));
        assert_eq!(key_effect(true, view, Key::Backspace, false, &b), KeyEffect::Pop);
        assert_eq!(key_effect(true, view, Key::Enter, false, &b), KeyEffect::Ignore);
    }
}

#[test]
fn query_view_results() {
    type Plugin = fn(&[u8]) -> Option<serde_json::Value>;
    let plugins: DecoderRegistry<Plugin> = DecoderRegistry::new();
    let mut data = Vec::new();
    for i in 0..250 {
        data.push((format!("key_{:06}", i), vec![i as u8]));
    }
    let r = query_results(&data, "prefix key_0001", &plugins, 0, 100, 0).unwrap();
    assert_eq!(r.total_entries, 100);
    assert_eq!(r.entries.len(), 100);
    assert_eq!(r.query_cursor, 0);
    let r = query_results(&data, " range key_000010..key_000015 ", &plugins, 2, 100, 7).unwrap();
    assert_eq!(r.total_entries, 5);
    assert_eq!(r.entries.len(), 3);
    assert_eq!(r.entries[0].0, "key_000012");
    assert_eq!(r.query_cursor, 2);
    let r = query_results(&data, "nothing", &plugins, 0, 100, 4).unwrap();
    assert_eq!((r.total_entries, r.entries.len(), r.query_cursor), (0, 0, 0));
    let r = query_results(&data, "regex _00000[12]$", &plugins, 0, 100, 1).unwrap();
    assert_eq!((r.total_entries, r.entries.len(), r.query_cursor), (2, 2, 1));
    assert!(matches!(query_results(&data, "", &plugins, 0, 100, 0), Err(AppError::EmptyQuery)));
    assert!(matches!(query_results(&data, "range a", &plugins, 0, 100, 0), Err(AppError::BadQuery(_))));
    assert!(matches!(query_results(&data, "regex (", &plugins, 0, 100, 0), Err(AppError::BadRegex(_))));
}
