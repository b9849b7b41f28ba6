use lmdb_tui::bookmarks::{Bookmarks, JumpHistory};
use lmdb_tui::db::stats::{DbStats, EnvStats};
use lmdb_tui::jobs::{job_result, Job, JobResult, Outcome};
use lmdb_tui::ui::help::{default_entries, filter_entries, HelpEntry};

fn place(db: &str, key: &str) -> (String, String) {
    (db.to_string(), key.to_string())
}

#[test]
fn bookmarks_add_remove_contains() {
    let mut marks = Bookmarks::new();
    assert!(!marks.contains("data", "a"));
    marks.add("data".into(), "a".into());
    marks.add("data".into(), "b".into());
    marks.add("data".into(), "a".into());
    assert!(marks.contains("data", "a"));
    assert!(marks.contains("data", "b"));
    assert!(!marks.contains("other", "a"));
    assert_eq!(marks.entries().len(), 2);
    marks.remove("data", "a");
    assert!(!marks.contains("data", "a"));
    assert!(marks.contains("data", "b"));
    marks.remove("data", "missing");
    assert_eq!(marks.entries(), vec![place("data", "b")]);
    let marks = Bookmarks::default();
    assert!(marks.entries().is_empty());
}

#[test]
fn jump_history_is_bounded() {
    let mut history = JumpHistory::new(3);
    assert!(history.entries().is_empty());
    for key in ["a", "b", "c"] {
        history.push("data".into(), key.into());
    }
    assert_eq!(history.entries(), vec![place("data", "a"), place("data", "b"), place("data", "c")]);
    history.push("data".into(), "d".into());
    assert_eq!(history.entries(), vec![place("data", "b"), place("data", "c"), place("data", "d")]);
    history.push("data".into(), "b".into());
    assert_eq!(history.entries(), vec![place("data", "c"), place("data", "d"), place("data", "b")]);
}

#[test]
fn jump_history_of_no_room_grows() {
    let mut history = JumpHistory::new(0);
    history.push("data".into(), "a".into());
    history.push("data".into(), "b".into());
    assert_eq!(history.entries(), vec![place("data", "a"), place("data", "b")]);
}

fn env_stats() -> EnvStats {
    EnvStats { map_size: 1, last_page_number: 2, last_txn_id: 3, max_readers: 4, num_readers: 5 }
}

fn db_stats() -> DbStats {
    DbStats { page_size: 4096, depth: 1, branch_pages: 0, leaf_pages: 1, overflow_pages: 0, entries: 7 }
}

#[test]
fn worker_messages() {
    match job_result(Job::Env, Outcome::Env(env_stats())) {
        Some(JobResult::Env(stats)) => assert_eq!(stats.last_txn_id, 3),
        other => panic!("unexpected {:?}", other),
    }
    match job_result(Job::Db("data".into()), Outcome::Db(db_stats())) {
        Some(JobResult::Db(name, stats)) => {
            assert_eq!(name, "data");
            assert_eq!(stats.entries, 7);
        }
        other => panic!("unexpected {:?}", other),
    }
    assert!(job_result(Job::Env, Outcome::Failed).is_none());
    assert!(job_result(Job::Db("data".into()), Outcome::Failed).is_none());
    assert!(job_result(Job::Env, Outcome::Db(db_stats())).is_none());
    assert!(job_result(Job::Db("data".into()), Outcome::Env(env_stats())).is_none());
}

#[test]
fn help_entries_are_searched_without_regard_to_case() {
    let entries = default_entries();
    assert_eq!(entries.len(), 11);
    assert_eq!(filter_entries(&entries, "").len(), 11);
    let found: Vec<&str> = filter_entries(&entries, "TRANSACTION").iter().map(|e| e.key).collect();
    assert_eq!(found, vec!["Ctrl+s", "Ctrl+z"]);
    let found: Vec<&str> = filter_entries(&entries, "f5").iter().map(|e| e.action).collect();
    assert_eq!(found, vec!["Refresh database view"]);
    assert!(filter_entries(&entries, "no such thing").is_empty());
    let own = [HelpEntry { key: "Q", action: "Quit" }];
    assert_eq!(filter_entries(&own, "q").len(), 1);
    assert_eq!(filter_entries(&own, "x").len(), 0);
}
