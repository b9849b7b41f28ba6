use lmdb_tui::app::state::App;
use lmdb_tui::app::{Action, CommandId, View};
use lmdb_tui::config::{Key, KeyBindings};
use lmdb_tui::errors::{io_failure, AppError, IoKind};
use lmdb_tui::ui::preview::{format_value_content, hex_dump, text_lines, ValueFormat};
use lmdb_tui::ui::query::{detect_query_type, query_label, QueryKind};
use lmdb_tui::ui::status::{key_label, status_text};

#[test]
fn query_kinds() {
    assert_eq!(detect_query_type("prefix foo"), QueryKind::Prefix);
    assert_eq!(detect_query_type("  range a b"), QueryKind::Range);
    assert_eq!(detect_query_type("regex ^a"), QueryKind::Regex);
    assert_eq!(detect_query_type("jsonpath $.a"), QueryKind::Json);
    assert_eq!(detect_query_type("a..b"), QueryKind::DottedRange);
    assert_eq!(detect_query_type("abc"), QueryKind::PlainPrefix);
    assert_eq!(detect_query_type(""), QueryKind::PlainPrefix);
    assert_eq!(detect_query_type("prefix"), QueryKind::PlainPrefix);
    assert_eq!(detect_query_type("range"), QueryKind::PlainPrefix);
    assert_eq!(detect_query_type("a.b"), QueryKind::PlainPrefix);
    assert_eq!(detect_query_type("prefix a..b"), QueryKind::Prefix);
    assert_eq!(query_label(QueryKind::Prefix), "PREFIX");
    assert_eq!(query_label(QueryKind::PlainPrefix), "PREFIX");
    assert_eq!(query_label(QueryKind::Range), "RANGE");
    assert_eq!(query_label(QueryKind::DottedRange), "RANGE");
    assert_eq!(query_label(QueryKind::Regex), "REGEX");
    assert_eq!(query_label(QueryKind::Json), "JSON");
}

#[test]
fn lines_of_a_text_are_split_as_std_does() {
    for text in [
        "", "a", "a\n", "a\nb", "a\r\nb\r\n", "a\rb", "a\r", "\n", "\n\n", "\r\n", "a\n\nb\n",
        "\r", "a\r\r\n", "x\n\ry", "é\n日本\r\n",
    ] {
        let expected: Vec<String> = text.lines().map(|l| l.to_string()).collect();
        assert_eq!(text_lines(text), expected, "for {:?}", text);
    }
}

fn std_dump(value: &[u8]) -> Vec<String> {
    value
        .chunks(16)
        .enumerate()
        .map(|(i, chunk)| {
            let offset = format!("{:08x}: ", i * 16);
            let hex_part: String =
                chunk.iter().map(|b| format!("{:02x}", b)).collect::<Vec<_>>().join(" ");
            let ascii_part: String = chunk
                .iter()
                .map(|&b| if b.is_ascii_graphic() || b == b' ' { b as char } else { '.' })
                .collect();
            format!("{}{:<48} |{}|", offset, hex_part, ascii_part)
        })
        .collect()
}

#[test]
fn hex_dump_lines() {
    assert_eq!(
        hex_dump(&[0x00, 0x41, 0x7e, 0x7f, 0xff, 0x20]),
        vec!["00000000: 00 41 7e 7f ff 20                                |.A~.. |".to_string()]
    );
    assert!(hex_dump(&[]).is_empty());
    let all: Vec<u8> = (0..=255u8).collect();
    for len in [1usize, 15, 16, 17, 31, 32, 33, 255, 256] {
        assert_eq!(hex_dump(&all[..len]), std_dump(&all[..len]), "for {}", len);
    }
    let long = vec![0xabu8; 16 * 17 + 3];
    let lines = hex_dump(&long);
    assert_eq!(lines.len(), 18);
    assert!(lines[16].starts_with("00000100: ab ab"));
    assert!(lines[17].starts_with("00000110: ab ab ab   "));
}

#[test]
fn preview_of_values() {
    let p = format_value_content(br#"{"b":1,"a":[true,null]}"#);
    assert_eq!(p.format, ValueFormat::Json);
    assert_eq!(
        p.lines,
        vec!["{", "  \"b\": 1,", "  \"a\": [", "    true,", "    null", "  ]", "}"]
    );
    let p = format_value_content(b"  [1, 2");
    assert_eq!(p.format, ValueFormat::Json);
    assert_eq!(p.lines, vec!["  [1, 2"]);
    let p = format_value_content(b"hello\r\nworld\n");
    assert_eq!(p.format, ValueFormat::Text);
    assert_eq!(p.lines, vec!["hello", "world"]);
    let p = format_value_content(b"");
    assert_eq!(p.format, ValueFormat::Text);
    assert!(p.lines.is_empty());
    let p = format_value_content(b"   ");
    assert_eq!(p.format, ValueFormat::Text);
    let p = format_value_content(&[0xff, 0x00]);
    assert_eq!(p.format, ValueFormat::Binary);
    assert_eq!(p.lines, std_dump(&[0xff, 0x00]));
}

#[test]
fn key_labels() {
    assert_eq!(key_label(Key::Char('q')), "q");
    assert_eq!(key_label(Key::Enter), "Enter");
    assert_eq!(key_label(Key::Char('é')), "é");
    assert_eq!(key_label(Key::F(5)), "F(5)");
    assert_eq!(key_label(Key::F(12)), "F(12)");
    assert_eq!(key_label(Key::F(255)), "F(255)");
    assert_eq!(key_label(Key::F(0)), "F(0)");
    assert_eq!(key_label(Key::F(100)), "F(100)");
    assert_eq!(key_label(Key::PageDown), "PageDown");
    assert_eq!(key_label(Key::Null), "Null");
    for (key, label) in [
        (Key::Tab, "Tab"), (Key::Backspace, "Backspace"), (Key::Delete, "Delete"),
        (Key::Esc, "Esc"), (Key::Up, "Up"), (Key::Down, "Down"), (Key::Left, "Left"),
        (Key::Right, "Right"), (Key::Home, "Home"), (Key::End, "End"), (Key::PageUp, "PageUp"),
    ] {
        assert_eq!(key_label(key), label);
    }
}

#[test]
fn status_line_hints() {
    let keys = KeyBindings::default();
    let mut app = App::new(Vec::new());
    assert_eq!(status_text(&app, &keys), "q: quit | ?: help | /: query");

    let mut app2 = App::new(vec!["data".to_string()]);
    assert_eq!(
        status_text(&app2, &keys),
        "q: quit | ?: help | /: query | Up/Down: entries | \u{2190}/\u{2192}: databases | b: bookmark | B: show history | Ctrl+P: commands"
    );
    let _ = app2.loaded(vec![("k".to_string(), b"v".to_vec())], lmdb_tui::app::state::Loaded::Replace);
    let _ = app2.reduce(Action::ToggleBookmark);
    assert!(status_text(&app2, &keys).contains("b: remove bookmark"));
    let _ = app2.written(
        lmdb_tui::db::kv::Mutation::Put { db: "data".into(), key: "k".into(), value: vec![1] },
        Some(b"v".to_vec()),
        lmdb_tui::app::state::Replay::New,
    );
    assert!(status_text(&app2, &keys).ends_with("Ctrl+P: commands | Ctrl+Z: undo"));
    let _ = app2.written(lmdb_tui::db::kv::Mutation::Nothing, None, lmdb_tui::app::state::Replay::Undo);
    assert!(app2.has_pending_changes);
    assert!(status_text(&app2, &keys).starts_with("\u{25cf} q: quit"));
    assert!(status_text(&app2, &keys).ends_with("Ctrl+P: commands | Ctrl+Y: redo "));
    app2.has_pending_changes = false;
    assert!(status_text(&app2, &keys).ends_with("Ctrl+P: commands | Ctrl+Y: redo"));

    let _ = app.reduce(Action::EnterQuery);
    assert_eq!(status_text(&app, &keys), "Esc: back | q: quit");
    app.query_loaded(250, vec![("a".to_string(), vec![])]);
    assert_eq!(
        status_text(&app, &keys),
        "Esc: back | q: quit | Up: up | Down: down | PgUp/PgDn: pages | Enter: select"
    );
    let _ = app.reduce(Action::OpenCommandPalette);
    assert_eq!(app.current_view(), View::CommandPalette);
    assert!(status_text(&app, &keys).starts_with("Type to search commands"));
    let _ = app.reduce(Action::ExecuteCommand(CommandId::CreateEntry));
    assert_eq!(status_text(&app, &keys), "Tab: switch fields \u{2022} Enter: create \u{2022} Esc: cancel");
    let _ = app.reduce(Action::ExitView);
    let _ = app.reduce(Action::EnterPreview);
    assert_eq!(status_text(&app, &keys), "Esc: close preview \u{2022} q: quit");
    let _ = app.reduce(Action::ExitView);
    let _ = app.reduce(Action::ExecuteCommand(CommandId::EditEntry));
    assert_eq!(status_text(&app, &keys), "Tab: switch fields \u{2022} Enter: save \u{2022} Esc: cancel");
    let _ = app.reduce(Action::ExitView);
    let _ = app.reduce(Action::ExecuteCommand(CommandId::DeleteEntry));
    assert_eq!(status_text(&app, &keys), "Y/Enter: confirm delete \u{2022} N/Esc: cancel");
}

#[test]
fn io_failures_by_kind() {
    assert!(matches!(io_failure(IoKind::NotFound, Some(2), "x".into()), AppError::NotFound));
    assert!(matches!(io_failure(IoKind::PermissionDenied, None, "x".into()), AppError::PermissionDenied));
    assert!(matches!(io_failure(IoKind::Other, Some(6), "x".into()), AppError::NotFound));
    match io_failure(IoKind::Other, Some(5), "disk error".into()) {
        AppError::Storage(message) => assert_eq!(message, "disk error"),
        other => panic!("unexpected {:?}", other),
    }
    assert!(matches!(io_failure(IoKind::Other, None, "x".into()), AppError::Storage(_)));
    assert_eq!(io_failure(IoKind::Other, Some(6), "x".into()).exit_code(), 2);
    assert_eq!(io_failure(IoKind::PermissionDenied, None, "x".into()).exit_code(), 3);
    assert_eq!(io_failure(IoKind::Other, Some(5), "x".into()).exit_code(), 1);
}
