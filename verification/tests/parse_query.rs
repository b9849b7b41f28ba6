use lmdb_tui::db::query::{parse_query, Mode};
use lmdb_tui::errors::AppError;

#[test]
fn parse_prefix_mode() {
    let mode = parse_query("prefix foo").unwrap();
    if let Mode::Prefix(p) = mode {
        assert_eq!(p, "foo");
    } else {
        panic!("expected prefix");
    }
}

#[test]
fn parse_range_mode() {
    let mode = parse_query("range a..b").unwrap();
    if let Mode::Range(s, e) = mode {
        assert_eq!((s, e), ("a", "b"));
    } else {
        panic!("expected range");
    }
}

#[test]
fn parse_regex_mode() {
    let mode = parse_query("regex ^foo$").unwrap();
    match mode {
        Mode::Regex(re) => assert!(re.is_match("foo")),
        _ => panic!("expected regex"),
    }
}

#[test]
fn parse_default_prefix() {
    let mode = parse_query("bar").unwrap();
    if let Mode::Prefix(p) = mode {
        assert_eq!(p, "bar");
    } else {
        panic!("expected prefix");
    }
}

fn shape(input: &str) -> String {
    match parse_query(input) {
        Ok(Mode::Prefix(p)) => format!("prefix[{}]", p),
        Ok(Mode::Range(a, b)) => format!("range[{}][{}]", a, b),
        Ok(Mode::Regex(re)) => format!("regex[{}]", re.as_str()),
        Ok(Mode::JsonPath(p)) => format!("jsonpath[{}]", p),
        Err(AppError::EmptyQuery) => "empty".to_string(),
        Err(AppError::BadQuery(reason)) => format!("bad[{}]", reason),
        Err(AppError::BadRegex(_)) => "badregex".to_string(),
        Err(other) => format!("other[{}]", other.message()),
    }
}

#[test]
fn parse_empty_query() {
    assert_eq!(shape(""), "empty");
    assert_eq!(shape("   "), "empty");
    assert_eq!(shape("\t\n\u{a0}\u{3000}"), "empty");
}

#[test]
fn parse_trims_the_whole_input() {
    assert_eq!(shape("  prefix foo  "), "prefix[foo]");
    assert_eq!(shape("\u{2003}bar\u{85}"), "prefix[bar]");
    assert_eq!(shape("  a b  "), "prefix[a b]");
}

#[test]
fn parse_takes_the_rest_as_it_stands() {
    assert_eq!(shape("prefix  foo bar"), "prefix[ foo bar]");
    assert_eq!(shape("jsonpath $.a[?(@.b == 'c d')]"), "jsonpath[$.a[?(@.b == 'c d')]]");
    assert_eq!(shape("regex a b+"), "regex[a b+]");
    assert_eq!(shape("prefix prefix x"), "prefix[prefix x]");
}

#[test]
fn parse_keywords_need_their_space_and_case() {
    assert_eq!(shape("prefix"), "prefix[prefix]");
    assert_eq!(shape("prefixfoo"), "prefix[prefixfoo]");
    assert_eq!(shape("Prefix foo"), "prefix[Prefix foo]");
    assert_eq!(shape("range"), "prefix[range]");
    assert_eq!(shape("regex"), "prefix[regex]");
    assert_eq!(shape("jsonpath"), "prefix[jsonpath]");
    assert_eq!(shape("RANGE a b"), "prefix[RANGE a b]");
    assert_eq!(shape("prefix\tfoo"), "prefix[prefix\tfoo]");
}

#[test]
fn parse_range_forms() {
    assert_eq!(shape("range a b"), "range[a][b]");
    assert_eq!(shape("range   a \t b   c"), "range[a][b]");
    assert_eq!(shape("range a .. b"), "range[a][b]");
    assert_eq!(shape("range a..b..c"), "range[a][b..c]");
    assert_eq!(shape("range .."), "range[][]");
    assert_eq!(shape("range a.."), "range[a][]");
    assert_eq!(shape("range ..b"), "range[][b]");
    assert_eq!(shape("range a b..c d"), "range[a b][c d]");
    assert_eq!(shape("range key_000100 key_000110"), "range[key_000100][key_000110]");
    assert_eq!(shape("range a...b"), "range[a][.b]");
}

#[test]
fn parse_invalid_range() {
    assert_eq!(shape("range a"), "bad[invalid range]");
    assert_eq!(shape("range  a"), "bad[invalid range]");
    assert_eq!(shape("range a.b"), "bad[invalid range]");
    assert_eq!(
        parse_query("range a").err().unwrap().message(),
        "bad query: invalid range"
    );
}

#[test]
fn parse_bad_regex() {
    assert_eq!(shape("regex foo(bar"), "badregex");
    assert_eq!(shape("regex [a"), "badregex");
    assert_eq!(shape("regex ^key_[0-9]+$"), "regex[^key_[0-9]+$]");
    let message = parse_query("regex (").err().unwrap().message();
    assert!(message.starts_with("bad regex: "));
}

#[test]
fn parse_non_ascii_queries() {
    assert_eq!(shape("prefix 日本"), "prefix[日本]");
    assert_eq!(shape("range é..日"), "range[é][日]");
    assert_eq!(shape("日本 語"), "prefix[日本 語]");
}
