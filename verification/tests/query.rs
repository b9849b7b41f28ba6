use lmdb_tui::db::query::{
    count_matches, decode_value, scan, scan_paginated, Counter, Mode, Scanner,
};
use lmdb_tui::plugins::DecoderRegistry;
use regex::Regex;
use serde_json::Value;

type Plugin = fn(&[u8]) -> Option<Value>;

fn space(pairs: &[(&str, &[u8])]) -> Vec<(String, Vec<u8>)> {
    let mut entries: Vec<(String, Vec<u8>)> =
        pairs.iter().map(|(k, v)| (k.to_string(), v.to_vec())).collect();
    entries.sort();
    entries
}

fn keys(items: &[(String, Vec<u8>)]) -> Vec<String> {
    items.iter().map(|(k, _)| k.clone()).collect()
}

#[test]
fn prefix_scan_returns_matching_keys() {
    let plugins: DecoderRegistry<Plugin> = DecoderRegistry::new();
    let data = space(&[("apple", b"1"), ("banana", b"2"), ("apricot", b"3")]);
    let items = scan(&data, Mode::Prefix("ap"), &plugins, 10);
    assert_eq!(keys(&items), vec!["apple", "apricot"]);
}

#[test]
fn range_scan_filters_keys() {
    let plugins: DecoderRegistry<Plugin> = DecoderRegistry::new();
    let data = space(&[("a", b"1"), ("b", b"2"), ("c", b"3")]);
    let items = scan(&data, Mode::Range("a", "c"), &plugins, 10);
    assert_eq!(keys(&items), vec!["a", "b"]);
}

#[test]
fn regex_scan_filters_keys() {
    let plugins: DecoderRegistry<Plugin> = DecoderRegistry::new();
    let data = space(&[("foo1", b"1"), ("bar", b"2"), ("foo2", b"3")]);
    let re = Regex::new(r"^foo[0-9]").unwrap();
    let items = scan(&data, Mode::Regex(re), &plugins, 10);
    assert_eq!(keys(&items), vec!["foo1", "foo2"]);
}

#[test]
fn jsonpath_filters_values() {
    let plugins: DecoderRegistry<Plugin> = DecoderRegistry::new();
    let data = space(&[("1", br#"{"name":"foo"}"#), ("2", br#"{"name":"bar"}"#)]);
    let items = scan(&data, Mode::JsonPath("$[?(@.name=='foo')]"), &plugins, 10);
    assert_eq!(keys(&items), vec!["1"]);
}

fn named(name: &str) -> Value {
    let mut map = serde_json::Map::new();
    map.insert("name".to_string(), Value::String(name.to_string()));
    Value::Object(map)
}

#[test]
fn jsonpath_handles_msgpack() {
    let plugins: DecoderRegistry<Plugin> = DecoderRegistry::new();
    let mp_foo = rmp_serde::to_vec(&named("foo")).unwrap();
    let mp_bar = rmp_serde::to_vec(&named("bar")).unwrap();
    let data = space(&[("1", &mp_foo), ("2", &mp_bar)]);
    let items = scan(&data, Mode::JsonPath("$[?(@.name=='foo')]"), &plugins, 10);
    assert_eq!(keys(&items), vec!["1"]);
}

#[test]
fn decode_value_parses_formats() {
    let plugins: DecoderRegistry<Plugin> = DecoderRegistry::new();
    let mut map = serde_json::Map::new();
    map.insert("a".to_string(), Value::from(1));
    let json_bytes = br#"{"a":1}"#;
    let mp_bytes = rmp_serde::to_vec(&Value::Object(map)).unwrap();

    let v1 = decode_value(json_bytes, &plugins).unwrap();
    let v2 = decode_value(&mp_bytes, &plugins).unwrap();

    assert_eq!(v1, v2);
}

#[test]
fn prefix_page_is_exact() {
    let plugins: DecoderRegistry<Plugin> = DecoderRegistry::new();
    let data = space(&[("apple", b"1"), ("apricot", b"3"), ("banana", b"2")]);
    let page = scan_paginated(&data, Mode::Prefix("ap"), &plugins, 0, 10);
    assert_eq!(
        page,
        vec![("apple".to_string(), b"1".to_vec()), ("apricot".to_string(), b"3".to_vec())]
    );
}

#[test]
fn prefix_scan_does_not_look_behind_the_band() {
    let plugins: DecoderRegistry<Plugin> = DecoderRegistry::new();
    let data = space(&[
        ("apple", b"1"),
        ("apricot", b"3"),
        ("banana", b"2"),
        ("cherry", b"4"),
        ("date", b"5"),
    ]);
    let mut scanner = Scanner::new(Mode::Prefix("ap"), &plugins, 0, 10);
    let mut fed = Vec::new();
    for (k, v) in &data {
        if !scanner.is_open() {
            break;
        }
        fed.push(k.clone());
        scanner.feed(k, v);
    }
    // "banana" is the first key behind every key that starts with "ap": the
    // scan sees it and nothing behind it.
    assert_eq!(fed, vec!["apple", "apricot", "banana"]);
    assert_eq!(keys(&scanner.finish()), vec!["apple", "apricot"]);

    let mut counter = Counter::new(Mode::Prefix("ap"), &plugins);
    let mut seen = 0;
    for (k, v) in &data {
        if !counter.is_open() {
            break;
        }
        seen += 1;
        counter.feed(k, v);
    }
    assert_eq!(seen, 3);
    assert_eq!(counter.finish(), 2);
}

#[test]
fn prefix_scan_passes_keys_before_the_band() {
    let plugins: DecoderRegistry<Plugin> = DecoderRegistry::new();
    let data = space(&[("a", b"0"), ("ab", b"1"), ("b", b"2"), ("ba", b"3"), ("bb", b"4"), ("c", b"5")]);
    let page = scan_paginated(&data, Mode::Prefix("b"), &plugins, 0, 10);
    assert_eq!(keys(&page), vec!["b", "ba", "bb"]);
    assert_eq!(count_matches(&data, Mode::Prefix("b"), &plugins), 3);
    // A key that is a proper prefix of the query sorts before it and does not end the scan.
    let page = scan_paginated(&data, Mode::Prefix("ba"), &plugins, 0, 10);
    assert_eq!(keys(&page), vec!["ba"]);
}

#[test]
fn range_scan_stops_at_the_upper_key() {
    let plugins: DecoderRegistry<Plugin> = DecoderRegistry::new();
    let data = space(&[("a", b"1"), ("b", b"2"), ("c", b"3"), ("d", b"4")]);
    let mut scanner = Scanner::new(Mode::Range("a", "c"), &plugins, 0, 10);
    let mut fed = 0;
    for (k, v) in &data {
        if !scanner.is_open() {
            break;
        }
        fed += 1;
        scanner.feed(k, v);
    }
    assert_eq!(fed, 3);
    assert_eq!(
        scanner.finish(),
        vec![("a".to_string(), b"1".to_vec()), ("b".to_string(), b"2".to_vec())]
    );
    assert_eq!(count_matches(&data, Mode::Range("b", "d"), &plugins), 2);
    assert_eq!(count_matches(&data, Mode::Range("c", "a"), &plugins), 0);
    assert_eq!(count_matches(&data, Mode::Range("b", "b"), &plugins), 0);
}

#[test]
fn scan_stops_when_the_page_is_full() {
    let plugins: DecoderRegistry<Plugin> = DecoderRegistry::new();
    let data = space(&[("a1", b"1"), ("a2", b"2"), ("a3", b"3"), ("a4", b"4")]);
    let mut scanner = Scanner::new(Mode::Prefix("a"), &plugins, 1, 2);
    let mut fed = 0;
    for (k, v) in &data {
        if !scanner.is_open() {
            break;
        }
        fed += 1;
        scanner.feed(k, v);
    }
    assert_eq!(fed, 3);
    assert_eq!(keys(&scanner.finish()), vec!["a2", "a3"]);
}

#[test]
fn empty_limit_and_far_offset_give_empty_pages() {
    let plugins: DecoderRegistry<Plugin> = DecoderRegistry::new();
    let data = space(&[("a1", b"1"), ("a2", b"2")]);
    assert!(scan_paginated(&data, Mode::Prefix("a"), &plugins, 0, 0).is_empty());
    assert!(scan_paginated(&data, Mode::Prefix("a"), &plugins, 2, 5).is_empty());
    assert!(scan_paginated(&data, Mode::Prefix("a"), &plugins, usize::MAX, usize::MAX).is_empty());
    assert_eq!(scan_paginated(&data, Mode::Prefix("a"), &plugins, 1, usize::MAX).len(), 1);
    assert!(scan_paginated(&[], Mode::Prefix(""), &plugins, 0, 5).is_empty());
    let scanner = Scanner::new(Mode::Prefix("a"), &plugins, 0, 0);
    assert!(!scanner.is_open());
}

#[test]
fn structural_filter_over_both_encodings() {
    let plugins: DecoderRegistry<Plugin> = DecoderRegistry::new();
    let mp_foo = rmp_serde::to_vec(&named("foo")).unwrap();
    let data = space(&[
        ("1", br#"{"name":"foo"}"#),
        ("2", br#"{"name":"bar"}"#),
        ("3", &mp_foo),
    ]);
    let page = scan_paginated(&data, Mode::JsonPath("$[?(@.name=='foo')]"), &plugins, 0, 10);
    assert_eq!(keys(&page), vec!["1", "3"]);
    assert_eq!(count_matches(&data, Mode::JsonPath("$[?(@.name=='foo')]"), &plugins), 2);
}

#[test]
fn undecodable_values_never_match_a_path() {
    let plugins: DecoderRegistry<Plugin> = DecoderRegistry::new();
    let data = space(&[("1", &[0xc1]), ("2", br#"{"name":"foo"}"#)]);
    let page = scan_paginated(&data, Mode::JsonPath("$.name"), &plugins, 0, 10);
    assert_eq!(keys(&page), vec!["2"]);
}

#[test]
fn scan_by_path_consults_plugins() {
    fn framed(bytes: &[u8]) -> Option<Value> {
        if bytes.first() == Some(&0xc1) {
            serde_json::from_slice(&bytes[1..]).ok()
        } else {
            None
        }
    }
    let mut plugins: DecoderRegistry<Plugin> = DecoderRegistry::new();
    lmdb_tui::plugins::register_decoder(&mut plugins, framed);
    let data = space(&[("1", b"\xc1{\"name\":\"foo\"}"), ("2", b"\xc1{\"name\":\"bar\"}")]);
    let page = scan_paginated(&data, Mode::JsonPath("$[?(@.name=='foo')]"), &plugins, 0, 10);
    assert_eq!(keys(&page), vec!["1"]);
}

#[test]
fn regex_scans_the_whole_space() {
    let plugins: DecoderRegistry<Plugin> = DecoderRegistry::new();
    let data = space(&[("a1", b"1"), ("b", b"2"), ("c3", b"3")]);
    let re = Regex::new(r"[0-9]$").unwrap();
    let mut counter = Counter::new(Mode::Regex(re.clone()), &plugins);
    let mut fed = 0;
    for (k, v) in &data {
        if !counter.is_open() {
            break;
        }
        fed += 1;
        counter.feed(k, v);
    }
    assert_eq!(fed, 3);
    assert_eq!(counter.finish(), 2);
    assert_eq!(keys(&scan_paginated(&data, Mode::Regex(re), &plugins, 1, 5)), vec!["c3"]);
}

#[test]
fn keys_are_ordered_by_bytes() {
    let plugins: DecoderRegistry<Plugin> = DecoderRegistry::new();
    let data = space(&[("Z", b"1"), ("a", b"2"), ("é", b"3"), ("z", b"4"), ("日本", b"5")]);
    assert_eq!(keys(&data), vec!["Z", "a", "z", "é", "日本"]);
    let page = scan_paginated(&data, Mode::Range("a", "é"), &plugins, 0, 10);
    assert_eq!(keys(&page), vec!["a", "z"]);
    let page = scan_paginated(&data, Mode::Prefix("日"), &plugins, 0, 10);
    assert_eq!(keys(&page), vec!["日本"]);
    let page = scan_paginated(&data, Mode::Range("z", "\u{10ffff}"), &plugins, 0, 10);
    assert_eq!(keys(&page), vec!["z", "é", "日本"]);
}
