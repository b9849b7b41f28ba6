use lmdb_tui::db::env::{count_entries, list_entries_paginated};
use lmdb_tui::db::query::{count_matches, scan, scan_paginated, Mode, Scanner};
use lmdb_tui::plugins::DecoderRegistry;
use serde_json::Value;

type Plugin = fn(&[u8]) -> Option<Value>;

/// A space with many entries of a predictable pattern.
fn create_large_test_db(size: usize) -> Vec<(String, Vec<u8>)> {
    let mut entries = Vec::new();
    for i in 0..size {
        entries.push((format!("key_{:06}", i), format!("value_{}", i).into_bytes()));
    }
    entries.sort();
    entries
}

#[test]
fn test_count_matches_performance() {
    let data = create_large_test_db(1000);
    let plugins: DecoderRegistry<Plugin> = DecoderRegistry::new();
    let count = count_matches(&data, Mode::Prefix("key_0009"), &plugins);
    assert_eq!(count, 100);
}

#[test]
fn test_scan_paginated_performance() {
    let data = create_large_test_db(1000);
    let plugins: DecoderRegistry<Plugin> = DecoderRegistry::new();
    let results = scan_paginated(&data, Mode::Prefix("key_0001"), &plugins, 10, 5);
    assert_eq!(results.len(), 5);
    assert_eq!(results[0].0, "key_000110");
    assert_eq!(results[4].0, "key_000114");
}

#[test]
fn test_lazy_loading_pagination() {
    let data = create_large_test_db(500);
    let page1 = list_entries_paginated(&data, 0, 50);
    assert_eq!(page1.len(), 50);
    assert_eq!(page1[0].0, "key_000000");
    assert_eq!(page1[49].0, "key_000049");
    let page2 = list_entries_paginated(&data, 50, 50);
    assert_eq!(page2.len(), 50);
    assert_eq!(page2[0].0, "key_000050");
    assert_eq!(page2[49].0, "key_000099");
}

#[test]
fn test_count_entries_accuracy() {
    let data = create_large_test_db(250);
    assert_eq!(count_entries(&data), 250);
}

#[test]
fn test_prefix_query_early_termination() {
    let data = create_large_test_db(1000);
    let plugins: DecoderRegistry<Plugin> = DecoderRegistry::new();
    let results = scan(&data, Mode::Prefix("key_000999"), &plugins, 100);
    assert_eq!(results.len(), 1);
    assert!(results[0].0.starts_with("key_000999"));

    let mut scanner = Scanner::new(Mode::Prefix("key_0001"), &plugins, 0, 1000);
    let mut fed = 0;
    for (k, v) in &data {
        if !scanner.is_open() {
            break;
        }
        fed += 1;
        scanner.feed(k, v);
    }
    // key_000000..key_000199 and the first key behind the band.
    assert_eq!(fed, 201);
    assert_eq!(scanner.finish().len(), 100);
}

#[test]
fn test_range_query_early_termination() {
    let data = create_large_test_db(1000);
    let plugins: DecoderRegistry<Plugin> = DecoderRegistry::new();
    let results = scan(&data, Mode::Range("key_000100", "key_000110"), &plugins, 100);
    assert_eq!(results.len(), 10);
    assert_eq!(results[0].0, "key_000100");
    assert_eq!(results[9].0, "key_000109");

    let mut scanner = Scanner::new(Mode::Range("key_000100", "key_000110"), &plugins, 0, 100);
    let mut fed = 0;
    for (k, v) in &data {
        if !scanner.is_open() {
            break;
        }
        fed += 1;
        scanner.feed(k, v);
    }
    assert_eq!(fed, 111);
}

#[test]
fn test_count_vs_scan_consistency() {
    let data = create_large_test_db(300);
    let plugins: DecoderRegistry<Plugin> = DecoderRegistry::new();
    let mode = Mode::Prefix("key_001");
    let count = count_matches(&data, mode.clone(), &plugins);
    let scan_results = scan(&data, mode, &plugins, usize::MAX);
    assert_eq!(count, scan_results.len());
    assert_eq!(count, 0);
    let mode = Mode::Prefix("key_0001");
    assert_eq!(
        count_matches(&data, mode.clone(), &plugins),
        scan(&data, mode, &plugins, usize::MAX).len()
    );
    let mode = Mode::Regex(regex::Regex::new("7$").unwrap());
    assert_eq!(count_matches(&data, mode.clone(), &plugins), 30);
    assert_eq!(scan(&data, mode, &plugins, usize::MAX).len(), 30);
}

#[test]
fn test_pagination_completeness() {
    let data = create_large_test_db(157);
    let page_size = 50;
    let mut all_keys = Vec::new();
    let mut offset = 0;
    loop {
        let page = list_entries_paginated(&data, offset, page_size);
        if page.is_empty() {
            break;
        }
        for (key, _) in page {
            all_keys.push(key);
        }
        offset += page_size;
        if offset > 200 {
            break;
        }
    }
    assert_eq!(all_keys.len(), 157);
    for i in 0..157 {
        let expected = format!("key_{:06}", i);
        assert_eq!(all_keys[i], expected);
    }
}

#[test]
fn pages_of_a_query_join_to_the_whole() {
    let data = create_large_test_db(157);
    let plugins: DecoderRegistry<Plugin> = DecoderRegistry::new();
    let mut joined = Vec::new();
    let mut sizes = Vec::new();
    for i in 0..4 {
        let page = scan_paginated(&data, Mode::Prefix(""), &plugins, i * 50, 50);
        sizes.push(page.len());
        joined.extend(page);
    }
    assert_eq!(sizes, vec![50, 50, 50, 7]);
    assert_eq!(joined, data);
    assert_eq!(joined, scan_paginated(&data, Mode::Prefix(""), &plugins, 0, usize::MAX));
    for step in [1usize, 7, 156, 157, 158] {
        let mut joined = Vec::new();
        let mut i = 0;
        while i * step < 157 {
            joined.extend(scan_paginated(&data, Mode::Prefix("key_0001"), &plugins, i * step, step));
            i += 1;
        }
        assert_eq!(joined.len(), 57);
        assert_eq!(joined, scan(&data, Mode::Prefix("key_0001"), &plugins, usize::MAX));
        for pair in joined.windows(2) {
            assert!(pair[0].0 < pair[1].0);
        }
    }
}

#[test]
fn test_memory_efficiency_pagination() {
    let data = create_large_test_db(1000);
    let small_page = list_entries_paginated(&data, 0, 10);
    let large_page = list_entries_paginated(&data, 0, 100);
    assert_eq!(small_page.len(), 10);
    assert_eq!(large_page.len(), 100);
    for i in 0..10 {
        let expected = format!("key_{:06}", i);
        assert_eq!(small_page[i].0, expected);
    }
}

#[test]
fn test_performance_regression() {
    let data = create_large_test_db(2000);
    let plugins: DecoderRegistry<Plugin> = DecoderRegistry::new();
    let count = count_matches(&data, Mode::Prefix("key_"), &plugins);
    let scan_results = scan(&data, Mode::Prefix("key_"), &plugins, usize::MAX);
    assert_eq!(count, scan_results.len());
    assert_eq!(count, 2000);
}
