use std::time::Duration;

use lmdb_tui::util::{
    bytes_to_hex, bytes_to_utf8, format_bytes, format_duration, format_kv_entry,
    format_pagination, format_size, hex_to_bytes, truncate_with_ellipsis, HexError,
};

#[test]
fn hex_roundtrip() {
    let data = b"hello";
    let hex = bytes_to_hex(data);
    assert_eq!(hex, "68656c6c6f");
    let back = hex_to_bytes(&hex).unwrap();
    assert_eq!(back, data);
}

#[test]
fn utf8_conversion() {
    let s = "test";
    assert_eq!(bytes_to_utf8(s.as_bytes()), Some(s.to_string()));
    assert!(bytes_to_utf8(&[0xff]).is_none());
}

#[test]
fn size_formatting() {
    assert_eq!(format_size(1023), "1023 B");
    assert_eq!(format_size(2048), "2.0 KB");
}

#[test]
fn duration_formatting() {
    assert_eq!(format_duration(Duration::from_secs(45)), "45s");
    assert_eq!(format_duration(Duration::from_secs(125)), "2m 5s");
}

#[test]
fn text_truncation() {
    assert_eq!(truncate_with_ellipsis("hello", 10), "hello");
    assert_eq!(truncate_with_ellipsis("hello world", 8), "hello...");
    assert_eq!(truncate_with_ellipsis("hi", 2), "hi");
    assert_eq!(truncate_with_ellipsis("hello", 3), "...");
}

#[test]
fn pagination_formatting() {
    assert_eq!(format_pagination(0, 5, 5), "1/5 results");
    assert_eq!(format_pagination(2, 5, 1), "3/5 result");
    assert_eq!(format_pagination(0, 0, 0), "No results");
}

#[test]
fn hex_of_every_byte_decodes_back() {
    let all: Vec<u8> = (0..=255u8).collect();
    let hex = bytes_to_hex(&all);
    assert_eq!(hex.len(), 512);
    assert!(hex.starts_with("000102"));
    assert!(hex.ends_with("fdfeff"));
    assert_eq!(hex_to_bytes(&hex).unwrap(), all);
}

#[test]
fn hex_accepts_either_case_and_a_sign() {
    assert_eq!(hex_to_bytes("Ff0A").unwrap(), vec![0xff, 0x0a]);
    assert_eq!(hex_to_bytes("+f").unwrap(), vec![0x0f]);
    assert_eq!(hex_to_bytes("").unwrap(), Vec::<u8>::new());
}

#[test]
fn hex_errors() {
    assert_eq!(hex_to_bytes("abc"), Err(HexError::OddLength));
    assert_eq!(hex_to_bytes("zz"), Err(HexError::InvalidDigit));
    assert_eq!(hex_to_bytes("-1"), Err(HexError::InvalidDigit));
    assert_eq!(hex_to_bytes("1+"), Err(HexError::InvalidDigit));
    assert_eq!(hex_to_bytes("é"), Err(HexError::InvalidDigit));
}

fn float_size(bytes: u64) -> String {
    let units = ["B", "KB", "MB", "GB", "TB"];
    let mut size = bytes as f64;
    let mut unit = 0;
    while size >= 1024.0 && unit < units.len() - 1 {
        size /= 1024.0;
        unit += 1;
    }
    if unit == 0 {
        format!("{} B", bytes)
    } else {
        format!("{:.1} {}", size, units[unit])
    }
}

#[test]
fn size_formatting_rounds_as_floats_do() {
    assert_eq!(format_size(0), "0 B");
    assert_eq!(format_size(1024), "1.0 KB");
    assert_eq!(format_size(1280), "1.2 KB");
    assert_eq!(format_size(1792), "1.8 KB");
    assert_eq!(format_size(1536), "1.5 KB");
    assert_eq!(format_size(1048575), "1024.0 KB");
    assert_eq!(format_size(1048576), "1.0 MB");
    assert_eq!(format_size(5 * 1024 * 1024 * 1024), "5.0 GB");
    assert_eq!(format_size(u64::MAX), "16777216.0 TB");
    let mut samples: Vec<u64> = vec![
        1023, 1025, 1075, 1076, 1126, 1127, 1128, 1177, 1178, 1179, 1229, 1230, 1331, 1332,
        u64::MAX, u64::MAX - 1, u64::MAX - 1024, u64::MAX - 2048, 1 << 53, (1 << 53) + 1,
        (1 << 53) + 2, (1 << 53) + 3, (1 << 54) + 2, (1 << 54) + 6, (1 << 63) + 1024,
        (1 << 63) + 3072,
    ];
    let mut x: u64 = 1;
    for _ in 0..2000 {
        x = x.wrapping_mul(6364136223846793005).wrapping_add(1442695040888963407);
        samples.push(x);
        samples.push(x >> 11);
        samples.push(x >> 23);
        samples.push(x >> 37);
        samples.push(x >> 50);
    }
    for shift in 0..64 {
        let p = 1u64 << shift;
        samples.push(p);
        samples.push(p - 1);
        samples.push(p + 1);
        samples.push(p + (p >> 1));
        samples.push(p / 20 * 25);
        samples.push(p / 4 * 5);
        samples.push(p / 4 * 7);
    }
    for bytes in samples {
        assert_eq!(format_size(bytes), float_size(bytes), "for {}", bytes);
    }
}

#[test]
fn byte_length_formatting() {
    assert_eq!(format_bytes(512), "512 B");
    assert_eq!(format_bytes(3 * 1024 * 1024), "3.0 MB");
}

#[test]
fn duration_formatting_with_hours() {
    assert_eq!(format_duration(Duration::from_secs(0)), "0s");
    assert_eq!(format_duration(Duration::from_secs(60)), "1m 0s");
    assert_eq!(format_duration(Duration::from_secs(3600)), "1h 0m 0s");
    assert_eq!(format_duration(Duration::from_secs(3725)), "1h 2m 5s");
    assert_eq!(format_duration(Duration::from_millis(1999)), "1s");
}

#[test]
fn truncation_counts_bytes() {
    assert_eq!(truncate_with_ellipsis("héllo wörld", 9), "héllo...");
    assert_eq!(truncate_with_ellipsis("héllo", 6), "héllo");
    assert_eq!(truncate_with_ellipsis("abcdef", 0), "...");
    assert_eq!(truncate_with_ellipsis("abcdef", 4), "a...");
    assert_eq!(truncate_with_ellipsis("", 0), "");
}

#[test]
fn entry_formatting() {
    assert_eq!(format_kv_entry("k", b"value", 20), "k: value");
    assert_eq!(format_kv_entry("key", b"a long value", 10), "key: a ...");
    assert_eq!(format_kv_entry("k", &[0x61, 0xff, 0x62], 20), "k: a\u{fffd}b");
}

#[test]
fn pagination_formatting_of_other_counts() {
    assert_eq!(format_pagination(9, 10, 0), "10/10 results");
    assert_eq!(format_pagination(0, 1, 1), "1/1 result");
    assert_eq!(format_pagination(7, 0, 3), "No results");
}
