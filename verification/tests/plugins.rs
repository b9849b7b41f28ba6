use lmdb_tui::db::query::decode_value;
use lmdb_tui::plugins::{decode_with_plugins, register_decoder, DecoderRegistry};
use serde_json::Value;

type Plugin = fn(&[u8]) -> Option<Value>;

fn ok_true() -> Value {
    let mut map = serde_json::Map::new();
    map.insert("ok".to_string(), Value::Bool(true));
    Value::Object(map)
}

fn magic(bytes: &[u8]) -> Option<Value> {
    if bytes == b"\xffmagic" || bytes == b"magic" {
        Some(ok_true())
    } else {
        None
    }
}

fn second(bytes: &[u8]) -> Option<Value> {
    if bytes.first() == Some(&0xff) {
        Some(Value::String("second".to_string()))
    } else {
        None
    }
}

#[test]
fn custom_decoder_is_used() {
    let mut registry: DecoderRegistry<Plugin> = DecoderRegistry::new();
    register_decoder(&mut registry, magic);
    let v = decode_with_plugins(&registry, b"magic").expect("decoder should succeed");
    assert_eq!(v, ok_true());
}

#[test]
fn empty_registry_declines() {
    let registry: DecoderRegistry<Plugin> = DecoderRegistry::new();
    assert_eq!(registry.len(), 0);
    assert!(decode_with_plugins(&registry, b"magic").is_none());
}

#[test]
fn first_registered_decoder_that_accepts_wins() {
    let mut registry: DecoderRegistry<Plugin> = DecoderRegistry::new();
    register_decoder(&mut registry, magic);
    register_decoder(&mut registry, second);
    assert_eq!(registry.len(), 2);
    assert_eq!(decode_with_plugins(&registry, b"\xffmagic"), Some(ok_true()));
    assert_eq!(
        decode_with_plugins(&registry, b"\xffother"),
        Some(Value::String("second".to_string()))
    );
    assert_eq!(decode_with_plugins(&registry, b"\xc1"), None);

    let mut swapped: DecoderRegistry<Plugin> = DecoderRegistry::new();
    register_decoder(&mut swapped, second);
    register_decoder(&mut swapped, magic);
    assert_eq!(
        decode_with_plugins(&swapped, b"\xffmagic"),
        Some(Value::String("second".to_string()))
    );
}

#[test]
fn built_in_decoders_precede_plugins() {
    fn greedy(_: &[u8]) -> Option<Value> {
        Some(Value::String("plugin".to_string()))
    }
    let mut registry: DecoderRegistry<Plugin> = DecoderRegistry::new();
    register_decoder(&mut registry, greedy);
    // JSON text wins over everything.
    let v = decode_value(br#"{"ok":true}"#, &registry).unwrap();
    assert_eq!(v, ok_true());
    // MessagePack wins over the plug-in: 0x2a is the number 42.
    let v = decode_value(&[0x2a], &registry).unwrap();
    assert_eq!(v, Value::from(42));
    // 0xc1 is never used in MessagePack and is no JSON: the plug-in decides.
    let v = decode_value(&[0xc1], &registry).unwrap();
    assert_eq!(v, Value::String("plugin".to_string()));
}

#[test]
fn undecodable_when_every_decoder_declines() {
    let mut registry: DecoderRegistry<Plugin> = DecoderRegistry::new();
    register_decoder(&mut registry, magic);
    let err = decode_value(&[0xc1], &registry).unwrap_err();
    assert!(matches!(err, lmdb_tui::errors::AppError::Undecodable));
    assert_eq!(err.message(), "unable to decode value");
}
