use astrid_sdk::json::{JsonNumber, JsonValue};
use astrid_sdk::kv::{get_bytes, migration_step, parse_versioned, set_versioned, versioned_envelope, MigrationStep, Versioned};

fn obj(fields: Vec<(&str, JsonValue)>) -> JsonValue {
    JsonValue::Object(fields.into_iter().map(|(k, v)| (k.to_string(), v)).collect())
}

fn num(n: u64) -> JsonValue {
    JsonValue::Number(JsonNumber::PosInt(n))
}

fn text(s: &str) -> JsonValue {
    JsonValue::String(s.to_string())
}

#[test]
fn versioned_envelope_roundtrip() {
    let data = obj(vec![("name", text("hello")), ("count", num(42))]);
    let write = set_versioned("state", data, 1);
    let json = String::from_utf8(write.value.clone()).unwrap();
    assert!(json.contains("\"__sv\":1"));
    assert!(json.contains("\"data\":{"));

    let parsed = parse_versioned(Some(&write.value), 1).unwrap();
    assert_eq!(parsed, Versioned::Current(obj(vec![("count", num(42)), ("name", text("hello"))])));
}

#[test]
fn versioned_envelope_wire_format() {
    let envelope = versioned_envelope(obj(vec![("key", text("value"))]), 3);
    let bytes = envelope.to_json_bytes();
    let parsed = JsonValue::from_json_bytes(&bytes).unwrap();
    assert_eq!(parsed.get("__sv").and_then(|v| v.as_u64()), Some(3));
    assert_eq!(
        parsed.get("data").and_then(|d| d.get("key")).and_then(|v| v.as_str()),
        Some("value")
    );
}

#[test]
fn parse_versioned_none_returns_not_found() {
    let result = parse_versioned(None, 1).unwrap();
    assert!(matches!(result, Versioned::NotFound));
}

#[test]
fn parse_versioned_empty_bytes_returns_not_found() {
    let result = parse_versioned(Some(b""), 1).unwrap();
    assert!(matches!(result, Versioned::NotFound));
}

#[test]
fn parse_versioned_current_version_returns_current() {
    let bytes = br#"{"__sv":2,"data":{"name":"hello","count":42}}"#;
    let result = parse_versioned(Some(bytes), 2).unwrap();
    match result {
        Versioned::Current(data) => {
            assert_eq!(data.get("name").and_then(|v| v.as_str()), Some("hello"));
            assert_eq!(data.get("count").and_then(|v| v.as_u64()), Some(42));
        }
        other => panic!("expected Current, got {other:?}"),
    }
}

#[test]
fn parse_versioned_older_version_returns_needs_migration() {
    let bytes = br#"{"__sv":1,"data":{"name":"old","count":1}}"#;
    let result = parse_versioned(Some(bytes), 3).unwrap();
    match result {
        Versioned::NeedsMigration { raw, stored_version } => {
            assert_eq!(stored_version, 1);
            assert_eq!(raw.get("name").and_then(|v| v.as_str()), Some("old"));
            assert_eq!(raw.get("count").and_then(|v| v.as_u64()), Some(1));
        }
        other => panic!("expected NeedsMigration, got {other:?}"),
    }
}

#[test]
fn parse_versioned_newer_version_returns_error() {
    let bytes = br#"{"__sv":5,"data":{"name":"future","count":0}}"#;
    let result = parse_versioned(Some(bytes), 2);
    assert!(result.is_err());
    let err = result.unwrap_err().message();
    assert!(err.contains("newer than current"), "error should mention newer version: {err}");
}

#[test]
fn parse_versioned_plain_json_returns_unversioned() {
    let bytes = br#"{"name":"legacy","count":99}"#;
    let result = parse_versioned(Some(bytes), 1).unwrap();
    match result {
        Versioned::Unversioned(val) => {
            assert_eq!(val.get("name").and_then(|v| v.as_str()), Some("legacy"));
            assert_eq!(val.get("count").and_then(|v| v.as_u64()), Some(99));
        }
        other => panic!("expected Unversioned, got {other:?}"),
    }
}

#[test]
fn parse_versioned_malformed_sv_without_data_returns_error() {
    let bytes = br#"{"__sv":1,"payload":"something"}"#;
    let result = parse_versioned(Some(bytes), 1);
    assert!(result.is_err());
    let err = result.unwrap_err().message();
    assert!(err.contains("malformed"), "error should mention malformed envelope: {err}");
}

#[test]
fn parse_versioned_non_numeric_sv_returns_error() {
    let bytes = br#"{"__sv":"one","data":{}}"#;
    let result = parse_versioned(Some(bytes), 1);
    assert!(result.is_err());
    let err = result.unwrap_err().message();
    assert!(err.contains("malformed"), "error should mention malformed envelope: {err}");
}

#[test]
fn parse_versioned_version_zero_is_valid() {
    let bytes = br#"{"__sv":0,"data":{"name":"v0","count":0}}"#;
    let result = parse_versioned(Some(bytes), 0).unwrap();
    assert!(matches!(result, Versioned::Current(_)));
}

#[test]
fn parse_versioned_invalid_json_returns_error() {
    let result = parse_versioned(Some(b"not json"), 1);
    assert!(result.is_err());
}

#[test]
fn set_versioned_reads_back_at_every_version() {
    let write = set_versioned("k", obj(vec![("a", num(7))]), 4);
    assert_eq!(write.key, "k");
    assert_eq!(parse_versioned(Some(&write.value), 4).unwrap(), Versioned::Current(obj(vec![("a", num(7))])));
    assert_eq!(
        parse_versioned(Some(&write.value), 9).unwrap(),
        Versioned::NeedsMigration { raw: obj(vec![("a", num(7))]), stored_version: 4 }
    );
    assert!(parse_versioned(Some(&write.value), 3).is_err());
}

#[test]
fn get_bytes_reads_absent_as_empty() {
    assert_eq!(get_bytes(None), Vec::<u8>::new());
    assert_eq!(get_bytes(Some(vec![1, 2, 3])), vec![1, 2, 3]);
}

#[test]
fn migration_steps_follow_the_read() {
    assert_eq!(migration_step(Versioned::Current(num(1))), MigrationStep::Ready(num(1)));
    assert_eq!(
        migration_step(Versioned::NeedsMigration { raw: num(2), stored_version: 3 }),
        MigrationStep::Migrate { raw: num(2), from_version: 3 }
    );
    assert_eq!(migration_step(Versioned::Unversioned(num(4))), MigrationStep::Migrate { raw: num(4), from_version: 0 });
    assert_eq!(migration_step(Versioned::NotFound), MigrationStep::Absent);
}

#[test]
fn json_numbers_keep_their_kind() {
    let v = JsonValue::from_json_bytes(b"[5, -5, 18446744073709551615, -9223372036854775808, 1.5]").unwrap();
    let JsonValue::Array(items) = v else { panic!("expected an array") };
    assert_eq!(items[0], JsonValue::Number(JsonNumber::PosInt(5)));
    assert_eq!(items[1], JsonValue::Number(JsonNumber::NegInt(-5)));
    assert_eq!(items[2], JsonValue::Number(JsonNumber::PosInt(u64::MAX)));
    assert_eq!(items[3], JsonValue::Number(JsonNumber::NegInt(i64::MIN)));
    assert!(matches!(&items[4], JsonValue::Number(JsonNumber::Float(n)) if n.as_f64() == Some(1.5)));
}

fn nested(levels: usize) -> JsonValue {
    let mut v = JsonValue::Number(JsonNumber::PosInt(1));
    for _ in 0..levels {
        v = JsonValue::Array(vec![v]);
    }
    v
}

#[test]
fn versioned_read_back_at_the_deepest_nesting() {
    let write = set_versioned("deep", nested(126), 2);
    assert_eq!(parse_versioned(Some(&write.value), 2).unwrap(), Versioned::Current(nested(126)));
    assert_eq!(
        parse_versioned(Some(&write.value), 3).unwrap(),
        Versioned::NeedsMigration { raw: nested(126), stored_version: 2 }
    );
    assert!(parse_versioned(Some(&write.value), 1).is_err());
    let too_deep = set_versioned("deeper", nested(127), 2);
    assert!(parse_versioned(Some(&too_deep.value), 2).is_err());
}
