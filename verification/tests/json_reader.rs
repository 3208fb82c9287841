//! The flat JSON object reader used for token headers and payloads.

use auth_gateway::{parse_json_object, JsonValue};

fn parsed(s: &str) -> Vec<(Vec<u8>, JsonValue)> {
    parse_json_object(s.as_bytes()).expect("input is within the accepted profile")
}

#[test]
fn reads_strings_integers_booleans_and_null() {
    let pairs = parsed("{\"a\":\"hi\",\"b\":42,\"c\":true,\"d\":false,\"e\":null}");
    assert_eq!(pairs.len(), 5);
    assert_eq!(pairs[0].0, b"a".to_vec());
    assert!(matches!(&pairs[0].1, JsonValue::Str(v) if v == b"hi"));
    assert!(matches!(pairs[1].1, JsonValue::UInt(42)));
    assert!(matches!(pairs[2].1, JsonValue::Bool(true)));
    assert!(matches!(pairs[3].1, JsonValue::Bool(false)));
    assert!(matches!(pairs[4].1, JsonValue::Null));
}

#[test]
fn accepts_whitespace_and_the_empty_object() {
    assert_eq!(parsed("{}").len(), 0);
    assert_eq!(parsed("  { \"k\" : 7 }  ").len(), 1);
    let pairs = parsed("{\n\t\"k\":\t\"v\"\r\n}");
    assert!(matches!(&pairs[0].1, JsonValue::Str(v) if v == b"v"));
}

#[test]
fn scans_over_nested_values_without_modelling_them() {
    let pairs = parsed("{\"a\":{\"x\":[1,2,{\"y\":\"}]\"}]},\"b\":1}");
    assert_eq!(pairs.len(), 2);
    assert!(matches!(pairs[0].1, JsonValue::Other));
    assert!(matches!(pairs[1].1, JsonValue::UInt(1)));
    let arr = parsed("{\"a\":[true,null,\"s\"],\"b\":2}");
    assert!(matches!(arr[0].1, JsonValue::Other));
}

#[test]
fn numbers_outside_the_unsigned_profile_are_opaque() {
    let pairs = parsed("{\"a\":-5,\"b\":1.5,\"c\":2e10,\"d\":3}");
    assert!(matches!(pairs[0].1, JsonValue::Other));
    assert!(matches!(pairs[1].1, JsonValue::Other));
    assert!(matches!(pairs[2].1, JsonValue::Other));
    assert!(matches!(pairs[3].1, JsonValue::UInt(3)));
    let big = parsed("{\"k\":18446744073709551615}");
    assert!(matches!(big[0].1, JsonValue::UInt(u64::MAX)));
    assert!(parse_json_object(b"{\"k\":18446744073709551616}").is_none());
}

#[test]
fn rejects_what_leaves_the_profile() {
    for bad in [
        "",
        "[1,2]",
        "{",
        "{\"a\":}",
        "{\"a\":1,}",
        "{\"a\" 1}",
        "{\"a\":\"\\\"esc\\\"\"}",
        "{\"a\":1}trailing",
        "{\"a\":tru}",
        "{\"a\":truex}",
        "{\"a\":1 2}",
        "{a:1}",
    ] {
        assert!(parse_json_object(bad.as_bytes()).is_none(), "{bad:?} must be rejected");
    }
}

#[test]
fn utf8_content_passes_through_strings() {
    let pairs = parsed("{\"name\":\"J\u{00f8}rgen \u{2764}\"}");
    match &pairs[0].1 {
        JsonValue::Str(v) => assert_eq!(v, "J\u{00f8}rgen \u{2764}".as_bytes()),
        other => panic!("expected a string, got {:?}", std::mem::discriminant(other)),
    }
}
