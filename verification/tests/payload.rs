use climate::json::id_key;
use climate::json::identifier;
use climate::json::identifier_from;
use climate::json::request_key_from;
use climate::json::request_key;
use climate::json::Member;
use serde_json::Value;

fn parsed(text: &str) -> Value {
    serde_json::from_str(text).unwrap()
}

#[test]
fn string_identifier_is_its_own_key() {
    assert_eq!(id_key(&Member::Text("abc".to_string())), Some("abc".to_string()));
    assert_eq!(id_key(&Member::Text(String::new())), Some(String::new()));
    assert_eq!(identifier(&parsed(r#"{"id":"abc"}"#)), Some("abc".to_string()));
    assert_eq!(identifier(&parsed(r#"{"id":"1"}"#)), Some("1".to_string()));
}

#[test]
fn number_identifier_is_its_decimal_text() {
    assert_eq!(id_key(&Member::Number("42".to_string())), Some("42".to_string()));
    assert_eq!(identifier(&parsed(r#"{"id":42}"#)), Some("42".to_string()));
    assert_eq!(identifier(&parsed(r#"{"id":0}"#)), Some("0".to_string()));
    assert_eq!(identifier(&parsed(r#"{"id":-7}"#)), Some("-7".to_string()));
    assert_eq!(identifier(&parsed(r#"{"id":1.5}"#)), Some("1.5".to_string()));
    assert_eq!(
        identifier(&parsed(r#"{"id":18446744073709551615}"#)),
        Some("18446744073709551615".to_string())
    );
}

#[test]
fn other_kinds_of_identifier_give_no_key() {
    assert_eq!(id_key(&Member::Null), None);
    assert_eq!(id_key(&Member::Bool(true)), None);
    assert_eq!(id_key(&Member::Array), None);
    assert_eq!(id_key(&Member::Object), None);
    assert_eq!(identifier(&parsed(r#"{"id":null}"#)), None);
    assert_eq!(identifier(&parsed(r#"{"id":true}"#)), None);
    assert_eq!(identifier(&parsed(r#"{"id":[1]}"#)), None);
    assert_eq!(identifier(&parsed(r#"{"id":{"n":1}}"#)), None);
}

#[test]
fn missing_identifier_gives_no_key() {
    assert_eq!(identifier(&parsed(r#"{"method":"notify"}"#)), None);
    assert_eq!(identifier(&parsed(r#"{}"#)), None);
    assert_eq!(identifier(&parsed(r#"{"ID":"1"}"#)), None);
    assert_eq!(identifier(&parsed(r#"{"params":{"id":"1"}}"#)), None);
}

#[test]
fn documents_that_are_no_objects_have_no_members() {
    for text in ["null", "true", "3", r#""id""#, r#"["id","method"]"#] {
        assert_eq!(identifier(&parsed(text)), None);
        assert_eq!(request_key(&parsed(text)), None);
    }
}

#[test]
fn method_of_any_kind_counts_as_named() {
    assert_eq!(request_key(&parsed(r#"{"id":"1","method":null}"#)), Some("1".to_string()));
    assert_eq!(request_key(&parsed(r#"{"id":"1","method":7}"#)), Some("1".to_string()));
    assert_eq!(request_key(&parsed(r#"{"id":"1","method":["a"]}"#)), Some("1".to_string()));
    assert_eq!(
        request_key_from(Some(Member::Number("5".to_string())), Some(Member::Null)),
        Some("5".to_string())
    );
}

#[test]
fn key_is_read_from_the_members_alone() {
    assert_eq!(identifier_from(None), None);
    assert_eq!(identifier_from(Some(Member::Object)), None);
    assert_eq!(identifier_from(Some(Member::Text("x".to_string()))), Some("x".to_string()));
    assert_eq!(request_key_from(None, None), None);
    assert_eq!(request_key_from(Some(Member::Text("x".to_string())), None), None);
    assert_eq!(request_key_from(None, Some(Member::Text("ping".to_string()))), None);
    assert_eq!(request_key_from(Some(Member::Bool(false)), Some(Member::Text("ping".to_string()))), None);
    assert_eq!(
        request_key_from(Some(Member::Text("x".to_string())), Some(Member::Text("ping".to_string()))),
        Some("x".to_string())
    );
}

#[test]
fn request_needs_method_and_identifier() {
    assert_eq!(request_key(&parsed(r#"{"id":"1","method":"ping"}"#)), Some("1".to_string()));
    assert_eq!(request_key(&parsed(r#"{"id":3,"method":"ping"}"#)), Some("3".to_string()));
    assert_eq!(request_key(&parsed(r#"{"method":"notify"}"#)), None);
    assert_eq!(request_key(&parsed(r#"{"id":"1","result":"ok"}"#)), None);
    assert_eq!(request_key(&parsed(r#"{"id":false,"method":"ping"}"#)), None);
}
