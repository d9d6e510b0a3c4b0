use acme_issuance::acme::error::{AcmeError, SigningFailure};
use acme_issuance::json::{array_of_one, object, push_member, string, Json};

fn text(value: &str) -> Json {
    Json::Str(value.to_string())
}

fn member(key: &str, value: Json) -> (String, Json) {
    (key.to_string(), value)
}

#[test]
fn scalars_are_written_as_json() {
    assert_eq!(Json::Null.to_string_pretty(), Ok("null".to_string()));
    assert_eq!(Json::Bool(true).to_string_pretty(), Ok("true".to_string()));
    assert_eq!(Json::Bool(false).to_string_pretty(), Ok("false".to_string()));
    assert_eq!(Json::Int(5).to_string_pretty(), Ok("5".to_string()));
    assert_eq!(Json::Int(-12).to_string_pretty(), Ok("-12".to_string()));
    assert_eq!(Json::Int(i64::MIN).to_string_pretty(), Ok(i64::MIN.to_string()));
    assert_eq!(text("").to_string_pretty(), Ok("\"\"".to_string()));
    assert_eq!(text("a\"b\\c\n").to_string_pretty(), Ok("\"a\\\"b\\\\c\\n\"".to_string()));
}

#[test]
fn arrays_and_objects_are_written_indented() {
    let array = Json::Array(vec![Json::Int(1), text("two"), Json::Null]);
    assert_eq!(array.to_string_pretty(), Ok("[\n  1,\n  \"two\",\n  null\n]".to_string()));
    assert_eq!(Json::Array(vec![]).to_string_pretty(), Ok("[]".to_string()));
    assert_eq!(Json::Object(vec![]).to_string_pretty(), Ok("{}".to_string()));
    let nested = Json::Object(vec![
        member("b", Json::Array(vec![Json::Bool(true)])),
        member("a", Json::Object(vec![member("x", Json::Int(1))])),
    ]);
    assert_eq!(
        nested.to_string_pretty(),
        Ok("{\n  \"a\": {\n    \"x\": 1\n  },\n  \"b\": [\n    true\n  ]\n}".to_string())
    );
}

#[test]
fn compact_text_has_no_white_space() {
    let value = Json::Object(vec![
        member("kty", text("RSA")),
        member("e", text("AQAB")),
        member("n", Json::Array(vec![Json::Int(1), Json::Int(2)])),
    ]);
    assert_eq!(
        value.to_compact_string(),
        Some("{\"e\":\"AQAB\",\"kty\":\"RSA\",\"n\":[1,2]}".to_string())
    );
    assert_eq!(Json::Null.to_compact_string(), Some("null".to_string()));
    assert_eq!(text("x").to_compact_string(), Some("\"x\"".to_string()));
}

#[test]
fn a_later_member_replaces_an_earlier_one() {
    let value = Json::Object(vec![
        member("a", Json::Int(1)),
        member("b", Json::Int(2)),
        member("a", Json::Int(3)),
    ]);
    assert_eq!(value.to_compact_string(), Some("{\"a\":3,\"b\":2}".to_string()));
    match value.get("a") {
        Some(Json::Int(3)) => {}
        other => panic!("{:?}", other),
    }
    match value.get("b") {
        Some(Json::Int(2)) => {}
        other => panic!("{:?}", other),
    }
    assert!(value.get("c").is_none());
    assert!(Json::Array(vec![]).get("a").is_none());
    assert!(text("a").get("a").is_none());
}

#[test]
fn a_number_kept_as_text_cannot_be_written() {
    let failure = Err(AcmeError::Signing(SigningFailure::Serialization));
    assert_eq!(Json::Float("0.5".to_string()).to_string_pretty(), failure);
    assert_eq!(Json::Float("0.5".to_string()).to_compact_string(), None);
    let inside = Json::Object(vec![member("a", Json::Array(vec![Json::Float("1.5".to_string())]))]);
    assert_eq!(inside.to_string_pretty(), failure);
    assert_eq!(inside.to_compact_string(), None);
    let replaced = Json::Object(vec![
        member("a", Json::Float("1.5".to_string())),
        member("a", Json::Int(2)),
    ]);
    assert_eq!(replaced.to_string_pretty(), failure);
}

#[test]
fn builders_make_what_they_say() {
    let mut members: Vec<(String, Json)> = Vec::new();
    push_member(&mut members, "alg", string("RS256"));
    push_member(&mut members, "list", array_of_one(Json::Bool(true)));
    assert_eq!(members.len(), 2);
    let value = object(members);
    assert_eq!(
        value.to_compact_string(),
        Some("{\"alg\":\"RS256\",\"list\":[true]}".to_string())
    );
}

#[test]
fn a_copy_holds_what_the_value_holds() {
    let value = Json::Object(vec![
        member("a", Json::Array(vec![Json::Int(1), text("x"), Json::Float("2.5".to_string())])),
        member("b", Json::Object(vec![member("c", Json::Null), member("d", Json::Bool(false))])),
    ]);
    let copy = value.duplicate();
    assert_eq!(format!("{:?}", copy), format!("{:?}", value));
}

#[test]
fn written_text_is_read_back_by_serde_json() {
    let value = Json::Object(vec![
        member("name", text("zoë \u{1F600} \"quoted\"")),
        member("list", Json::Array(vec![Json::Int(-7), Json::Bool(true), Json::Null])),
    ]);
    let written = value.to_string_pretty().unwrap();
    let read: serde_json::Value = serde_json::from_str(&written).unwrap();
    assert_eq!(read["name"], serde_json::Value::String("zoë \u{1F600} \"quoted\"".to_string()));
    assert_eq!(read["list"][0], serde_json::Value::from(-7));
    assert_eq!(read["list"][1], serde_json::Value::Bool(true));
    assert_eq!(read["list"][2], serde_json::Value::Null);
}
