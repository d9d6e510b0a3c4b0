use acme_issuance::acme::base64::b64;
use acme_issuance::acme::error::{AcmeError, SigningFailure};
use acme_issuance::acme::util::{
    empty_payload, jwk, jwk_header, jws, key_authorization, key_authorization_for, kid_header,
    AccountKey,
};
use acme_issuance::json::Json;
use base64::Engine;
use sha2::Digest;

fn text(value: &str) -> Json {
    Json::Str(value.to_string())
}

fn member(key: &str, value: Json) -> (String, Json) {
    (key.to_string(), value)
}

fn decode(part: &str) -> serde_json::Value {
    let bytes = base64::engine::general_purpose::URL_SAFE_NO_PAD.decode(part).unwrap();
    serde_json::from_slice(&bytes).unwrap()
}

fn to_serde(value: &Json) -> serde_json::Value {
    match value {
        Json::Null => serde_json::Value::Null,
        Json::Bool(b) => serde_json::Value::Bool(*b),
        Json::Int(i) => serde_json::Value::from(*i),
        Json::Float(text) => serde_json::Value::from(text.parse::<f64>().unwrap()),
        Json::Str(text) => serde_json::Value::String(text.clone()),
        Json::Array(items) => serde_json::Value::Array(items.iter().map(to_serde).collect()),
        Json::Object(members) => {
            let mut map = serde_json::Map::new();
            for (key, value) in members {
                map.insert(key.clone(), to_serde(value));
            }
            serde_json::Value::Object(map)
        }
    }
}

fn key() -> AccountKey {
    AccountKey { n: vec![0xc3, 0x5a, 0x00, 0xff, 0x10], e: vec![0x01, 0x00, 0x01] }
}

#[test]
fn jwk_holds_exponent_and_modulus_in_base64url() {
    let key = jwk(&key());
    assert_eq!(
        key.to_compact_string(),
        Some("{\"e\":\"AQAB\",\"kty\":\"RSA\",\"n\":\"w1oA_xA\"}".to_string())
    );
}

#[test]
fn signing_input_decodes_to_header_and_payload() {
    let header = kid_header("https://ca/new-order", "https://ca/acct/1", "n1");
    let payload = Json::Object(vec![
        member("identifiers", Json::Array(vec![Json::Object(vec![
            member("type", text("dns")),
            member("value", text("example.com")),
        ])])),
        member("count", Json::Int(-3)),
        member("note", text("ünï \"code\" . dot")),
        member("flags", Json::Array(vec![Json::Bool(true), Json::Null])),
    ]);
    let request = jws(&payload, &header).unwrap();
    assert_eq!(request.signing_input, format!("{}.{}", request.protected, request.payload));
    let parts: Vec<&str> = request.signing_input.split('.').collect();
    assert_eq!(parts.len(), 2);
    assert_eq!(decode(parts[0]), to_serde(&header));
    assert_eq!(decode(parts[1]), to_serde(&payload));
}

#[test]
fn signing_input_decodes_for_scalar_payloads() {
    let header = kid_header("u", "k", "n");
    for payload in [Json::Null, Json::Bool(false), Json::Int(7), text("x"), Json::Array(vec![])] {
        let request = jws(&payload, &header).unwrap();
        let parts: Vec<&str> = request.signing_input.split('.').collect();
        assert_eq!(parts.len(), 2);
        assert_eq!(decode(parts[0]), to_serde(&header));
        assert_eq!(decode(parts[1]), to_serde(&payload));
    }
}

#[test]
fn protected_is_the_pretty_header_in_base64url() {
    let header = kid_header("https://ca/x", "https://ca/acct/1", "n0");
    let request = jws(&text("p"), &header).unwrap();
    let pretty = "{\n  \"alg\": \"RS256\",\n  \"kid\": \"https://ca/acct/1\",\n  \"nonce\": \"n0\",\n  \"url\": \"https://ca/x\"\n}";
    assert_eq!(request.protected, b64(pretty.as_bytes()));
    assert_eq!(request.payload, b64("\"p\"".as_bytes()));
}

#[test]
fn empty_payload_ends_the_signing_input_with_a_full_stop() {
    let header = kid_header("https://ca/authz/1", "https://ca/acct/1", "n2");
    let request = jws(&empty_payload(), &header).unwrap();
    assert_eq!(request.payload, "");
    assert_eq!(request.signing_input, format!("{}.", request.protected));
    assert!(request.signing_input.ends_with('.'));
    let envelope = to_serde(&request.envelope(&[1, 2, 3]));
    assert_eq!(envelope["payload"], serde_json::Value::String(String::new()));
    assert_eq!(envelope["protected"], serde_json::Value::String(request.protected.clone()));
}

#[test]
fn empty_object_is_not_the_empty_payload() {
    let header = kid_header("u", "k", "n");
    let request = jws(&Json::Object(vec![]), &header).unwrap();
    assert_eq!(request.payload, "e30");
    assert_eq!(request.signing_input, format!("{}.e30", request.protected));
}

#[test]
fn digest_is_the_sha256_of_the_signing_input() {
    let header = kid_header("https://ca/x", "https://ca/acct/1", "n0");
    let request = jws(&text("payload"), &header).unwrap();
    let digest = sha2::Sha256::digest(request.signing_input.as_bytes());
    assert_eq!(request.digest, b64(&digest));
    assert_eq!(request.digest.len(), 43);
    assert_ne!(request.digest, b64(request.signing_input.as_bytes()));
}

#[test]
fn envelope_holds_the_three_parts() {
    let header = kid_header("https://ca/x", "https://ca/acct/1", "n0");
    let request = jws(&text("payload"), &header).unwrap();
    let signature = [0xde, 0xad, 0xbe, 0xef];
    let envelope = to_serde(&request.envelope(&signature));
    let object = envelope.as_object().unwrap();
    assert_eq!(object.len(), 3);
    assert_eq!(envelope["protected"], serde_json::Value::String(request.protected.clone()));
    assert_eq!(envelope["payload"], serde_json::Value::String(request.payload.clone()));
    assert_eq!(envelope["signature"], serde_json::Value::String("3q2-7w".to_string()));
    let body = request.body(&signature);
    let read: serde_json::Value = serde_json::from_str(&body).unwrap();
    assert_eq!(read, envelope);
    assert_eq!(body, serde_json::to_string_pretty(&envelope).unwrap());
}

#[test]
fn jws_fails_where_a_value_cannot_be_written() {
    let failure = AcmeError::Signing(SigningFailure::Serialization);
    let header = kid_header("u", "k", "n");
    let float = Json::Float("0.5".to_string());
    assert_eq!(jws(&float, &header).err(), Some(failure));
    assert_eq!(jws(&text("p"), &float).err(), Some(failure));
    let inside = Json::Object(vec![member("a", Json::Float("1e3".to_string()))]);
    assert_eq!(jws(&inside, &header).err(), Some(failure));
}

#[test]
fn headers_carry_what_they_are_built_from() {
    let kid = to_serde(&kid_header("https://ca/x", "https://ca/acct/1", "n0"));
    assert_eq!(kid.as_object().unwrap().len(), 4);
    assert_eq!(kid["alg"], serde_json::Value::String("RS256".to_string()));
    assert_eq!(kid["url"], serde_json::Value::String("https://ca/x".to_string()));
    assert_eq!(kid["kid"], serde_json::Value::String("https://ca/acct/1".to_string()));
    assert_eq!(kid["nonce"], serde_json::Value::String("n0".to_string()));
    let with_key = to_serde(&jwk_header("https://ca/new-acct", jwk(&key()), "n0"));
    assert_eq!(with_key.as_object().unwrap().len(), 4);
    assert_eq!(with_key["alg"], serde_json::Value::String("RS256".to_string()));
    assert_eq!(with_key["url"], serde_json::Value::String("https://ca/new-acct".to_string()));
    assert_eq!(with_key["nonce"], serde_json::Value::String("n0".to_string()));
    assert_eq!(with_key["jwk"], to_serde(&jwk(&key())));
    assert!(with_key.get("kid").is_none());
}

#[test]
fn key_authorization_is_token_full_stop_thumbprint() {
    let digest = [7u8; 32];
    assert_eq!(key_authorization_for("abc123", &digest), format!("abc123.{}", b64(&digest)));
    assert_eq!(key_authorization_for("abc123", &[]), "abc123.");
    assert_eq!(key_authorization_for("", &[0xff]), "._w");
}

#[test]
fn key_authorization_digests_the_compact_jwk() {
    let compact = "{\"e\":\"AQAB\",\"kty\":\"RSA\",\"n\":\"w1oA_xA\"}";
    let digest = sha2::Sha256::digest(compact.as_bytes());
    assert_eq!(key_authorization("tok-7", &key()), format!("tok-7.{}", b64(&digest)));
}

#[test]
fn key_authorization_matches_the_rfc_7638_example() {
    let n = base64::engine::general_purpose::URL_SAFE_NO_PAD
        .decode("0vx7agoebGcQSuuPiLJXZptN9nndrQmbXEps2aiAFbWhM78LhWx4cbbfAAtVT86zwu1RK7aPFFxuhDR1L6tSoc_BJECPebWKRXjBZCiFV4n3oknjhMstn64tZ_2W-5JsGY4Hc5n9yBXArwl93lqt7_RN5w6Cf0h4QyQ5v-65YGjQR0_FDW2QvzqY368QQMicAtaSqzs8KJZgnYb9c7d0zgdAZHzu6qMQvRL5hajrn1n91CbOpbISD08qNLyrdkt-bFTWhAI4vMQFh6WeZu0fM4lFd2NcRwr3XPksINHaQ-G_xBniIqbw0Ls1jF44-csFCur-kEgU8awapJzKnqDKgw")
        .unwrap();
    let key = AccountKey { n, e: vec![0x01, 0x00, 0x01] };
    assert_eq!(
        key_authorization("token", &key),
        "token.NzbLsXh8uDCcd-6MNwXF4W_7noWXFZAfHkxZsRGC9Xs"
    );
}
