use acme_issuance::acme::base64::b64;
use acme_issuance::acme::cert_new;
use acme_issuance::acme::error::{AcmeError, ProtocolViolation, SigningFailure};
use acme_issuance::acme::flow::{Action, Context, Event, Flow, Stage, VALIDATION_DELAY_SECONDS};
use acme_issuance::acme::util::{key_authorization, AccountKey, Response};
use acme_issuance::http::http_challenge::{run, ChallengeAnswer};
use acme_issuance::json::Json;
use acme_issuance::store::ChallengeStore;
use base64::Engine;
use sha2::Digest;

const DIRECTORY: &str = "https://ca/directory";
const CERTIFICATE: &str = "-----BEGIN CERTIFICATE-----\nMIIB...\n-----END CERTIFICATE-----\n";

fn to_json(value: &serde_json::Value) -> Json {
    match value {
        serde_json::Value::Null => Json::Null,
        serde_json::Value::Bool(b) => Json::Bool(*b),
        serde_json::Value::Number(n) => match n.as_i64() {
            Some(i) => Json::Int(i),
            None => Json::Float(n.to_string()),
        },
        serde_json::Value::String(s) => Json::Str(s.clone()),
        serde_json::Value::Array(items) => Json::Array(items.iter().map(to_json).collect()),
        serde_json::Value::Object(map) => {
            Json::Object(map.iter().map(|(k, v)| (k.clone(), to_json(v))).collect())
        }
    }
}

fn response(nonce: Option<&str>, location: Option<&str>, text: &str) -> Response {
    Response {
        replay_nonce: nonce.map(|n| n.to_string()),
        location: location.map(|l| l.to_string()),
        body: serde_json::from_str::<serde_json::Value>(text).ok().map(|v| to_json(&v)),
        text: text.to_string(),
    }
}

fn decode(part: &str) -> serde_json::Value {
    let bytes = base64::engine::general_purpose::URL_SAFE_NO_PAD.decode(part).unwrap();
    serde_json::from_slice(&bytes).unwrap()
}

fn string(text: &str) -> serde_json::Value {
    serde_json::Value::String(text.to_string())
}

fn key() -> AccountKey {
    AccountKey { n: vec![0xc3, 0x5a, 0x00, 0xff, 0x10], e: vec![0x01, 0x00, 0x01] }
}

fn csr() -> Vec<u8> {
    vec![0x30, 0x82, 0x01, 0x0a, 0xff, 0x00, 0x7f]
}

fn signature_for(digest: &str) -> Vec<u8> {
    digest.bytes().rev().collect()
}

const DIRECTORY_BODY: &str = "{\"newNonce\":\"https://ca/A\",\"newAccount\":\"https://ca/B\",\"newOrder\":\"https://ca/C\",\"revokeCert\":\"https://ca/D\",\"keyChange\":\"https://ca/E\",\"meta\":{\"termsOfService\":\"https://ca/tos\"}}";
const ACCOUNT_BODY: &str = "{\"status\":\"valid\",\"contact\":[\"mailto:ops@example.com\"]}";
const ORDER_BODY: &str = "{\"status\":\"pending\",\"expires\":\"2030-01-01T00:00:00Z\",\"identifiers\":[{\"type\":\"dns\",\"value\":\"example.com\"}],\"authorizations\":[\"https://ca/authz/1\"],\"finalize\":\"https://ca/finalize/1\"}";
const AUTHORIZATION_BODY: &str = "{\"identifier\":{\"type\":\"dns\",\"value\":\"example.com\"},\"status\":\"pending\",\"expires\":\"2030-01-01T00:00:00Z\",\"challenges\":[{\"type\":\"dns-01\",\"status\":\"pending\",\"url\":\"https://ca/chall/dns\",\"token\":\"tok-7\"},{\"type\":\"http-01\",\"status\":\"pending\",\"url\":\"https://ca/chall/http\",\"token\":\"tok-7\"}]}";
const UPDATED_BODY: &str = "{\"status\":\"valid\",\"expires\":\"2030-01-01T00:00:00Z\",\"identifiers\":[{\"type\":\"dns\",\"value\":\"example.com\"}],\"authorizations\":[\"https://ca/authz/1\"],\"finalize\":\"https://ca/finalize/1\",\"certificate\":\"https://ca/cert/1\"}";

/// A certificate authority for trials: it answers every request in a fixed
/// way, and notes what it saw.
struct Authority {
    issued: Vec<String>,
    used: Vec<String>,
    posts: Vec<String>,
    log: Vec<String>,
    store: ChallengeStore,
    last_digest: Option<String>,
    finalize_payload: Option<serde_json::Value>,
}

impl Authority {
    fn new() -> Authority {
        Authority {
            issued: Vec::new(),
            used: Vec::new(),
            posts: Vec::new(),
            log: Vec::new(),
            store: ChallengeStore::new(),
            last_digest: None,
            finalize_payload: None,
        }
    }

    fn issue(&mut self) -> String {
        let nonce = format!("n{}", self.issued.len());
        self.issued.push(nonce.clone());
        nonce
    }

    fn answer(&mut self, action: Action) -> Event {
        match action {
            Action::GetPublicKey => {
                self.log.push("key".to_string());
                Event::PublicKey(key())
            }
            Action::Get { url } => {
                assert_eq!(url, DIRECTORY);
                self.log.push("get".to_string());
                Event::Response(response(None, None, DIRECTORY_BODY))
            }
            Action::Head { url } => {
                assert_eq!(url, "https://ca/A");
                self.log.push("head".to_string());
                let nonce = self.issue();
                Event::Response(response(Some(&nonce), None, ""))
            }
            Action::Sign { digest } => {
                self.log.push("sign".to_string());
                let signature = signature_for(&digest);
                self.last_digest = Some(digest);
                Event::Signature(signature)
            }
            Action::Publish { token, key_authorization } => {
                self.log.push(format!("publish {}", token));
                self.store.put(&token, &key_authorization);
                Event::Published
            }
            Action::Wait { seconds } => {
                assert_eq!(seconds, 10);
                assert_eq!(seconds, VALIDATION_DELAY_SECONDS);
                self.log.push("wait".to_string());
                Event::Waited
            }
            Action::Post { url, body, accept_certificate_chain } => {
                self.log.push(format!("post {}", url));
                self.posts.push(url.clone());
                let envelope: serde_json::Value = serde_json::from_str(&body).unwrap();
                assert_eq!(envelope.as_object().unwrap().len(), 3);
                let protected = envelope["protected"].as_str().unwrap();
                let payload = envelope["payload"].as_str().unwrap();
                let signature = envelope["signature"].as_str().unwrap();
                let digest = sha2::Sha256::digest(format!("{}.{}", protected, payload).as_bytes());
                assert_eq!(self.last_digest.take(), Some(b64(&digest)));
                assert_eq!(signature, b64(&signature_for(&b64(&digest))));
                let header = decode(protected);
                assert_eq!(header["alg"], string("RS256"));
                assert_eq!(header["url"], string(&url));
                let nonce = header["nonce"].as_str().unwrap().to_string();
                assert_eq!(Some(&nonce), self.issued.last());
                assert!(!self.used.contains(&nonce));
                self.used.push(nonce);
                if url == "https://ca/B" {
                    assert!(header.get("kid").is_none());
                    assert_eq!(header["jwk"]["kty"], string("RSA"));
                    assert_eq!(header["jwk"]["e"], string("AQAB"));
                    assert_eq!(header["jwk"]["n"], string("w1oA_xA"));
                } else {
                    assert!(header.get("jwk").is_none());
                    assert_eq!(header["kid"], string("https://ca/acct/1"));
                }
                assert_eq!(accept_certificate_chain, url == "https://ca/cert/1");
                let next = self.issue();
                match url.as_str() {
                    "https://ca/B" => {
                        let sent = decode(payload);
                        assert_eq!(sent["termsOfServiceAgreed"], serde_json::Value::Bool(true));
                        assert_eq!(sent["contact"][0], string("mailto:ops@example.com"));
                        assert_eq!(sent["contact"].as_array().unwrap().len(), 1);
                        Event::Response(response(Some(&next), Some("https://ca/acct/1"), ACCOUNT_BODY))
                    }
                    "https://ca/C" => {
                        let sent = decode(payload);
                        assert_eq!(sent["identifiers"].as_array().unwrap().len(), 1);
                        assert_eq!(sent["identifiers"][0]["type"], string("dns"));
                        assert_eq!(sent["identifiers"][0]["value"], string("example.com"));
                        Event::Response(response(Some(&next), None, ORDER_BODY))
                    }
                    "https://ca/authz/1" => {
                        assert_eq!(payload, "");
                        Event::Response(response(Some(&next), None, AUTHORIZATION_BODY))
                    }
                    "https://ca/chall/http" => {
                        assert_eq!(payload, "");
                        match run("tok-7", &self.store) {
                            ChallengeAnswer::Found { contents } => {
                                assert_eq!(contents, key_authorization("tok-7", &key()))
                            }
                            ChallengeAnswer::NotFound => panic!("nothing published"),
                        }
                        Event::Response(response(Some(&next), None, "{\"status\":\"pending\"}"))
                    }
                    "https://ca/finalize/1" => {
                        self.finalize_payload = Some(decode(payload));
                        Event::Response(response(Some(&next), None, UPDATED_BODY))
                    }
                    "https://ca/cert/1" => {
                        assert_eq!(payload, "");
                        Event::Response(response(None, None, CERTIFICATE))
                    }
                    other => panic!("unexpected post to {}", other),
                }
            }
            Action::Done { .. } | Action::Fail { .. } => panic!("the flow has ended"),
        }
    }
}

fn context() -> Context {
    Context {
        server_url: DIRECTORY.to_string(),
        domain: "example.com".to_string(),
        account_email: "ops@example.com".to_string(),
        csr: csr(),
    }
}

#[test]
fn issuance_against_a_mock_authority() {
    let (context, mut flow, mut action) =
        cert_new("example.com", "ops@example.com", csr(), DIRECTORY);
    let mut authority = Authority::new();
    let mut steps = 0;
    let chain = loop {
        match action {
            Action::Done { certificate_chain } => break certificate_chain,
            Action::Fail { error } => panic!("failed with {:?}", error),
            other => {
                let event = authority.answer(other);
                let (next, asked) = flow.step(&context, event);
                flow = next;
                action = asked;
            }
        }
        steps += 1;
        assert!(steps < 100);
    };
    assert_eq!(chain, CERTIFICATE);
    match flow {
        Flow::CertificateDownloaded { certificate_chain } => assert_eq!(certificate_chain, CERTIFICATE),
        _ => panic!("not at the end"),
    }
    assert_eq!(
        authority.log,
        vec![
            "key",
            "get",
            "head",
            "sign",
            "post https://ca/B",
            "sign",
            "post https://ca/C",
            "sign",
            "post https://ca/authz/1",
            "publish tok-7",
            "sign",
            "post https://ca/chall/http",
            "wait",
            "sign",
            "post https://ca/finalize/1",
            "sign",
            "post https://ca/cert/1",
        ]
    );
    assert_eq!(authority.used, vec!["n0", "n1", "n2", "n3", "n4", "n5"]);
    let mut expected = serde_json::Map::new();
    expected.insert("csr".to_string(), string(&b64(&csr())));
    assert_eq!(authority.finalize_payload, Some(serde_json::Value::Object(expected)));
    assert_eq!(authority.store.get("tok-7"), Some(key_authorization("tok-7", &key())));
    assert!(authority.store.get("tok-7").unwrap().starts_with("tok-7."));
}

fn drive_until(authority: &mut Authority, context: &Context, stop_before_post: &str) -> (Flow, Action) {
    let (mut flow, mut action) = Flow::Start.step(context, Event::Begin);
    loop {
        if let Action::Post { url, .. } = &action {
            if url == stop_before_post {
                let event = authority.answer(action);
                let _ = event;
                return (flow, Action::GetPublicKey);
            }
        }
        let event = authority.answer(action);
        let (next, asked) = flow.step(context, event);
        flow = next;
        action = asked;
    }
}

fn expect_failure(out: (Flow, Action), expected: AcmeError) {
    match out {
        (Flow::Failed { error }, Action::Fail { error: told }) => {
            assert_eq!(error, expected);
            assert_eq!(told, expected);
        }
        _ => panic!("the flow did not fail"),
    }
}

#[test]
fn a_response_without_nonce_ends_the_flow() {
    for url in ["https://ca/B", "https://ca/C", "https://ca/authz/1", "https://ca/chall/http", "https://ca/finalize/1"] {
        let mut authority = Authority::new();
        let (flow, _) = drive_until(&mut authority, &context(), url);
        let body = match url {
            "https://ca/B" => ACCOUNT_BODY,
            "https://ca/C" => ORDER_BODY,
            "https://ca/authz/1" => AUTHORIZATION_BODY,
            "https://ca/finalize/1" => UPDATED_BODY,
            _ => "{}",
        };
        let out = flow.step(&context(), Event::Response(response(None, Some("https://ca/acct/1"), body)));
        expect_failure(out, AcmeError::Protocol(ProtocolViolation::MissingNonce));
    }
}

#[test]
fn a_first_response_without_nonce_ends_the_flow() {
    let context = context();
    let (flow, _) = Flow::Start.step(&context, Event::Begin);
    let (flow, _) = flow.step(&context, Event::PublicKey(key()));
    let (flow, action) = flow.step(&context, Event::Response(response(None, None, DIRECTORY_BODY)));
    match action {
        Action::Head { url } => assert_eq!(url, "https://ca/A"),
        _ => panic!("no request for a nonce"),
    }
    let out = flow.step(&context, Event::Response(response(None, None, "")));
    expect_failure(out, AcmeError::Protocol(ProtocolViolation::MissingNonce));
}

#[test]
fn an_account_without_location_ends_the_flow() {
    let mut authority = Authority::new();
    let (flow, _) = drive_until(&mut authority, &context(), "https://ca/B");
    let out = flow.step(&context(), Event::Response(response(Some("n9"), None, ACCOUNT_BODY)));
    expect_failure(out, AcmeError::Protocol(ProtocolViolation::MissingLocation));
}

#[test]
fn a_body_of_the_wrong_shape_ends_the_flow() {
    let context = context();
    let (flow, _) = Flow::Start.step(&context, Event::Begin);
    let (flow, _) = flow.step(&context, Event::PublicKey(key()));
    let out = flow.step(&context, Event::Response(response(None, None, "{\"newNonce\":1}")));
    expect_failure(out, AcmeError::Decode);
    for (url, body) in [
        ("https://ca/B", "{\"status\":true}"),
        ("https://ca/B", "not json"),
        ("https://ca/C", "{\"status\":\"pending\"}"),
        ("https://ca/authz/1", "{\"challenges\":[]}"),
        ("https://ca/finalize/1", "[]"),
    ] {
        let mut authority = Authority::new();
        let (flow, _) = drive_until(&mut authority, &context, url);
        let out = flow.step(&context, Event::Response(response(Some("n9"), Some("https://ca/acct/1"), body)));
        expect_failure(out, AcmeError::Decode);
    }
}

#[test]
fn an_authorization_without_http_challenge_is_not_supported() {
    let mut authority = Authority::new();
    let (flow, _) = drive_until(&mut authority, &context(), "https://ca/authz/1");
    let body = "{\"identifier\":{},\"status\":\"pending\",\"expires\":\"x\",\"challenges\":[{\"type\":\"dns-01\",\"status\":\"pending\",\"url\":\"https://ca/chall/dns\",\"token\":\"tok-7\"}]}";
    let out = flow.step(&context(), Event::Response(response(Some("n9"), None, body)));
    expect_failure(out, AcmeError::UnsupportedChallenge);
}

#[test]
fn an_order_without_authorizations_is_not_supported() {
    let mut authority = Authority::new();
    let (flow, _) = drive_until(&mut authority, &context(), "https://ca/C");
    let body = "{\"status\":\"pending\",\"expires\":\"x\",\"identifiers\":[],\"authorizations\":[],\"finalize\":\"https://ca/finalize/1\"}";
    let out = flow.step(&context(), Event::Response(response(Some("n9"), None, body)));
    expect_failure(out, AcmeError::UnsupportedChallenge);
}

#[test]
fn a_failure_of_outside_work_ends_the_flow() {
    let context = context();
    let out = Flow::Start.step(&context, Event::Failure(AcmeError::Network));
    expect_failure(out, AcmeError::Network);
    let (flow, _) = Flow::Start.step(&context, Event::Begin);
    let out = flow.step(&context, Event::Failure(AcmeError::Signing(SigningFailure::PublicKey)));
    expect_failure(out, AcmeError::Signing(SigningFailure::PublicKey));
    let mut authority = Authority::new();
    let (flow, _) = drive_until(&mut authority, &context, "https://ca/C");
    let out = flow.step(&context, Event::Failure(AcmeError::Signing(SigningFailure::Signer)));
    expect_failure(out, AcmeError::Signing(SigningFailure::Signer));
}

#[test]
fn an_answer_out_of_order_ends_the_flow() {
    let context = context();
    let out = Flow::Start.step(&context, Event::Waited);
    expect_failure(out, AcmeError::Protocol(ProtocolViolation::OutOfOrder));
    let (flow, _) = Flow::Start.step(&context, Event::Begin);
    let out = flow.step(&context, Event::Signature(vec![1]));
    expect_failure(out, AcmeError::Protocol(ProtocolViolation::OutOfOrder));
    let mut authority = Authority::new();
    let (flow, _) = drive_until(&mut authority, &context, "https://ca/B");
    let out = flow.step(&context, Event::Published);
    expect_failure(out, AcmeError::Protocol(ProtocolViolation::OutOfOrder));
}

#[test]
fn a_flow_that_has_ended_stays_as_it_is() {
    let context = context();
    let (flow, _) = Flow::Start.step(&context, Event::Failure(AcmeError::Network));
    let out = flow.step(&context, Event::Begin);
    expect_failure(out, AcmeError::Network);
    let done = Flow::CertificateDownloaded { certificate_chain: "pem".to_string() };
    match done.step(&context, Event::Failure(AcmeError::Network)) {
        (Flow::CertificateDownloaded { certificate_chain }, Action::Done { certificate_chain: told }) => {
            assert_eq!(certificate_chain, "pem");
            assert_eq!(told, "pem");
        }
        _ => panic!("the end did not hold"),
    }
}

#[test]
fn the_certificate_comes_back_unmodified() {
    let context = context();
    let odd = "  not a certificate at all \u{1F600}\r\n";
    match Flow::PostingDownload.step(&context, Event::Response(response(None, None, odd))) {
        (Flow::CertificateDownloaded { certificate_chain }, Action::Done { certificate_chain: told }) => {
            assert_eq!(certificate_chain, odd);
            assert_eq!(told, odd);
        }
        _ => panic!("no certificate"),
    }
}

#[test]
fn cert_new_begins_with_the_public_key() {
    let (context, flow, action) = cert_new("example.org", "me@example.org", vec![1, 2], DIRECTORY);
    assert_eq!(context.domain, "example.org");
    assert_eq!(context.account_email, "me@example.org");
    assert_eq!(context.csr, vec![1, 2]);
    assert_eq!(context.server_url, DIRECTORY);
    assert!(matches!(flow, Flow::AwaitingKey));
    assert!(matches!(action, Action::GetPublicKey));
}

#[test]
fn the_flow_passes_through_its_stages_in_order() {
    let context = context();
    let mut authority = Authority::new();
    let mut flow = Flow::Start;
    let mut stages = vec![flow.current_stage()];
    let mut event = Event::Begin;
    loop {
        let (next, action) = flow.step(&context, event);
        flow = next;
        if stages.last() != Some(&flow.current_stage()) {
            stages.push(flow.current_stage());
        }
        match action {
            Action::Done { .. } | Action::Fail { .. } => break,
            other => event = authority.answer(other),
        }
    }
    assert_eq!(
        stages,
        vec![
            Stage::Start,
            Stage::DirectoryFetched,
            Stage::AccountReady,
            Stage::OrderCreated,
            Stage::AuthorizationFetched,
            Stage::ChallengePublished,
            Stage::ChallengeAccepted,
            Stage::Finalized,
            Stage::CertificateDownloaded,
        ]
    );
    let (failed, _) = Flow::Start.step(&context, Event::Failure(AcmeError::Network));
    assert_eq!(failed.current_stage(), Stage::Failed);
}
