use acme_issuance::http::delete::Deletion;
use acme_issuance::http::http_challenge::ChallengeAnswer;
use acme_issuance::http::new::Registration;
use acme_issuance::http::status::StatusRow;
use acme_issuance::http::{redirect_url, BAD_REQUEST, NOT_FOUND, OK};
use acme_issuance::keyvault::{cert_name, cert_name_in_path, domain};
use acme_issuance::store::ChallengeStore;
use acme_issuance::utils::app_error::{AppError, INTERNAL_SERVER_ERROR};
use acme_issuance::utils::layers::{auth, AuthDecision};
use acme_issuance::utils::tracing::{CustomLayer, CustomVisitor, Level, LogMessage};

#[test]
fn cert_name_is_the_second_segment() {
    assert_eq!(
        cert_name("https://my.vault.azure.net/certificates/www-example-com/0123abc"),
        Some("www-example-com".to_string())
    );
    assert_eq!(
        cert_name("https://my.vault.azure.net/certificates/www-example-com"),
        Some("www-example-com".to_string())
    );
    assert_eq!(cert_name("https://my.vault.azure.net/certificates/"), Some(String::new()));
    assert_eq!(cert_name("https://my.vault.azure.net/a//c"), Some(String::new()));
    assert_eq!(cert_name("https://my.vault.azure.net/a/b%20c?x=/y/z#/f"), Some("b%20c".to_string()));
    assert_eq!(cert_name("https://my.vault.azure.net/a/../b/c/d"), Some("c".to_string()));
}

#[test]
fn cert_name_is_missing_without_a_second_segment() {
    assert_eq!(cert_name("https://my.vault.azure.net/certificates"), None);
    assert_eq!(cert_name("https://my.vault.azure.net"), None);
    assert_eq!(cert_name("not a url"), None);
    assert_eq!(cert_name(""), None);
    assert_eq!(cert_name("/certificates/name"), None);
    assert_eq!(cert_name("mailto:someone/else/entirely"), None);
    assert_eq!(cert_name("data:text/plain,a/b/c"), None);
}

#[test]
fn cert_name_in_path_reads_between_the_slashes() {
    assert_eq!(cert_name_in_path("/certificates/name/version"), Some("name".to_string()));
    assert_eq!(cert_name_in_path("/certificates/name"), Some("name".to_string()));
    assert_eq!(cert_name_in_path("/certificates/"), Some(String::new()));
    assert_eq!(cert_name_in_path("/certificates"), None);
    assert_eq!(cert_name_in_path("/"), None);
    assert_eq!(cert_name_in_path("//"), Some(String::new()));
    assert_eq!(cert_name_in_path("//x/y"), Some("x".to_string()));
}

#[test]
fn domain_follows_the_first_equals_sign() {
    assert_eq!(domain("CN=www.example.com"), Some("www.example.com".to_string()));
    assert_eq!(domain("CN=a=b"), Some("a=b".to_string()));
    assert_eq!(domain("CN="), Some(String::new()));
    assert_eq!(domain("=x"), Some("x".to_string()));
    assert_eq!(domain("www.example.com"), None);
    assert_eq!(domain(""), None);
}

#[test]
fn store_serves_what_was_put() {
    let mut store = ChallengeStore::new();
    assert_eq!(store.get("tok-7"), None);
    store.put("tok-7", "tok-7.thumb");
    store.put("tok-8", "tok-8.thumb");
    assert_eq!(store.get("tok-7"), Some("tok-7.thumb".to_string()));
    assert_eq!(store.get("tok-8"), Some("tok-8.thumb".to_string()));
    assert_eq!(store.get("tok-9"), None);
    store.put("tok-7", "tok-7.other");
    assert_eq!(store.get("tok-7"), Some("tok-7.other".to_string()));
    assert_eq!(store.get("tok-8"), Some("tok-8.thumb".to_string()));
    store.delete("tok-7");
    assert_eq!(store.get("tok-7"), None);
    assert_eq!(store.get("tok-8"), Some("tok-8.thumb".to_string()));
    store.delete("tok-7");
    store.delete("never");
    assert_eq!(store.get("tok-8"), Some("tok-8.thumb".to_string()));
    store.delete("tok-8");
    assert_eq!(store.get("tok-8"), None);
}

#[test]
fn responder_answers_from_the_store() {
    let mut store = ChallengeStore::new();
    store.put("tok-7", "tok-7.thumb");
    match acme_issuance::http::http_challenge::run("tok-7", &store) {
        ChallengeAnswer::Found { contents } => assert_eq!(contents, "tok-7.thumb"),
        ChallengeAnswer::NotFound => panic!("not found"),
    }
    assert!(matches!(
        acme_issuance::http::http_challenge::run("tok-8", &store),
        ChallengeAnswer::NotFound
    ));
    assert_eq!(OK, 200);
    assert_eq!(NOT_FOUND, 404);
}

#[test]
fn registration_names_the_certificate_after_the_domain() {
    match acme_issuance::http::new::run(Some("www.example.com")) {
        Registration::Accepted { domain, cert_name } => {
            assert_eq!(domain, "www.example.com");
            assert_eq!(cert_name, "www-example-com");
        }
        Registration::Rejected { .. } => panic!("rejected"),
    }
    match acme_issuance::http::new::run(None) {
        Registration::Rejected { message } => {
            assert_eq!(message, "Please add a domain to the query string of the request")
        }
        Registration::Accepted { .. } => panic!("accepted"),
    }
    assert_eq!(BAD_REQUEST, 400);
    assert_eq!(redirect_url("dashboard.example.com"), "http://dashboard.example.com");
}

#[test]
fn deletion_needs_a_name() {
    match acme_issuance::http::delete::run(Some("www-example-com")) {
        Deletion::Accepted { cert_name } => assert_eq!(cert_name, "www-example-com"),
        Deletion::Rejected { .. } => panic!("rejected"),
    }
    match acme_issuance::http::delete::run(None) {
        Deletion::Rejected { message } => {
            assert_eq!(message, "Please add a domain to the query string of the request")
        }
        Deletion::Accepted { .. } => panic!("accepted"),
    }
}

#[test]
fn status_page_lists_the_certificates() {
    let start = "<html><head><meta charset='utf-8'><meta name='viewport' content='width=device-width, initial-scale=1'><link href='https://cdn.larsen.farm/bootstrap/5.3/css/bootstrap.min.css' rel='stylesheet'><title>Let's Encrypt Dashboard</title></head><body class='container'><form method='post' action='/register'><label for='domain' class='form-label'>Add New Domain:</label><br><input class='form-control' type='text' id='domain' name='domain'><button type='submit' class='btn btn-primary'>Submit</button></form><table class='table'><tr><th>Certificate Id</th><th>Expiry</th><th>Action</th></tr>";
    let end = "</table></body></html>";
    assert_eq!(acme_issuance::http::status::run(&vec![]), format!("{}{}", start, end));
    let rows = vec![
        StatusRow { id: "https://v/certificates/a".to_string(), expiry: "01 Jan 2030".to_string(), name: "a".to_string() },
        StatusRow { id: "https://v/certificates/b".to_string(), expiry: "02 Feb 2031".to_string(), name: "b".to_string() },
    ];
    let row = |id: &str, expiry: &str, name: &str| {
        format!("<tr><td>{}</td><td>{}</td><td><form method='post' action='/delete'><input type='hidden' name='cert_name' value='{}'><button type='submit' class='btn btn-primary'>Delete</button></form></tr>", id, expiry, name)
    };
    assert_eq!(
        acme_issuance::http::status::run(&rows),
        format!(
            "{}{}{}{}",
            start,
            row("https://v/certificates/a", "01 Jan 2030", "a"),
            row("https://v/certificates/b", "02 Feb 2031", "b"),
            end
        )
    );
}

#[test]
fn error_becomes_an_internal_server_error() {
    let (status, body) = AppError::from("certificate name not found".to_string()).into_response();
    assert_eq!(status, 500);
    assert_eq!(status, INTERNAL_SERVER_ERROR);
    assert_eq!(body, "Something went wrong: certificate name not found");
}

#[test]
fn open_paths_pass_without_login() {
    for path in ["/.well-known/acme-challenge/tok-7", "/checkCertificates", "/healthCheck", "/x/healthCheck/y"] {
        for enforce in [false, true] {
            for principal in [false, true] {
                for htmx in [false, true] {
                    assert!(matches!(auth(path, enforce, principal, htmx), AuthDecision::Forward));
                }
            }
        }
    }
}

#[test]
fn other_paths_need_a_login_where_it_is_enforced() {
    let login = "/.auth/login/aad?post_login_redirect_url=https://letsencrypt.larsen.farm/register";
    match auth("/register", true, false, false) {
        AuthDecision::Redirect { login_url } => assert_eq!(login_url, login),
        _ => panic!("no redirect"),
    }
    match auth("/register", true, false, true) {
        AuthDecision::HtmxRedirect { login_url } => assert_eq!(login_url, login),
        _ => panic!("no header"),
    }
    assert!(matches!(auth("/register", true, true, false), AuthDecision::Forward));
    assert!(matches!(auth("/register", true, true, true), AuthDecision::Forward));
    assert!(matches!(auth("/register", false, false, false), AuthDecision::Forward));
    assert!(matches!(auth("/", false, false, true), AuthDecision::Forward));
    assert!(matches!(auth("/.well-known/acme-challenge", true, true, false), AuthDecision::Forward));
    assert!(matches!(auth("/.well-known/acme-challenge", true, false, false), AuthDecision::Redirect { .. }));
}

#[test]
fn layer_records_down_to_its_level() {
    let mut layer = CustomLayer::new(Level::Info);
    assert!(layer.get().is_empty());
    let mut visitor = CustomVisitor::new();
    assert!(visitor.0.is_empty());
    visitor.record_str("message", "Got \"account\" key");
    visitor.record_i64("delta", -3);
    visitor.record_u64("count", 12);
    visitor.record_bool("ok", true);
    visitor.record_bool("late", false);
    assert_eq!(
        visitor.0,
        vec!["message: Got \"account\" key ", "delta: -3 ", "count: 12 ", "ok: true ", "late: false "]
    );
    layer.on_event(Level::Info, &visitor, "event src/acme/mod.rs:34");
    layer.on_event(Level::Debug, &visitor, "too chatty");
    layer.on_event(Level::Trace, &visitor, "too chatty");
    layer.on_event(Level::Error, &CustomVisitor::new(), "bad");
    layer.on_event(Level::Warn, &CustomVisitor::new(), "worse");
    assert_eq!(
        layer.get(),
        vec![
            "INFO [\"message: Got \\\"account\\\" key \", \"delta: -3 \", \"count: 12 \", \"ok: true \", \"late: false \"] event src/acme/mod.rs:34",
            "ERROR [] bad",
            "WARN [] worse",
        ]
    );
    assert_eq!(layer.get(), layer.events);
    let mut all = CustomLayer::new(Level::Trace);
    all.on_event(Level::Trace, &CustomVisitor::new(), "t");
    all.on_event(Level::Debug, &CustomVisitor::new(), "d");
    assert_eq!(all.get(), vec!["TRACE [] t", "DEBUG [] d"]);
    let mut none = CustomLayer::new(Level::Error);
    none.on_event(Level::Warn, &CustomVisitor::new(), "w");
    assert!(none.get().is_empty());
}

#[test]
fn level_names_and_ranks() {
    assert_eq!(Level::Error.as_str(), "ERROR");
    assert_eq!(Level::Warn.as_str(), "WARN");
    assert_eq!(Level::Info.as_str(), "INFO");
    assert_eq!(Level::Debug.as_str(), "DEBUG");
    assert_eq!(Level::Trace.as_str(), "TRACE");
    assert!(Level::Error.rank() < Level::Warn.rank());
    assert!(Level::Warn.rank() < Level::Info.rank());
    assert!(Level::Info.rank() < Level::Debug.rank());
    assert!(Level::Debug.rank() < Level::Trace.rank());
}

#[test]
fn log_message_is_kept_by_the_minute() {
    let message = LogMessage::new(vec!["a".to_string()], 125, "GET".to_string(), Some("/x?y=1".to_string()), 7, 200);
    assert_eq!(message.key, 2);
    assert_eq!(message.partition_key(), 2);
    assert_eq!(message.path, "/x?y=1");
    assert_eq!(message.method, "GET");
    assert_eq!(message.traces, vec!["a"]);
    assert_eq!(message.time, 125);
    assert_eq!(message.id, 7);
    assert_eq!(message.status, 200);
    let bare = LogMessage::new(vec![], 1_700_000_000, "POST".to_string(), None, 0, 404);
    assert_eq!(bare.path, "/");
    assert_eq!(bare.key, 28_333_333);
    assert_eq!(LogMessage::new(vec![], 59, String::new(), None, 0, 0).key, 0);
    assert_eq!(LogMessage::new(vec![], 60, String::new(), None, 0, 0).key, 1);
    assert_eq!(LogMessage::new(vec![], -1, String::new(), None, 0, 0).key, 0);
    assert_eq!(LogMessage::new(vec![], -60, String::new(), None, 0, 0).key, -1);
    assert_eq!(LogMessage::new(vec![], -61, String::new(), None, 0, 0).key, -1);
    assert_eq!(LogMessage::new(vec![], i64::MIN, String::new(), None, 0, 0).key, i64::MIN / 60);
}
