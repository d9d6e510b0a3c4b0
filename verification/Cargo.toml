[package]
name = "acme_issuance"
version = "0.1.0"
edition = "2021"
publish = false

[dependencies]
base64 = "=0.22.1"
sha2 = "=0.10.9"
serde_json = "=1.0.154"
serde = { version = "=1.0.229", features = ["derive"] }
url = "=2.5.8"
time = { version = "=0.3.55", features = ["formatting", "parsing", "serde-well-known"] }
uuid = { version = "=1.29.0", features = ["v4", "serde"] }
tokio = { version = "=1.54.1", features = ["full"] }
axum = "=0.7.9"
futures = "=0.3.34"
log = "=0.4.34"
tracing = "=0.1.44"
tracing-log = "=0.2.0"
tracing-subscriber = "=0.3.23"
reqwest = { version = "=0.12.28", default-features = false, features = ["json", "rustls-tls"] }
azure_identity = { version = "=0.20.0", default-features = false, features = ["enable_reqwest_rustls"] }
azure_security_keyvault = { version = "=0.20.0", default-features = false, features = ["enable_reqwest_rustls"] }
azure_data_cosmos = { version = "=0.20.0", default-features = false, features = ["enable_reqwest_rustls", "hmac_rust"] }
