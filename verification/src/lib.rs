//! Protocol engine of an ACME client: signed JSON exchanges with a
//! certificate authority, the anti-replay nonce that links them, and the
//! HTTP-01 challenge, with the rules around them stated as contracts.

pub mod acme;
pub mod digest;
pub mod http;
pub mod json;
pub mod keyvault;
pub mod serial;
pub mod store;
pub mod text;
pub mod timer;
pub mod utils;
