//! The ACME message exchanges, and the issuance that strings them together.

use crate::acme::flow::{transition, Action, Context, Event, Flow};
use vstd::prelude::*;

pub mod account;
pub mod base64;
pub mod challenge;
pub mod decode;
pub mod directory;
pub mod error;
pub mod flow;
pub mod nonce;
pub mod order;
pub mod updated_order;
pub mod util;

verus! {

/// The single-use anti-replay token that the authority hands out with every
/// response.
pub type Nonce = String;

/// The directory of Let's Encrypt.
pub const LETS_ENCRYPT_DIRECTORY: &'static str = "https://acme-v02.api.letsencrypt.org/directory";

/// The directory of Let's Encrypt's staging environment, for trials.
pub const LETS_ENCRYPT_STAGING_DIRECTORY: &'static str =
    "https://acme-staging-v02.api.letsencrypt.org/directory";

/// Begins the issuance of a certificate for `domain` at the authority whose
/// directory is at `server_url`: the contact of the account is
/// `account_email`, and `csr` is the certificate signing request in DER
/// form. Gives the context of the issuance, the flow after its first step,
/// and the first piece of outside work, which is to fetch the public half
/// of the account key.
pub fn cert_new(domain: &str, account_email: &str, csr: Vec<u8>, server_url: &str) -> (started: (
    Context,
    Flow,
    Action,
))
    ensures
        started.0.domain@ == domain@,
        started.0.account_email@ == account_email@,
        started.0.csr == csr,
        started.0.server_url@ == server_url@,
        started.1 == Flow::AwaitingKey,
        started.2 == Action::GetPublicKey,
        transition(Flow::Start, started.0, Event::Begin, started.1, started.2),
{
    let context = Context {
        server_url: server_url.to_string(),
        domain: domain.to_string(),
        account_email: account_email.to_string(),
        csr,
    };
    let (flow, action) = Flow::Start.step(&context, Event::Begin);
    (context, flow, action)
}

} // verus!
