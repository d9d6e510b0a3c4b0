//! The request for a new certificate.

use crate::text::{replace_char, replaced};
use vstd::prelude::*;

verus! {

/// What becomes of a request for a new certificate.
pub enum Registration {
    /// The request named no domain: it is answered with a bad request and
    /// this message.
    Rejected { message: String },
    /// A certificate is to be issued for `domain` and kept under
    /// `cert_name`.
    Accepted { domain: String, cert_name: String },
}

/// Decides on a request for a new certificate by the domain that its form
/// names. The certificate is kept under the domain's name with a hyphen in
/// place of every full stop.
pub fn run(domain: Option<&str>) -> (registration: Registration)
    ensures
        match domain {
            None => registration matches Registration::Rejected { message } && message@
                == "Please add a domain to the query string of the request"@,
            Some(name) => registration matches Registration::Accepted { domain, cert_name }
                && domain@ == name@ && cert_name@ == replaced(name@, '.', '-'),
        },
{
    match domain {
        None => Registration::Rejected {
            message: "Please add a domain to the query string of the request".to_string(),
        },
        Some(name) => Registration::Accepted {
            domain: name.to_string(),
            cert_name: replace_char(name, '.', '-'),
        },
    }
}

} // verus!
