//! The request to delete a certificate.

use vstd::prelude::*;

verus! {

/// What becomes of a request to delete a certificate.
pub enum Deletion {
    /// The request named no certificate: it is answered with a bad request
    /// and this message.
    Rejected { message: String },
    /// The certificate `cert_name` is to be deleted.
    Accepted { cert_name: String },
}

/// Decides on a request to delete a certificate by the name that its form
/// gives.
pub fn run(cert_name: Option<&str>) -> (deletion: Deletion)
    ensures
        match cert_name {
            None => deletion matches Deletion::Rejected { message } && message@
                == "Please add a domain to the query string of the request"@,
            Some(name) => deletion matches Deletion::Accepted { cert_name } && cert_name@
                == name@,
        },
{
    match cert_name {
        None => Deletion::Rejected {
            message: "Please add a domain to the query string of the request".to_string(),
        },
        Some(name) => Deletion::Accepted { cert_name: name.to_string() },
    }
}

} // verus!
