//! The guard before the dashboard: who may pass without having logged in.

use crate::text::{concat, contains, occurs_in};
use vstd::prelude::*;

verus! {

/// What the guard does with a request.
pub enum AuthDecision {
    /// The request goes on to its handler.
    Forward,
    /// The page tells htmx, in an `HX-Redirect` header of an unauthorized
    /// answer, to go to the login page.
    HtmxRedirect { login_url: String },
    /// The browser is redirected to the login page.
    Redirect { login_url: String },
}

/// Whether a path is open to everyone: the answers to challenges, the sweep
/// of the certificates and the health check.
pub open spec fn is_open_path(path: Seq<char>) -> bool {
    ||| occurs_in(path, "/.well-known/acme-challenge/"@)
    ||| occurs_in(path, "/checkCertificates"@)
    ||| occurs_in(path, "/healthCheck"@)
}

/// The login page that leads back to `path`.
pub open spec fn login_url(path: Seq<char>) -> Seq<char> {
    "/.auth/login/aad?post_login_redirect_url=https://letsencrypt.larsen.farm"@ + path
}

/// Decides on a request for `path`. Open paths pass. Where logins are
/// enforced, a request without the header of a logged-in principal is sent
/// to the login page: by a header, if it comes from htmx, else by a
/// redirect. Everything else passes.
pub fn auth(path: &str, enforce_login: bool, has_principal: bool, from_htmx: bool) -> (decision:
    AuthDecision)
    ensures
        match decision {
            AuthDecision::Forward => is_open_path(path@) || !enforce_login || has_principal,
            AuthDecision::HtmxRedirect { login_url: url } => !is_open_path(path@) && enforce_login
                && !has_principal && from_htmx && url@ == login_url(path@),
            AuthDecision::Redirect { login_url: url } => !is_open_path(path@) && enforce_login
                && !has_principal && !from_htmx && url@ == login_url(path@),
        },
{
    if contains(path, "/.well-known/acme-challenge/") || contains(path, "/checkCertificates")
        || contains(path, "/healthCheck") {
        return AuthDecision::Forward;
    }
    if enforce_login && !has_principal {
        let login_url = concat(
            "/.auth/login/aad?post_login_redirect_url=https://letsencrypt.larsen.farm",
            path,
        );
        if from_htmx {
            return AuthDecision::HtmxRedirect { login_url };
        } else {
            return AuthDecision::Redirect { login_url };
        }
    }
    AuthDecision::Forward
}

} // verus!
