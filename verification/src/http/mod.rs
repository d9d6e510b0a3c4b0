//! The decisions behind the handlers of the dashboard and of the HTTP-01
//! responder.

use crate::text::concat;
use vstd::prelude::*;

pub mod delete;
pub mod http_challenge;
pub mod new;
pub mod status;

verus! {

/// The status of a request that works.
pub const OK: u16 = 200;

/// The status of a request that lacks what it must name.
pub const BAD_REQUEST: u16 = 400;

/// The status of a request for something that is not there.
pub const NOT_FOUND: u16 = 404;

/// The page to which the dashboard goes back after a change: the status
/// page of the host.
pub fn redirect_url(hostname: &str) -> (url: String)
    ensures
        url@ == "http://"@ + hostname@,
{
    concat("http://", hostname)
}

} // verus!
