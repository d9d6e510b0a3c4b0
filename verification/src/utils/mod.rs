//! What stands around the issuance in a service: errors as answers, the
//! guard before the dashboard, and the record of what was logged.

pub mod app_error;
pub mod layers;
pub mod tracing;
