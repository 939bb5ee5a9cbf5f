//! Shared pieces of the Basic Display surface: base URL, default API
//! version, the result envelope, and the error-branch classifier every
//! endpoint's `parse_response` uses.

use vstd::prelude::*;

verus! {

pub use crate::apierror::{EndpointRet, classify_error_body, dec_err_doc};

/// Scheme and host of every Basic Display URL.
pub const BASE_URL: &'static str = "https://graph.instagram.com";

/// The default API version segment.
pub const API_VERSION: &'static str = "v15.0";

/// The `User-Agent` value every Basic Display request carries.
pub const USER_AGENT_VALUE: &'static str = "instagram-basic-display-api";

/// Failures of the library's own work on a call.  A non-2xx response is
/// never one of these.  Rendering here is total, so only the decode case is
/// ever produced; the two request-building cases stay as stable variants
/// for callers that match on them.
#[derive(Debug, Clone, Copy, PartialEq, Eq, Structural)]
pub enum EndpointError {
    /// The request URL could not be built.
    MakeRequestUrlFailed,
    /// The request value could not be assembled.
    MakeRequestFailed,
    /// A 200 response's body did not decode as the success payload.
    DeResponseBodyFailed,
}

} // verus!
