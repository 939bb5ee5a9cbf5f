//! Plain request and response values.
//!
//! The library does no I/O: `render_request` produces an [`HttpRequest`]
//! holding the method, the absolute URI, the two headers every endpoint
//! sends, and the (always empty) body; the caller's transport performs it
//! and hands the answer back as an [`HttpResponse`].

use vstd::prelude::*;

verus! {

/// The request methods the endpoints use.
#[derive(Debug, Clone, Copy, PartialEq, Eq, Structural)]
pub enum HttpMethod {
    Get,
    Post,
    Delete,
}

/// A fully rendered request: everything a transport needs.
#[derive(Debug, Clone)]
pub struct HttpRequest {
    pub method: HttpMethod,
    /// The absolute URI, scheme and host included.
    pub uri: String,
    /// The `User-Agent` header value.
    pub user_agent: String,
    /// The `Accept` header value.
    pub accept: String,
    /// The request body; every operation here sends its parameters in the
    /// URI, so this is always empty.
    pub body: Vec<u8>,
}

/// What came back from the transport: the status code and the raw body.
#[derive(Debug, Clone)]
pub struct HttpResponse {
    pub status: u16,
    pub body: Vec<u8>,
}

impl HttpResponse {
    pub fn new(status: u16, body: Vec<u8>) -> (r: HttpResponse)
        ensures
            r.status == status,
            r.body@ == body@,
    {
        HttpResponse { status, body }
    }
}

} // verus!
