//! Shared pieces of the Graph surface: base URL, default API version, and
//! its error cases.

use vstd::prelude::*;

verus! {

use crate::jsonval::{JsonData, json_of, json_parse_doc, jfield_bool, field_bool,
    value_is_object};

pub use crate::apierror::{EndpointRet, classify_error_body, dec_err_doc};
pub use crate::apierror::ResponseErrorBody as ResponseBodyErrJson;

/// Scheme and host of every Graph URL.
pub const URL_BASE: &'static str = "https://graph.facebook.com";

/// The default API version segment.
pub const VERSION: &'static str = "v15.0";

/// The `User-Agent` value every Graph request carries.
pub const USER_AGENT_VALUE: &'static str = "instagram-graph-api";

/// Failures of the library's own work on a call.  A non-2xx response is
/// never one of these.  Rendering here is total — structured query values
/// are framed byte for byte rather than handed to a serializer — so only
/// the decode case is ever produced; the other variants stay as stable
/// cases for callers that match on them.
#[derive(Debug, Clone, Copy, PartialEq, Eq, Structural)]
pub enum EndpointError {
    /// The request URL could not be built.
    MakeRequestUrlFailed,
    /// The request value could not be assembled.
    MakeRequestFailed,
    /// A 200 response's body did not decode as the success payload.
    DeResponseBodyOkJsonFailed,
    /// Anything else, such as a failure to serialize a structured query
    /// value.
    Other,
}

/// How the `{"success": ...}` acknowledgement decodes.
pub open spec fn dec_success_body(j: JsonData) -> Option<bool> {
    if !(j is Obj) {
        None
    } else {
        jfield_bool(j, "success"@)
    }
}

/// The acknowledgement a whole body decodes to.
pub open spec fn dec_success_doc(bytes: Seq<u8>) -> Option<bool> {
    match json_parse_doc(bytes) {
        Some(j) => dec_success_body(j),
        None => None,
    }
}

/// Decodes the `{"success": ...}` acknowledgement.
pub fn decode_success_body(v: &serde_json::Value) -> (r: Option<bool>)
    ensures
        r == dec_success_body(json_of(*v)),
{
    if !value_is_object(v) {
        return None;
    }
    field_bool(v, "success")
}

} // verus!
