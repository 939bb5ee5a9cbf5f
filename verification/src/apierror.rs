//! The provider's error envelope and its classification.
//!
//! Every non-2xx response may carry a JSON body of the form
//! `{"error": {"message": ..., "type": ..., "code": ..., ...}}`.  The
//! classifiers below recognize the documented cases: an expired or
//! invalidated session, missing permissions, and the business-discovery
//! "cannot find user" outcome.  Matching is by ASCII case folding of the
//! relevant text.

use vstd::prelude::*;

verus! {

use vstd::string::StringSliceAdditionalSpecFns;
use vstd::utf8::encode_utf8;
use crate::bytestr::{contains_bytes_lower, contains_lower};
use crate::jsonval::{JsonData, json_of, json_parse_doc, json_from_slice, jget, jfield_str,
    jfield_opt_str, jfield_i64, jfield_opt_i64, field_string, field_opt_string, field_i64,
    field_opt_i64, get_field, value_is_object};

/// The provider's error payload.  Unknown `type` values are kept as the
/// opaque string the server sent.
#[derive(Debug, Clone)]
pub struct ApiError {
    pub message: String,
    pub error_type: Option<String>,
    pub code: i32,
    pub error_subcode: Option<i32>,
    pub error_user_title: Option<String>,
    pub error_user_msg: Option<String>,
    pub fbtrace_id: Option<String>,
}

/// Ghost image of [`ApiError`].
pub struct ApiErrorView {
    pub message: Seq<char>,
    pub error_type: Option<Seq<char>>,
    pub code: i32,
    pub error_subcode: Option<i32>,
    pub error_user_title: Option<Seq<char>>,
    pub error_user_msg: Option<Seq<char>>,
    pub fbtrace_id: Option<Seq<char>>,
}

impl View for ApiError {
    type V = ApiErrorView;

    open spec fn view(&self) -> ApiErrorView {
        ApiErrorView {
            message: self.message@,
            error_type: self.error_type.deep_view(),
            code: self.code,
            error_subcode: self.error_subcode,
            error_user_title: self.error_user_title.deep_view(),
            error_user_msg: self.error_user_msg.deep_view(),
            fbtrace_id: self.fbtrace_id.deep_view(),
        }
    }
}

/// The error envelope: the payload under an `error` member.
#[derive(Debug, Clone)]
pub struct ResponseErrorBody {
    pub error: ApiError,
}

impl View for ResponseErrorBody {
    type V = ApiErrorView;

    open spec fn view(&self) -> ApiErrorView {
        self.error@
    }
}

/// A required field holding an `i32`: a JSON integer in range.
pub open spec fn jfield_i32(j: JsonData, k: Seq<char>) -> Option<i32> {
    match jfield_i64(j, k) {
        Some(x) => if i32::MIN <= x <= i32::MAX {
            Some(x as i32)
        } else {
            None
        },
        None => None,
    }
}

/// An optional field holding an `i32`.
pub open spec fn jfield_opt_i32(j: JsonData, k: Seq<char>) -> Option<Option<i32>> {
    match jfield_opt_i64(j, k) {
        Some(Some(x)) => if i32::MIN <= x <= i32::MAX {
            Some(Some(x as i32))
        } else {
            None
        },
        Some(None) => Some(None),
        None => None,
    }
}

/// How an error payload node decodes: `message` and `code` are required,
/// everything else is optional.
pub open spec fn dec_api_error(j: JsonData) -> Option<ApiErrorView> {
    if !(j is Obj) {
        None
    } else {
        match jfield_str(j, "message"@) {
            None => None,
            Some(message) => match jfield_opt_str(j, "type"@) {
                None => None,
                Some(error_type) => match jfield_i32(j, "code"@) {
                    None => None,
                    Some(code) => match jfield_opt_i32(j, "error_subcode"@) {
                        None => None,
                        Some(error_subcode) => match jfield_opt_str(j, "error_user_title"@) {
                            None => None,
                            Some(error_user_title) => match jfield_opt_str(
                                j,
                                "error_user_msg"@,
                            ) {
                                None => None,
                                Some(error_user_msg) => match jfield_opt_str(j, "fbtrace_id"@) {
                                    None => None,
                                    Some(fbtrace_id) => Some(
                                        ApiErrorView {
                                            message,
                                            error_type,
                                            code,
                                            error_subcode,
                                            error_user_title,
                                            error_user_msg,
                                            fbtrace_id,
                                        },
                                    ),
                                },
                            },
                        },
                    },
                },
            },
        }
    }
}

/// How the whole envelope decodes: an object with an `error` member that
/// itself decodes as an error payload.
pub open spec fn dec_error_body(j: JsonData) -> Option<ApiErrorView> {
    match jget(j, "error"@) {
        Some(inner) => dec_api_error(inner),
        None => None,
    }
}

/// Decodes one error payload node.
pub fn decode_api_error(v: &serde_json::Value) -> (r: Option<ApiError>)
    ensures
        match r {
            Some(e) => dec_api_error(json_of(*v)) == Some(e@),
            None => dec_api_error(json_of(*v)) is None,
        },
{
    if !value_is_object(v) {
        return None;
    }
    let message = match field_string(v, "message") {
        Some(s) => s,
        None => {
            return None;
        },
    };
    let error_type = match field_opt_string(v, "type") {
        Some(x) => x,
        None => {
            return None;
        },
    };
    let code_i64 = match field_i64(v, "code") {
        Some(x) => x,
        None => {
            return None;
        },
    };
    if code_i64 < (i32::MIN as i64) || code_i64 > (i32::MAX as i64) {
        return None;
    }
    let code: i32 = code_i64 as i32;
    let error_subcode = match field_opt_i64(v, "error_subcode") {
        Some(None) => None,
        Some(Some(x)) => {
            if x < (i32::MIN as i64) || x > (i32::MAX as i64) {
                return None;
            }
            Some(x as i32)
        },
        None => {
            return None;
        },
    };
    let error_user_title = match field_opt_string(v, "error_user_title") {
        Some(x) => x,
        None => {
            return None;
        },
    };
    let error_user_msg = match field_opt_string(v, "error_user_msg") {
        Some(x) => x,
        None => {
            return None;
        },
    };
    let fbtrace_id = match field_opt_string(v, "fbtrace_id") {
        Some(x) => x,
        None => {
            return None;
        },
    };
    Some(
        ApiError {
            message,
            error_type,
            code,
            error_subcode,
            error_user_title,
            error_user_msg,
            fbtrace_id,
        },
    )
}

/// Decodes the error envelope.
pub fn decode_error_body(v: &serde_json::Value) -> (r: Option<ResponseErrorBody>)
    ensures
        match r {
            Some(e) => dec_error_body(json_of(*v)) == Some(e@),
            None => dec_error_body(json_of(*v)) is None,
        },
{
    match get_field(v, "error") {
        None => None,
        Some(inner) => match decode_api_error(inner) {
            Some(e) => Some(ResponseErrorBody { error: e }),
            None => None,
        },
    }
}

/// What one call came to: the decoded success payload, or the non-2xx
/// status with the decoded error envelope when the body was one, else the
/// raw body bytes.  A non-2xx answer is data, not an error return.
#[derive(Debug)]
pub enum EndpointRet<T> {
    /// The decoded success payload.
    Payload(T),
    /// A non-2xx status, with the decoded error envelope or the raw body.
    Other((u16, Result<ResponseErrorBody, Vec<u8>>)),
}

/// The recognized coarse classes of upstream errors.
#[derive(Debug, Clone, Copy, PartialEq, Eq, Structural)]
pub enum KnownErrorCase {
    ApiTooManyCalls,
    ApiUserTooManyCalls,
    AccessTokenExpiredOrRevokedOrInvalid,
    PermissionNotGrantedOrRemoved,
    RetryLater,
}

/// The classification an error payload falls under, by subcode first and
/// then by code.
pub open spec fn known_case_spec(e: ApiErrorView) -> Option<KnownErrorCase> {
    if e.error_subcode == Some(463i32) || e.error_subcode == Some(467i32) {
        Some(KnownErrorCase::AccessTokenExpiredOrRevokedOrInvalid)
    } else if e.code == 102 && e.error_subcode is None {
        Some(KnownErrorCase::AccessTokenExpiredOrRevokedOrInvalid)
    } else if e.code == 2 {
        Some(KnownErrorCase::RetryLater)
    } else if e.code == 4 {
        Some(KnownErrorCase::ApiTooManyCalls)
    } else if e.code == 17 {
        Some(KnownErrorCase::ApiUserTooManyCalls)
    } else if e.code == 10 {
        Some(KnownErrorCase::PermissionNotGrantedOrRemoved)
    } else if e.code == 190 {
        Some(KnownErrorCase::AccessTokenExpiredOrRevokedOrInvalid)
    } else if 200 <= e.code <= 299 {
        Some(KnownErrorCase::PermissionNotGrantedOrRemoved)
    } else {
        None
    }
}

/// True when the message says, in any letter case, that the session expired.
pub open spec fn session_expired_spec(e: ApiErrorView) -> bool {
    contains_lower(encode_utf8(e.message), encode_utf8("session has expired"@))
}

/// True when the message says the session was invalidated.
pub open spec fn session_invalidated_spec(e: ApiErrorView) -> bool {
    contains_lower(encode_utf8(e.message), encode_utf8("session has been invalidated"@))
}

/// True when the payload marks the business-discovery target as not
/// findable: the user-facing title says "cannot find user" in any letter
/// case, or the subcode is the documented one.
pub open spec fn cannot_find_user_spec(e: ApiErrorView) -> bool {
    ||| match e.error_user_title {
        Some(t) => contains_lower(encode_utf8(t), encode_utf8("cannot find user"@)),
        None => false,
    }
    ||| e.error_subcode == Some(2207013i32)
}

impl ApiError {
    /// The access token's session has expired.
    pub fn is_access_token_session_has_expired(&self) -> (r: bool)
        ensures
            r == session_expired_spec(self@),
    {
        contains_bytes_lower(self.message.as_str(), "session has expired".as_bytes())
    }

    /// The access token's session has been invalidated (for instance by a
    /// password change).
    pub fn is_access_token_session_has_been_invalidated(&self) -> (r: bool)
        ensures
            r == session_invalidated_spec(self@),
    {
        contains_bytes_lower(self.message.as_str(), "session has been invalidated".as_bytes())
    }

    /// The coarse class this payload falls under, when it is a known one.
    pub fn to_known_error_case(&self) -> (r: Option<KnownErrorCase>)
        ensures
            r == known_case_spec(self@),
    {
        match self.error_subcode {
            Some(sc) => {
                if sc == 463 || sc == 467 {
                    return Some(KnownErrorCase::AccessTokenExpiredOrRevokedOrInvalid);
                }
            },
            None => {
                if self.code == 102 {
                    return Some(KnownErrorCase::AccessTokenExpiredOrRevokedOrInvalid);
                }
            },
        }
        if self.code == 2 {
            Some(KnownErrorCase::RetryLater)
        } else if self.code == 4 {
            Some(KnownErrorCase::ApiTooManyCalls)
        } else if self.code == 17 {
            Some(KnownErrorCase::ApiUserTooManyCalls)
        } else if self.code == 10 {
            Some(KnownErrorCase::PermissionNotGrantedOrRemoved)
        } else if self.code == 190 {
            Some(KnownErrorCase::AccessTokenExpiredOrRevokedOrInvalid)
        } else if 200 <= self.code && self.code <= 299 {
            Some(KnownErrorCase::PermissionNotGrantedOrRemoved)
        } else {
            None
        }
    }

    /// The payload classifies as a missing or removed permission.
    pub fn is_permission_missing(&self) -> (r: bool)
        ensures
            r == (known_case_spec(self@) == Some(KnownErrorCase::PermissionNotGrantedOrRemoved)),
    {
        match self.to_known_error_case() {
            Some(KnownErrorCase::PermissionNotGrantedOrRemoved) => true,
            _ => false,
        }
    }
}

impl ResponseErrorBody {
    /// The business-discovery target cannot be found; listing endpoints lift
    /// this payload into a typed success outcome.
    pub fn is_ig_user_business_discovery_cannot_find_user(&self) -> (r: bool)
        ensures
            r == cannot_find_user_spec(self@),
    {
        let by_title = match &self.error.error_user_title {
            Some(t) => contains_bytes_lower(t.as_str(), "cannot find user".as_bytes()),
            None => false,
        };
        let by_subcode = match self.error.error_subcode {
            Some(sc) => sc == 2207013,
            None => false,
        };
        by_title || by_subcode
    }
}

/// The error envelope a body decodes to, when it is a JSON document holding
/// one.
pub open spec fn dec_err_doc(bytes: Seq<u8>) -> Option<ApiErrorView> {
    match json_parse_doc(bytes) {
        Some(j) => dec_error_body(j),
        None => None,
    }
}

/// Classifies a non-2xx body: the decoded error envelope when it is one,
/// otherwise the raw bytes.
pub fn classify_error_body(body: &Vec<u8>) -> (r: Result<ResponseErrorBody, Vec<u8>>)
    ensures
        match r {
            Ok(e) => dec_err_doc(body@) == Some(e@),
            Err(raw) => dec_err_doc(body@) is None && raw@ == body@,
        },
{
    match json_from_slice(body.as_slice()) {
        Some(v) => match decode_error_body(&v) {
            Some(e) => Ok(e),
            None => Err(crate::bytestr::copy_bytes(body.as_slice())),
        },
        None => Err(crate::bytestr::copy_bytes(body.as_slice())),
    }
}

} // verus!
