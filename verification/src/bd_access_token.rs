//! The two top-level token operations of the Basic Display surface: the
//! short-lived → long-lived exchange, and the long-lived refresh.  Both are
//! GETs against the bare host, with no API-version segment in the path.

use vstd::prelude::*;

verus! {

use vstd::string::StringSliceAdditionalSpecFns;
use vstd::utf8::encode_utf8;
use crate::bd_common::{EndpointError, EndpointRet, dec_err_doc, classify_error_body};
use crate::httpmsg::{HttpMethod, HttpRequest, HttpResponse};
use crate::jsonval::{JsonData, json_of, json_parse_doc, json_from_slice, jfield_str,
    jfield_opt_u64, field_string, field_opt_u64, value_is_object};
use crate::tokens::{LongLivedUserAccessToken, ShortLivedUserAccessToken};
use crate::urlenc::{Utf8Buf, form_enc};

/// Exchanges a short-lived user token for a long-lived one.
#[derive(Debug, Clone)]
pub struct ExchangeSlAccessTokenForLlAccessTokenEndpoint {
    client_secret: String,
    short_lived_access_token: ShortLivedUserAccessToken,
}

/// Ghost image of the exchange endpoint.
pub struct ExchangeView {
    pub client_secret: Seq<char>,
    pub short_lived_access_token: Seq<char>,
}

impl View for ExchangeSlAccessTokenForLlAccessTokenEndpoint {
    type V = ExchangeView;

    closed spec fn view(&self) -> ExchangeView {
        ExchangeView {
            client_secret: self.client_secret@,
            short_lived_access_token: self.short_lived_access_token@,
        }
    }
}

/// The URL of the exchange: `grant_type`, then the app secret, then the
/// short-lived token, each form-urlencoded.
pub open spec fn exchange_uri_bytes(e: ExchangeView) -> Seq<u8> {
    "https://graph.instagram.com/access_token?grant_type=ig_exchange_token&client_secret=".spec_bytes()
        + form_enc(encode_utf8(e.client_secret)) + "&access_token=".spec_bytes() + form_enc(
        encode_utf8(e.short_lived_access_token),
    )
}

/// The success payload of both token operations.
#[derive(Debug, Clone)]
pub struct ExchangeSlAccessTokenForLlAccessTokenResponseBody {
    pub access_token: String,
    pub token_type: String,
    pub expires_in: Option<u32>,
}

/// Ghost image of the token response payload.
pub struct TokenResponseBodyView {
    pub access_token: Seq<char>,
    pub token_type: Seq<char>,
    pub expires_in: Option<u32>,
}

impl View for ExchangeSlAccessTokenForLlAccessTokenResponseBody {
    type V = TokenResponseBodyView;

    open spec fn view(&self) -> TokenResponseBodyView {
        TokenResponseBodyView {
            access_token: self.access_token@,
            token_type: self.token_type@,
            expires_in: self.expires_in,
        }
    }
}

/// How a token response decodes: token and token type required, expiry
/// optional.
pub open spec fn dec_token_body(j: JsonData) -> Option<TokenResponseBodyView> {
    if !(j is Obj) {
        None
    } else {
        match jfield_str(j, "access_token"@) {
            None => None,
            Some(access_token) => match jfield_str(j, "token_type"@) {
                None => None,
                Some(token_type) => match jfield_opt_u64(j, "expires_in"@) {
                    None => None,
                    Some(e) => if e matches Some(x) && x > u32::MAX as u64 {
                        None
                    } else {
                        Some(
                            TokenResponseBodyView {
                                access_token,
                                token_type,
                                expires_in: match e {
                                    Some(x) => Some(x as u32),
                                    None => None,
                                },
                            },
                        )
                    },
                },
            },
        }
    }
}

/// The token payload a whole body decodes to.
pub open spec fn dec_token_doc(bytes: Seq<u8>) -> Option<TokenResponseBodyView> {
    match json_parse_doc(bytes) {
        Some(j) => dec_token_body(j),
        None => None,
    }
}

/// Decodes a token response payload.
pub fn decode_token_body(v: &serde_json::Value) -> (r: Option<
    ExchangeSlAccessTokenForLlAccessTokenResponseBody,
>)
    ensures
        match r {
            Some(b) => dec_token_body(json_of(*v)) == Some(b@),
            None => dec_token_body(json_of(*v)) is None,
        },
{
    if !value_is_object(v) {
        return None;
    }
    let access_token = match field_string(v, "access_token") {
        Some(x) => x,
        None => {
            return None;
        },
    };
    let token_type = match field_string(v, "token_type") {
        Some(x) => x,
        None => {
            return None;
        },
    };
    let expires_in = match field_opt_u64(v, "expires_in") {
        Some(None) => None,
        Some(Some(x)) => {
            if x > u32::MAX as u64 {
                return None;
            }
            Some(x as u32)
        },
        None => {
            return None;
        },
    };
    Some(ExchangeSlAccessTokenForLlAccessTokenResponseBody { access_token, token_type, expires_in })
}

impl ExchangeSlAccessTokenForLlAccessTokenEndpoint {
    pub fn new(app_secret: String, short_lived_access_token: ShortLivedUserAccessToken) -> (r:
        Self)
        ensures
            r@.client_secret == app_secret@,
            r@.short_lived_access_token == short_lived_access_token@,
    {
        ExchangeSlAccessTokenForLlAccessTokenEndpoint {
            client_secret: app_secret,
            short_lived_access_token,
        }
    }

    /// Renders the exchange request.  It always succeeds, with a GET whose
    /// URI is exactly [`exchange_uri_bytes`] of this endpoint's parameters.
    pub fn render_request(&self) -> (r: Result<HttpRequest, EndpointError>)
        ensures
            r matches Ok(req) && req.method == HttpMethod::Get && encode_utf8(req.uri@)
                == exchange_uri_bytes(self@) && req.user_agent@ == "instagram-basic-display-api"@
                && req.accept@ == "application/json"@ && req.body@ == Seq::<u8>::empty(),
    {
        let mut url = Utf8Buf::new();
        url.push_lit(
            "https://graph.instagram.com/access_token?grant_type=ig_exchange_token&client_secret=",
        );
        url.push_form(self.client_secret.as_str());
        url.push_lit("&access_token=");
        url.push_form(self.short_lived_access_token.inner().as_str());
        proof {
            assert(url@ =~= exchange_uri_bytes(self@));
        }
        Ok(
            HttpRequest {
                method: HttpMethod::Get,
                uri: url.into_string(),
                user_agent: "instagram-basic-display-api".to_owned(),
                accept: "application/json".to_owned(),
                body: Vec::new(),
            },
        )
    }

    /// Classifies the response: a 200 body must decode as the token
    /// payload; any other status carries the error envelope or the raw
    /// bytes.
    pub fn parse_response(&self, response: HttpResponse) -> (r: Result<
        EndpointRet<ExchangeSlAccessTokenForLlAccessTokenResponseBody>,
        EndpointError,
    >)
        ensures
            match r {
                Ok(ret) => match ret {
                    EndpointRet::Payload(body) => response.status == 200 && dec_token_doc(
                        response.body@,
                    ) == Some(body@),
                    EndpointRet::Other((st, Ok(e))) => st == response.status && response.status
                        != 200 && dec_err_doc(response.body@) == Some(e@),
                    EndpointRet::Other((st, Err(raw))) => st == response.status && response.status
                        != 200 && dec_err_doc(response.body@) is None && raw@ == response.body@,
                },
                Err(e) => e == EndpointError::DeResponseBodyFailed && response.status == 200
                    && dec_token_doc(response.body@) is None,
            },
    {
        if response.status == 200 {
            match json_from_slice(response.body.as_slice()) {
                Some(v) => match decode_token_body(&v) {
                    Some(b) => Ok(EndpointRet::Payload(b)),
                    None => Err(EndpointError::DeResponseBodyFailed),
                },
                None => Err(EndpointError::DeResponseBodyFailed),
            }
        } else {
            Ok(EndpointRet::Other((response.status, classify_error_body(&response.body))))
        }
    }
}

/// Refreshes a long-lived user token.
#[derive(Debug, Clone)]
pub struct RefreshAccessTokenEndpoint {
    long_lived_access_token: LongLivedUserAccessToken,
}

/// Ghost image of the refresh endpoint.
pub struct RefreshView {
    pub long_lived_access_token: Seq<char>,
}

impl View for RefreshAccessTokenEndpoint {
    type V = RefreshView;

    closed spec fn view(&self) -> RefreshView {
        RefreshView { long_lived_access_token: self.long_lived_access_token@ }
    }
}

/// The URL of the refresh: `grant_type`, then the long-lived token.
pub open spec fn refresh_uri_bytes(e: RefreshView) -> Seq<u8> {
    "https://graph.instagram.com/refresh_access_token?grant_type=ig_refresh_token&access_token=".spec_bytes()
        + form_enc(encode_utf8(e.long_lived_access_token))
}

/// The refresh returns the same payload shape as the exchange.
pub type RefreshAccessTokenResponseBody = ExchangeSlAccessTokenForLlAccessTokenResponseBody;

impl RefreshAccessTokenEndpoint {
    pub fn new(long_lived_access_token: LongLivedUserAccessToken) -> (r: Self)
        ensures
            r@.long_lived_access_token == long_lived_access_token@,
    {
        RefreshAccessTokenEndpoint { long_lived_access_token }
    }

    /// Renders the refresh request: a GET whose URI is exactly
    /// [`refresh_uri_bytes`] of this endpoint's token.
    pub fn render_request(&self) -> (r: Result<HttpRequest, EndpointError>)
        ensures
            r matches Ok(req) && req.method == HttpMethod::Get && encode_utf8(req.uri@)
                == refresh_uri_bytes(self@) && req.user_agent@ == "instagram-basic-display-api"@
                && req.accept@ == "application/json"@ && req.body@ == Seq::<u8>::empty(),
    {
        let mut url = Utf8Buf::new();
        url.push_lit(
            "https://graph.instagram.com/refresh_access_token?grant_type=ig_refresh_token&access_token=",
        );
        url.push_form(self.long_lived_access_token.inner().as_str());
        proof {
            assert(url@ =~= refresh_uri_bytes(self@));
        }
        Ok(
            HttpRequest {
                method: HttpMethod::Get,
                uri: url.into_string(),
                user_agent: "instagram-basic-display-api".to_owned(),
                accept: "application/json".to_owned(),
                body: Vec::new(),
            },
        )
    }

    /// Classifies the response, as the exchange does.
    pub fn parse_response(&self, response: HttpResponse) -> (r: Result<
        EndpointRet<RefreshAccessTokenResponseBody>,
        EndpointError,
    >)
        ensures
            match r {
                Ok(ret) => match ret {
                    EndpointRet::Payload(body) => response.status == 200 && dec_token_doc(
                        response.body@,
                    ) == Some(body@),
                    EndpointRet::Other((st, Ok(e))) => st == response.status && response.status
                        != 200 && dec_err_doc(response.body@) == Some(e@),
                    EndpointRet::Other((st, Err(raw))) => st == response.status && response.status
                        != 200 && dec_err_doc(response.body@) is None && raw@ == response.body@,
                },
                Err(e) => e == EndpointError::DeResponseBodyFailed && response.status == 200
                    && dec_token_doc(response.body@) is None,
            },
    {
        if response.status == 200 {
            match json_from_slice(response.body.as_slice()) {
                Some(v) => match decode_token_body(&v) {
                    Some(b) => Ok(EndpointRet::Payload(b)),
                    None => Err(EndpointError::DeResponseBodyFailed),
                },
                None => Err(EndpointError::DeResponseBodyFailed),
            }
        } else {
            Ok(EndpointRet::Other((response.status, classify_error_body(&response.body))))
        }
    }
}

} // verus!
