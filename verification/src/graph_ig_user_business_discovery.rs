//! Business discovery: reading one account's profile and media from the
//! identity of another, through a nested `fields` sub-selection.
//!
//! A response saying the target cannot be found is a documented non-fatal
//! outcome: it is lifted into the success channel as
//! [`ReadingResponseBodyRet::CannotFindUser`] instead of surfacing as
//! `Other`.

use vstd::prelude::*;

verus! {

use vstd::string::StringSliceAdditionalSpecFns;
use vstd::utf8::encode_utf8;
use crate::apierror::cannot_find_user_spec;
use crate::bytestr::{i64_dec_bytes, u64_dec_bytes};
use crate::graph_bd_objects::{BdUserView, IgUserForIgUserBusinessDiscoveryReadingOperation,
    dec_bd_user, decode_bd_user};
use crate::graph_common::{EndpointError, EndpointRet, dec_err_doc, classify_error_body};
use crate::httpmsg::{HttpMethod, HttpRequest, HttpResponse};
use crate::jsonval::{JsonData, json_of, json_parse_doc, json_from_slice, jget, get_field,
    value_is_object};
use crate::urlenc::{Utf8Buf, form_enc, version_segment};

/// Reads another account by username, from this user's identity.
#[derive(Debug, Clone)]
pub struct Reading {
    pub ig_user_id: u64,
    pub username: String,
    pub media_limit: Option<usize>,
    /// Seconds since the Unix epoch; only media at or after this instant
    /// are asked for.
    pub media_since: Option<i64>,
    pub access_token: String,
    pub version: Option<String>,
}

/// The nested field selection: the profile fields, the media edge with its
/// optional `.since(...)` and `.limit(...)` refinements, and the media
/// sub-fields with their children.
pub open spec fn bd_fields_bytes(media_since: Option<i64>, media_limit: Option<usize>) -> Seq<
    u8,
> {
    "biography,id,ig_id,followers_count,follows_count,media_count,name,profile_picture_url,username,website,media".spec_bytes()
        + (match media_since {
        Some(s) => ".since(".spec_bytes() + i64_dec_bytes(s as int) + ")".spec_bytes(),
        None => Seq::<u8>::empty(),
    }) + (match media_limit {
        Some(n) => ".limit(".spec_bytes() + u64_dec_bytes(n as nat) + ")".spec_bytes(),
        None => Seq::<u8>::empty(),
    })
        + "{caption,comments_count,id,like_count,media_product_type,media_type,media_url,permalink,timestamp,children{id,media_type,media_url,permalink,timestamp}}".spec_bytes()
}

impl IgUserForIgUserBusinessDiscoveryReadingOperation {
    /// The field selection for a discovery read with the given media window.
    pub fn fields(media_since: Option<i64>, media_limit: Option<usize>) -> (r: String)
        ensures
            encode_utf8(r@) == bd_fields_bytes(media_since, media_limit),
    {
        let mut buf = Utf8Buf::new();
        buf.push_lit(
            "biography,id,ig_id,followers_count,follows_count,media_count,name,profile_picture_url,username,website,media",
        );
        match media_since {
            Some(s) => {
                buf.push_lit(".since(");
                buf.push_i64(s);
                buf.push_lit(")");
            },
            None => (),
        }
        match media_limit {
            Some(n) => {
                buf.push_lit(".limit(");
                buf.push_u64(n as u64);
                buf.push_lit(")");
            },
            None => (),
        }
        buf.push_lit(
            "{caption,comments_count,id,like_count,media_product_type,media_type,media_url,permalink,timestamp,children{id,media_type,media_url,permalink,timestamp}}",
        );
        proof {
            assert(buf@ =~= bd_fields_bytes(media_since, media_limit));
        }
        buf.into_string()
    }
}

/// The discovery URL: the whole nested selection travels raw in `fields`,
/// the username inserted verbatim; the token is form-urlencoded.
pub open spec fn reading_uri_bytes(e: Reading) -> Seq<u8> {
    "https://graph.facebook.com/".spec_bytes() + encode_utf8(
        version_segment(e.version.deep_view()),
    ) + "/".spec_bytes() + u64_dec_bytes(e.ig_user_id as nat)
        + "?fields=business_discovery.username(".spec_bytes() + encode_utf8(e.username@)
        + "){".spec_bytes() + bd_fields_bytes(e.media_since, e.media_limit) + "}".spec_bytes()
        + "&access_token=".spec_bytes() + form_enc(encode_utf8(e.access_token@))
}

/// The success payload: the discovered profile.
#[derive(Debug, Clone)]
pub struct ReadingResponseBodyOkJson {
    pub business_discovery: IgUserForIgUserBusinessDiscoveryReadingOperation,
}

impl View for ReadingResponseBodyOkJson {
    type V = BdUserView;

    open spec fn view(&self) -> BdUserView {
        self.business_discovery@
    }
}

/// What a discovery read comes to: the profile, or the documented
/// cannot-find-user outcome.
#[derive(Debug, Clone)]
pub enum ReadingResponseBodyRet {
    OkJson(ReadingResponseBodyOkJson),
    CannotFindUser,
}

impl ReadingResponseBodyRet {
    /// The profile, when the target was found.
    pub fn as_ok_json(&self) -> (r: Option<&ReadingResponseBodyOkJson>)
        ensures
            match self {
                ReadingResponseBodyRet::OkJson(b) => r matches Some(x) && x@ == b@,
                ReadingResponseBodyRet::CannotFindUser => r is None,
            },
    {
        match self {
            ReadingResponseBodyRet::OkJson(x) => Some(x),
            ReadingResponseBodyRet::CannotFindUser => None,
        }
    }
}

/// How the discovery payload decodes: the profile under a
/// `business_discovery` member.
pub open spec fn dec_bd_body(j: JsonData) -> Option<BdUserView> {
    match jget(j, "business_discovery"@) {
        Some(inner) => dec_bd_user(inner),
        None => None,
    }
}

/// The discovery payload a whole body decodes to.
pub open spec fn dec_bd_doc(bytes: Seq<u8>) -> Option<BdUserView> {
    match json_parse_doc(bytes) {
        Some(j) => dec_bd_body(j),
        None => None,
    }
}

/// Decodes the discovery payload.
pub fn decode_bd_body(v: &serde_json::Value) -> (r: Option<ReadingResponseBodyOkJson>)
    ensures
        match r {
            Some(b) => dec_bd_body(json_of(*v)) == Some(b@),
            None => dec_bd_body(json_of(*v)) is None,
        },
{
    match get_field(v, "business_discovery") {
        None => None,
        Some(inner) => match decode_bd_user(inner) {
            Some(u) => Some(ReadingResponseBodyOkJson { business_discovery: u }),
            None => None,
        },
    }
}

impl Reading {
    pub fn new(ig_user_id: u64, username: String, access_token: String, version: Option<
        String,
    >) -> (r: Self)
        ensures
            r.ig_user_id == ig_user_id,
            r.username@ == username@,
            r.media_limit is None,
            r.media_since is None,
            r.access_token@ == access_token@,
            r.version.deep_view() == version.deep_view(),
    {
        Reading {
            ig_user_id,
            username,
            media_limit: None,
            media_since: None,
            access_token,
            version,
        }
    }

    /// Asks for at most `value` media items.
    pub fn media_limit(self, value: usize) -> (r: Self)
        ensures
            r.media_limit == Some(value),
            r.ig_user_id == self.ig_user_id,
            r.username@ == self.username@,
            r.media_since == self.media_since,
            r.access_token@ == self.access_token@,
            r.version == self.version,
    {
        Reading { media_limit: Some(value), ..self }
    }

    /// Asks only for media at or after this instant, in seconds since the
    /// Unix epoch.
    pub fn media_since(self, value: i64) -> (r: Self)
        ensures
            r.media_since == Some(value),
            r.ig_user_id == self.ig_user_id,
            r.username@ == self.username@,
            r.media_limit == self.media_limit,
            r.access_token@ == self.access_token@,
            r.version == self.version,
    {
        Reading { media_since: Some(value), ..self }
    }

    /// Renders the discovery read: a GET whose URI is exactly
    /// [`reading_uri_bytes`] of this endpoint's parameters.
    #[verifier::rlimit(60)]
    pub fn render_request(&self) -> (r: Result<HttpRequest, EndpointError>)
        ensures
            r matches Ok(req) && req.method == HttpMethod::Get && encode_utf8(req.uri@)
                == reading_uri_bytes(*self) && req.user_agent@ == "instagram-graph-api"@
                && req.accept@ == "application/json"@ && req.body@ == Seq::<u8>::empty(),
    {
        let mut url = Utf8Buf::new();
        url.push_lit("https://graph.facebook.com/");
        match &self.version {
            Some(version) => url.push_lit(version.as_str()),
            None => url.push_lit("v15.0"),
        }
        url.push_lit("/");
        url.push_u64(self.ig_user_id);
        url.push_lit("?fields=business_discovery.username(");
        url.push_lit(self.username.as_str());
        url.push_lit("){");
        url.push_lit(
            "biography,id,ig_id,followers_count,follows_count,media_count,name,profile_picture_url,username,website,media",
        );
        match self.media_since {
            Some(s) => {
                url.push_lit(".since(");
                url.push_i64(s);
                url.push_lit(")");
            },
            None => (),
        }
        match self.media_limit {
            Some(n) => {
                url.push_lit(".limit(");
                url.push_u64(n as u64);
                url.push_lit(")");
            },
            None => (),
        }
        url.push_lit(
            "{caption,comments_count,id,like_count,media_product_type,media_type,media_url,permalink,timestamp,children{id,media_type,media_url,permalink,timestamp}}",
        );
        url.push_lit("}");
        url.push_lit("&access_token=");
        url.push_form(self.access_token.as_str());
        proof {
            assert(url@ =~= reading_uri_bytes(*self));
        }
        Ok(
            HttpRequest {
                method: HttpMethod::Get,
                uri: url.into_string(),
                user_agent: "instagram-graph-api".to_owned(),
                accept: "application/json".to_owned(),
                body: Vec::new(),
            },
        )
    }

    /// Classifies the response.  A 200 body must decode as the discovery
    /// payload.  A non-2xx envelope marking the target as not findable is
    /// lifted to `CannotFindUser`; any other non-2xx answer carries the
    /// envelope or the raw bytes.
    pub fn parse_response(&self, response: HttpResponse) -> (r: Result<
        EndpointRet<ReadingResponseBodyRet>,
        EndpointError,
    >)
        ensures
            match r {
                Ok(ret) => match ret {
                    EndpointRet::Payload(ReadingResponseBodyRet::OkJson(body)) => response.status
                        == 200 && dec_bd_doc(response.body@) == Some(body@),
                    EndpointRet::Payload(ReadingResponseBodyRet::CannotFindUser) => response.status
                        != 200 && (dec_err_doc(response.body@) matches Some(e)
                        && cannot_find_user_spec(e)),
                    EndpointRet::Other((st, Ok(e))) => st == response.status && response.status
                        != 200 && dec_err_doc(response.body@) == Some(e@)
                        && !cannot_find_user_spec(e@),
                    EndpointRet::Other((st, Err(raw))) => st == response.status && response.status
                        != 200 && dec_err_doc(response.body@) is None && raw@ == response.body@,
                },
                Err(e) => e == EndpointError::DeResponseBodyOkJsonFailed && response.status == 200
                    && dec_bd_doc(response.body@) is None,
            },
    {
        if response.status == 200 {
            match json_from_slice(response.body.as_slice()) {
                Some(v) => match decode_bd_body(&v) {
                    Some(b) => Ok(EndpointRet::Payload(ReadingResponseBodyRet::OkJson(b))),
                    None => Err(EndpointError::DeResponseBodyOkJsonFailed),
                },
                None => Err(EndpointError::DeResponseBodyOkJsonFailed),
            }
        } else {
            match classify_error_body(&response.body) {
                Ok(err_json) => {
                    if err_json.is_ig_user_business_discovery_cannot_find_user() {
                        Ok(EndpointRet::Payload(ReadingResponseBodyRet::CannotFindUser))
                    } else {
                        Ok(EndpointRet::Other((response.status, Ok(err_json))))
                    }
                },
                Err(raw) => Ok(EndpointRet::Other((response.status, Err(raw)))),
            }
        }
    }
}

} // verus!
