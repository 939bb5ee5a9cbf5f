//! Reading a user profile on the Basic Display surface.
//!
//! GET `/<version>/<user id or "me">?fields=<fields>` with the access token
//! last.  The field list covers the profile, and — when media is asked for —
//! the media edge with its own sub-selection; the whole value is
//! percent-encoded under the `fields` policy before being appended.

use vstd::prelude::*;

verus! {

use vstd::string::StringSliceAdditionalSpecFns;
use vstd::utf8::encode_utf8;
use crate::bd_common::{EndpointError, EndpointRet, dec_err_doc, classify_error_body};
use crate::bd_objects::{User, UserView, dec_user, decode_user};
use crate::bd_user_medias::{UserMediasResponseBody, UserMediasResponseBodyView,
    dec_user_medias_body, decode_user_medias_body};
use crate::bytestr::{u64_dec_bytes, u64_to_string};
use crate::httpmsg::{HttpMethod, HttpRequest, HttpResponse};
use crate::jsonval::{JsonData, json_of, json_parse_doc, json_from_slice, jget, get_field,
    value_is_object, value_is_null};
use crate::tokens::UserAccessToken;
use crate::urlenc::{Utf8Buf, fields_enc, version_segment};

/// Reads a user profile, optionally with the media edge.
#[derive(Debug, Clone)]
pub struct UserEndpoint {
    user_id: String,
    access_token: UserAccessToken,
    with_media: bool,
    api_version: Option<String>,
}

/// Ghost image of [`UserEndpoint`].
pub struct UserEndpointView {
    pub user_id: Seq<char>,
    pub access_token: Seq<char>,
    pub with_media: bool,
    pub api_version: Option<Seq<char>>,
}

impl View for UserEndpoint {
    type V = UserEndpointView;

    closed spec fn view(&self) -> UserEndpointView {
        UserEndpointView {
            user_id: self.user_id@,
            access_token: self.access_token@,
            with_media: self.with_media,
            api_version: self.api_version.deep_view(),
        }
    }
}

/// The profile field list: the three profile fields, plus the media count
/// and the media edge when media is asked for.
pub open spec fn user_fields(with_media: bool) -> Seq<char> {
    if with_media {
        "account_type,id,username,media_count,media.fields(caption,id,media_type,media_url,permalink,thumbnail_url,timestamp,username,children.fields(id,media_type,media_url,permalink,thumbnail_url,timestamp))"@
    } else {
        "account_type,id,username"@
    }
}

/// The profile URL: version segment, user id, the encoded field list, and
/// the token appended verbatim.
pub open spec fn user_uri_bytes(e: UserEndpointView) -> Seq<u8> {
    "https://graph.instagram.com/".spec_bytes() + encode_utf8(version_segment(e.api_version))
        + "/".spec_bytes() + encode_utf8(e.user_id) + "?fields=".spec_bytes() + fields_enc(
        encode_utf8(user_fields(e.with_media)),
    ) + "&access_token=".spec_bytes() + encode_utf8(e.access_token)
}

/// The profile payload: the user's own fields, and the media edge when it
/// was asked for and present.
#[derive(Debug, Clone)]
pub struct UserResponseBody {
    pub basic: User,
    pub media: Option<UserMediasResponseBody>,
}

/// Ghost image of [`UserResponseBody`].
pub struct UserResponseBodyView {
    pub basic: UserView,
    pub media: Option<UserMediasResponseBodyView>,
}

impl View for UserResponseBody {
    type V = UserResponseBodyView;

    open spec fn view(&self) -> UserResponseBodyView {
        UserResponseBodyView {
            basic: self.basic@,
            media: match self.media {
                Some(m) => Some(m@),
                None => None,
            },
        }
    }
}

/// How the profile payload decodes: the user's fields are read from the
/// object itself, and `media`, when present and not `null`, as a media page.
pub open spec fn dec_user_body(j: JsonData) -> Option<UserResponseBodyView> {
    match dec_user(j) {
        None => None,
        Some(basic) => match jget(j, "media"@) {
            None => Some(UserResponseBodyView { basic, media: None }),
            Some(JsonData::Null) => Some(UserResponseBodyView { basic, media: None }),
            Some(m) => match dec_user_medias_body(m) {
                None => None,
                Some(media) => Some(UserResponseBodyView { basic, media: Some(media) }),
            },
        },
    }
}

/// The profile payload a whole body decodes to.
pub open spec fn dec_user_doc(bytes: Seq<u8>) -> Option<UserResponseBodyView> {
    match json_parse_doc(bytes) {
        Some(j) => dec_user_body(j),
        None => None,
    }
}

/// Decodes the profile payload.
pub fn decode_user_body(v: &serde_json::Value) -> (r: Option<UserResponseBody>)
    ensures
        match r {
            Some(b) => dec_user_body(json_of(*v)) == Some(b@),
            None => dec_user_body(json_of(*v)) is None,
        },
{
    let basic = match decode_user(v) {
        Some(u) => u,
        None => {
            return None;
        },
    };
    let media = match get_field(v, "media") {
        None => None,
        Some(m) => {
            if value_is_null(m) {
                None
            } else {
                match decode_user_medias_body(m) {
                    Some(mb) => Some(mb),
                    None => {
                        return None;
                    },
                }
            }
        },
    };
    Some(UserResponseBody { basic, media })
}

/// Rendering is deterministic: two calls on the same endpoint value give
/// the same method, URI, headers and body.  The same argument reads off
/// every `render_request` contract in this crate, since each pins the
/// request to a function of the endpoint value alone.
pub proof fn lemma_render_request_deterministic(
    e: &UserEndpoint,
    r1: Result<HttpRequest, EndpointError>,
    r2: Result<HttpRequest, EndpointError>,
)
    requires
        call_ensures(UserEndpoint::render_request, (e,), r1),
        call_ensures(UserEndpoint::render_request, (e,), r2),
    ensures
        r1 matches Ok(a) && r2 matches Ok(b) && a.method == b.method && a.uri@ == b.uri@
            && a.user_agent@ == b.user_agent@ && a.accept@ == b.accept@ && a.body@ == b.body@,
{
    let a = r1->Ok_0;
    let b = r2->Ok_0;
    vstd::utf8::encode_utf8_decode_utf8(a.uri@);
    vstd::utf8::encode_utf8_decode_utf8(b.uri@);
}

impl UserEndpoint {
    pub fn new(user_id: u64, access_token: UserAccessToken, with_media: bool) -> (r: Self)
        ensures
            encode_utf8(r@.user_id) == u64_dec_bytes(user_id as nat),
            r@.access_token == access_token@,
            r@.with_media == with_media,
            r@.api_version is None,
    {
        UserEndpoint {
            user_id: u64_to_string(user_id),
            access_token,
            with_media,
            api_version: None,
        }
    }

    /// The profile of the calling user: the path segment is `me`.
    pub fn me(access_token: UserAccessToken, with_media: bool) -> (r: Self)
        ensures
            r@.user_id == "me"@,
            r@.access_token == access_token@,
            r@.with_media == with_media,
            r@.api_version is None,
    {
        UserEndpoint { user_id: "me".to_owned(), access_token, with_media, api_version: None }
    }

    /// Overrides the API version segment.  The tag is inserted verbatim, so
    /// it should be a plain `vMAJOR.MINOR` tag.
    pub fn with_api_version(self, api_version: String) -> (r: Self)
        ensures
            r@.api_version == Some(api_version@),
            r@.user_id == self@.user_id,
            r@.access_token == self@.access_token,
            r@.with_media == self@.with_media,
    {
        UserEndpoint { api_version: Some(api_version), ..self }
    }

    /// Renders the profile request: a GET whose URI is exactly
    /// [`user_uri_bytes`] of this endpoint's parameters.
    pub fn render_request(&self) -> (r: Result<HttpRequest, EndpointError>)
        ensures
            r matches Ok(req) && req.method == HttpMethod::Get && encode_utf8(req.uri@)
                == user_uri_bytes(self@) && req.user_agent@ == "instagram-basic-display-api"@
                && req.accept@ == "application/json"@ && req.body@ == Seq::<u8>::empty(),
    {
        let mut url = Utf8Buf::new();
        url.push_lit("https://graph.instagram.com/");
        match &self.api_version {
            Some(version) => url.push_lit(version.as_str()),
            None => url.push_lit("v15.0"),
        }
        url.push_lit("/");
        url.push_lit(self.user_id.as_str());
        url.push_lit("?fields=");
        if self.with_media {
            url.push_fields(
                "account_type,id,username,media_count,media.fields(caption,id,media_type,media_url,permalink,thumbnail_url,timestamp,username,children.fields(id,media_type,media_url,permalink,thumbnail_url,timestamp))",
            );
        } else {
            url.push_fields("account_type,id,username");
        }
        url.push_lit("&access_token=");
        url.push_lit(self.access_token.inner().as_str());
        proof {
            assert(url@ =~= user_uri_bytes(self@));
        }
        Ok(
            HttpRequest {
                method: HttpMethod::Get,
                uri: url.into_string(),
                user_agent: "instagram-basic-display-api".to_owned(),
                accept: "application/json".to_owned(),
                body: Vec::new(),
            },
        )
    }

    /// Classifies the response: a 200 body must decode as the profile
    /// payload; any other status carries the error envelope or the raw
    /// bytes.
    pub fn parse_response(&self, response: HttpResponse) -> (r: Result<
        EndpointRet<UserResponseBody>,
        EndpointError,
    >)
        ensures
            match r {
                Ok(ret) => match ret {
                    EndpointRet::Payload(body) => response.status == 200 && dec_user_doc(
                        response.body@,
                    ) == Some(body@),
                    EndpointRet::Other((st, Ok(e))) => st == response.status && response.status
                        != 200 && dec_err_doc(response.body@) == Some(e@),
                    EndpointRet::Other((st, Err(raw))) => st == response.status && response.status
                        != 200 && dec_err_doc(response.body@) is None && raw@ == response.body@,
                },
                Err(e) => e == EndpointError::DeResponseBodyFailed && response.status == 200
                    && dec_user_doc(response.body@) is None,
            },
    {
        if response.status == 200 {
            match json_from_slice(response.body.as_slice()) {
                Some(v) => match decode_user_body(&v) {
                    Some(b) => Ok(EndpointRet::Payload(b)),
                    None => Err(EndpointError::DeResponseBodyFailed),
                },
                None => Err(EndpointError::DeResponseBodyFailed),
            }
        } else {
            Ok(EndpointRet::Other((response.status, classify_error_body(&response.body))))
        }
    }
}

} // verus!
