//! Listing a user's media on the Basic Display surface.
//!
//! GET `/<version>/<user id or "me">/media?fields=<MEDIA_FIELDS, encoded>`
//! with optional `limit` and `after`, the access token always last.  The
//! optional pairs appear only when set, in exactly that order.

use vstd::prelude::*;

verus! {

use vstd::string::StringSliceAdditionalSpecFns;
use vstd::utf8::encode_utf8;
use crate::bd_common::{EndpointError, EndpointRet, dec_err_doc, classify_error_body};
use crate::bd_objects::{Media, MediaView, dec_media, decode_media};
use crate::bytestr::{u64_dec_bytes, u64_to_string};
use crate::httpmsg::{HttpMethod, HttpRequest, HttpResponse};
use crate::jsonval::{JsonData, json_of, json_parse_doc, json_from_slice, jget, dec_elem_seq,
    lemma_dec_elem_seq_prefix_none, get_field, value_is_object, value_as_array, value_is_null};
use crate::paging::{Paging, PagingView, dec_paging, decode_paging};
use crate::urlenc::{Utf8Buf, fields_enc, version_segment};

/// The media fields every listing asks for, children included.
pub const MEDIA_FIELDS: &'static str =
    "caption,id,media_type,media_url,permalink,thumbnail_url,timestamp,username,children.fields(id,media_type,media_url,permalink,thumbnail_url,timestamp)";

/// Lists a user's media.
#[derive(Debug, Clone)]
pub struct UserMediasEndpoint {
    user_id: String,
    access_token: String,
    limit: Option<usize>,
    after: Option<String>,
    api_version: Option<String>,
}

/// Ghost image of [`UserMediasEndpoint`].
pub struct UserMediasEndpointView {
    pub user_id: Seq<char>,
    pub access_token: Seq<char>,
    pub limit: Option<usize>,
    pub after: Option<Seq<char>>,
    pub api_version: Option<Seq<char>>,
}

impl View for UserMediasEndpoint {
    type V = UserMediasEndpointView;

    closed spec fn view(&self) -> UserMediasEndpointView {
        UserMediasEndpointView {
            user_id: self.user_id@,
            access_token: self.access_token@,
            limit: self.limit,
            after: self.after.deep_view(),
            api_version: self.api_version.deep_view(),
        }
    }
}

/// The listing URL: the encoded field list, then `limit` and `after` when
/// set, then the token, appended verbatim.
pub open spec fn user_medias_uri_bytes(e: UserMediasEndpointView) -> Seq<u8> {
    "https://graph.instagram.com/".spec_bytes() + encode_utf8(version_segment(e.api_version))
        + "/".spec_bytes() + encode_utf8(e.user_id) + "/media?fields=".spec_bytes() + fields_enc(
        encode_utf8(MEDIA_FIELDS@),
    ) + (match e.limit {
        Some(n) => "&limit=".spec_bytes() + u64_dec_bytes(n as nat),
        None => Seq::<u8>::empty(),
    }) + (match e.after {
        Some(a) => "&after=".spec_bytes() + encode_utf8(a),
        None => Seq::<u8>::empty(),
    }) + "&access_token=".spec_bytes() + encode_utf8(e.access_token)
}

/// A page of media.
#[derive(Debug, Clone)]
pub struct UserMediasResponseBody {
    pub data: Vec<Media>,
    pub paging: Option<Paging>,
}

/// Ghost image of [`UserMediasResponseBody`].
pub struct UserMediasResponseBodyView {
    pub data: Seq<MediaView>,
    pub paging: Option<PagingView>,
}

impl View for UserMediasResponseBody {
    type V = UserMediasResponseBodyView;

    open spec fn view(&self) -> UserMediasResponseBodyView {
        UserMediasResponseBodyView {
            data: self.data@.map_values(|m: Media| m@),
            paging: match self.paging {
                Some(p) => Some(p@),
                None => None,
            },
        }
    }
}

/// The media decoder, as a value for sequence decoding.
pub open spec fn media_dec_fn() -> spec_fn(JsonData) -> Option<MediaView> {
    |j: JsonData| dec_media(j)
}

/// How a media page decodes: a required `data` array of media, and an
/// optional `paging` node.
pub open spec fn dec_user_medias_body(j: JsonData) -> Option<UserMediasResponseBodyView> {
    if !(j is Obj) {
        None
    } else {
        match jget(j, "data"@) {
            Some(JsonData::Arr(a)) => match dec_elem_seq(a, media_dec_fn()) {
                None => None,
                Some(data) => match jget(j, "paging"@) {
                    None => Some(UserMediasResponseBodyView { data, paging: None }),
                    Some(JsonData::Null) => Some(UserMediasResponseBodyView { data, paging: None }),
                    Some(p) => match dec_paging(p) {
                        None => None,
                        Some(paging) => Some(
                            UserMediasResponseBodyView { data, paging: Some(paging) },
                        ),
                    },
                },
            },
            _ => None,
        }
    }
}

/// The media page a whole body decodes to.
pub open spec fn dec_user_medias_doc(bytes: Seq<u8>) -> Option<UserMediasResponseBodyView> {
    match json_parse_doc(bytes) {
        Some(j) => dec_user_medias_body(j),
        None => None,
    }
}

/// Decodes a media page.
#[verifier::loop_isolation(false)]
pub fn decode_user_medias_body(v: &serde_json::Value) -> (r: Option<UserMediasResponseBody>)
    ensures
        match r {
            Some(b) => dec_user_medias_body(json_of(*v)) == Some(b@),
            None => dec_user_medias_body(json_of(*v)) is None,
        },
{
    if !value_is_object(v) {
        return None;
    }
    let data_node = match get_field(v, "data") {
        None => {
            return None;
        },
        Some(x) => x,
    };
    let ghost jx = json_of(*data_node);
    let arr = match value_as_array(data_node) {
        None => {
            return None;
        },
        Some(a) => a,
    };
    let ghost aseq = jx->Arr_0;
    let mut data: Vec<Media> = Vec::new();
    let mut i: usize = 0;
    while i < arr.len()
        invariant
            0 <= i <= arr@.len(),
            dec_elem_seq(aseq.subrange(0, i as int), media_dec_fn()) == Some(
                data@.map_values(|m: Media| m@),
            ),
        decreases arr@.len() - i,
    {
        let ghost pre_map = data@.map_values(|m: Media| m@);
        proof {
            let p2 = aseq.subrange(0, i + 1);
            assert(p2.drop_last() =~= aseq.subrange(0, i as int));
            assert(p2.last() == aseq[i as int]);
        }
        match decode_media(&arr[i]) {
            Some(m) => {
                data.push(m);
                proof {
                    assert(data@.map_values(|m: Media| m@) =~= pre_map.push(data@.last()@));
                }
            },
            None => {
                proof {
                    lemma_dec_elem_seq_prefix_none(aseq, media_dec_fn(), i + 1);
                }
                return None;
            },
        }
        i = i + 1;
    }
    proof {
        assert(aseq.subrange(0, aseq.len() as int) =~= aseq);
    }
    let paging = match get_field(v, "paging") {
        None => None,
        Some(p) => {
            if value_is_null(p) {
                None
            } else {
                match decode_paging(p) {
                    Some(pg) => Some(pg),
                    None => {
                        return None;
                    },
                }
            }
        },
    };
    Some(UserMediasResponseBody { data, paging })
}

impl UserMediasEndpoint {
    pub fn new(user_id: u64, access_token: String, limit: Option<usize>, after: Option<
        String,
    >) -> (r: Self)
        ensures
            encode_utf8(r@.user_id) == u64_dec_bytes(user_id as nat),
            r@.access_token == access_token@,
            r@.limit == limit,
            r@.after == after.deep_view(),
            r@.api_version is None,
    {
        UserMediasEndpoint {
            user_id: u64_to_string(user_id),
            access_token,
            limit,
            after,
            api_version: None,
        }
    }

    /// The listing for the calling user: the path segment is `me`.
    pub fn me(access_token: String, limit: Option<usize>, after: Option<String>) -> (r: Self)
        ensures
            r@.user_id == "me"@,
            r@.access_token == access_token@,
            r@.limit == limit,
            r@.after == after.deep_view(),
            r@.api_version is None,
    {
        UserMediasEndpoint {
            user_id: "me".to_owned(),
            access_token,
            limit,
            after,
            api_version: None,
        }
    }

    /// Overrides the API version segment.  The tag is inserted verbatim, so
    /// it should be a plain `vMAJOR.MINOR` tag.
    pub fn with_api_version(self, api_version: String) -> (r: Self)
        ensures
            r@.api_version == Some(api_version@),
            r@.user_id == self@.user_id,
            r@.access_token == self@.access_token,
            r@.limit == self@.limit,
            r@.after == self@.after,
    {
        UserMediasEndpoint { api_version: Some(api_version), ..self }
    }

    /// Renders the listing request: a GET whose URI is exactly
    /// [`user_medias_uri_bytes`] of this endpoint's parameters.
    #[verifier::rlimit(60)]
    pub fn render_request(&self) -> (r: Result<HttpRequest, EndpointError>)
        ensures
            r matches Ok(req) && req.method == HttpMethod::Get && encode_utf8(req.uri@)
                == user_medias_uri_bytes(self@) && req.user_agent@
                == "instagram-basic-display-api"@ && req.accept@ == "application/json"@
                && req.body@ == Seq::<u8>::empty(),
    {
        let mut url = Utf8Buf::new();
        url.push_lit("https://graph.instagram.com/");
        match &self.api_version {
            Some(version) => url.push_lit(version.as_str()),
            None => url.push_lit("v15.0"),
        }
        url.push_lit("/");
        url.push_lit(self.user_id.as_str());
        url.push_lit("/media?fields=");
        url.push_fields(MEDIA_FIELDS);
        match self.limit {
            Some(n) => {
                url.push_lit("&limit=");
                url.push_u64(n as u64);
            },
            None => (),
        }
        match &self.after {
            Some(a) => {
                url.push_lit("&after=");
                url.push_lit(a.as_str());
            },
            None => (),
        }
        url.push_lit("&access_token=");
        url.push_lit(self.access_token.as_str());
        proof {
            assert(url@ =~= user_medias_uri_bytes(self@));
        }
        Ok(
            HttpRequest {
                method: HttpMethod::Get,
                uri: url.into_string(),
                user_agent: "instagram-basic-display-api".to_owned(),
                accept: "application/json".to_owned(),
                body: Vec::new(),
            },
        )
    }

    /// Classifies the response: a 200 body must decode as a media page; any
    /// other status carries the error envelope or the raw bytes.
    pub fn parse_response(&self, response: HttpResponse) -> (r: Result<
        EndpointRet<UserMediasResponseBody>,
        EndpointError,
    >)
        ensures
            match r {
                Ok(ret) => match ret {
                    EndpointRet::Payload(body) => response.status == 200 && dec_user_medias_doc(
                        response.body@,
                    ) == Some(body@),
                    EndpointRet::Other((st, Ok(e))) => st == response.status && response.status
                        != 200 && dec_err_doc(response.body@) == Some(e@),
                    EndpointRet::Other((st, Err(raw))) => st == response.status && response.status
                        != 200 && dec_err_doc(response.body@) is None && raw@ == response.body@,
                },
                Err(e) => e == EndpointError::DeResponseBodyFailed && response.status == 200
                    && dec_user_medias_doc(response.body@) is None,
            },
    {
        if response.status == 200 {
            match json_from_slice(response.body.as_slice()) {
                Some(v) => match decode_user_medias_body(&v) {
                    Some(b) => Ok(EndpointRet::Payload(b)),
                    None => Err(EndpointError::DeResponseBodyFailed),
                },
                None => Err(EndpointError::DeResponseBodyFailed),
            }
        } else {
            Ok(EndpointRet::Other((response.status, classify_error_body(&response.body))))
        }
    }
}

} // verus!
