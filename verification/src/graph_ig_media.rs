//! Operations on one media: listing its comments, commenting on it, and
//! toggling whether comments are enabled.

use vstd::prelude::*;

verus! {

use vstd::string::StringSliceAdditionalSpecFns;
use vstd::utf8::encode_utf8;
use crate::bytestr::u64_dec_bytes;
use crate::graph_comment_objects::{IgCommentForIgMediaCommentsCreatingOperation,
    IgCommentForIgMediaCommentsReadingOperation, IgCommentMediaCreatingView,
    IgCommentMediaReadingView, dec_comment_media_creating, dec_comment_media_reading,
    decode_comment_media_creating, decode_comment_media_reading};
use crate::graph_common::{EndpointError, EndpointRet, dec_err_doc, dec_success_doc,
    classify_error_body, decode_success_body};
use crate::httpmsg::{HttpMethod, HttpRequest, HttpResponse};
use crate::jsonval::{JsonData, json_of, json_parse_doc, json_from_slice, jget, dec_elem_seq,
    lemma_dec_elem_seq_prefix_none, get_field, value_is_object, value_as_array, value_is_null};
use crate::paging::{Paging, PagingView, dec_paging, decode_paging};
use crate::urlenc::{Utf8Buf, form_enc, version_segment};

/// Lists a media's comments.
#[derive(Debug, Clone)]
pub struct Reading {
    pub ig_media_id: u64,
    pub limit: Option<usize>,
    pub after: Option<String>,
    pub access_token: String,
    pub version: Option<String>,
}

/// The comment-listing URL: the field list raw, the token, then `limit` and
/// `after` when set.
pub open spec fn reading_uri_bytes(e: Reading) -> Seq<u8> {
    "https://graph.facebook.com/".spec_bytes() + encode_utf8(
        version_segment(e.version.deep_view()),
    ) + "/".spec_bytes() + u64_dec_bytes(e.ig_media_id as nat)
        + "/comments?fields=from,hidden,id,like_count,text,timestamp,username,replies{from,hidden,id,like_count,parent_id,text,timestamp,username}&access_token=".spec_bytes()
        + form_enc(encode_utf8(e.access_token@)) + (match e.limit {
        Some(n) => "&limit=".spec_bytes() + u64_dec_bytes(n as nat),
        None => Seq::<u8>::empty(),
    }) + (match e.after.deep_view() {
        Some(a) => "&after=".spec_bytes() + form_enc(encode_utf8(a)),
        None => Seq::<u8>::empty(),
    })
}

/// A page of comments.
#[derive(Debug, Clone)]
pub struct ReadingResponseBodyOkJson {
    pub data: Vec<IgCommentForIgMediaCommentsReadingOperation>,
    pub paging: Option<Paging>,
}

/// Ghost image of [`ReadingResponseBodyOkJson`].
pub struct CommentsPageView {
    pub data: Seq<IgCommentMediaReadingView>,
    pub paging: Option<PagingView>,
}

impl View for ReadingResponseBodyOkJson {
    type V = CommentsPageView;

    open spec fn view(&self) -> CommentsPageView {
        CommentsPageView {
            data: self.data@.map_values(|c: IgCommentForIgMediaCommentsReadingOperation| c@),
            paging: match self.paging {
                Some(p) => Some(p@),
                None => None,
            },
        }
    }
}

/// The listed-comment decoder, as a value for sequence decoding.
pub open spec fn comment_reading_dec_fn() -> spec_fn(JsonData) -> Option<
    IgCommentMediaReadingView,
> {
    |j: JsonData| dec_comment_media_reading(j)
}

/// How a comment page decodes: a required `data` array, optional `paging`.
pub open spec fn dec_comments_page(j: JsonData) -> Option<CommentsPageView> {
    if !(j is Obj) {
        None
    } else {
        match jget(j, "data"@) {
            Some(JsonData::Arr(a)) => match dec_elem_seq(a, comment_reading_dec_fn()) {
                None => None,
                Some(data) => match jget(j, "paging"@) {
                    None => Some(CommentsPageView { data, paging: None }),
                    Some(JsonData::Null) => Some(CommentsPageView { data, paging: None }),
                    Some(p) => match dec_paging(p) {
                        None => None,
                        Some(paging) => Some(CommentsPageView { data, paging: Some(paging) }),
                    },
                },
            },
            _ => None,
        }
    }
}

/// The comment page a whole body decodes to.
pub open spec fn dec_comments_page_doc(bytes: Seq<u8>) -> Option<CommentsPageView> {
    match json_parse_doc(bytes) {
        Some(j) => dec_comments_page(j),
        None => None,
    }
}

/// Decodes a comment page.
#[verifier::loop_isolation(false)]
pub fn decode_comments_page(v: &serde_json::Value) -> (r: Option<ReadingResponseBodyOkJson>)
    ensures
        match r {
            Some(b) => dec_comments_page(json_of(*v)) == Some(b@),
            None => dec_comments_page(json_of(*v)) is None,
        },
{
    if !value_is_object(v) {
        return None;
    }
    let data_node = match get_field(v, "data") {
        None => {
            return None;
        },
        Some(x) => x,
    };
    let ghost jx = json_of(*data_node);
    let arr = match value_as_array(data_node) {
        None => {
            return None;
        },
        Some(a) => a,
    };
    let ghost aseq = jx->Arr_0;
    let mut data: Vec<IgCommentForIgMediaCommentsReadingOperation> = Vec::new();
    let mut i: usize = 0;
    while i < arr.len()
        invariant
            0 <= i <= arr@.len(),
            dec_elem_seq(aseq.subrange(0, i as int), comment_reading_dec_fn()) == Some(
                data@.map_values(|c: IgCommentForIgMediaCommentsReadingOperation| c@),
            ),
        decreases arr@.len() - i,
    {
        let ghost pre_map = data@.map_values(|c: IgCommentForIgMediaCommentsReadingOperation| c@);
        proof {
            let p2 = aseq.subrange(0, i + 1);
            assert(p2.drop_last() =~= aseq.subrange(0, i as int));
            assert(p2.last() == aseq[i as int]);
        }
        match decode_comment_media_reading(&arr[i]) {
            Some(c) => {
                data.push(c);
                proof {
                    assert(data@.map_values(|c: IgCommentForIgMediaCommentsReadingOperation| c@)
                        =~= pre_map.push(data@.last()@));
                }
            },
            None => {
                proof {
                    lemma_dec_elem_seq_prefix_none(aseq, comment_reading_dec_fn(), i + 1);
                }
                return None;
            },
        }
        i = i + 1;
    }
    proof {
        assert(aseq.subrange(0, aseq.len() as int) =~= aseq);
    }
    let paging = match get_field(v, "paging") {
        None => None,
        Some(p) => {
            if value_is_null(p) {
                None
            } else {
                match decode_paging(p) {
                    Some(pg) => Some(pg),
                    None => {
                        return None;
                    },
                }
            }
        },
    };
    Some(ReadingResponseBodyOkJson { data, paging })
}

impl Reading {
    pub fn new(ig_media_id: u64, access_token: String, version: Option<String>) -> (r: Self)
        ensures
            r.ig_media_id == ig_media_id,
            r.limit is None,
            r.after is None,
            r.access_token@ == access_token@,
            r.version.deep_view() == version.deep_view(),
    {
        Reading { ig_media_id, limit: None, after: None, access_token, version }
    }

    /// Asks for at most `value` comments.
    pub fn limit(self, value: usize) -> (r: Self)
        ensures
            r.limit == Some(value),
            r.ig_media_id == self.ig_media_id,
            r.after == self.after,
            r.access_token@ == self.access_token@,
            r.version == self.version,
    {
        Reading { limit: Some(value), ..self }
    }

    /// Resumes after a cursor.
    pub fn after(self, value: String) -> (r: Self)
        ensures
            r.after.deep_view() == Some(value@),
            r.ig_media_id == self.ig_media_id,
            r.limit == self.limit,
            r.access_token@ == self.access_token@,
            r.version == self.version,
    {
        Reading { after: Some(value), ..self }
    }

    /// Renders the listing: a GET whose URI is exactly
    /// [`reading_uri_bytes`] of this endpoint's parameters.
    #[verifier::rlimit(60)]
    pub fn render_request(&self) -> (r: Result<HttpRequest, EndpointError>)
        ensures
            r matches Ok(req) && req.method == HttpMethod::Get && encode_utf8(req.uri@)
                == reading_uri_bytes(*self) && req.user_agent@ == "instagram-graph-api"@
                && req.accept@ == "application/json"@ && req.body@ == Seq::<u8>::empty(),
    {
        let mut url = Utf8Buf::new();
        url.push_lit("https://graph.facebook.com/");
        match &self.version {
            Some(version) => url.push_lit(version.as_str()),
            None => url.push_lit("v15.0"),
        }
        url.push_lit("/");
        url.push_u64(self.ig_media_id);
        url.push_lit(
            "/comments?fields=from,hidden,id,like_count,text,timestamp,username,replies{from,hidden,id,like_count,parent_id,text,timestamp,username}&access_token=",
        );
        url.push_form(self.access_token.as_str());
        match self.limit {
            Some(n) => {
                url.push_lit("&limit=");
                url.push_u64(n as u64);
            },
            None => (),
        }
        match &self.after {
            Some(a) => {
                url.push_lit("&after=");
                url.push_form(a.as_str());
            },
            None => (),
        }
        proof {
            assert(url@ =~= reading_uri_bytes(*self));
        }
        Ok(
            HttpRequest {
                method: HttpMethod::Get,
                uri: url.into_string(),
                user_agent: "instagram-graph-api".to_owned(),
                accept: "application/json".to_owned(),
                body: Vec::new(),
            },
        )
    }

    /// Classifies the response: a 200 body must decode as a comment page;
    /// any other status carries the error envelope or the raw bytes.
    pub fn parse_response(&self, response: HttpResponse) -> (r: Result<
        EndpointRet<ReadingResponseBodyOkJson>,
        EndpointError,
    >)
        ensures
            match r {
                Ok(ret) => match ret {
                    EndpointRet::Payload(body) => response.status == 200 && dec_comments_page_doc(
                        response.body@,
                    ) == Some(body@),
                    EndpointRet::Other((st, Ok(e))) => st == response.status && response.status
                        != 200 && dec_err_doc(response.body@) == Some(e@),
                    EndpointRet::Other((st, Err(raw))) => st == response.status && response.status
                        != 200 && dec_err_doc(response.body@) is None && raw@ == response.body@,
                },
                Err(e) => e == EndpointError::DeResponseBodyOkJsonFailed && response.status == 200
                    && dec_comments_page_doc(response.body@) is None,
            },
    {
        if response.status == 200 {
            match json_from_slice(response.body.as_slice()) {
                Some(v) => match decode_comments_page(&v) {
                    Some(b) => Ok(EndpointRet::Payload(b)),
                    None => Err(EndpointError::DeResponseBodyOkJsonFailed),
                },
                None => Err(EndpointError::DeResponseBodyOkJsonFailed),
            }
        } else {
            Ok(EndpointRet::Other((response.status, classify_error_body(&response.body))))
        }
    }
}

/// Creates a comment on a media.
#[derive(Debug, Clone)]
pub struct Creating {
    pub ig_media_id: u64,
    pub message: String,
    pub access_token: String,
    pub version: Option<String>,
}

/// The comment-creation URL: the field list raw, the message and token
/// form-urlencoded.
pub open spec fn creating_uri_bytes(e: Creating) -> Seq<u8> {
    "https://graph.facebook.com/".spec_bytes() + encode_utf8(
        version_segment(e.version.deep_view()),
    ) + "/".spec_bytes() + u64_dec_bytes(e.ig_media_id as nat)
        + "/comments?fields=from,hidden,id,like_count,text,timestamp,username&message=".spec_bytes()
        + form_enc(encode_utf8(e.message@)) + "&access_token=".spec_bytes() + form_enc(
        encode_utf8(e.access_token@),
    )
}

/// The success payload: the created comment.
pub type CreatingResponseBodyOkJson = IgCommentForIgMediaCommentsCreatingOperation;

/// The created comment a whole body decodes to.
pub open spec fn dec_created_comment_doc(bytes: Seq<u8>) -> Option<IgCommentMediaCreatingView> {
    match json_parse_doc(bytes) {
        Some(j) => dec_comment_media_creating(j),
        None => None,
    }
}

impl Creating {
    pub fn new(ig_media_id: u64, message: String, access_token: String, version: Option<
        String,
    >) -> (r: Self)
        ensures
            r.ig_media_id == ig_media_id,
            r.message@ == message@,
            r.access_token@ == access_token@,
            r.version.deep_view() == version.deep_view(),
    {
        Creating { ig_media_id, message, access_token, version }
    }

    /// Renders the creation: a POST whose URI is exactly
    /// [`creating_uri_bytes`] of this endpoint's parameters.
    pub fn render_request(&self) -> (r: Result<HttpRequest, EndpointError>)
        ensures
            r matches Ok(req) && req.method == HttpMethod::Post && encode_utf8(req.uri@)
                == creating_uri_bytes(*self) && req.user_agent@ == "instagram-graph-api"@
                && req.accept@ == "application/json"@ && req.body@ == Seq::<u8>::empty(),
    {
        let mut url = Utf8Buf::new();
        url.push_lit("https://graph.facebook.com/");
        match &self.version {
            Some(version) => url.push_lit(version.as_str()),
            None => url.push_lit("v15.0"),
        }
        url.push_lit("/");
        url.push_u64(self.ig_media_id);
        url.push_lit("/comments?fields=from,hidden,id,like_count,text,timestamp,username&message=");
        url.push_form(self.message.as_str());
        url.push_lit("&access_token=");
        url.push_form(self.access_token.as_str());
        proof {
            assert(url@ =~= creating_uri_bytes(*self));
        }
        Ok(
            HttpRequest {
                method: HttpMethod::Post,
                uri: url.into_string(),
                user_agent: "instagram-graph-api".to_owned(),
                accept: "application/json".to_owned(),
                body: Vec::new(),
            },
        )
    }

    /// Classifies the response: a 200 body must decode as the created
    /// comment; any other status carries the error envelope or the raw
    /// bytes.
    pub fn parse_response(&self, response: HttpResponse) -> (r: Result<
        EndpointRet<CreatingResponseBodyOkJson>,
        EndpointError,
    >)
        ensures
            match r {
                Ok(ret) => match ret {
                    EndpointRet::Payload(body) => response.status == 200
                        && dec_created_comment_doc(response.body@) == Some(body@),
                    EndpointRet::Other((st, Ok(e))) => st == response.status && response.status
                        != 200 && dec_err_doc(response.body@) == Some(e@),
                    EndpointRet::Other((st, Err(raw))) => st == response.status && response.status
                        != 200 && dec_err_doc(response.body@) is None && raw@ == response.body@,
                },
                Err(e) => e == EndpointError::DeResponseBodyOkJsonFailed && response.status == 200
                    && dec_created_comment_doc(response.body@) is None,
            },
    {
        if response.status == 200 {
            match json_from_slice(response.body.as_slice()) {
                Some(v) => match decode_comment_media_creating(&v) {
                    Some(b) => Ok(EndpointRet::Payload(b)),
                    None => Err(EndpointError::DeResponseBodyOkJsonFailed),
                },
                None => Err(EndpointError::DeResponseBodyOkJsonFailed),
            }
        } else {
            Ok(EndpointRet::Other((response.status, classify_error_body(&response.body))))
        }
    }
}

/// Enables or disables commenting on a media.
#[derive(Debug, Clone)]
pub struct UpdatingWithEnableOrDisableComments {
    pub ig_media_id: u64,
    pub comment_enabled: bool,
    pub access_token: String,
    pub version: Option<String>,
}

/// The toggle URL: the flag as lowercase `true`/`false`, then the token.
pub open spec fn updating_comments_uri_bytes(e: UpdatingWithEnableOrDisableComments) -> Seq<u8> {
    "https://graph.facebook.com/".spec_bytes() + encode_utf8(
        version_segment(e.version.deep_view()),
    ) + "/".spec_bytes() + u64_dec_bytes(e.ig_media_id as nat) + "?comment_enabled=".spec_bytes()
        + (if e.comment_enabled {
        "true".spec_bytes()
    } else {
        "false".spec_bytes()
    }) + "&access_token=".spec_bytes() + form_enc(encode_utf8(e.access_token@))
}

/// The toggle acknowledgement.
#[derive(Debug, Clone, PartialEq, Eq, Structural)]
pub struct UpdatingWithEnableOrDisableCommentsResponseBodyOkJson {
    pub success: bool,
}

impl UpdatingWithEnableOrDisableComments {
    pub fn new(ig_media_id: u64, comment_enabled: bool, access_token: String, version: Option<
        String,
    >) -> (r: Self)
        ensures
            r.ig_media_id == ig_media_id,
            r.comment_enabled == comment_enabled,
            r.access_token@ == access_token@,
            r.version.deep_view() == version.deep_view(),
    {
        UpdatingWithEnableOrDisableComments { ig_media_id, comment_enabled, access_token, version }
    }

    /// Renders the toggle: a POST whose URI is exactly
    /// [`updating_comments_uri_bytes`] of this endpoint's parameters.
    pub fn render_request(&self) -> (r: Result<HttpRequest, EndpointError>)
        ensures
            r matches Ok(req) && req.method == HttpMethod::Post && encode_utf8(req.uri@)
                == updating_comments_uri_bytes(*self) && req.user_agent@
                == "instagram-graph-api"@ && req.accept@ == "application/json"@ && req.body@
                == Seq::<u8>::empty(),
    {
        let mut url = Utf8Buf::new();
        url.push_lit("https://graph.facebook.com/");
        match &self.version {
            Some(version) => url.push_lit(version.as_str()),
            None => url.push_lit("v15.0"),
        }
        url.push_lit("/");
        url.push_u64(self.ig_media_id);
        url.push_lit("?comment_enabled=");
        if self.comment_enabled {
            url.push_lit("true");
        } else {
            url.push_lit("false");
        }
        url.push_lit("&access_token=");
        url.push_form(self.access_token.as_str());
        proof {
            assert(url@ =~= updating_comments_uri_bytes(*self));
        }
        Ok(
            HttpRequest {
                method: HttpMethod::Post,
                uri: url.into_string(),
                user_agent: "instagram-graph-api".to_owned(),
                accept: "application/json".to_owned(),
                body: Vec::new(),
            },
        )
    }

    /// Classifies the response: a 200 body must decode as the
    /// acknowledgement; any other status carries the error envelope or the
    /// raw bytes.
    pub fn parse_response(&self, response: HttpResponse) -> (r: Result<
        EndpointRet<UpdatingWithEnableOrDisableCommentsResponseBodyOkJson>,
        EndpointError,
    >)
        ensures
            match r {
                Ok(ret) => match ret {
                    EndpointRet::Payload(body) => response.status == 200 && dec_success_doc(
                        response.body@,
                    ) == Some(body.success),
                    EndpointRet::Other((st, Ok(e))) => st == response.status && response.status
                        != 200 && dec_err_doc(response.body@) == Some(e@),
                    EndpointRet::Other((st, Err(raw))) => st == response.status && response.status
                        != 200 && dec_err_doc(response.body@) is None && raw@ == response.body@,
                },
                Err(e) => e == EndpointError::DeResponseBodyOkJsonFailed && response.status == 200
                    && dec_success_doc(response.body@) is None,
            },
    {
        if response.status == 200 {
            match json_from_slice(response.body.as_slice()) {
                Some(v) => match decode_success_body(&v) {
                    Some(success) => Ok(
                        EndpointRet::Payload(
                            UpdatingWithEnableOrDisableCommentsResponseBodyOkJson { success },
                        ),
                    ),
                    None => Err(EndpointError::DeResponseBodyOkJsonFailed),
                },
                None => Err(EndpointError::DeResponseBodyOkJsonFailed),
            }
        } else {
            Ok(EndpointRet::Other((response.status, classify_error_body(&response.body))))
        }
    }
}

} // verus!
