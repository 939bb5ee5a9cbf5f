//! Creating a reply under a comment: the analogous create on the parent
//! comment's `replies` collection.
//!
//! POST `/<version>/<comment id>/replies?fields=<reply fields>&message=<msg>`
//! with the access token last.

use vstd::prelude::*;

verus! {

use vstd::string::StringSliceAdditionalSpecFns;
use vstd::utf8::encode_utf8;
use crate::bytestr::u64_dec_bytes;
use crate::graph_comment_objects::{IgCommentAsReply, IgCommentAsReplyView, dec_reply,
    decode_reply};
use crate::graph_common::{EndpointError, EndpointRet, dec_err_doc, classify_error_body};
use crate::httpmsg::{HttpMethod, HttpRequest, HttpResponse};
use crate::jsonval::{json_of, json_parse_doc, json_from_slice};
use crate::urlenc::{Utf8Buf, form_enc, version_segment};

/// Creates a reply under a parent comment.
#[derive(Debug, Clone)]
pub struct Creating {
    pub ig_comment_id: u64,
    pub message: String,
    pub access_token: String,
    pub version: Option<String>,
}

/// The reply-creation URL: the reply field list raw, the message and token
/// form-urlencoded.
pub open spec fn creating_uri_bytes(e: Creating) -> Seq<u8> {
    "https://graph.facebook.com/".spec_bytes() + encode_utf8(
        version_segment(e.version.deep_view()),
    ) + "/".spec_bytes() + u64_dec_bytes(e.ig_comment_id as nat)
        + "/replies?fields=from,hidden,id,like_count,parent_id,text,timestamp,username&message=".spec_bytes()
        + form_enc(encode_utf8(e.message@)) + "&access_token=".spec_bytes() + form_enc(
        encode_utf8(e.access_token@),
    )
}

/// The success payload: the created reply.
pub type CreatingResponseBodyOkJson = IgCommentAsReply;

/// The created reply a whole body decodes to.
pub open spec fn dec_created_reply_doc(bytes: Seq<u8>) -> Option<IgCommentAsReplyView> {
    match json_parse_doc(bytes) {
        Some(j) => dec_reply(j),
        None => None,
    }
}

impl Creating {
    pub fn new(ig_comment_id: u64, message: String, access_token: String, version: Option<
        String,
    >) -> (r: Self)
        ensures
            r.ig_comment_id == ig_comment_id,
            r.message@ == message@,
            r.access_token@ == access_token@,
            r.version.deep_view() == version.deep_view(),
    {
        Creating { ig_comment_id, message, access_token, version }
    }

    /// Renders the creation: a POST whose URI is exactly
    /// [`creating_uri_bytes`] of this endpoint's parameters.
    pub fn render_request(&self) -> (r: Result<HttpRequest, EndpointError>)
        ensures
            r matches Ok(req) && req.method == HttpMethod::Post && encode_utf8(req.uri@)
                == creating_uri_bytes(*self) && req.user_agent@ == "instagram-graph-api"@
                && req.accept@ == "application/json"@ && req.body@ == Seq::<u8>::empty(),
    {
        let mut url = Utf8Buf::new();
        url.push_lit("https://graph.facebook.com/");
        match &self.version {
            Some(version) => url.push_lit(version.as_str()),
            None => url.push_lit("v15.0"),
        }
        url.push_lit("/");
        url.push_u64(self.ig_comment_id);
        url.push_lit(
            "/replies?fields=from,hidden,id,like_count,parent_id,text,timestamp,username&message=",
        );
        url.push_form(self.message.as_str());
        url.push_lit("&access_token=");
        url.push_form(self.access_token.as_str());
        proof {
            assert(url@ =~= creating_uri_bytes(*self));
        }
        Ok(
            HttpRequest {
                method: HttpMethod::Post,
                uri: url.into_string(),
                user_agent: "instagram-graph-api".to_owned(),
                accept: "application/json".to_owned(),
                body: Vec::new(),
            },
        )
    }

    /// Classifies the response: a 200 body must decode as the created
    /// reply; any other status carries the error envelope or the raw bytes.
    pub fn parse_response(&self, response: HttpResponse) -> (r: Result<
        EndpointRet<CreatingResponseBodyOkJson>,
        EndpointError,
    >)
        ensures
            match r {
                Ok(ret) => match ret {
                    EndpointRet::Payload(body) => response.status == 200 && dec_created_reply_doc(
                        response.body@,
                    ) == Some(body@),
                    EndpointRet::Other((st, Ok(e))) => st == response.status && response.status
                        != 200 && dec_err_doc(response.body@) == Some(e@),
                    EndpointRet::Other((st, Err(raw))) => st == response.status && response.status
                        != 200 && dec_err_doc(response.body@) is None && raw@ == response.body@,
                },
                Err(e) => e == EndpointError::DeResponseBodyOkJsonFailed && response.status == 200
                    && dec_created_reply_doc(response.body@) is None,
            },
    {
        if response.status == 200 {
            match json_from_slice(response.body.as_slice()) {
                Some(v) => match decode_reply(&v) {
                    Some(b) => Ok(EndpointRet::Payload(b)),
                    None => Err(EndpointError::DeResponseBodyOkJsonFailed),
                },
                None => Err(EndpointError::DeResponseBodyOkJsonFailed),
            }
        } else {
            Ok(EndpointRet::Other((response.status, classify_error_body(&response.body))))
        }
    }
}

} // verus!
