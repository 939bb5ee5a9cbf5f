//! Reading a media container's status on the Graph surface.
//!
//! GET `/<version>/<container id>?fields=id,status,status_code` with the
//! access token appended as a form-urlencoded query pair.

use vstd::prelude::*;

verus! {

use vstd::string::StringSliceAdditionalSpecFns;
use vstd::utf8::encode_utf8;
use crate::bytestr::u64_dec_bytes;
use crate::graph_common::{EndpointError, EndpointRet, dec_err_doc, classify_error_body};
use crate::graph_objects::{IgContainer, IgContainerView, dec_container, decode_container};
use crate::httpmsg::{HttpMethod, HttpRequest, HttpResponse};
use crate::jsonval::{json_of, json_parse_doc, json_from_slice};
use crate::urlenc::{Utf8Buf, form_enc};

/// Reads one container.
#[derive(Debug, Clone)]
pub struct Reading {
    pub ig_container_id: u64,
    pub access_token: String,
    pub version: Option<String>,
}

/// The container-read URL.
pub open spec fn reading_uri_bytes(e: Reading) -> Seq<u8> {
    "https://graph.facebook.com/".spec_bytes() + encode_utf8(
        crate::urlenc::version_segment(e.version.deep_view()),
    ) + "/".spec_bytes() + u64_dec_bytes(e.ig_container_id as nat)
        + "?fields=id,status,status_code&access_token=".spec_bytes() + form_enc(
        encode_utf8(e.access_token@),
    )
}

/// The success payload: the container itself.
#[derive(Debug, Clone)]
pub struct ReadingResponseBodyOkJson(pub IgContainer);

impl View for ReadingResponseBodyOkJson {
    type V = IgContainerView;

    open spec fn view(&self) -> IgContainerView {
        self.0@
    }
}

/// The container a whole body decodes to.
pub open spec fn dec_container_doc(bytes: Seq<u8>) -> Option<IgContainerView> {
    match json_parse_doc(bytes) {
        Some(j) => dec_container(j),
        None => None,
    }
}

impl Reading {
    pub fn new(ig_container_id: u64, access_token: String, version: Option<String>) -> (r: Self)
        ensures
            r.ig_container_id == ig_container_id,
            r.access_token@ == access_token@,
            r.version.deep_view() == version.deep_view(),
    {
        Reading { ig_container_id, access_token, version }
    }

    /// Renders the read: a GET whose URI is exactly [`reading_uri_bytes`]
    /// of this endpoint's parameters.
    pub fn render_request(&self) -> (r: Result<HttpRequest, EndpointError>)
        ensures
            r matches Ok(req) && req.method == HttpMethod::Get && encode_utf8(req.uri@)
                == reading_uri_bytes(*self) && req.user_agent@ == "instagram-graph-api"@
                && req.accept@ == "application/json"@ && req.body@ == Seq::<u8>::empty(),
    {
        let mut url = Utf8Buf::new();
        url.push_lit("https://graph.facebook.com/");
        match &self.version {
            Some(version) => url.push_lit(version.as_str()),
            None => url.push_lit("v15.0"),
        }
        url.push_lit("/");
        url.push_u64(self.ig_container_id);
        url.push_lit("?fields=id,status,status_code&access_token=");
        url.push_form(self.access_token.as_str());
        proof {
            assert(url@ =~= reading_uri_bytes(*self));
        }
        Ok(
            HttpRequest {
                method: HttpMethod::Get,
                uri: url.into_string(),
                user_agent: "instagram-graph-api".to_owned(),
                accept: "application/json".to_owned(),
                body: Vec::new(),
            },
        )
    }

    /// Classifies the response: a 200 body must decode as a container; any
    /// other status carries the error envelope or the raw bytes.
    pub fn parse_response(&self, response: HttpResponse) -> (r: Result<
        EndpointRet<ReadingResponseBodyOkJson>,
        EndpointError,
    >)
        ensures
            match r {
                Ok(ret) => match ret {
                    EndpointRet::Payload(body) => response.status == 200 && dec_container_doc(
                        response.body@,
                    ) == Some(body@),
                    EndpointRet::Other((st, Ok(e))) => st == response.status && response.status
                        != 200 && dec_err_doc(response.body@) == Some(e@),
                    EndpointRet::Other((st, Err(raw))) => st == response.status && response.status
                        != 200 && dec_err_doc(response.body@) is None && raw@ == response.body@,
                },
                Err(e) => e == EndpointError::DeResponseBodyOkJsonFailed && response.status == 200
                    && dec_container_doc(response.body@) is None,
            },
    {
        if response.status == 200 {
            match json_from_slice(response.body.as_slice()) {
                Some(v) => match decode_container(&v) {
                    Some(b) => Ok(EndpointRet::Payload(ReadingResponseBodyOkJson(b))),
                    None => Err(EndpointError::DeResponseBodyOkJsonFailed),
                },
                None => Err(EndpointError::DeResponseBodyOkJsonFailed),
            }
        } else {
            Ok(EndpointRet::Other((response.status, classify_error_body(&response.body))))
        }
    }
}

} // verus!
