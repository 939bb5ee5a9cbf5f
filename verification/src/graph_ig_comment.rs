//! Operations on one comment: reading (single and bulk), deleting, hiding
//! and unhiding, and creating a reply.

use vstd::prelude::*;

verus! {

use std::collections::HashMap;
use vstd::string::StringSliceAdditionalSpecFns;
use vstd::utf8::encode_utf8;
use crate::bytestr::{parse_u64, parse_u64_spec, u64_dec_bytes};
use crate::graph_comment_objects::{IgCommentForIgCommentReadingOperation, IgCommentReadingView,
    dec_comment_reading, decode_comment_reading};
use crate::graph_common::{EndpointError, EndpointRet, dec_err_doc, dec_success_doc,
    classify_error_body, decode_success_body};
use crate::httpmsg::{HttpMethod, HttpRequest, HttpResponse};
use crate::jsonval::{JsonData, json_of, json_parse_doc, json_from_slice, value_entries};
use crate::urlenc::{Utf8Buf, form_enc, version_segment};

/// Reads one comment by id, with or without its replies.
#[derive(Debug, Clone)]
pub struct Reading {
    pub ig_comment_id: u64,
    pub with_replies: bool,
    pub access_token: String,
    pub version: Option<String>,
}

/// The single-comment URL: the field list raw, the token form-urlencoded.
pub open spec fn reading_uri_bytes(e: Reading) -> Seq<u8> {
    "https://graph.facebook.com/".spec_bytes() + encode_utf8(
        version_segment(e.version.deep_view()),
    ) + "/".spec_bytes() + u64_dec_bytes(e.ig_comment_id as nat) + "?fields=".spec_bytes() + (
    if e.with_replies {
        "from,hidden,id,like_count,media,parent_id,text,timestamp,username,replies{from,hidden,id,like_count,parent_id,text,timestamp,username}".spec_bytes()
    } else {
        "from,hidden,id,like_count,media,parent_id,text,timestamp,username".spec_bytes()
    }) + "&access_token=".spec_bytes() + form_enc(encode_utf8(e.access_token@))
}

/// The success payload of the single read.
pub type ReadingResponseBodyOkJson = IgCommentForIgCommentReadingOperation;

/// The comment a whole body decodes to.
pub open spec fn dec_comment_doc(bytes: Seq<u8>) -> Option<IgCommentReadingView> {
    match json_parse_doc(bytes) {
        Some(j) => dec_comment_reading(j),
        None => None,
    }
}

impl Reading {
    pub fn new(ig_comment_id: u64, access_token: String, version: Option<String>) -> (r: Self)
        ensures
            r.ig_comment_id == ig_comment_id,
            r.with_replies == false,
            r.access_token@ == access_token@,
            r.version.deep_view() == version.deep_view(),
    {
        Reading { ig_comment_id, with_replies: false, access_token, version }
    }

    /// Asks for the replies sub-selection too.
    pub fn with_replies(self) -> (r: Self)
        ensures
            r.with_replies == true,
            r.ig_comment_id == self.ig_comment_id,
            r.access_token@ == self.access_token@,
            r.version == self.version,
    {
        Reading { with_replies: true, ..self }
    }

    /// Renders the read: a GET whose URI is exactly [`reading_uri_bytes`]
    /// of this endpoint's parameters.
    pub fn render_request(&self) -> (r: Result<HttpRequest, EndpointError>)
        ensures
            r matches Ok(req) && req.method == HttpMethod::Get && encode_utf8(req.uri@)
                == reading_uri_bytes(*self) && req.user_agent@ == "instagram-graph-api"@
                && req.accept@ == "application/json"@ && req.body@ == Seq::<u8>::empty(),
    {
        let mut url = Utf8Buf::new();
        url.push_lit("https://graph.facebook.com/");
        match &self.version {
            Some(version) => url.push_lit(version.as_str()),
            None => url.push_lit("v15.0"),
        }
        url.push_lit("/");
        url.push_u64(self.ig_comment_id);
        url.push_lit("?fields=");
        if self.with_replies {
            url.push_lit(
                "from,hidden,id,like_count,media,parent_id,text,timestamp,username,replies{from,hidden,id,like_count,parent_id,text,timestamp,username}",
            );
        } else {
            url.push_lit("from,hidden,id,like_count,media,parent_id,text,timestamp,username");
        }
        url.push_lit("&access_token=");
        url.push_form(self.access_token.as_str());
        proof {
            assert(url@ =~= reading_uri_bytes(*self));
        }
        Ok(
            HttpRequest {
                method: HttpMethod::Get,
                uri: url.into_string(),
                user_agent: "instagram-graph-api".to_owned(),
                accept: "application/json".to_owned(),
                body: Vec::new(),
            },
        )
    }

    /// Classifies the response: a 200 body must decode as one comment; any
    /// other status carries the error envelope or the raw bytes.
    pub fn parse_response(&self, response: HttpResponse) -> (r: Result<
        EndpointRet<ReadingResponseBodyOkJson>,
        EndpointError,
    >)
        ensures
            match r {
                Ok(ret) => match ret {
                    EndpointRet::Payload(body) => response.status == 200 && dec_comment_doc(
                        response.body@,
                    ) == Some(body@),
                    EndpointRet::Other((st, Ok(e))) => st == response.status && response.status
                        != 200 && dec_err_doc(response.body@) == Some(e@),
                    EndpointRet::Other((st, Err(raw))) => st == response.status && response.status
                        != 200 && dec_err_doc(response.body@) is None && raw@ == response.body@,
                },
                Err(e) => e == EndpointError::DeResponseBodyOkJsonFailed && response.status == 200
                    && dec_comment_doc(response.body@) is None,
            },
    {
        if response.status == 200 {
            match json_from_slice(response.body.as_slice()) {
                Some(v) => match decode_comment_reading(&v) {
                    Some(b) => Ok(EndpointRet::Payload(b)),
                    None => Err(EndpointError::DeResponseBodyOkJsonFailed),
                },
                None => Err(EndpointError::DeResponseBodyOkJsonFailed),
            }
        } else {
            Ok(EndpointRet::Other((response.status, classify_error_body(&response.body))))
        }
    }
}

/// Reads several comments at once.  The URL path is built from the first
/// id's value while the full list travels in `ids=` — the documented
/// upstream quirk.
#[derive(Debug, Clone)]
pub struct BulkReading {
    pub ig_comment_ids: Vec<u64>,
    pub access_token: String,
    pub version: Option<String>,
}

/// The comma-joined decimal ids, before form-urlencoding.
pub open spec fn ids_joined(ids: Seq<u64>) -> Seq<u8>
    decreases ids.len(),
{
    if ids.len() == 0 {
        Seq::empty()
    } else if ids.len() == 1 {
        u64_dec_bytes(ids[0] as nat)
    } else {
        ids_joined(ids.drop_last()) + seq![0x2cu8] + u64_dec_bytes(ids.last() as nat)
    }
}

/// The bulk-read URL: the first id's path, the raw field list, the encoded
/// id list, the token.
pub open spec fn bulk_reading_uri_bytes(e: BulkReading) -> Seq<u8>
    recommends
        e.ig_comment_ids@.len() > 0,
{
    "https://graph.facebook.com/".spec_bytes() + encode_utf8(
        version_segment(e.version.deep_view()),
    ) + "/".spec_bytes() + u64_dec_bytes(e.ig_comment_ids@[0] as nat)
        + "?fields=from,hidden,id,like_count,media,parent_id,text,timestamp,username&ids=".spec_bytes()
        + form_enc(ids_joined(e.ig_comment_ids@)) + "&access_token=".spec_bytes() + form_enc(
        encode_utf8(e.access_token@),
    )
}

/// The bulk success payload: each id to its comment.
pub type BulkReadingResponseBodyOkJson = HashMap<u64, IgCommentForIgCommentReadingOperation>;

/// Every member of a bulk body is an id key with a comment value.
pub open spec fn bulk_members_ok(m: Map<Seq<char>, JsonData>) -> bool {
    forall|k: Seq<char>| #[trigger]
        m.contains_key(k) ==> parse_u64_spec(encode_utf8(k)) is Some && dec_comment_reading(
            m[k],
        ) is Some
}

/// Whether a whole bulk body decodes: a JSON object whose every member is
/// an id key with a comment value.
pub open spec fn dec_bulk_doc_ok(bytes: Seq<u8>) -> bool {
    match json_parse_doc(bytes) {
        Some(JsonData::Obj(m)) => bulk_members_ok(m),
        _ => false,
    }
}

/// The bulk map and the object members correspond: every member's id is in
/// the map with its decoded comment, and every map entry comes from some
/// member.
pub open spec fn bulk_map_matches(
    m: Map<Seq<char>, JsonData>,
    out: Map<u64, IgCommentForIgCommentReadingOperation>,
) -> bool {
    &&& forall|k: Seq<char>| #[trigger]
        m.contains_key(k) ==> out.contains_key(parse_u64_spec(encode_utf8(k))->Some_0)
    &&& forall|id: u64| #[trigger]
        out.contains_key(id) ==> exists|k: Seq<char>| #[trigger]
            m.contains_key(k) && parse_u64_spec(encode_utf8(k)) == Some(id) && dec_comment_reading(
                m[k],
            ) == Some(out[id]@)
}

/// Decodes a bulk body.  When two keys name the same id (say `5` and `+5`),
/// which comment the map keeps is left open.
#[verifier::rlimit(100)]
#[verifier::spinoff_prover]
#[verifier::loop_isolation(false)]
pub fn decode_bulk_body(v: &serde_json::Value) -> (r: Option<BulkReadingResponseBodyOkJson>)
    ensures
        match r {
            Some(out) => (match json_of(*v) {
                JsonData::Obj(m) => bulk_members_ok(m) && bulk_map_matches(m, out@),
                _ => false,
            }),
            None => !(match json_of(*v) {
                JsonData::Obj(m) => bulk_members_ok(m),
                _ => false,
            }),
        },
{
    let ghost jv = json_of(*v);
    let entries = match value_entries(v) {
        None => {
            return None;
        },
        Some(es) => es,
    };
    let ghost m = jv->Obj_0;
    let mut out: HashMap<u64, IgCommentForIgCommentReadingOperation> = HashMap::new();
    // which object key each id in `out` came from
    let ghost mut witness: Map<u64, Seq<char>> = Map::empty();
    let mut i: usize = 0;
    while i < entries.len()
        invariant
            0 <= i <= entries@.len(),
            forall|j: int|
                0 <= j < i ==> parse_u64_spec(encode_utf8(#[trigger] entries@[j].0@)) is Some
                    && dec_comment_reading(m[entries@[j].0@]) is Some,
            forall|j: int|
                0 <= j < i ==> out@.contains_key(
                    parse_u64_spec(encode_utf8(#[trigger] entries@[j].0@))->Some_0,
                ),
            forall|id: u64| #[trigger]
                out@.contains_key(id) ==> witness.contains_key(id) && m.contains_key(witness[id])
                    && parse_u64_spec(encode_utf8(witness[id])) == Some(id)
                    && dec_comment_reading(m[witness[id]]) == Some(out@[id]@),
        decreases entries@.len() - i,
    {
        let key_id = match parse_u64(entries[i].0.as_str().as_bytes()) {
            Some(x) => x,
            None => {
                proof {
                    assert(m.contains_key(entries@[i as int].0@) && !(parse_u64_spec(
                        encode_utf8(entries@[i as int].0@),
                    ) is Some));
                    assert(!bulk_members_ok(m));
                }
                return None;
            },
        };
        let c = match decode_comment_reading(&entries[i].1) {
            Some(x) => x,
            None => {
                proof {
                    assert(m.contains_key(entries@[i as int].0@) && !(dec_comment_reading(
                        m[entries@[i as int].0@],
                    ) is Some));
                    assert(!bulk_members_ok(m));
                }
                return None;
            },
        };
        out.insert(key_id, c);
        proof {
            witness = witness.insert(key_id, entries@[i as int].0@);
        }
        i = i + 1;
    }
    proof {
        assert forall|k: Seq<char>| #[trigger] m.contains_key(k) implies parse_u64_spec(
            encode_utf8(k),
        ) is Some && dec_comment_reading(m[k]) is Some && out@.contains_key(
            parse_u64_spec(encode_utf8(k))->Some_0,
        ) by {
            let j = choose|j: int| 0 <= j < entries@.len() && #[trigger] entries@[j].0@ == k;
            assert(parse_u64_spec(encode_utf8(entries@[j].0@)) is Some);
            assert(out@.contains_key(parse_u64_spec(encode_utf8(entries@[j].0@))->Some_0));
        }
        assert forall|id: u64| #[trigger] out@.contains_key(id) implies exists|k: Seq<char>|
            #[trigger] m.contains_key(k) && parse_u64_spec(encode_utf8(k)) == Some(id)
                && dec_comment_reading(m[k]) == Some(out@[id]@) by {
            let k = witness[id];
            assert(m.contains_key(k) && parse_u64_spec(encode_utf8(k)) == Some(id)
                && dec_comment_reading(m[k]) == Some(out@[id]@));
        }
    }
    Some(out)
}

impl BulkReading {
    /// Requires at least one id: the first one names the URL path.
    pub fn new(ig_comment_ids: &[u64], access_token: String, version: Option<String>) -> (r: Self)
        requires
            ig_comment_ids@.len() > 0,
        ensures
            r.ig_comment_ids@ == ig_comment_ids@,
            r.access_token@ == access_token@,
            r.version.deep_view() == version.deep_view(),
    {
        let mut ids: Vec<u64> = Vec::new();
        let mut i: usize = 0;
        while i < ig_comment_ids.len()
            invariant
                0 <= i <= ig_comment_ids@.len(),
                ids@ =~= ig_comment_ids@.subrange(0, i as int),
            decreases ig_comment_ids@.len() - i,
        {
            ids.push(ig_comment_ids[i]);
            assert(ids@ =~= ig_comment_ids@.subrange(0, i + 1));
            i = i + 1;
        }
        assert(ids@ =~= ig_comment_ids@);
        BulkReading { ig_comment_ids: ids, access_token, version }
    }

    /// Renders the bulk read: a GET whose URI is exactly
    /// [`bulk_reading_uri_bytes`] of this endpoint's parameters.
    #[verifier::loop_isolation(false)]
    pub fn render_request(&self) -> (r: Result<HttpRequest, EndpointError>)
        requires
            self.ig_comment_ids@.len() > 0,
        ensures
            r matches Ok(req) && req.method == HttpMethod::Get && encode_utf8(req.uri@)
                == bulk_reading_uri_bytes(*self) && req.user_agent@ == "instagram-graph-api"@
                && req.accept@ == "application/json"@ && req.body@ == Seq::<u8>::empty(),
    {
        let mut url = Utf8Buf::new();
        url.push_lit("https://graph.facebook.com/");
        match &self.version {
            Some(version) => url.push_lit(version.as_str()),
            None => url.push_lit("v15.0"),
        }
        url.push_lit("/");
        url.push_u64(self.ig_comment_ids[0]);
        url.push_lit("?fields=from,hidden,id,like_count,media,parent_id,text,timestamp,username&ids=");
        let mut joined: Vec<u8> = Vec::new();
        crate::bytestr::push_u64_dec(&mut joined, self.ig_comment_ids[0]);
        proof {
            assert(joined@ =~= ids_joined(self.ig_comment_ids@.subrange(0, 1)));
        }
        let mut i: usize = 1;
        while i < self.ig_comment_ids.len()
            invariant
                1 <= i <= self.ig_comment_ids@.len(),
                joined@ == ids_joined(self.ig_comment_ids@.subrange(0, i as int)),
            decreases self.ig_comment_ids@.len() - i,
        {
            joined.push(0x2c);
            crate::bytestr::push_u64_dec(&mut joined, self.ig_comment_ids[i]);
            proof {
                let p2 = self.ig_comment_ids@.subrange(0, i + 1);
                assert(p2.drop_last() =~= self.ig_comment_ids@.subrange(0, i as int));
                assert(p2.last() == self.ig_comment_ids@[i as int]);
                assert(joined@ =~= ids_joined(p2));
            }
            i = i + 1;
        }
        proof {
            assert(self.ig_comment_ids@.subrange(0, self.ig_comment_ids@.len() as int)
                =~= self.ig_comment_ids@);
        }
        proof {
            lemma_ids_joined_ascii(self.ig_comment_ids@);
            crate::bytestr::lemma_ascii_bytes_valid(ids_joined(self.ig_comment_ids@));
        }
        let joined_str = match crate::bytestr::string_from_utf8(joined) {
            Some(s) => s,
            None => {
                proof {
                    assert(false);
                }
                String::new()
            },
        };
        url.push_form(joined_str.as_str());
        url.push_lit("&access_token=");
        url.push_form(self.access_token.as_str());
        proof {
            assert(url@ =~= bulk_reading_uri_bytes(*self));
        }
        Ok(
            HttpRequest {
                method: HttpMethod::Get,
                uri: url.into_string(),
                user_agent: "instagram-graph-api".to_owned(),
                accept: "application/json".to_owned(),
                body: Vec::new(),
            },
        )
    }

    /// Classifies the response: a 200 body must decode as the id-to-comment
    /// map; any other status carries the error envelope or the raw bytes.
    pub fn parse_response(&self, response: HttpResponse) -> (r: Result<
        EndpointRet<BulkReadingResponseBodyOkJson>,
        EndpointError,
    >)
        ensures
            match r {
                Ok(ret) => match ret {
                    EndpointRet::Payload(body) => response.status == 200 && dec_bulk_doc_ok(
                        response.body@,
                    ) && bulk_map_matches(json_parse_doc(response.body@)->Some_0->Obj_0, body@),
                    EndpointRet::Other((st, Ok(e))) => st == response.status && response.status
                        != 200 && dec_err_doc(response.body@) == Some(e@),
                    EndpointRet::Other((st, Err(raw))) => st == response.status && response.status
                        != 200 && dec_err_doc(response.body@) is None && raw@ == response.body@,
                },
                Err(e) => e == EndpointError::DeResponseBodyOkJsonFailed && response.status == 200
                    && !dec_bulk_doc_ok(response.body@),
            },
    {
        if response.status == 200 {
            match json_from_slice(response.body.as_slice()) {
                Some(v) => match decode_bulk_body(&v) {
                    Some(b) => Ok(EndpointRet::Payload(b)),
                    None => Err(EndpointError::DeResponseBodyOkJsonFailed),
                },
                None => Err(EndpointError::DeResponseBodyOkJsonFailed),
            }
        } else {
            Ok(EndpointRet::Other((response.status, classify_error_body(&response.body))))
        }
    }
}

/// Deletes one comment.
#[derive(Debug, Clone)]
pub struct Deleting {
    pub ig_comment_id: u64,
    pub access_token: String,
    pub version: Option<String>,
}

/// The delete URL: just the comment's path and the token.
pub open spec fn deleting_uri_bytes(e: Deleting) -> Seq<u8> {
    "https://graph.facebook.com/".spec_bytes() + encode_utf8(
        version_segment(e.version.deep_view()),
    ) + "/".spec_bytes() + u64_dec_bytes(e.ig_comment_id as nat) + "?access_token=".spec_bytes()
        + form_enc(encode_utf8(e.access_token@))
}

/// The delete acknowledgement.
#[derive(Debug, Clone, PartialEq, Eq, Structural)]
pub struct DeletingResponseBodyOkJson {
    pub success: bool,
}

impl Deleting {
    pub fn new(ig_comment_id: u64, access_token: String, version: Option<String>) -> (r: Self)
        ensures
            r.ig_comment_id == ig_comment_id,
            r.access_token@ == access_token@,
            r.version.deep_view() == version.deep_view(),
    {
        Deleting { ig_comment_id, access_token, version }
    }

    /// Renders the delete: a DELETE whose URI is exactly
    /// [`deleting_uri_bytes`] of this endpoint's parameters.
    pub fn render_request(&self) -> (r: Result<HttpRequest, EndpointError>)
        ensures
            r matches Ok(req) && req.method == HttpMethod::Delete && encode_utf8(req.uri@)
                == deleting_uri_bytes(*self) && req.user_agent@ == "instagram-graph-api"@
                && req.accept@ == "application/json"@ && req.body@ == Seq::<u8>::empty(),
    {
        let mut url = Utf8Buf::new();
        url.push_lit("https://graph.facebook.com/");
        match &self.version {
            Some(version) => url.push_lit(version.as_str()),
            None => url.push_lit("v15.0"),
        }
        url.push_lit("/");
        url.push_u64(self.ig_comment_id);
        url.push_lit("?access_token=");
        url.push_form(self.access_token.as_str());
        proof {
            assert(url@ =~= deleting_uri_bytes(*self));
        }
        Ok(
            HttpRequest {
                method: HttpMethod::Delete,
                uri: url.into_string(),
                user_agent: "instagram-graph-api".to_owned(),
                accept: "application/json".to_owned(),
                body: Vec::new(),
            },
        )
    }

    /// Classifies the response: a 200 body must decode as the
    /// acknowledgement; any other status carries the error envelope or the
    /// raw bytes.
    pub fn parse_response(&self, response: HttpResponse) -> (r: Result<
        EndpointRet<DeletingResponseBodyOkJson>,
        EndpointError,
    >)
        ensures
            match r {
                Ok(ret) => match ret {
                    EndpointRet::Payload(body) => response.status == 200 && dec_success_doc(
                        response.body@,
                    ) == Some(body.success),
                    EndpointRet::Other((st, Ok(e))) => st == response.status && response.status
                        != 200 && dec_err_doc(response.body@) == Some(e@),
                    EndpointRet::Other((st, Err(raw))) => st == response.status && response.status
                        != 200 && dec_err_doc(response.body@) is None && raw@ == response.body@,
                },
                Err(e) => e == EndpointError::DeResponseBodyOkJsonFailed && response.status == 200
                    && dec_success_doc(response.body@) is None,
            },
    {
        if response.status == 200 {
            match json_from_slice(response.body.as_slice()) {
                Some(v) => match decode_success_body(&v) {
                    Some(success) => Ok(EndpointRet::Payload(DeletingResponseBodyOkJson { success })),
                    None => Err(EndpointError::DeResponseBodyOkJsonFailed),
                },
                None => Err(EndpointError::DeResponseBodyOkJsonFailed),
            }
        } else {
            Ok(EndpointRet::Other((response.status, classify_error_body(&response.body))))
        }
    }
}

/// Hides or unhides one comment.
#[derive(Debug, Clone)]
pub struct UpdatingWithHideOrUnhide {
    pub ig_comment_id: u64,
    pub hide: bool,
    pub access_token: String,
    pub version: Option<String>,
}

/// The hide/unhide URL: the flag as lowercase `true`/`false`, then the
/// token.
pub open spec fn updating_hide_uri_bytes(e: UpdatingWithHideOrUnhide) -> Seq<u8> {
    "https://graph.facebook.com/".spec_bytes() + encode_utf8(
        version_segment(e.version.deep_view()),
    ) + "/".spec_bytes() + u64_dec_bytes(e.ig_comment_id as nat) + "?hide=".spec_bytes() + (
    if e.hide {
        "true".spec_bytes()
    } else {
        "false".spec_bytes()
    }) + "&access_token=".spec_bytes() + form_enc(encode_utf8(e.access_token@))
}

/// The hide/unhide acknowledgement.
#[derive(Debug, Clone, PartialEq, Eq, Structural)]
pub struct UpdatingWithHideOrUnhideResponseBodyOkJson {
    pub success: bool,
}

impl UpdatingWithHideOrUnhide {
    pub fn new(ig_comment_id: u64, hide: bool, access_token: String, version: Option<String>) -> (r:
        Self)
        ensures
            r.ig_comment_id == ig_comment_id,
            r.hide == hide,
            r.access_token@ == access_token@,
            r.version.deep_view() == version.deep_view(),
    {
        UpdatingWithHideOrUnhide { ig_comment_id, hide, access_token, version }
    }

    /// Renders the update: a POST whose URI is exactly
    /// [`updating_hide_uri_bytes`] of this endpoint's parameters.
    pub fn render_request(&self) -> (r: Result<HttpRequest, EndpointError>)
        ensures
            r matches Ok(req) && req.method == HttpMethod::Post && encode_utf8(req.uri@)
                == updating_hide_uri_bytes(*self) && req.user_agent@ == "instagram-graph-api"@
                && req.accept@ == "application/json"@ && req.body@ == Seq::<u8>::empty(),
    {
        let mut url = Utf8Buf::new();
        url.push_lit("https://graph.facebook.com/");
        match &self.version {
            Some(version) => url.push_lit(version.as_str()),
            None => url.push_lit("v15.0"),
        }
        url.push_lit("/");
        url.push_u64(self.ig_comment_id);
        url.push_lit("?hide=");
        if self.hide {
            url.push_lit("true");
        } else {
            url.push_lit("false");
        }
        url.push_lit("&access_token=");
        url.push_form(self.access_token.as_str());
        proof {
            assert(url@ =~= updating_hide_uri_bytes(*self));
        }
        Ok(
            HttpRequest {
                method: HttpMethod::Post,
                uri: url.into_string(),
                user_agent: "instagram-graph-api".to_owned(),
                accept: "application/json".to_owned(),
                body: Vec::new(),
            },
        )
    }

    /// Classifies the response: a 200 body must decode as the
    /// acknowledgement; any other status carries the error envelope or the
    /// raw bytes.
    pub fn parse_response(&self, response: HttpResponse) -> (r: Result<
        EndpointRet<UpdatingWithHideOrUnhideResponseBodyOkJson>,
        EndpointError,
    >)
        ensures
            match r {
                Ok(ret) => match ret {
                    EndpointRet::Payload(body) => response.status == 200 && dec_success_doc(
                        response.body@,
                    ) == Some(body.success),
                    EndpointRet::Other((st, Ok(e))) => st == response.status && response.status
                        != 200 && dec_err_doc(response.body@) == Some(e@),
                    EndpointRet::Other((st, Err(raw))) => st == response.status && response.status
                        != 200 && dec_err_doc(response.body@) is None && raw@ == response.body@,
                },
                Err(e) => e == EndpointError::DeResponseBodyOkJsonFailed && response.status == 200
                    && dec_success_doc(response.body@) is None,
            },
    {
        if response.status == 200 {
            match json_from_slice(response.body.as_slice()) {
                Some(v) => match decode_success_body(&v) {
                    Some(success) => Ok(
                        EndpointRet::Payload(
                            UpdatingWithHideOrUnhideResponseBodyOkJson { success },
                        ),
                    ),
                    None => Err(EndpointError::DeResponseBodyOkJsonFailed),
                },
                None => Err(EndpointError::DeResponseBodyOkJsonFailed),
            }
        } else {
            Ok(EndpointRet::Other((response.status, classify_error_body(&response.body))))
        }
    }
}

/// Every byte of a joined id list is ASCII.
proof fn lemma_ids_joined_ascii(ids: Seq<u64>)
    ensures
        forall|i: int| 0 <= i < ids_joined(ids).len() ==> ids_joined(ids)[i] < 0x80,
    decreases ids.len(),
{
    if ids.len() == 1 {
        crate::urlenc::lemma_dec_bytes_ascii(ids[0] as nat);
    } else if ids.len() > 1 {
        lemma_ids_joined_ascii(ids.drop_last());
        crate::urlenc::lemma_dec_bytes_ascii(ids.last() as nat);
        let pre = ids_joined(ids.drop_last());
        let tail = u64_dec_bytes(ids.last() as nat);
        assert forall|i: int| 0 <= i < ids_joined(ids).len() implies ids_joined(ids)[i]
            < 0x80 by {
            if i < pre.len() {
                assert(ids_joined(ids)[i] == pre[i]);
            } else if i == pre.len() {
                assert(ids_joined(ids)[i] == 0x2cu8);
            } else {
                assert(ids_joined(ids)[i] == tail[i - pre.len() - 1]);
            }
        }
    }
}

} // verus!
