//! Creating media containers on the Graph surface: image, video, carousel
//! item (image or video), carousel, and reels.
//!
//! Every shape POSTs to `/<version>/<user id>/media` with
//! `fields=id,status,status_code` and its own parameter matrix, the access
//! token always last.  Structured values — the user-tag list and the
//! carousel children — travel as compact JSON framed here byte for byte.
//!
//! Documented business-logic failures (a bad media URL, a private tagged
//! username, a bad aspect ratio, an account that may not create) are lifted
//! out of the error envelope into [`ExtInfoError`] on the success channel.

use vstd::prelude::*;

verus! {

use vstd::string::StringSliceAdditionalSpecFns;
use vstd::utf8::encode_utf8;
use crate::apierror::ApiErrorView;
use crate::bytestr::{contains_bytes_lower, contains_lower, u64_dec_bytes};
use crate::graph_common::{EndpointError, EndpointRet, ResponseBodyErrJson, dec_err_doc,
    classify_error_body};
use crate::graph_ig_comment::ids_joined;
use crate::graph_objects::{IgContainer, IgContainerView, dec_container, decode_container};
use crate::httpmsg::{HttpMethod, HttpRequest, HttpResponse};
use crate::jsonval::{json_parse_doc, json_from_slice};
use crate::urlenc::{Utf8Buf, form_enc, version_segment};

/// A user tag on an image: a position and a username.  The coordinates are
/// carried as the decimal text that goes into the JSON, between 0 and 1.
#[derive(Debug, Clone)]
pub struct ValueUserTag {
    pub x: String,
    pub y: String,
    pub username: String,
}

/// Ghost image of [`ValueUserTag`].
pub struct ValueUserTagView {
    pub x: Seq<char>,
    pub y: Seq<char>,
    pub username: Seq<char>,
}

impl View for ValueUserTag {
    type V = ValueUserTagView;

    open spec fn view(&self) -> ValueUserTagView {
        ValueUserTagView { x: self.x@, y: self.y@, username: self.username@ }
    }
}

impl ValueUserTag {
    pub fn new(x: String, y: String, username: String) -> (r: Self)
        ensures
            r@.x == x@,
            r@.y == y@,
            r@.username == username@,
    {
        ValueUserTag { x, y, username }
    }
}

/// How one byte of a JSON string is escaped: quote and backslash get a
/// backslash, the named control characters their short forms, other control
/// characters a `\u00..` form with lowercase hex, everything else passes.
pub open spec fn json_escape_byte(b: u8) -> Seq<u8> {
    if b == 0x22 {
        seq![0x5cu8, 0x22u8]
    } else if b == 0x5c {
        seq![0x5cu8, 0x5cu8]
    } else if b == 0x08 {
        seq![0x5cu8, 0x62u8]
    } else if b == 0x09 {
        seq![0x5cu8, 0x74u8]
    } else if b == 0x0a {
        seq![0x5cu8, 0x6eu8]
    } else if b == 0x0c {
        seq![0x5cu8, 0x66u8]
    } else if b == 0x0d {
        seq![0x5cu8, 0x72u8]
    } else if b < 0x20 {
        seq![0x5cu8, 0x75u8, 0x30u8, 0x30u8, lower_hex_digit(b as nat / 16), lower_hex_digit(b as nat % 16)]
    } else {
        seq![b]
    }
}

/// Lowercase hexadecimal digit for `d`.
pub open spec fn lower_hex_digit(d: nat) -> u8
    recommends
        d < 16,
{
    if d < 10 {
        (0x30 + d) as u8
    } else {
        (0x61 + (d - 10)) as u8
    }
}

/// JSON string escaping of a whole byte sequence.
pub open spec fn json_escape(s: Seq<u8>) -> Seq<u8>
    decreases s.len(),
{
    if s.len() == 0 {
        Seq::empty()
    } else {
        json_escape(s.drop_last()) + json_escape_byte(s.last())
    }
}

/// Appends the JSON escaping of a string's bytes.
#[verifier::loop_isolation(false)]
fn push_json_escaped(buf: &mut Vec<u8>, s: &str)
    ensures
        final(buf)@ == old(buf)@ + json_escape(s.spec_bytes()),
{
    let b = s.as_bytes();
    let mut i: usize = 0;
    while i < b.len()
        invariant
            0 <= i <= b@.len(),
            buf@ == old(buf)@ + json_escape(b@.subrange(0, i as int)),
        decreases b@.len() - i,
    {
        let c = b[i];
        if c == 0x22 {
            buf.push(0x5c);
            buf.push(0x22);
        } else if c == 0x5c {
            buf.push(0x5c);
            buf.push(0x5c);
        } else if c == 0x08 {
            buf.push(0x5c);
            buf.push(0x62);
        } else if c == 0x09 {
            buf.push(0x5c);
            buf.push(0x74);
        } else if c == 0x0a {
            buf.push(0x5c);
            buf.push(0x6e);
        } else if c == 0x0c {
            buf.push(0x5c);
            buf.push(0x66);
        } else if c == 0x0d {
            buf.push(0x5c);
            buf.push(0x72);
        } else if c < 0x20 {
            buf.push(0x5c);
            buf.push(0x75);
            buf.push(0x30);
            buf.push(0x30);
            let hi = c / 16;
            let lo = c % 16;
            buf.push(
                if hi < 10 {
                    0x30 + hi
                } else {
                    0x61 + (hi - 10)
                },
            );
            buf.push(
                if lo < 10 {
                    0x30 + lo
                } else {
                    0x61 + (lo - 10)
                },
            );
        } else {
            buf.push(c);
        }
        proof {
            let p2 = b@.subrange(0, i + 1);
            assert(p2.drop_last() =~= b@.subrange(0, i as int));
            assert(p2.last() == c);
            assert(buf@ =~= old(buf)@ + json_escape(p2));
        }
        i = i + 1;
    }
    proof {
        assert(b@.subrange(0, b@.len() as int) =~= b@);
    }
}

/// The JSON of one user tag: `{"x":<x>,"y":<y>,"username":"<escaped>"}`.
pub open spec fn user_tag_json(t: ValueUserTagView) -> Seq<u8> {
    "{\"x\":".spec_bytes() + encode_utf8(t.x) + ",\"y\":".spec_bytes() + encode_utf8(t.y)
        + ",\"username\":\"".spec_bytes() + json_escape(encode_utf8(t.username))
        + "\"}".spec_bytes()
}

/// The JSON of a user-tag list: the tags' objects, comma-joined, in
/// brackets.
pub open spec fn user_tags_json(ts: Seq<ValueUserTagView>) -> Seq<u8>
    decreases ts.len(),
{
    if ts.len() == 0 {
        "[]".spec_bytes()
    } else if ts.len() == 1 {
        "[".spec_bytes() + user_tag_json(ts[0]) + "]".spec_bytes()
    } else {
        user_tags_json(ts.drop_last()).drop_last() + seq![0x2cu8] + user_tag_json(ts.last())
            + "]".spec_bytes()
    }
}

/// Frames the user-tag list as compact JSON, byte for byte as the upstream
/// expects it.
#[verifier::loop_isolation(false)]
fn user_tags_to_json(ts: &Vec<ValueUserTag>) -> (r: Vec<u8>)
    ensures
        r@ == user_tags_json(ts@.map_values(|t: ValueUserTag| t@)),
{
    let ghost tsv = ts@.map_values(|t: ValueUserTag| t@);
    let mut buf: Vec<u8> = Vec::new();
    buf.push(0x5b);
    if ts.len() == 0 {
        buf.push(0x5d);
        proof {
            two_char_lit_bytes();
            assert(tsv.len() == 0);
            assert(buf@ =~= user_tags_json(tsv));
        }
        return buf;
    }
    let mut i: usize = 0;
    while i < ts.len()
        invariant
            0 <= i <= ts@.len(),
            ts@.len() > 0,
            tsv == ts@.map_values(|t: ValueUserTag| t@),
            i == 0 ==> buf@ =~= seq![0x5bu8],
            i > 0 ==> buf@ =~= user_tags_json(tsv.subrange(0, i as int)).drop_last(),
        decreases ts@.len() - i,
    {
        if i > 0 {
            buf.push(0x2c);
        }
        let ghost pre = buf@;
        push_tag_json(&mut buf, &ts[i]);
        proof {
            let p2 = tsv.subrange(0, i + 1);
            if i == 0 {
                assert(p2 =~= seq![tsv[0]]);
                assert(user_tags_json(p2) == "[".spec_bytes() + user_tag_json(tsv[0])
                    + "]".spec_bytes());
                one_char_lit_bytes();
                assert(buf@ =~= user_tags_json(p2).drop_last());
            } else {
                assert(p2.drop_last() =~= tsv.subrange(0, i as int));
                assert(p2.last() == tsv[i as int]);
                one_char_lit_bytes();
                assert(buf@ =~= user_tags_json(p2).drop_last());
            }
        }
        i = i + 1;
    }
    buf.push(0x5d);
    proof {
        assert(tsv.subrange(0, tsv.len() as int) =~= tsv);
        one_char_lit_bytes();
        assert(buf@ =~= user_tags_json(tsv));
    }
    buf
}

/// The views of the bracket and comma literals, for the framing proofs.
proof fn one_char_lit_bytes()
    ensures
        "[".spec_bytes() == seq![0x5bu8],
        "]".spec_bytes() == seq![0x5du8],
{
    reveal_strlit("[");
    reveal_strlit("]");
    vstd::utf8::is_ascii_chars_encode_utf8("["@);
    vstd::utf8::is_ascii_chars_encode_utf8("]"@);
    assert("[".spec_bytes() =~= seq![0x5bu8]);
    assert("]".spec_bytes() =~= seq![0x5du8]);
}

/// The view of the empty-list literal.
proof fn two_char_lit_bytes()
    ensures
        "[]".spec_bytes() == seq![0x5bu8, 0x5du8],
{
    reveal_strlit("[]");
    vstd::utf8::is_ascii_chars_encode_utf8("[]"@);
    assert("[]".spec_bytes() =~= seq![0x5bu8, 0x5du8]);
}

/// Appends one tag's JSON object.
fn push_tag_json(buf: &mut Vec<u8>, t: &ValueUserTag)
    ensures
        final(buf)@ == old(buf)@ + user_tag_json(t@),
{
    crate::bytestr::push_str_bytes(buf, "{\"x\":");
    crate::bytestr::push_str_bytes(buf, t.x.as_str());
    crate::bytestr::push_str_bytes(buf, ",\"y\":");
    crate::bytestr::push_str_bytes(buf, t.y.as_str());
    crate::bytestr::push_str_bytes(buf, ",\"username\":\"");
    push_json_escaped(buf, t.username.as_str());
    crate::bytestr::push_str_bytes(buf, "\"}");
    assert(buf@ =~= old(buf)@ + user_tag_json(t@));
}

/// The JSON of the carousel children: the decimal ids, comma-joined, in
/// brackets.
pub open spec fn children_json(ids: Seq<u64>) -> Seq<u8> {
    seq![0x5bu8] + ids_joined(ids) + seq![0x5du8]
}

/// A documented business-logic failure of media creation, carrying the
/// server's user-facing text (or its plain message when none was given).
#[derive(Debug, Clone)]
pub enum ExtInfoError {
    ImageUrlOrVideoUrlInvalid(String),
    UserTagUsernamePrivateOrInvalid(String),
    ImageAspectRatioInvalid(String),
    AccountNotAllowedCreate(String),
}

/// Ghost image of [`ExtInfoError`].
pub enum ExtInfoErrorView {
    ImageUrlOrVideoUrlInvalid(Seq<char>),
    UserTagUsernamePrivateOrInvalid(Seq<char>),
    ImageAspectRatioInvalid(Seq<char>),
    AccountNotAllowedCreate(Seq<char>),
}

impl View for ExtInfoError {
    type V = ExtInfoErrorView;

    open spec fn view(&self) -> ExtInfoErrorView {
        match self {
            ExtInfoError::ImageUrlOrVideoUrlInvalid(s) => ExtInfoErrorView::ImageUrlOrVideoUrlInvalid(
                s@,
            ),
            ExtInfoError::UserTagUsernamePrivateOrInvalid(
                s,
            ) => ExtInfoErrorView::UserTagUsernamePrivateOrInvalid(s@),
            ExtInfoError::ImageAspectRatioInvalid(s) => ExtInfoErrorView::ImageAspectRatioInvalid(
                s@,
            ),
            ExtInfoError::AccountNotAllowedCreate(s) => ExtInfoErrorView::AccountNotAllowedCreate(
                s@,
            ),
        }
    }
}

/// The documented error patterns, first match wins: a code and subcode name
/// the bad-URL, private-tagged-username and aspect-ratio cases; otherwise a
/// message saying the account is not allowed to create is recognized by
/// case-insensitive containment.
pub open spec fn ext_info_spec(e: ApiErrorView) -> Option<ExtInfoErrorView> {
    if e.code == 9004 && e.error_subcode == Some(2207052i32) {
        Some(
            ExtInfoErrorView::ImageUrlOrVideoUrlInvalid(
                match e.error_user_title {
                    Some(t) => t,
                    None => e.message,
                },
            ),
        )
    } else if e.code == 110 && e.error_subcode == Some(2207018i32) {
        Some(
            ExtInfoErrorView::UserTagUsernamePrivateOrInvalid(
                match e.error_user_msg {
                    Some(t) => t,
                    None => e.message,
                },
            ),
        )
    } else if e.code == 36003 && e.error_subcode == Some(2207009i32) {
        Some(
            ExtInfoErrorView::ImageAspectRatioInvalid(
                match e.error_user_msg {
                    Some(t) => t,
                    None => e.message,
                },
            ),
        )
    } else if contains_lower(
        encode_utf8(e.message),
        encode_utf8("account is not allowed to create"@),
    ) {
        Some(ExtInfoErrorView::AccountNotAllowedCreate(e.message))
    } else {
        None
    }
}

impl ExtInfoError {
    /// Classifies an error envelope into the documented creation failures.
    pub fn from_err_json(err_json: &ResponseBodyErrJson) -> (r: Option<ExtInfoError>)
        ensures
            match r {
                Some(x) => ext_info_spec(err_json@) == Some(x@),
                None => ext_info_spec(err_json@) is None,
            },
    {
        let e = &err_json.error;
        let is_9004 = e.code == 9004 && (match e.error_subcode {
            Some(sc) => sc == 2207052,
            None => false,
        });
        let is_110 = e.code == 110 && (match e.error_subcode {
            Some(sc) => sc == 2207018,
            None => false,
        });
        let is_36003 = e.code == 36003 && (match e.error_subcode {
            Some(sc) => sc == 2207009,
            None => false,
        });
        if is_9004 {
            let text = match &e.error_user_title {
                Some(t) => t.clone(),
                None => e.message.clone(),
            };
            Some(ExtInfoError::ImageUrlOrVideoUrlInvalid(text))
        } else if is_110 {
            let text = match &e.error_user_msg {
                Some(t) => t.clone(),
                None => e.message.clone(),
            };
            Some(ExtInfoError::UserTagUsernamePrivateOrInvalid(text))
        } else if is_36003 {
            let text = match &e.error_user_msg {
                Some(t) => t.clone(),
                None => e.message.clone(),
            };
            Some(ExtInfoError::ImageAspectRatioInvalid(text))
        } else if contains_bytes_lower(
            e.message.as_str(),
            "account is not allowed to create".as_bytes(),
        ) {
            Some(ExtInfoError::AccountNotAllowedCreate(e.message.clone()))
        } else {
            None
        }
    }
}

/// The success payload: the created container.
#[derive(Debug, Clone)]
pub struct CreatingResponseBodyOkJson(pub IgContainer);

impl View for CreatingResponseBodyOkJson {
    type V = IgContainerView;

    open spec fn view(&self) -> IgContainerView {
        self.0@
    }
}

/// What a creation comes to: the container, or a documented creation
/// failure lifted out of the error envelope.
#[derive(Debug, Clone)]
pub enum CreatingResponseBodyRet {
    OkJson(CreatingResponseBodyOkJson),
    ExtInfoError(ExtInfoError),
}

impl CreatingResponseBodyRet {
    /// The container, when creation was acknowledged.
    pub fn as_ok_json(&self) -> (r: Option<&CreatingResponseBodyOkJson>)
        ensures
            match self {
                CreatingResponseBodyRet::OkJson(b) => r matches Some(x) && x@ == b@,
                CreatingResponseBodyRet::ExtInfoError(_) => r is None,
            },
    {
        match self {
            CreatingResponseBodyRet::OkJson(x) => Some(x),
            CreatingResponseBodyRet::ExtInfoError(_) => None,
        }
    }
}

/// The container a whole body decodes to.
pub open spec fn dec_container_doc(bytes: Seq<u8>) -> Option<IgContainerView> {
    match json_parse_doc(bytes) {
        Some(j) => dec_container(j),
        None => None,
    }
}

/// Classifies a creation response: a 200 body must decode as a container; a
/// non-2xx envelope matching a documented creation failure is lifted to the
/// success channel; anything else carries the envelope or the raw bytes.
fn parse_creating_response(response: HttpResponse) -> (r: Result<
    EndpointRet<CreatingResponseBodyRet>,
    EndpointError,
>)
    ensures
        creating_parse_ensures(response, r),
{
    if response.status == 200 {
        match json_from_slice(response.body.as_slice()) {
            Some(v) => match decode_container(&v) {
                Some(b) => Ok(
                    EndpointRet::Payload(
                        CreatingResponseBodyRet::OkJson(CreatingResponseBodyOkJson(b)),
                    ),
                ),
                None => Err(EndpointError::DeResponseBodyOkJsonFailed),
            },
            None => Err(EndpointError::DeResponseBodyOkJsonFailed),
        }
    } else {
        match classify_error_body(&response.body) {
            Ok(err_json) => match ExtInfoError::from_err_json(&err_json) {
                Some(err) => Ok(
                    EndpointRet::Payload(CreatingResponseBodyRet::ExtInfoError(err)),
                ),
                None => Ok(EndpointRet::Other((response.status, Ok(err_json)))),
            },
            Err(raw) => Ok(EndpointRet::Other((response.status, Err(raw)))),
        }
    }
}

/// What every creation shape's `parse_response` guarantees.
pub open spec fn creating_parse_ensures(
    response: HttpResponse,
    r: Result<EndpointRet<CreatingResponseBodyRet>, EndpointError>,
) -> bool {
    match r {
        Ok(ret) => match ret {
            EndpointRet::Payload(CreatingResponseBodyRet::OkJson(body)) => response.status == 200
                && dec_container_doc(response.body@) == Some(body@),
            EndpointRet::Payload(CreatingResponseBodyRet::ExtInfoError(err)) => response.status
                != 200 && (dec_err_doc(response.body@) matches Some(e) && ext_info_spec(e)
                == Some(err@)),
            EndpointRet::Other((st, Ok(e))) => st == response.status && response.status != 200
                && dec_err_doc(response.body@) == Some(e@) && ext_info_spec(e@) is None,
            EndpointRet::Other((st, Err(raw))) => st == response.status && response.status != 200
                && dec_err_doc(response.body@) is None && raw@ == response.body@,
        },
        Err(e) => e == EndpointError::DeResponseBodyOkJsonFailed && response.status == 200
            && dec_container_doc(response.body@) is None,
    }
}

/// The common front of every creation URL:
/// `/<version>/<user id>/media?fields=id,status,status_code`.
pub open spec fn creating_uri_prefix(version: Option<Seq<char>>, ig_user_id: u64) -> Seq<u8> {
    "https://graph.facebook.com/".spec_bytes() + encode_utf8(version_segment(version))
        + "/".spec_bytes() + u64_dec_bytes(ig_user_id as nat)
        + "/media?fields=id,status,status_code".spec_bytes()
}

/// `&caption=<form-urlencoded>` when a caption is set.
pub open spec fn caption_part(caption: Option<Seq<char>>) -> Seq<u8> {
    match caption {
        Some(c) => "&caption=".spec_bytes() + form_enc(encode_utf8(c)),
        None => Seq::<u8>::empty(),
    }
}

/// `&location_id=<decimal>` when a location is set.
pub open spec fn location_part(location_id: Option<u64>) -> Seq<u8> {
    match location_id {
        Some(l) => "&location_id=".spec_bytes() + u64_dec_bytes(l as nat),
        None => Seq::<u8>::empty(),
    }
}

/// `&thumb_offset=<decimal>` when a thumbnail offset is set.
pub open spec fn thumb_offset_part(thumb_offset: Option<u64>) -> Seq<u8> {
    match thumb_offset {
        Some(t) => "&thumb_offset=".spec_bytes() + u64_dec_bytes(t as nat),
        None => Seq::<u8>::empty(),
    }
}

/// `&user_tags=<form-urlencoded JSON>` when tags are set.
pub open spec fn user_tags_part(tags: Option<Seq<ValueUserTagView>>) -> Seq<u8> {
    match tags {
        Some(ts) => "&user_tags=".spec_bytes() + form_enc(user_tags_json(ts)),
        None => Seq::<u8>::empty(),
    }
}

/// `&access_token=<form-urlencoded>`, always the last pair.
pub open spec fn token_part(token: Seq<char>) -> Seq<u8> {
    "&access_token=".spec_bytes() + form_enc(encode_utf8(token))
}

/// Stages a single image.
#[derive(Debug, Clone)]
pub struct CreatingWithImage {
    pub ig_user_id: u64,
    pub image_url: String,
    pub caption: Option<String>,
    /// Requires the page location to carry coordinates upstream.
    pub location_id: Option<u64>,
    pub user_tags: Option<Vec<ValueUserTag>>,
    pub access_token: String,
    pub version: Option<String>,
}

/// The tag list as views.
pub open spec fn tags_view(tags: Option<Vec<ValueUserTag>>) -> Option<Seq<ValueUserTagView>> {
    match tags {
        Some(ts) => Some(ts@.map_values(|t: ValueUserTag| t@)),
        None => None,
    }
}

/// The image-creation URL: the image URL, the carousel flag fixed to
/// `false`, then the optional caption, location and tags, then the token.
pub open spec fn image_uri_bytes(e: CreatingWithImage) -> Seq<u8> {
    creating_uri_prefix(e.version.deep_view(), e.ig_user_id) + "&image_url=".spec_bytes()
        + form_enc(encode_utf8(e.image_url@)) + "&is_carousel_item=false".spec_bytes()
        + caption_part(e.caption.deep_view()) + location_part(e.location_id) + user_tags_part(
        tags_view(e.user_tags),
    ) + token_part(e.access_token@)
}

impl CreatingWithImage {
    pub fn new(ig_user_id: u64, image_url: String, access_token: String, version: Option<
        String,
    >) -> (r: Self)
        ensures
            r.ig_user_id == ig_user_id,
            r.image_url@ == image_url@,
            r.caption is None,
            r.location_id is None,
            r.user_tags is None,
            r.access_token@ == access_token@,
            r.version.deep_view() == version.deep_view(),
    {
        CreatingWithImage {
            ig_user_id,
            image_url,
            caption: None,
            location_id: None,
            user_tags: None,
            access_token,
            version,
        }
    }

    pub fn caption(self, value: String) -> (r: Self)
        ensures
            r == (CreatingWithImage { caption: Some(value), ..self }),
    {
        CreatingWithImage { caption: Some(value), ..self }
    }

    pub fn location_id(self, value: u64) -> (r: Self)
        ensures
            r == (CreatingWithImage { location_id: Some(value), ..self }),
    {
        CreatingWithImage { location_id: Some(value), ..self }
    }

    pub fn user_tags(self, value: Vec<ValueUserTag>) -> (r: Self)
        ensures
            r == (CreatingWithImage { user_tags: Some(value), ..self }),
    {
        CreatingWithImage { user_tags: Some(value), ..self }
    }

    /// Renders the creation: a POST whose URI is exactly
    /// [`image_uri_bytes`] of this endpoint's parameters.
    #[verifier::rlimit(60)]
    pub fn render_request(&self) -> (r: Result<HttpRequest, EndpointError>)
        ensures
            r matches Ok(req) && req.method == HttpMethod::Post && encode_utf8(req.uri@)
                == image_uri_bytes(*self) && req.user_agent@ == "instagram-graph-api"@
                && req.accept@ == "application/json"@ && req.body@ == Seq::<u8>::empty(),
    {
        let mut url = Utf8Buf::new();
        url.push_lit("https://graph.facebook.com/");
        match &self.version {
            Some(version) => url.push_lit(version.as_str()),
            None => url.push_lit("v15.0"),
        }
        url.push_lit("/");
        url.push_u64(self.ig_user_id);
        url.push_lit("/media?fields=id,status,status_code");
        url.push_lit("&image_url=");
        url.push_form(self.image_url.as_str());
        url.push_lit("&is_carousel_item=false");
        match &self.caption {
            Some(c) => {
                url.push_lit("&caption=");
                url.push_form(c.as_str());
            },
            None => (),
        }
        match self.location_id {
            Some(l) => {
                url.push_lit("&location_id=");
                url.push_u64(l);
            },
            None => (),
        }
        match &self.user_tags {
            Some(ts) => {
                url.push_lit("&user_tags=");
                let json = user_tags_to_json(ts);
                url.push_form_bytes(json.as_slice());
            },
            None => (),
        }
        url.push_lit("&access_token=");
        url.push_form(self.access_token.as_str());
        proof {
            assert(url@ =~= image_uri_bytes(*self));
        }
        Ok(
            HttpRequest {
                method: HttpMethod::Post,
                uri: url.into_string(),
                user_agent: "instagram-graph-api".to_owned(),
                accept: "application/json".to_owned(),
                body: Vec::new(),
            },
        )
    }

    /// Classifies the response; see [`creating_parse_ensures`].
    pub fn parse_response(&self, response: HttpResponse) -> (r: Result<
        EndpointRet<CreatingResponseBodyRet>,
        EndpointError,
    >)
        ensures
            creating_parse_ensures(response, r),
    {
        parse_creating_response(response)
    }
}

/// Stages an image as a carousel item.
#[derive(Debug, Clone)]
pub struct CreatingWithCarouselItemImage {
    pub ig_user_id: u64,
    pub image_url: String,
    pub user_tags: Option<Vec<ValueUserTag>>,
    pub access_token: String,
    pub version: Option<String>,
}

/// The carousel-item image URL: as the image creation, with the carousel
/// flag `true` and no caption or location.
pub open spec fn carousel_item_image_uri_bytes(e: CreatingWithCarouselItemImage) -> Seq<u8> {
    creating_uri_prefix(e.version.deep_view(), e.ig_user_id) + "&image_url=".spec_bytes()
        + form_enc(encode_utf8(e.image_url@)) + "&is_carousel_item=true".spec_bytes()
        + user_tags_part(tags_view(e.user_tags)) + token_part(e.access_token@)
}

impl CreatingWithCarouselItemImage {
    pub fn new(ig_user_id: u64, image_url: String, access_token: String, version: Option<
        String,
    >) -> (r: Self)
        ensures
            r.ig_user_id == ig_user_id,
            r.image_url@ == image_url@,
            r.user_tags is None,
            r.access_token@ == access_token@,
            r.version.deep_view() == version.deep_view(),
    {
        CreatingWithCarouselItemImage {
            ig_user_id,
            image_url,
            user_tags: None,
            access_token,
            version,
        }
    }

    pub fn user_tags(self, value: Vec<ValueUserTag>) -> (r: Self)
        ensures
            r == (CreatingWithCarouselItemImage { user_tags: Some(value), ..self }),
    {
        CreatingWithCarouselItemImage { user_tags: Some(value), ..self }
    }

    /// Renders the creation: a POST whose URI is exactly
    /// [`carousel_item_image_uri_bytes`] of this endpoint's parameters.
    pub fn render_request(&self) -> (r: Result<HttpRequest, EndpointError>)
        ensures
            r matches Ok(req) && req.method == HttpMethod::Post && encode_utf8(req.uri@)
                == carousel_item_image_uri_bytes(*self) && req.user_agent@
                == "instagram-graph-api"@ && req.accept@ == "application/json"@ && req.body@
                == Seq::<u8>::empty(),
    {
        let mut url = Utf8Buf::new();
        url.push_lit("https://graph.facebook.com/");
        match &self.version {
            Some(version) => url.push_lit(version.as_str()),
            None => url.push_lit("v15.0"),
        }
        url.push_lit("/");
        url.push_u64(self.ig_user_id);
        url.push_lit("/media?fields=id,status,status_code");
        url.push_lit("&image_url=");
        url.push_form(self.image_url.as_str());
        url.push_lit("&is_carousel_item=true");
        match &self.user_tags {
            Some(ts) => {
                url.push_lit("&user_tags=");
                let json = user_tags_to_json(ts);
                url.push_form_bytes(json.as_slice());
            },
            None => (),
        }
        url.push_lit("&access_token=");
        url.push_form(self.access_token.as_str());
        proof {
            assert(url@ =~= carousel_item_image_uri_bytes(*self));
        }
        Ok(
            HttpRequest {
                method: HttpMethod::Post,
                uri: url.into_string(),
                user_agent: "instagram-graph-api".to_owned(),
                accept: "application/json".to_owned(),
                body: Vec::new(),
            },
        )
    }

    /// Classifies the response; see [`creating_parse_ensures`].
    pub fn parse_response(&self, response: HttpResponse) -> (r: Result<
        EndpointRet<CreatingResponseBodyRet>,
        EndpointError,
    >)
        ensures
            creating_parse_ensures(response, r),
    {
        parse_creating_response(response)
    }
}

/// Stages a single video.
#[derive(Debug, Clone)]
pub struct CreatingWithVideo {
    pub ig_user_id: u64,
    pub video_url: String,
    pub caption: Option<String>,
    pub location_id: Option<u64>,
    pub thumb_offset: Option<u64>,
    pub access_token: String,
    pub version: Option<String>,
}

/// The video-creation URL: the media type, the video URL, the carousel flag
/// `false`, then the optional caption, location and thumbnail offset, then
/// the token.
pub open spec fn video_uri_bytes(e: CreatingWithVideo) -> Seq<u8> {
    creating_uri_prefix(e.version.deep_view(), e.ig_user_id) + "&media_type=VIDEO&video_url=".spec_bytes()
        + form_enc(encode_utf8(e.video_url@)) + "&is_carousel_item=false".spec_bytes()
        + caption_part(e.caption.deep_view()) + location_part(e.location_id) + thumb_offset_part(
        e.thumb_offset,
    ) + token_part(e.access_token@)
}

impl CreatingWithVideo {
    pub fn new(ig_user_id: u64, video_url: String, access_token: String, version: Option<
        String,
    >) -> (r: Self)
        ensures
            r.ig_user_id == ig_user_id,
            r.video_url@ == video_url@,
            r.caption is None,
            r.location_id is None,
            r.thumb_offset is None,
            r.access_token@ == access_token@,
            r.version.deep_view() == version.deep_view(),
    {
        CreatingWithVideo {
            ig_user_id,
            video_url,
            caption: None,
            location_id: None,
            thumb_offset: None,
            access_token,
            version,
        }
    }

    pub fn caption(self, value: String) -> (r: Self)
        ensures
            r == (CreatingWithVideo { caption: Some(value), ..self }),
    {
        CreatingWithVideo { caption: Some(value), ..self }
    }

    pub fn location_id(self, value: u64) -> (r: Self)
        ensures
            r == (CreatingWithVideo { location_id: Some(value), ..self }),
    {
        CreatingWithVideo { location_id: Some(value), ..self }
    }

    pub fn thumb_offset(self, value: u64) -> (r: Self)
        ensures
            r == (CreatingWithVideo { thumb_offset: Some(value), ..self }),
    {
        CreatingWithVideo { thumb_offset: Some(value), ..self }
    }

    /// Renders the creation: a POST whose URI is exactly
    /// [`video_uri_bytes`] of this endpoint's parameters.
    #[verifier::rlimit(60)]
    pub fn render_request(&self) -> (r: Result<HttpRequest, EndpointError>)
        ensures
            r matches Ok(req) && req.method == HttpMethod::Post && encode_utf8(req.uri@)
                == video_uri_bytes(*self) && req.user_agent@ == "instagram-graph-api"@
                && req.accept@ == "application/json"@ && req.body@ == Seq::<u8>::empty(),
    {
        let mut url = Utf8Buf::new();
        url.push_lit("https://graph.facebook.com/");
        match &self.version {
            Some(version) => url.push_lit(version.as_str()),
            None => url.push_lit("v15.0"),
        }
        url.push_lit("/");
        url.push_u64(self.ig_user_id);
        url.push_lit("/media?fields=id,status,status_code");
        url.push_lit("&media_type=VIDEO&video_url=");
        url.push_form(self.video_url.as_str());
        url.push_lit("&is_carousel_item=false");
        let ghost head = creating_uri_prefix(self.version.deep_view(), self.ig_user_id)
            + "&media_type=VIDEO&video_url=".spec_bytes() + form_enc(
            encode_utf8(self.video_url@),
        ) + "&is_carousel_item=false".spec_bytes();
        proof {
            assert(url@ =~= head);
        }
        match &self.caption {
            Some(c) => {
                url.push_lit("&caption=");
                url.push_form(c.as_str());
            },
            None => (),
        }
        proof {
            assert(url@ =~= head + caption_part(self.caption.deep_view()));
        }
        let ghost head2 = head + caption_part(self.caption.deep_view());
        match self.location_id {
            Some(l) => {
                url.push_lit("&location_id=");
                url.push_u64(l);
            },
            None => (),
        }
        proof {
            assert(url@ =~= head2 + location_part(self.location_id));
        }
        let ghost head3 = head2 + location_part(self.location_id);
        match self.thumb_offset {
            Some(t) => {
                url.push_lit("&thumb_offset=");
                url.push_u64(t);
            },
            None => (),
        }
        proof {
            assert(url@ =~= head3 + thumb_offset_part(self.thumb_offset));
        }
        let ghost head4 = head3 + thumb_offset_part(self.thumb_offset);
        url.push_lit("&access_token=");
        url.push_form(self.access_token.as_str());
        proof {
            assert(url@ =~= head4 + token_part(self.access_token@));
            assert(video_uri_bytes(*self) =~= head4 + token_part(self.access_token@));
        }
        Ok(
            HttpRequest {
                method: HttpMethod::Post,
                uri: url.into_string(),
                user_agent: "instagram-graph-api".to_owned(),
                accept: "application/json".to_owned(),
                body: Vec::new(),
            },
        )
    }

    /// Classifies the response; see [`creating_parse_ensures`].
    pub fn parse_response(&self, response: HttpResponse) -> (r: Result<
        EndpointRet<CreatingResponseBodyRet>,
        EndpointError,
    >)
        ensures
            creating_parse_ensures(response, r),
    {
        parse_creating_response(response)
    }
}

/// Stages a video as a carousel item.
#[derive(Debug, Clone)]
pub struct CreatingWithCarouselItemVideo {
    pub ig_user_id: u64,
    pub video_url: String,
    pub thumb_offset: Option<u64>,
    pub access_token: String,
    pub version: Option<String>,
}

/// The carousel-item video URL: as the video creation, with the carousel
/// flag `true` and only the thumbnail offset optional.
pub open spec fn carousel_item_video_uri_bytes(e: CreatingWithCarouselItemVideo) -> Seq<u8> {
    creating_uri_prefix(e.version.deep_view(), e.ig_user_id) + "&media_type=VIDEO&video_url=".spec_bytes()
        + form_enc(encode_utf8(e.video_url@)) + "&is_carousel_item=true".spec_bytes()
        + thumb_offset_part(e.thumb_offset) + token_part(e.access_token@)
}

impl CreatingWithCarouselItemVideo {
    pub fn new(ig_user_id: u64, video_url: String, access_token: String, version: Option<
        String,
    >) -> (r: Self)
        ensures
            r.ig_user_id == ig_user_id,
            r.video_url@ == video_url@,
            r.thumb_offset is None,
            r.access_token@ == access_token@,
            r.version.deep_view() == version.deep_view(),
    {
        CreatingWithCarouselItemVideo {
            ig_user_id,
            video_url,
            thumb_offset: None,
            access_token,
            version,
        }
    }

    pub fn thumb_offset(self, value: u64) -> (r: Self)
        ensures
            r == (CreatingWithCarouselItemVideo { thumb_offset: Some(value), ..self }),
    {
        CreatingWithCarouselItemVideo { thumb_offset: Some(value), ..self }
    }

    /// Renders the creation: a POST whose URI is exactly
    /// [`carousel_item_video_uri_bytes`] of this endpoint's parameters.
    pub fn render_request(&self) -> (r: Result<HttpRequest, EndpointError>)
        ensures
            r matches Ok(req) && req.method == HttpMethod::Post && encode_utf8(req.uri@)
                == carousel_item_video_uri_bytes(*self) && req.user_agent@
                == "instagram-graph-api"@ && req.accept@ == "application/json"@ && req.body@
                == Seq::<u8>::empty(),
    {
        let mut url = Utf8Buf::new();
        url.push_lit("https://graph.facebook.com/");
        match &self.version {
            Some(version) => url.push_lit(version.as_str()),
            None => url.push_lit("v15.0"),
        }
        url.push_lit("/");
        url.push_u64(self.ig_user_id);
        url.push_lit("/media?fields=id,status,status_code");
        url.push_lit("&media_type=VIDEO&video_url=");
        url.push_form(self.video_url.as_str());
        url.push_lit("&is_carousel_item=true");
        match self.thumb_offset {
            Some(t) => {
                url.push_lit("&thumb_offset=");
                url.push_u64(t);
            },
            None => (),
        }
        url.push_lit("&access_token=");
        url.push_form(self.access_token.as_str());
        proof {
            assert(url@ =~= carousel_item_video_uri_bytes(*self));
        }
        Ok(
            HttpRequest {
                method: HttpMethod::Post,
                uri: url.into_string(),
                user_agent: "instagram-graph-api".to_owned(),
                accept: "application/json".to_owned(),
                body: Vec::new(),
            },
        )
    }

    /// Classifies the response; see [`creating_parse_ensures`].
    pub fn parse_response(&self, response: HttpResponse) -> (r: Result<
        EndpointRet<CreatingResponseBodyRet>,
        EndpointError,
    >)
        ensures
            creating_parse_ensures(response, r),
    {
        parse_creating_response(response)
    }
}

/// Stages a carousel from previously created item containers.
#[derive(Debug, Clone)]
pub struct CreatingWithCarousel {
    pub ig_user_id: u64,
    pub children: Vec<u64>,
    pub caption: Option<String>,
    pub location_id: Option<u64>,
    pub access_token: String,
    pub version: Option<String>,
}

/// The carousel-creation URL: the media type, the children ids as
/// form-urlencoded JSON, then the optional caption and location, then the
/// token.
pub open spec fn carousel_uri_bytes(e: CreatingWithCarousel) -> Seq<u8> {
    creating_uri_prefix(e.version.deep_view(), e.ig_user_id) + "&media_type=CAROUSEL&children=".spec_bytes()
        + form_enc(children_json(e.children@)) + caption_part(e.caption.deep_view())
        + location_part(e.location_id) + token_part(e.access_token@)
}

impl CreatingWithCarousel {
    pub fn new(ig_user_id: u64, children: Vec<u64>, access_token: String, version: Option<
        String,
    >) -> (r: Self)
        ensures
            r.ig_user_id == ig_user_id,
            r.children@ == children@,
            r.caption is None,
            r.location_id is None,
            r.access_token@ == access_token@,
            r.version.deep_view() == version.deep_view(),
    {
        CreatingWithCarousel {
            ig_user_id,
            children,
            caption: None,
            location_id: None,
            access_token,
            version,
        }
    }

    pub fn caption(self, value: String) -> (r: Self)
        ensures
            r == (CreatingWithCarousel { caption: Some(value), ..self }),
    {
        CreatingWithCarousel { caption: Some(value), ..self }
    }

    pub fn location_id(self, value: u64) -> (r: Self)
        ensures
            r == (CreatingWithCarousel { location_id: Some(value), ..self }),
    {
        CreatingWithCarousel { location_id: Some(value), ..self }
    }

    /// Renders the creation: a POST whose URI is exactly
    /// [`carousel_uri_bytes`] of this endpoint's parameters.
    #[verifier::rlimit(60)]
    #[verifier::loop_isolation(false)]
    pub fn render_request(&self) -> (r: Result<HttpRequest, EndpointError>)
        ensures
            r matches Ok(req) && req.method == HttpMethod::Post && encode_utf8(req.uri@)
                == carousel_uri_bytes(*self) && req.user_agent@ == "instagram-graph-api"@
                && req.accept@ == "application/json"@ && req.body@ == Seq::<u8>::empty(),
    {
        let mut url = Utf8Buf::new();
        url.push_lit("https://graph.facebook.com/");
        match &self.version {
            Some(version) => url.push_lit(version.as_str()),
            None => url.push_lit("v15.0"),
        }
        url.push_lit("/");
        url.push_u64(self.ig_user_id);
        url.push_lit("/media?fields=id,status,status_code");
        url.push_lit("&media_type=CAROUSEL&children=");
        let mut json: Vec<u8> = Vec::new();
        json.push(0x5b);
        let mut i: usize = 0;
        while i < self.children.len()
            invariant
                0 <= i <= self.children@.len(),
                json@ == seq![0x5bu8] + ids_joined(self.children@.subrange(0, i as int)),
            decreases self.children@.len() - i,
        {
            if i > 0 {
                json.push(0x2c);
            }
            crate::bytestr::push_u64_dec(&mut json, self.children[i]);
            proof {
                let p2 = self.children@.subrange(0, i + 1);
                if i == 0 {
                    assert(p2 =~= seq![self.children@[0]]);
                    assert(json@ =~= seq![0x5bu8] + ids_joined(p2));
                } else {
                    assert(p2.drop_last() =~= self.children@.subrange(0, i as int));
                    assert(p2.last() == self.children@[i as int]);
                    assert(json@ =~= seq![0x5bu8] + ids_joined(p2));
                }
            }
            i = i + 1;
        }
        json.push(0x5d);
        proof {
            assert(self.children@.subrange(0, self.children@.len() as int) =~= self.children@);
            assert(json@ =~= children_json(self.children@));
        }
        url.push_form_bytes(json.as_slice());
        match &self.caption {
            Some(c) => {
                url.push_lit("&caption=");
                url.push_form(c.as_str());
            },
            None => (),
        }
        match self.location_id {
            Some(l) => {
                url.push_lit("&location_id=");
                url.push_u64(l);
            },
            None => (),
        }
        url.push_lit("&access_token=");
        url.push_form(self.access_token.as_str());
        proof {
            assert(url@ =~= carousel_uri_bytes(*self));
        }
        Ok(
            HttpRequest {
                method: HttpMethod::Post,
                uri: url.into_string(),
                user_agent: "instagram-graph-api".to_owned(),
                accept: "application/json".to_owned(),
                body: Vec::new(),
            },
        )
    }

    /// Classifies the response; see [`creating_parse_ensures`].
    pub fn parse_response(&self, response: HttpResponse) -> (r: Result<
        EndpointRet<CreatingResponseBodyRet>,
        EndpointError,
    >)
        ensures
            creating_parse_ensures(response, r),
    {
        parse_creating_response(response)
    }
}

/// Stages a reel.
#[derive(Debug, Clone)]
pub struct CreatingWithReels {
    pub ig_user_id: u64,
    pub video_url: String,
    pub caption: Option<String>,
    pub location_id: Option<u64>,
    pub thumb_offset: Option<u64>,
    pub share_to_feed: Option<bool>,
    pub access_token: String,
    pub version: Option<String>,
}

/// `&share_to_feed=true|false` when the flag is set.
pub open spec fn share_to_feed_part(share_to_feed: Option<bool>) -> Seq<u8> {
    match share_to_feed {
        Some(true) => "&share_to_feed=true".spec_bytes(),
        Some(false) => "&share_to_feed=false".spec_bytes(),
        None => Seq::<u8>::empty(),
    }
}

/// The reel-creation URL: the media type and video URL, then the optional
/// caption, location, thumbnail offset and feed flag, then the token.  No
/// carousel flag travels here.
pub open spec fn reels_uri_bytes(e: CreatingWithReels) -> Seq<u8> {
    creating_uri_prefix(e.version.deep_view(), e.ig_user_id) + "&media_type=REELS&video_url=".spec_bytes()
        + form_enc(encode_utf8(e.video_url@)) + caption_part(e.caption.deep_view())
        + location_part(e.location_id) + thumb_offset_part(e.thumb_offset) + share_to_feed_part(
        e.share_to_feed,
    ) + token_part(e.access_token@)
}

impl CreatingWithReels {
    pub fn new(ig_user_id: u64, video_url: String, access_token: String, version: Option<
        String,
    >) -> (r: Self)
        ensures
            r.ig_user_id == ig_user_id,
            r.video_url@ == video_url@,
            r.caption is None,
            r.location_id is None,
            r.thumb_offset is None,
            r.share_to_feed is None,
            r.access_token@ == access_token@,
            r.version.deep_view() == version.deep_view(),
    {
        CreatingWithReels {
            ig_user_id,
            video_url,
            caption: None,
            location_id: None,
            thumb_offset: None,
            share_to_feed: None,
            access_token,
            version,
        }
    }

    pub fn caption(self, value: String) -> (r: Self)
        ensures
            r == (CreatingWithReels { caption: Some(value), ..self }),
    {
        CreatingWithReels { caption: Some(value), ..self }
    }

    pub fn location_id(self, value: u64) -> (r: Self)
        ensures
            r == (CreatingWithReels { location_id: Some(value), ..self }),
    {
        CreatingWithReels { location_id: Some(value), ..self }
    }

    pub fn thumb_offset(self, value: u64) -> (r: Self)
        ensures
            r == (CreatingWithReels { thumb_offset: Some(value), ..self }),
    {
        CreatingWithReels { thumb_offset: Some(value), ..self }
    }

    pub fn share_to_feed(self, value: bool) -> (r: Self)
        ensures
            r == (CreatingWithReels { share_to_feed: Some(value), ..self }),
    {
        CreatingWithReels { share_to_feed: Some(value), ..self }
    }

    /// Renders the creation: a POST whose URI is exactly
    /// [`reels_uri_bytes`] of this endpoint's parameters.
    #[verifier::rlimit(60)]
    pub fn render_request(&self) -> (r: Result<HttpRequest, EndpointError>)
        ensures
            r matches Ok(req) && req.method == HttpMethod::Post && encode_utf8(req.uri@)
                == reels_uri_bytes(*self) && req.user_agent@ == "instagram-graph-api"@
                && req.accept@ == "application/json"@ && req.body@ == Seq::<u8>::empty(),
    {
        let mut url = Utf8Buf::new();
        url.push_lit("https://graph.facebook.com/");
        match &self.version {
            Some(version) => url.push_lit(version.as_str()),
            None => url.push_lit("v15.0"),
        }
        url.push_lit("/");
        url.push_u64(self.ig_user_id);
        url.push_lit("/media?fields=id,status,status_code");
        url.push_lit("&media_type=REELS&video_url=");
        url.push_form(self.video_url.as_str());
        let ghost head = creating_uri_prefix(self.version.deep_view(), self.ig_user_id)
            + "&media_type=REELS&video_url=".spec_bytes() + form_enc(
            encode_utf8(self.video_url@),
        );
        proof {
            assert(url@ =~= head);
        }
        match &self.caption {
            Some(c) => {
                url.push_lit("&caption=");
                url.push_form(c.as_str());
            },
            None => (),
        }
        proof {
            assert(url@ =~= head + caption_part(self.caption.deep_view()));
        }
        let ghost head2 = head + caption_part(self.caption.deep_view());
        match self.location_id {
            Some(l) => {
                url.push_lit("&location_id=");
                url.push_u64(l);
            },
            None => (),
        }
        proof {
            assert(url@ =~= head2 + location_part(self.location_id));
        }
        let ghost head3 = head2 + location_part(self.location_id);
        match self.thumb_offset {
            Some(t) => {
                url.push_lit("&thumb_offset=");
                url.push_u64(t);
            },
            None => (),
        }
        proof {
            assert(url@ =~= head3 + thumb_offset_part(self.thumb_offset));
        }
        let ghost head4 = head3 + thumb_offset_part(self.thumb_offset);
        match self.share_to_feed {
            Some(true) => url.push_lit("&share_to_feed=true"),
            Some(false) => url.push_lit("&share_to_feed=false"),
            None => (),
        }
        proof {
            assert(url@ =~= head4 + share_to_feed_part(self.share_to_feed));
        }
        let ghost head5 = head4 + share_to_feed_part(self.share_to_feed);
        url.push_lit("&access_token=");
        url.push_form(self.access_token.as_str());
        proof {
            assert(url@ =~= head5 + token_part(self.access_token@));
            assert(reels_uri_bytes(*self) =~= head5 + token_part(self.access_token@));
        }
        Ok(
            HttpRequest {
                method: HttpMethod::Post,
                uri: url.into_string(),
                user_agent: "instagram-graph-api".to_owned(),
                accept: "application/json".to_owned(),
                body: Vec::new(),
            },
        )
    }

    /// Classifies the response; see [`creating_parse_ensures`].
    pub fn parse_response(&self, response: HttpResponse) -> (r: Result<
        EndpointRet<CreatingResponseBodyRet>,
        EndpointError,
    >)
        ensures
            creating_parse_ensures(response, r),
    {
        parse_creating_response(response)
    }
}

} // verus!
