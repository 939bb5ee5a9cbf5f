//! Comment objects of the Graph surface.
//!
//! Three shapes are needed: reading a media's comments (with replies),
//! creating on a media's comments (no replies), and reading one comment by
//! id (adds the media reference and the parent id).  Replies are a
//! homogeneous list of reply comments.

use vstd::prelude::*;

verus! {

use crate::jsonval::{JsonData, json_of, jget, jfield_str, jfield_str_default, jfield_bool,
    jfield_u32, jfield_u64_coerced, jfield_opt_u64_coerced, dec_elem_seq,
    lemma_dec_elem_seq_prefix_none, field_string, field_string_default, field_bool, field_u32,
    field_u64_coerced, field_opt_u64_coerced, field_opt_string, get_field, value_is_object,
    value_as_array, value_is_null};
use crate::timefmt::{rfc3339_unix_secs, parse_rfc3339_unix_secs};

/// Who wrote a comment.
#[derive(Debug, Clone)]
pub struct IgCommentFrom {
    pub id: u64,
    pub username: String,
}

/// Ghost image of [`IgCommentFrom`].
pub struct IgCommentFromView {
    pub id: u64,
    pub username: Seq<char>,
}

impl View for IgCommentFrom {
    type V = IgCommentFromView;

    open spec fn view(&self) -> IgCommentFromView {
        IgCommentFromView { id: self.id, username: self.username@ }
    }
}

/// How a `from` node decodes.
pub open spec fn dec_comment_from(j: JsonData) -> Option<IgCommentFromView> {
    if !(j is Obj) {
        None
    } else {
        match jfield_u64_coerced(j, "id"@) {
            None => None,
            Some(id) => match jfield_str(j, "username"@) {
                None => None,
                Some(username) => Some(IgCommentFromView { id, username }),
            },
        }
    }
}

/// Decodes a `from` node.
pub fn decode_comment_from(v: &serde_json::Value) -> (r: Option<IgCommentFrom>)
    ensures
        match r {
            Some(f) => dec_comment_from(json_of(*v)) == Some(f@),
            None => dec_comment_from(json_of(*v)) is None,
        },
{
    if !value_is_object(v) {
        return None;
    }
    let id = match field_u64_coerced(v, "id") {
        Some(x) => x,
        None => {
            return None;
        },
    };
    let username = match field_string(v, "username") {
        Some(x) => x,
        None => {
            return None;
        },
    };
    Some(IgCommentFrom { id, username })
}

/// The optional `from` member of a comment.
pub open spec fn dec_from_field(j: JsonData, k: Seq<char>) -> Option<Option<IgCommentFromView>> {
    match jget(j, k) {
        None => Some(None),
        Some(JsonData::Null) => Some(None),
        Some(f) => match dec_comment_from(f) {
            None => None,
            Some(x) => Some(Some(x)),
        },
    }
}

/// Reads the optional `from` member.
fn field_comment_from(v: &serde_json::Value, k: &str) -> (r: Option<Option<IgCommentFrom>>)
    ensures
        match r {
            Some(Some(f)) => dec_from_field(json_of(*v), k@) == Some(Some(f@)),
            Some(None) => dec_from_field(json_of(*v), k@) == Some(None::<IgCommentFromView>),
            None => dec_from_field(json_of(*v), k@) is None,
        },
{
    match get_field(v, k) {
        None => Some(None),
        Some(f) => {
            if value_is_null(f) {
                Some(None)
            } else {
                match decode_comment_from(f) {
                    Some(x) => Some(Some(x)),
                    None => None,
                }
            }
        },
    }
}

/// The media a comment belongs to, as the single-comment read returns it.
#[derive(Debug, Clone)]
pub struct IgCommentMedia {
    pub id: u64,
    pub media_product_type: Option<String>,
}

/// Ghost image of [`IgCommentMedia`].
pub struct IgCommentMediaView {
    pub id: u64,
    pub media_product_type: Option<Seq<char>>,
}

impl View for IgCommentMedia {
    type V = IgCommentMediaView;

    open spec fn view(&self) -> IgCommentMediaView {
        IgCommentMediaView { id: self.id, media_product_type: self.media_product_type.deep_view() }
    }
}

/// How a comment's `media` node decodes.
pub open spec fn dec_comment_media(j: JsonData) -> Option<IgCommentMediaView> {
    if !(j is Obj) {
        None
    } else {
        match jfield_u64_coerced(j, "id"@) {
            None => None,
            Some(id) => match crate::jsonval::jfield_opt_str(j, "media_product_type"@) {
                None => None,
                Some(media_product_type) => Some(IgCommentMediaView { id, media_product_type }),
            },
        }
    }
}

/// Decodes a comment's `media` node.
pub fn decode_comment_media(v: &serde_json::Value) -> (r: Option<IgCommentMedia>)
    ensures
        match r {
            Some(m) => dec_comment_media(json_of(*v)) == Some(m@),
            None => dec_comment_media(json_of(*v)) is None,
        },
{
    if !value_is_object(v) {
        return None;
    }
    let id = match field_u64_coerced(v, "id") {
        Some(x) => x,
        None => {
            return None;
        },
    };
    let media_product_type = match field_opt_string(v, "media_product_type") {
        Some(x) => x,
        None => {
            return None;
        },
    };
    Some(IgCommentMedia { id, media_product_type })
}

/// One reply under a comment.
#[derive(Debug, Clone)]
pub struct IgCommentAsReply {
    pub from: Option<IgCommentFrom>,
    pub hidden: bool,
    pub id: u64,
    pub like_count: u32,
    pub parent_id: u64,
    pub text: String,
    /// RFC 3339 text, as the server sent it; a decode only succeeds when it
    /// parses.
    pub timestamp: String,
    pub username: String,
}

/// Ghost image of [`IgCommentAsReply`].
pub struct IgCommentAsReplyView {
    pub from: Option<IgCommentFromView>,
    pub hidden: bool,
    pub id: u64,
    pub like_count: u32,
    pub parent_id: u64,
    pub text: Seq<char>,
    pub timestamp: Seq<char>,
    pub username: Seq<char>,
}

impl View for IgCommentAsReply {
    type V = IgCommentAsReplyView;

    open spec fn view(&self) -> IgCommentAsReplyView {
        IgCommentAsReplyView {
            from: match self.from {
                Some(f) => Some(f@),
                None => None,
            },
            hidden: self.hidden,
            id: self.id,
            like_count: self.like_count,
            parent_id: self.parent_id,
            text: self.text@,
            timestamp: self.timestamp@,
            username: self.username@,
        }
    }
}

impl IgCommentAsReply {
    /// The field list asked for on a reply.
    pub fn fields() -> (r: &'static str)
        ensures
            r@ == "from,hidden,id,like_count,parent_id,text,timestamp,username"@,
    {
        "from,hidden,id,like_count,parent_id,text,timestamp,username"
    }
}

/// How one reply decodes: the parent id is required here.
pub closed spec fn dec_reply(j: JsonData) -> Option<IgCommentAsReplyView> {
    if !(j is Obj) {
        None
    } else {
        match dec_from_field(j, "from"@) {
            None => None,
            Some(from) => match jfield_bool(j, "hidden"@) {
                None => None,
                Some(hidden) => match jfield_u64_coerced(j, "id"@) {
                    None => None,
                    Some(id) => match jfield_u32(j, "like_count"@) {
                        None => None,
                        Some(like_count) => match jfield_u64_coerced(j, "parent_id"@) {
                            None => None,
                            Some(parent_id) => match jfield_str_default(j, "text"@) {
                                None => None,
                                Some(text) => match jfield_str(j, "timestamp"@) {
                                    None => None,
                                    Some(ts) => if !(rfc3339_unix_secs(ts) is Some) {
                                        None
                                    } else {
                                        match jfield_str(j, "username"@) {
                                            None => None,
                                            Some(username) => Some(
                                                IgCommentAsReplyView {
                                                    from,
                                                    hidden,
                                                    id,
                                                    like_count,
                                                    parent_id,
                                                    text,
                                                    timestamp: ts,
                                                    username,
                                                },
                                            ),
                                        }
                                    },
                                },
                            },
                        },
                    },
                },
            },
        }
    }
}

/// Decodes one reply.
pub fn decode_reply(v: &serde_json::Value) -> (r: Option<IgCommentAsReply>)
    ensures
        match r {
            Some(c) => dec_reply(json_of(*v)) == Some(c@),
            None => dec_reply(json_of(*v)) is None,
        },
{
    if !value_is_object(v) {
        return None;
    }
    let from = match field_comment_from(v, "from") {
        Some(x) => x,
        None => {
            return None;
        },
    };
    let hidden = match field_bool(v, "hidden") {
        Some(x) => x,
        None => {
            return None;
        },
    };
    let id = match field_u64_coerced(v, "id") {
        Some(x) => x,
        None => {
            return None;
        },
    };
    let like_count = match field_u32(v, "like_count") {
        Some(x) => x,
        None => {
            return None;
        },
    };
    let parent_id = match field_u64_coerced(v, "parent_id") {
        Some(x) => x,
        None => {
            return None;
        },
    };
    let text = match field_string_default(v, "text") {
        Some(x) => x,
        None => {
            return None;
        },
    };
    let timestamp = match field_string(v, "timestamp") {
        Some(x) => x,
        None => {
            return None;
        },
    };
    if parse_rfc3339_unix_secs(timestamp.as_str()).is_none() {
        return None;
    }
    let username = match field_string(v, "username") {
        Some(x) => x,
        None => {
            return None;
        },
    };
    Some(IgCommentAsReply { from, hidden, id, like_count, parent_id, text, timestamp, username })
}

/// A comment's replies.
#[derive(Debug, Clone)]
pub struct IgCommentReplies {
    pub data: Vec<IgCommentAsReply>,
}

/// The reply decoder, as a value for sequence decoding.
pub open spec fn reply_dec_fn() -> spec_fn(JsonData) -> Option<IgCommentAsReplyView> {
    |j: JsonData| dec_reply(j)
}

/// How a replies node decodes: an object with a `data` array of replies.
pub open spec fn dec_replies(j: JsonData) -> Option<Seq<IgCommentAsReplyView>> {
    if !(j is Obj) {
        None
    } else {
        match jget(j, "data"@) {
            Some(JsonData::Arr(a)) => dec_elem_seq(a, reply_dec_fn()),
            _ => None,
        }
    }
}

/// Decodes a replies node.
#[verifier::loop_isolation(false)]
pub fn decode_replies(v: &serde_json::Value) -> (r: Option<IgCommentReplies>)
    ensures
        match r {
            Some(c) => dec_replies(json_of(*v)) == Some(
                c.data@.map_values(|x: IgCommentAsReply| x@),
            ),
            None => dec_replies(json_of(*v)) is None,
        },
{
    if !value_is_object(v) {
        return None;
    }
    let data_node = match get_field(v, "data") {
        None => {
            return None;
        },
        Some(x) => x,
    };
    let ghost jx = json_of(*data_node);
    let arr = match value_as_array(data_node) {
        None => {
            return None;
        },
        Some(a) => a,
    };
    let ghost aseq = jx->Arr_0;
    let mut data: Vec<IgCommentAsReply> = Vec::new();
    let mut i: usize = 0;
    while i < arr.len()
        invariant
            0 <= i <= arr@.len(),
            dec_elem_seq(aseq.subrange(0, i as int), reply_dec_fn()) == Some(
                data@.map_values(|x: IgCommentAsReply| x@),
            ),
        decreases arr@.len() - i,
    {
        let ghost pre_map = data@.map_values(|x: IgCommentAsReply| x@);
        proof {
            let p2 = aseq.subrange(0, i + 1);
            assert(p2.drop_last() =~= aseq.subrange(0, i as int));
            assert(p2.last() == aseq[i as int]);
        }
        match decode_reply(&arr[i]) {
            Some(c) => {
                data.push(c);
                proof {
                    assert(data@.map_values(|x: IgCommentAsReply| x@) =~= pre_map.push(
                        data@.last()@,
                    ));
                }
            },
            None => {
                proof {
                    lemma_dec_elem_seq_prefix_none(aseq, reply_dec_fn(), i + 1);
                }
                return None;
            },
        }
        i = i + 1;
    }
    proof {
        assert(aseq.subrange(0, aseq.len() as int) =~= aseq);
    }
    Some(IgCommentReplies { data })
}

/// The `replies` member defaults to an empty list when absent.
pub open spec fn dec_replies_field(j: JsonData) -> Option<Seq<IgCommentAsReplyView>> {
    match jget(j, "replies"@) {
        None => Some(Seq::empty()),
        Some(rep) => dec_replies(rep),
    }
}

/// Reads the `replies` member, defaulting to an empty list when absent.
fn field_replies(v: &serde_json::Value) -> (r: Option<IgCommentReplies>)
    ensures
        match r {
            Some(c) => dec_replies_field(json_of(*v)) == Some(
                c.data@.map_values(|x: IgCommentAsReply| x@),
            ),
            None => dec_replies_field(json_of(*v)) is None,
        },
{
    match get_field(v, "replies") {
        None => {
            let empty = IgCommentReplies { data: Vec::new() };
            proof {
                assert(empty.data@.map_values(|x: IgCommentAsReply| x@) =~= Seq::<
                    IgCommentAsReplyView,
                >::empty());
            }
            Some(empty)
        },
        Some(rep) => decode_replies(rep),
    }
}

/// A comment as the media-comments listing returns it.
#[derive(Debug, Clone)]
pub struct IgCommentForIgMediaCommentsReadingOperation {
    pub from: Option<IgCommentFrom>,
    pub hidden: bool,
    pub id: u64,
    pub like_count: u32,
    pub text: String,
    /// RFC 3339 text, as the server sent it.
    pub timestamp: String,
    pub username: String,
    pub replies: IgCommentReplies,
}

/// Ghost image of [`IgCommentForIgMediaCommentsReadingOperation`].
pub struct IgCommentMediaReadingView {
    pub from: Option<IgCommentFromView>,
    pub hidden: bool,
    pub id: u64,
    pub like_count: u32,
    pub text: Seq<char>,
    pub timestamp: Seq<char>,
    pub username: Seq<char>,
    pub replies: Seq<IgCommentAsReplyView>,
}

impl View for IgCommentForIgMediaCommentsReadingOperation {
    type V = IgCommentMediaReadingView;

    open spec fn view(&self) -> IgCommentMediaReadingView {
        IgCommentMediaReadingView {
            from: match self.from {
                Some(f) => Some(f@),
                None => None,
            },
            hidden: self.hidden,
            id: self.id,
            like_count: self.like_count,
            text: self.text@,
            timestamp: self.timestamp@,
            username: self.username@,
            replies: self.replies.data@.map_values(|x: IgCommentAsReply| x@),
        }
    }
}

impl IgCommentForIgMediaCommentsReadingOperation {
    /// The field list the media-comments listing asks for, replies
    /// included.
    pub fn fields() -> (r: &'static str)
        ensures
            r@ == "from,hidden,id,like_count,text,timestamp,username,replies{from,hidden,id,like_count,parent_id,text,timestamp,username}"@,
    {
        "from,hidden,id,like_count,text,timestamp,username,replies{from,hidden,id,like_count,parent_id,text,timestamp,username}"
    }
}

/// How a listed comment decodes.
pub closed spec fn dec_comment_media_reading(j: JsonData) -> Option<IgCommentMediaReadingView> {
    if !(j is Obj) {
        None
    } else {
        match dec_from_field(j, "from"@) {
            None => None,
            Some(from) => match jfield_bool(j, "hidden"@) {
                None => None,
                Some(hidden) => match jfield_u64_coerced(j, "id"@) {
                    None => None,
                    Some(id) => match jfield_u32(j, "like_count"@) {
                        None => None,
                        Some(like_count) => match jfield_str_default(j, "text"@) {
                            None => None,
                            Some(text) => match jfield_str(j, "timestamp"@) {
                                None => None,
                                Some(ts) => if !(rfc3339_unix_secs(ts) is Some) {
                                    None
                                } else {
                                    match jfield_str(j, "username"@) {
                                        None => None,
                                        Some(username) => match dec_replies_field(j) {
                                            None => None,
                                            Some(replies) => Some(
                                                IgCommentMediaReadingView {
                                                    from,
                                                    hidden,
                                                    id,
                                                    like_count,
                                                    text,
                                                    timestamp: ts,
                                                    username,
                                                    replies,
                                                },
                                            ),
                                        },
                                    }
                                },
                            },
                        },
                    },
                },
            },
        }
    }
}

/// Decodes a listed comment.
pub fn decode_comment_media_reading(v: &serde_json::Value) -> (r: Option<
    IgCommentForIgMediaCommentsReadingOperation,
>)
    ensures
        match r {
            Some(c) => dec_comment_media_reading(json_of(*v)) == Some(c@),
            None => dec_comment_media_reading(json_of(*v)) is None,
        },
{
    if !value_is_object(v) {
        return None;
    }
    let from = match field_comment_from(v, "from") {
        Some(x) => x,
        None => {
            return None;
        },
    };
    let hidden = match field_bool(v, "hidden") {
        Some(x) => x,
        None => {
            return None;
        },
    };
    let id = match field_u64_coerced(v, "id") {
        Some(x) => x,
        None => {
            return None;
        },
    };
    let like_count = match field_u32(v, "like_count") {
        Some(x) => x,
        None => {
            return None;
        },
    };
    let text = match field_string_default(v, "text") {
        Some(x) => x,
        None => {
            return None;
        },
    };
    let timestamp = match field_string(v, "timestamp") {
        Some(x) => x,
        None => {
            return None;
        },
    };
    if parse_rfc3339_unix_secs(timestamp.as_str()).is_none() {
        return None;
    }
    let username = match field_string(v, "username") {
        Some(x) => x,
        None => {
            return None;
        },
    };
    let replies = match field_replies(v) {
        Some(x) => x,
        None => {
            return None;
        },
    };
    Some(
        IgCommentForIgMediaCommentsReadingOperation {
            from,
            hidden,
            id,
            like_count,
            text,
            timestamp,
            username,
            replies,
        },
    )
}

/// A comment as comment creation returns it: the listed shape minus the
/// replies.
#[derive(Debug, Clone)]
pub struct IgCommentForIgMediaCommentsCreatingOperation {
    pub from: Option<IgCommentFrom>,
    pub hidden: bool,
    pub id: u64,
    pub like_count: u32,
    pub text: String,
    /// RFC 3339 text, as the server sent it.
    pub timestamp: String,
    pub username: String,
}

/// Ghost image of [`IgCommentForIgMediaCommentsCreatingOperation`].
pub struct IgCommentMediaCreatingView {
    pub from: Option<IgCommentFromView>,
    pub hidden: bool,
    pub id: u64,
    pub like_count: u32,
    pub text: Seq<char>,
    pub timestamp: Seq<char>,
    pub username: Seq<char>,
}

impl View for IgCommentForIgMediaCommentsCreatingOperation {
    type V = IgCommentMediaCreatingView;

    open spec fn view(&self) -> IgCommentMediaCreatingView {
        IgCommentMediaCreatingView {
            from: match self.from {
                Some(f) => Some(f@),
                None => None,
            },
            hidden: self.hidden,
            id: self.id,
            like_count: self.like_count,
            text: self.text@,
            timestamp: self.timestamp@,
            username: self.username@,
        }
    }
}

impl IgCommentForIgMediaCommentsCreatingOperation {
    /// The field list comment creation asks for.
    pub fn fields() -> (r: &'static str)
        ensures
            r@ == "from,hidden,id,like_count,text,timestamp,username"@,
    {
        "from,hidden,id,like_count,text,timestamp,username"
    }
}

/// How a created comment decodes.
pub closed spec fn dec_comment_media_creating(j: JsonData) -> Option<IgCommentMediaCreatingView> {
    if !(j is Obj) {
        None
    } else {
        match dec_from_field(j, "from"@) {
            None => None,
            Some(from) => match jfield_bool(j, "hidden"@) {
                None => None,
                Some(hidden) => match jfield_u64_coerced(j, "id"@) {
                    None => None,
                    Some(id) => match jfield_u32(j, "like_count"@) {
                        None => None,
                        Some(like_count) => match jfield_str_default(j, "text"@) {
                            None => None,
                            Some(text) => match jfield_str(j, "timestamp"@) {
                                None => None,
                                Some(ts) => if !(rfc3339_unix_secs(ts) is Some) {
                                    None
                                } else {
                                    match jfield_str(j, "username"@) {
                                        None => None,
                                        Some(username) => Some(
                                            IgCommentMediaCreatingView {
                                                from,
                                                hidden,
                                                id,
                                                like_count,
                                                text,
                                                timestamp: ts,
                                                username,
                                            },
                                        ),
                                    }
                                },
                            },
                        },
                    },
                },
            },
        }
    }
}

/// Decodes a created comment.
pub fn decode_comment_media_creating(v: &serde_json::Value) -> (r: Option<
    IgCommentForIgMediaCommentsCreatingOperation,
>)
    ensures
        match r {
            Some(c) => dec_comment_media_creating(json_of(*v)) == Some(c@),
            None => dec_comment_media_creating(json_of(*v)) is None,
        },
{
    if !value_is_object(v) {
        return None;
    }
    let from = match field_comment_from(v, "from") {
        Some(x) => x,
        None => {
            return None;
        },
    };
    let hidden = match field_bool(v, "hidden") {
        Some(x) => x,
        None => {
            return None;
        },
    };
    let id = match field_u64_coerced(v, "id") {
        Some(x) => x,
        None => {
            return None;
        },
    };
    let like_count = match field_u32(v, "like_count") {
        Some(x) => x,
        None => {
            return None;
        },
    };
    let text = match field_string_default(v, "text") {
        Some(x) => x,
        None => {
            return None;
        },
    };
    let timestamp = match field_string(v, "timestamp") {
        Some(x) => x,
        None => {
            return None;
        },
    };
    if parse_rfc3339_unix_secs(timestamp.as_str()).is_none() {
        return None;
    }
    let username = match field_string(v, "username") {
        Some(x) => x,
        None => {
            return None;
        },
    };
    Some(
        IgCommentForIgMediaCommentsCreatingOperation {
            from,
            hidden,
            id,
            like_count,
            text,
            timestamp,
            username,
        },
    )
}

/// A comment as the single-comment read returns it: adds the media
/// reference and the optional parent id.
#[derive(Debug, Clone)]
pub struct IgCommentForIgCommentReadingOperation {
    pub from: Option<IgCommentFrom>,
    pub hidden: bool,
    pub id: u64,
    pub like_count: u32,
    pub media: IgCommentMedia,
    pub parent_id: Option<u64>,
    pub text: String,
    /// RFC 3339 text, as the server sent it.
    pub timestamp: String,
    pub username: String,
    pub replies: IgCommentReplies,
}

/// Ghost image of [`IgCommentForIgCommentReadingOperation`].
pub struct IgCommentReadingView {
    pub from: Option<IgCommentFromView>,
    pub hidden: bool,
    pub id: u64,
    pub like_count: u32,
    pub media: IgCommentMediaView,
    pub parent_id: Option<u64>,
    pub text: Seq<char>,
    pub timestamp: Seq<char>,
    pub username: Seq<char>,
    pub replies: Seq<IgCommentAsReplyView>,
}

impl View for IgCommentForIgCommentReadingOperation {
    type V = IgCommentReadingView;

    open spec fn view(&self) -> IgCommentReadingView {
        IgCommentReadingView {
            from: match self.from {
                Some(f) => Some(f@),
                None => None,
            },
            hidden: self.hidden,
            id: self.id,
            like_count: self.like_count,
            media: self.media@,
            parent_id: self.parent_id,
            text: self.text@,
            timestamp: self.timestamp@,
            username: self.username@,
            replies: self.replies.data@.map_values(|x: IgCommentAsReply| x@),
        }
    }
}

impl IgCommentForIgCommentReadingOperation {
    /// The field list the single-comment read asks for.
    pub fn fields() -> (r: &'static str)
        ensures
            r@ == "from,hidden,id,like_count,media,parent_id,text,timestamp,username"@,
    {
        "from,hidden,id,like_count,media,parent_id,text,timestamp,username"
    }

    /// The same list with the replies sub-selection added.
    pub fn fields_with_replies() -> (r: &'static str)
        ensures
            r@ == "from,hidden,id,like_count,media,parent_id,text,timestamp,username,replies{from,hidden,id,like_count,parent_id,text,timestamp,username}"@,
    {
        "from,hidden,id,like_count,media,parent_id,text,timestamp,username,replies{from,hidden,id,like_count,parent_id,text,timestamp,username}"
    }
}

/// How a single read comment decodes: `media` is required, `parent_id`
/// optional (number or digit string).
pub closed spec fn dec_comment_reading(j: JsonData) -> Option<IgCommentReadingView> {
    if !(j is Obj) {
        None
    } else {
        match dec_from_field(j, "from"@) {
            None => None,
            Some(from) => match jfield_bool(j, "hidden"@) {
                None => None,
                Some(hidden) => match jfield_u64_coerced(j, "id"@) {
                    None => None,
                    Some(id) => match jfield_u32(j, "like_count"@) {
                        None => None,
                        Some(like_count) => match jget(j, "media"@) {
                            None => None,
                            Some(mnode) => match dec_comment_media(mnode) {
                                None => None,
                                Some(media) => match jfield_opt_u64_coerced(j, "parent_id"@) {
                                    None => None,
                                    Some(parent_id) => match jfield_str_default(j, "text"@) {
                                        None => None,
                                        Some(text) => match jfield_str(j, "timestamp"@) {
                                            None => None,
                                            Some(ts) => if !(rfc3339_unix_secs(ts) is Some) {
                                                None
                                            } else {
                                                match jfield_str(j, "username"@) {
                                                    None => None,
                                                    Some(username) => match dec_replies_field(j) {
                                                        None => None,
                                                        Some(replies) => Some(
                                                            IgCommentReadingView {
                                                                from,
                                                                hidden,
                                                                id,
                                                                like_count,
                                                                media,
                                                                parent_id,
                                                                text,
                                                                timestamp: ts,
                                                                username,
                                                                replies,
                                                            },
                                                        ),
                                                    },
                                                }
                                            },
                                        },
                                    },
                                },
                            },
                        },
                    },
                },
            },
        }
    }
}

/// Decodes a single read comment.
pub fn decode_comment_reading(v: &serde_json::Value) -> (r: Option<
    IgCommentForIgCommentReadingOperation,
>)
    ensures
        match r {
            Some(c) => dec_comment_reading(json_of(*v)) == Some(c@),
            None => dec_comment_reading(json_of(*v)) is None,
        },
{
    if !value_is_object(v) {
        return None;
    }
    let from = match field_comment_from(v, "from") {
        Some(x) => x,
        None => {
            return None;
        },
    };
    let hidden = match field_bool(v, "hidden") {
        Some(x) => x,
        None => {
            return None;
        },
    };
    let id = match field_u64_coerced(v, "id") {
        Some(x) => x,
        None => {
            return None;
        },
    };
    let like_count = match field_u32(v, "like_count") {
        Some(x) => x,
        None => {
            return None;
        },
    };
    let media = match get_field(v, "media") {
        None => {
            return None;
        },
        Some(mnode) => match decode_comment_media(mnode) {
            Some(m) => m,
            None => {
                return None;
            },
        },
    };
    let parent_id = match field_opt_u64_coerced(v, "parent_id") {
        Some(x) => x,
        None => {
            return None;
        },
    };
    let text = match field_string_default(v, "text") {
        Some(x) => x,
        None => {
            return None;
        },
    };
    let timestamp = match field_string(v, "timestamp") {
        Some(x) => x,
        None => {
            return None;
        },
    };
    if parse_rfc3339_unix_secs(timestamp.as_str()).is_none() {
        return None;
    }
    let username = match field_string(v, "username") {
        Some(x) => x,
        None => {
            return None;
        },
    };
    let replies = match field_replies(v) {
        Some(x) => x,
        None => {
            return None;
        },
    };
    Some(
        IgCommentForIgCommentReadingOperation {
            from,
            hidden,
            id,
            like_count,
            media,
            parent_id,
            text,
            timestamp,
            username,
            replies,
        },
    )
}

} // verus!
