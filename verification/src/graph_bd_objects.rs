//! Objects returned by a business-discovery read: one account's profile
//! with a window of its media.

use vstd::prelude::*;

verus! {

use crate::bytestr::str_eq;
use crate::jsonval::{JsonData, json_of, jget, jfield_str, jfield_opt_str, jfield_u32,
    jfield_u64_coerced, dec_elem_seq, lemma_dec_elem_seq_prefix_none, field_string,
    field_opt_string, field_u32, field_u64_coerced, get_field, value_is_object, value_as_str,
    value_as_array, value_is_null};
use crate::paging::{Paging, PagingView, dec_paging, decode_paging};
use crate::timefmt::{rfc3339_unix_secs, parse_rfc3339_unix_secs};

/// Where a media item appears.
#[derive(Debug, Clone, Copy, PartialEq, Eq, Structural)]
pub enum IgMediaProductType {
    Ad,
    Feed,
    Story,
    Igtv,
    Reels,
}

/// The upstream spelling of each product type; anything else fails the
/// decode.
pub open spec fn dec_media_product_type(t: Seq<char>) -> Option<IgMediaProductType> {
    if t == "AD"@ {
        Some(IgMediaProductType::Ad)
    } else if t == "FEED"@ {
        Some(IgMediaProductType::Feed)
    } else if t == "STORY"@ {
        Some(IgMediaProductType::Story)
    } else if t == "IGTV"@ {
        Some(IgMediaProductType::Igtv)
    } else if t == "REELS"@ {
        Some(IgMediaProductType::Reels)
    } else {
        None
    }
}

/// The kind of a media item.
#[derive(Debug, Clone, Copy, PartialEq, Eq, Structural)]
pub enum IgMediaType {
    Photo,
    Video,
    Album,
}

/// The upstream spelling of each media kind; anything else fails the
/// decode.
pub open spec fn dec_ig_media_type(t: Seq<char>) -> Option<IgMediaType> {
    if t == "IMAGE"@ {
        Some(IgMediaType::Photo)
    } else if t == "VIDEO"@ {
        Some(IgMediaType::Video)
    } else if t == "CAROUSEL_ALBUM"@ {
        Some(IgMediaType::Album)
    } else {
        None
    }
}

/// Reads a media-kind field.
fn field_ig_media_type(v: &serde_json::Value, k: &str) -> (r: Option<IgMediaType>)
    ensures
        r == (match jfield_str(json_of(*v), k@) {
            Some(t) => dec_ig_media_type(t),
            None => None::<IgMediaType>,
        }),
{
    match get_field(v, k) {
        None => None,
        Some(x) => match value_as_str(x) {
            None => None,
            Some(s) => {
                if str_eq(s, "IMAGE") {
                    Some(IgMediaType::Photo)
                } else if str_eq(s, "VIDEO") {
                    Some(IgMediaType::Video)
                } else if str_eq(s, "CAROUSEL_ALBUM") {
                    Some(IgMediaType::Album)
                } else {
                    None
                }
            },
        },
    }
}

/// One child of a discovered carousel album.
#[derive(Debug, Clone)]
pub struct IgMediaChildForIgUserBusinessDiscoveryReadingOperation {
    pub id: u64,
    pub media_type: IgMediaType,
    pub media_url: Option<String>,
    pub permalink: String,
    /// RFC 3339 text, as the server sent it.
    pub timestamp: String,
}

/// Ghost image of [`IgMediaChildForIgUserBusinessDiscoveryReadingOperation`].
pub struct BdMediaChildView {
    pub id: u64,
    pub media_type: IgMediaType,
    pub media_url: Option<Seq<char>>,
    pub permalink: Seq<char>,
    pub timestamp: Seq<char>,
}

impl View for IgMediaChildForIgUserBusinessDiscoveryReadingOperation {
    type V = BdMediaChildView;

    open spec fn view(&self) -> BdMediaChildView {
        BdMediaChildView {
            id: self.id,
            media_type: self.media_type,
            media_url: self.media_url.deep_view(),
            permalink: self.permalink@,
            timestamp: self.timestamp@,
        }
    }
}

/// How one discovered carousel child decodes.
pub closed spec fn dec_bd_child(j: JsonData) -> Option<BdMediaChildView> {
    if !(j is Obj) {
        None
    } else {
        match jfield_u64_coerced(j, "id"@) {
            None => None,
            Some(id) => match jfield_str(j, "media_type"@) {
                None => None,
                Some(mt) => match dec_ig_media_type(mt) {
                    None => None,
                    Some(media_type) => match jfield_opt_str(j, "media_url"@) {
                        None => None,
                        Some(media_url) => match jfield_str(j, "permalink"@) {
                            None => None,
                            Some(permalink) => match jfield_str(j, "timestamp"@) {
                                None => None,
                                Some(ts) => if rfc3339_unix_secs(ts) is Some {
                                    Some(
                                        BdMediaChildView {
                                            id,
                                            media_type,
                                            media_url,
                                            permalink,
                                            timestamp: ts,
                                        },
                                    )
                                } else {
                                    None
                                },
                            },
                        },
                    },
                },
            },
        }
    }
}

/// Decodes one discovered carousel child.
pub fn decode_bd_child(v: &serde_json::Value) -> (r: Option<
    IgMediaChildForIgUserBusinessDiscoveryReadingOperation,
>)
    ensures
        match r {
            Some(c) => dec_bd_child(json_of(*v)) == Some(c@),
            None => dec_bd_child(json_of(*v)) is None,
        },
{
    if !value_is_object(v) {
        return None;
    }
    let id = match field_u64_coerced(v, "id") {
        Some(x) => x,
        None => {
            return None;
        },
    };
    let media_type = match field_ig_media_type(v, "media_type") {
        Some(x) => x,
        None => {
            return None;
        },
    };
    let media_url = match field_opt_string(v, "media_url") {
        Some(x) => x,
        None => {
            return None;
        },
    };
    let permalink = match field_string(v, "permalink") {
        Some(x) => x,
        None => {
            return None;
        },
    };
    let timestamp = match field_string(v, "timestamp") {
        Some(x) => x,
        None => {
            return None;
        },
    };
    if parse_rfc3339_unix_secs(timestamp.as_str()).is_none() {
        return None;
    }
    Some(
        IgMediaChildForIgUserBusinessDiscoveryReadingOperation {
            id,
            media_type,
            media_url,
            permalink,
            timestamp,
        },
    )
}

/// The children list of a discovered carousel album.
#[derive(Debug, Clone)]
pub struct IgMediaChildrenForIgUserBusinessDiscoveryReadingOperation {
    pub data: Vec<IgMediaChildForIgUserBusinessDiscoveryReadingOperation>,
}

/// The child decoder, as a value for sequence decoding.
pub open spec fn bd_child_dec_fn() -> spec_fn(JsonData) -> Option<BdMediaChildView> {
    |j: JsonData| dec_bd_child(j)
}

/// How a discovered children node decodes: an object with a `data` array.
pub open spec fn dec_bd_children(j: JsonData) -> Option<Seq<BdMediaChildView>> {
    if !(j is Obj) {
        None
    } else {
        match jget(j, "data"@) {
            Some(JsonData::Arr(a)) => dec_elem_seq(a, bd_child_dec_fn()),
            _ => None,
        }
    }
}

/// Decodes a discovered children node.
#[verifier::loop_isolation(false)]
pub fn decode_bd_children(v: &serde_json::Value) -> (r: Option<
    IgMediaChildrenForIgUserBusinessDiscoveryReadingOperation,
>)
    ensures
        match r {
            Some(c) => dec_bd_children(json_of(*v)) == Some(
                c.data@.map_values(|x: IgMediaChildForIgUserBusinessDiscoveryReadingOperation| x@),
            ),
            None => dec_bd_children(json_of(*v)) is None,
        },
{
    if !value_is_object(v) {
        return None;
    }
    let data_node = match get_field(v, "data") {
        None => {
            return None;
        },
        Some(x) => x,
    };
    let ghost jx = json_of(*data_node);
    let arr = match value_as_array(data_node) {
        None => {
            return None;
        },
        Some(a) => a,
    };
    let ghost aseq = jx->Arr_0;
    let mut data: Vec<IgMediaChildForIgUserBusinessDiscoveryReadingOperation> = Vec::new();
    let mut i: usize = 0;
    while i < arr.len()
        invariant
            0 <= i <= arr@.len(),
            dec_elem_seq(aseq.subrange(0, i as int), bd_child_dec_fn()) == Some(
                data@.map_values(|x: IgMediaChildForIgUserBusinessDiscoveryReadingOperation| x@),
            ),
        decreases arr@.len() - i,
    {
        let ghost pre_map = data@.map_values(
            |x: IgMediaChildForIgUserBusinessDiscoveryReadingOperation| x@,
        );
        proof {
            let p2 = aseq.subrange(0, i + 1);
            assert(p2.drop_last() =~= aseq.subrange(0, i as int));
            assert(p2.last() == aseq[i as int]);
        }
        match decode_bd_child(&arr[i]) {
            Some(c) => {
                data.push(c);
                proof {
                    assert(data@.map_values(
                        |x: IgMediaChildForIgUserBusinessDiscoveryReadingOperation| x@,
                    ) =~= pre_map.push(data@.last()@));
                }
            },
            None => {
                proof {
                    lemma_dec_elem_seq_prefix_none(aseq, bd_child_dec_fn(), i + 1);
                }
                return None;
            },
        }
        i = i + 1;
    }
    proof {
        assert(aseq.subrange(0, aseq.len() as int) =~= aseq);
    }
    Some(IgMediaChildrenForIgUserBusinessDiscoveryReadingOperation { data })
}

/// One discovered media item.
#[derive(Debug, Clone)]
pub struct IgMediaForIgUserBusinessDiscoveryReadingOperation {
    pub caption: Option<String>,
    pub comments_count: u32,
    pub id: u64,
    pub like_count: u32,
    pub media_product_type: IgMediaProductType,
    pub media_type: IgMediaType,
    pub media_url: Option<String>,
    pub permalink: String,
    /// RFC 3339 text, as the server sent it.
    pub timestamp: String,
    pub children: Option<IgMediaChildrenForIgUserBusinessDiscoveryReadingOperation>,
}

/// Ghost image of [`IgMediaForIgUserBusinessDiscoveryReadingOperation`].
pub struct BdMediaView {
    pub caption: Option<Seq<char>>,
    pub comments_count: u32,
    pub id: u64,
    pub like_count: u32,
    pub media_product_type: IgMediaProductType,
    pub media_type: IgMediaType,
    pub media_url: Option<Seq<char>>,
    pub permalink: Seq<char>,
    pub timestamp: Seq<char>,
    pub children: Option<Seq<BdMediaChildView>>,
}

impl View for IgMediaForIgUserBusinessDiscoveryReadingOperation {
    type V = BdMediaView;

    open spec fn view(&self) -> BdMediaView {
        BdMediaView {
            caption: self.caption.deep_view(),
            comments_count: self.comments_count,
            id: self.id,
            like_count: self.like_count,
            media_product_type: self.media_product_type,
            media_type: self.media_type,
            media_url: self.media_url.deep_view(),
            permalink: self.permalink@,
            timestamp: self.timestamp@,
            children: match self.children {
                Some(c) => Some(
                    c.data@.map_values(
                        |x: IgMediaChildForIgUserBusinessDiscoveryReadingOperation| x@,
                    ),
                ),
                None => None,
            },
        }
    }
}

/// How one discovered media item decodes.
pub closed spec fn dec_bd_media(j: JsonData) -> Option<BdMediaView> {
    if !(j is Obj) {
        None
    } else {
        match jfield_opt_str(j, "caption"@) {
            None => None,
            Some(caption) => match jfield_u32(j, "comments_count"@) {
                None => None,
                Some(comments_count) => match jfield_u64_coerced(j, "id"@) {
                    None => None,
                    Some(id) => match jfield_u32(j, "like_count"@) {
                        None => None,
                        Some(like_count) => match jfield_str(j, "media_product_type"@) {
                            None => None,
                            Some(pt) => match dec_media_product_type(pt) {
                                None => None,
                                Some(media_product_type) => match jfield_str(j, "media_type"@) {
                                    None => None,
                                    Some(mt) => match dec_ig_media_type(mt) {
                                        None => None,
                                        Some(media_type) => match jfield_opt_str(
                                            j,
                                            "media_url"@,
                                        ) {
                                            None => None,
                                            Some(media_url) => match jfield_str(j, "permalink"@) {
                                                None => None,
                                                Some(permalink) => match jfield_str(
                                                    j,
                                                    "timestamp"@,
                                                ) {
                                                    None => None,
                                                    Some(ts) => if !(rfc3339_unix_secs(
                                                        ts,
                                                    ) is Some) {
                                                        None
                                                    } else {
                                                        match dec_bd_children_field(j) {
                                                            None => None,
                                                            Some(children) => Some(
                                                                BdMediaView {
                                                                    caption,
                                                                    comments_count,
                                                                    id,
                                                                    like_count,
                                                                    media_product_type,
                                                                    media_type,
                                                                    media_url,
                                                                    permalink,
                                                                    timestamp: ts,
                                                                    children,
                                                                },
                                                            ),
                                                        }
                                                    },
                                                },
                                            },
                                        },
                                    },
                                },
                            },
                        },
                    },
                },
            },
        }
    }
}

/// The optional `children` member: absent or `null` means none.
pub open spec fn dec_bd_children_field(j: JsonData) -> Option<Option<Seq<BdMediaChildView>>> {
    match jget(j, "children"@) {
        None => Some(None),
        Some(JsonData::Null) => Some(None),
        Some(c) => match dec_bd_children(c) {
            None => None,
            Some(s) => Some(Some(s)),
        },
    }
}

/// Decodes one discovered media item.
pub fn decode_bd_media(v: &serde_json::Value) -> (r: Option<
    IgMediaForIgUserBusinessDiscoveryReadingOperation,
>)
    ensures
        match r {
            Some(m) => dec_bd_media(json_of(*v)) == Some(m@),
            None => dec_bd_media(json_of(*v)) is None,
        },
{
    if !value_is_object(v) {
        return None;
    }
    let caption = match field_opt_string(v, "caption") {
        Some(x) => x,
        None => {
            return None;
        },
    };
    let comments_count = match field_u32(v, "comments_count") {
        Some(x) => x,
        None => {
            return None;
        },
    };
    let id = match field_u64_coerced(v, "id") {
        Some(x) => x,
        None => {
            return None;
        },
    };
    let like_count = match field_u32(v, "like_count") {
        Some(x) => x,
        None => {
            return None;
        },
    };
    let media_product_type = match get_field(v, "media_product_type") {
        None => {
            return None;
        },
        Some(x) => match value_as_str(x) {
            None => {
                return None;
            },
            Some(s) => {
                if str_eq(s, "AD") {
                    IgMediaProductType::Ad
                } else if str_eq(s, "FEED") {
                    IgMediaProductType::Feed
                } else if str_eq(s, "STORY") {
                    IgMediaProductType::Story
                } else if str_eq(s, "IGTV") {
                    IgMediaProductType::Igtv
                } else if str_eq(s, "REELS") {
                    IgMediaProductType::Reels
                } else {
                    return None;
                }
            },
        },
    };
    let media_type = match field_ig_media_type(v, "media_type") {
        Some(x) => x,
        None => {
            return None;
        },
    };
    let media_url = match field_opt_string(v, "media_url") {
        Some(x) => x,
        None => {
            return None;
        },
    };
    let permalink = match field_string(v, "permalink") {
        Some(x) => x,
        None => {
            return None;
        },
    };
    let timestamp = match field_string(v, "timestamp") {
        Some(x) => x,
        None => {
            return None;
        },
    };
    if parse_rfc3339_unix_secs(timestamp.as_str()).is_none() {
        return None;
    }
    let children = match get_field(v, "children") {
        None => None,
        Some(c) => {
            if value_is_null(c) {
                None
            } else {
                match decode_bd_children(c) {
                    Some(ch) => Some(ch),
                    None => {
                        return None;
                    },
                }
            }
        },
    };
    Some(
        IgMediaForIgUserBusinessDiscoveryReadingOperation {
            caption,
            comments_count,
            id,
            like_count,
            media_product_type,
            media_type,
            media_url,
            permalink,
            timestamp,
            children,
        },
    )
}

/// The discovered account's media window.
#[derive(Debug, Clone)]
pub struct IgUserMediaForIgUserBusinessDiscoveryReadingOperation {
    pub data: Vec<IgMediaForIgUserBusinessDiscoveryReadingOperation>,
    pub paging: Option<Paging>,
}

/// Ghost image of [`IgUserMediaForIgUserBusinessDiscoveryReadingOperation`].
pub struct BdUserMediaView {
    pub data: Seq<BdMediaView>,
    pub paging: Option<PagingView>,
}

impl View for IgUserMediaForIgUserBusinessDiscoveryReadingOperation {
    type V = BdUserMediaView;

    open spec fn view(&self) -> BdUserMediaView {
        BdUserMediaView {
            data: self.data@.map_values(|m: IgMediaForIgUserBusinessDiscoveryReadingOperation| m@),
            paging: match self.paging {
                Some(p) => Some(p@),
                None => None,
            },
        }
    }
}

/// The discovered-media decoder, as a value for sequence decoding.
pub open spec fn bd_media_dec_fn() -> spec_fn(JsonData) -> Option<BdMediaView> {
    |j: JsonData| dec_bd_media(j)
}

/// How the media window decodes: a required `data` array, optional
/// `paging`.
pub open spec fn dec_bd_user_media(j: JsonData) -> Option<BdUserMediaView> {
    if !(j is Obj) {
        None
    } else {
        match jget(j, "data"@) {
            Some(JsonData::Arr(a)) => match dec_elem_seq(a, bd_media_dec_fn()) {
                None => None,
                Some(data) => match jget(j, "paging"@) {
                    None => Some(BdUserMediaView { data, paging: None }),
                    Some(JsonData::Null) => Some(BdUserMediaView { data, paging: None }),
                    Some(p) => match dec_paging(p) {
                        None => None,
                        Some(paging) => Some(BdUserMediaView { data, paging: Some(paging) }),
                    },
                },
            },
            _ => None,
        }
    }
}

/// Decodes the media window.
#[verifier::loop_isolation(false)]
pub fn decode_bd_user_media(v: &serde_json::Value) -> (r: Option<
    IgUserMediaForIgUserBusinessDiscoveryReadingOperation,
>)
    ensures
        match r {
            Some(b) => dec_bd_user_media(json_of(*v)) == Some(b@),
            None => dec_bd_user_media(json_of(*v)) is None,
        },
{
    if !value_is_object(v) {
        return None;
    }
    let data_node = match get_field(v, "data") {
        None => {
            return None;
        },
        Some(x) => x,
    };
    let ghost jx = json_of(*data_node);
    let arr = match value_as_array(data_node) {
        None => {
            return None;
        },
        Some(a) => a,
    };
    let ghost aseq = jx->Arr_0;
    let mut data: Vec<IgMediaForIgUserBusinessDiscoveryReadingOperation> = Vec::new();
    let mut i: usize = 0;
    while i < arr.len()
        invariant
            0 <= i <= arr@.len(),
            dec_elem_seq(aseq.subrange(0, i as int), bd_media_dec_fn()) == Some(
                data@.map_values(|m: IgMediaForIgUserBusinessDiscoveryReadingOperation| m@),
            ),
        decreases arr@.len() - i,
    {
        let ghost pre_map = data@.map_values(
            |m: IgMediaForIgUserBusinessDiscoveryReadingOperation| m@,
        );
        proof {
            let p2 = aseq.subrange(0, i + 1);
            assert(p2.drop_last() =~= aseq.subrange(0, i as int));
            assert(p2.last() == aseq[i as int]);
        }
        match decode_bd_media(&arr[i]) {
            Some(m) => {
                data.push(m);
                proof {
                    assert(data@.map_values(
                        |m: IgMediaForIgUserBusinessDiscoveryReadingOperation| m@,
                    ) =~= pre_map.push(data@.last()@));
                }
            },
            None => {
                proof {
                    lemma_dec_elem_seq_prefix_none(aseq, bd_media_dec_fn(), i + 1);
                }
                return None;
            },
        }
        i = i + 1;
    }
    proof {
        assert(aseq.subrange(0, aseq.len() as int) =~= aseq);
    }
    let paging = match get_field(v, "paging") {
        None => None,
        Some(p) => {
            if value_is_null(p) {
                None
            } else {
                match decode_paging(p) {
                    Some(pg) => Some(pg),
                    None => {
                        return None;
                    },
                }
            }
        },
    };
    Some(IgUserMediaForIgUserBusinessDiscoveryReadingOperation { data, paging })
}

/// The discovered account's profile with its media window.
#[derive(Debug, Clone)]
pub struct IgUserForIgUserBusinessDiscoveryReadingOperation {
    pub biography: Option<String>,
    pub id: u64,
    pub ig_id: u64,
    pub followers_count: u32,
    pub follows_count: u32,
    pub media_count: u32,
    pub name: Option<String>,
    pub profile_picture_url: Option<String>,
    pub username: String,
    pub website: Option<String>,
    pub media: IgUserMediaForIgUserBusinessDiscoveryReadingOperation,
}

/// Ghost image of [`IgUserForIgUserBusinessDiscoveryReadingOperation`].
pub struct BdUserView {
    pub biography: Option<Seq<char>>,
    pub id: u64,
    pub ig_id: u64,
    pub followers_count: u32,
    pub follows_count: u32,
    pub media_count: u32,
    pub name: Option<Seq<char>>,
    pub profile_picture_url: Option<Seq<char>>,
    pub username: Seq<char>,
    pub website: Option<Seq<char>>,
    pub media: BdUserMediaView,
}

impl View for IgUserForIgUserBusinessDiscoveryReadingOperation {
    type V = BdUserView;

    open spec fn view(&self) -> BdUserView {
        BdUserView {
            biography: self.biography.deep_view(),
            id: self.id,
            ig_id: self.ig_id,
            followers_count: self.followers_count,
            follows_count: self.follows_count,
            media_count: self.media_count,
            name: self.name.deep_view(),
            profile_picture_url: self.profile_picture_url.deep_view(),
            username: self.username@,
            website: self.website.deep_view(),
            media: self.media@,
        }
    }
}

/// The `media` member defaults to an empty window when absent.
pub open spec fn dec_bd_media_field(j: JsonData) -> Option<BdUserMediaView> {
    match jget(j, "media"@) {
        None => Some(BdUserMediaView { data: Seq::empty(), paging: None }),
        Some(m) => dec_bd_user_media(m),
    }
}

/// How the discovered profile decodes.
pub closed spec fn dec_bd_user(j: JsonData) -> Option<BdUserView> {
    if !(j is Obj) {
        None
    } else {
        match jfield_opt_str(j, "biography"@) {
            None => None,
            Some(biography) => match jfield_u64_coerced(j, "id"@) {
                None => None,
                Some(id) => match jfield_u64_coerced(j, "ig_id"@) {
                    None => None,
                    Some(ig_id) => match jfield_u32(j, "followers_count"@) {
                        None => None,
                        Some(followers_count) => match jfield_u32(j, "follows_count"@) {
                            None => None,
                            Some(follows_count) => match jfield_u32(j, "media_count"@) {
                                None => None,
                                Some(media_count) => match jfield_opt_str(j, "name"@) {
                                    None => None,
                                    Some(name) => match jfield_opt_str(
                                        j,
                                        "profile_picture_url"@,
                                    ) {
                                        None => None,
                                        Some(profile_picture_url) => match jfield_str(
                                            j,
                                            "username"@,
                                        ) {
                                            None => None,
                                            Some(username) => match jfield_opt_str(
                                                j,
                                                "website"@,
                                            ) {
                                                None => None,
                                                Some(website) => match dec_bd_media_field(j) {
                                                    None => None,
                                                    Some(media) => Some(
                                                        BdUserView {
                                                            biography,
                                                            id,
                                                            ig_id,
                                                            followers_count,
                                                            follows_count,
                                                            media_count,
                                                            name,
                                                            profile_picture_url,
                                                            username,
                                                            website,
                                                            media,
                                                        },
                                                    ),
                                                },
                                            },
                                        },
                                    },
                                },
                            },
                        },
                    },
                },
            },
        }
    }
}

/// Decodes the discovered profile.
pub fn decode_bd_user(v: &serde_json::Value) -> (r: Option<
    IgUserForIgUserBusinessDiscoveryReadingOperation,
>)
    ensures
        match r {
            Some(u) => dec_bd_user(json_of(*v)) == Some(u@),
            None => dec_bd_user(json_of(*v)) is None,
        },
{
    if !value_is_object(v) {
        return None;
    }
    let biography = match field_opt_string(v, "biography") {
        Some(x) => x,
        None => {
            return None;
        },
    };
    let id = match field_u64_coerced(v, "id") {
        Some(x) => x,
        None => {
            return None;
        },
    };
    let ig_id = match field_u64_coerced(v, "ig_id") {
        Some(x) => x,
        None => {
            return None;
        },
    };
    let followers_count = match field_u32(v, "followers_count") {
        Some(x) => x,
        None => {
            return None;
        },
    };
    let follows_count = match field_u32(v, "follows_count") {
        Some(x) => x,
        None => {
            return None;
        },
    };
    let media_count = match field_u32(v, "media_count") {
        Some(x) => x,
        None => {
            return None;
        },
    };
    let name = match field_opt_string(v, "name") {
        Some(x) => x,
        None => {
            return None;
        },
    };
    let profile_picture_url = match field_opt_string(v, "profile_picture_url") {
        Some(x) => x,
        None => {
            return None;
        },
    };
    let username = match field_string(v, "username") {
        Some(x) => x,
        None => {
            return None;
        },
    };
    let website = match field_opt_string(v, "website") {
        Some(x) => x,
        None => {
            return None;
        },
    };
    let media = match get_field(v, "media") {
        None => {
            let empty = IgUserMediaForIgUserBusinessDiscoveryReadingOperation {
                data: Vec::new(),
                paging: None,
            };
            proof {
                assert(empty.data@.map_values(
                    |m: IgMediaForIgUserBusinessDiscoveryReadingOperation| m@,
                ) =~= Seq::<BdMediaView>::empty());
            }
            empty
        },
        Some(m) => match decode_bd_user_media(m) {
            Some(x) => x,
            None => {
                return None;
            },
        },
    };
    Some(
        IgUserForIgUserBusinessDiscoveryReadingOperation {
            biography,
            id,
            ig_id,
            followers_count,
            follows_count,
            media_count,
            name,
            profile_picture_url,
            username,
            website,
            media,
        },
    )
}

} // verus!
