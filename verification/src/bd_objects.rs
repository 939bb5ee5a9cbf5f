//! Domain objects of the Basic Display surface: users and media.
//!
//! Decoding rules: numeric ids may arrive as JSON numbers or digit strings;
//! optional fields default to absent; media and account kinds are a strict
//! set of upstream spellings; timestamps must be valid RFC 3339 text and are
//! carried as the string the server sent.

use vstd::prelude::*;

verus! {

use crate::jsonval::{JsonData, json_of, jget, jfield_str, jfield_opt_str, jfield_str_default,
    jfield_u64_coerced, jfield_opt_u64, dec_elem_seq, lemma_dec_elem_seq_prefix_none,
    field_string, field_opt_string, field_string_default, field_u64_coerced, field_opt_u64,
    get_field, value_is_object, value_as_str, value_as_array};
use crate::bytestr::str_eq;
use crate::timefmt::{rfc3339_unix_secs, parse_rfc3339_unix_secs};
use crate::permalink::{media_link_parts, get_ig_id_and_shortcode};
use crate::paging::{Paging, PagingView, dec_paging, decode_paging};

/// A pinned API version tag for the path segment.
#[derive(Debug, Clone, Copy, PartialEq, Eq, Structural)]
pub enum ApiVersion {
    V12,
}

impl ApiVersion {
    /// The tag as it appears in the path.
    pub fn as_str(&self) -> (r: &'static str)
        ensures
            r@ == "v12.0"@,
    {
        "v12.0"
    }
}

/// The kind of account a user has.  `PERSONAL` is the default when the
/// server omits the field.
#[derive(Debug, Copy, Clone, PartialEq, Eq, Structural)]
pub enum AccountType {
    Business,
    MediaCreator,
    Personal,
}

impl Default for AccountType {
    fn default() -> (r: Self)
        ensures
            r == AccountType::Personal,
    {
        AccountType::Personal
    }
}

/// The upstream spelling of each account kind; anything else fails the
/// decode.
pub open spec fn dec_account_type(t: Seq<char>) -> Option<AccountType> {
    if t == "BUSINESS"@ {
        Some(AccountType::Business)
    } else if t == "MEDIA_CREATOR"@ {
        Some(AccountType::MediaCreator)
    } else if t == "PERSONAL"@ {
        Some(AccountType::Personal)
    } else {
        None
    }
}

/// The kind of a media item.
#[derive(Debug, Copy, Clone, PartialEq, Eq, Structural)]
pub enum MediaType {
    Photo,
    Video,
    Album,
}

/// The upstream spelling of each media kind; anything else fails the decode.
pub open spec fn dec_media_type(t: Seq<char>) -> Option<MediaType> {
    if t == "IMAGE"@ {
        Some(MediaType::Photo)
    } else if t == "VIDEO"@ {
        Some(MediaType::Video)
    } else if t == "CAROUSEL_ALBUM"@ {
        Some(MediaType::Album)
    } else {
        None
    }
}

/// Reads a media-kind field.
fn field_media_type(v: &serde_json::Value, k: &str) -> (r: Option<MediaType>)
    ensures
        r == (match jfield_str(json_of(*v), k@) {
            Some(t) => dec_media_type(t),
            None => None::<MediaType>,
        }),
{
    match get_field(v, k) {
        None => None,
        Some(x) => match value_as_str(x) {
            None => None,
            Some(s) => {
                if str_eq(s, "IMAGE") {
                    Some(MediaType::Photo)
                } else if str_eq(s, "VIDEO") {
                    Some(MediaType::Video)
                } else if str_eq(s, "CAROUSEL_ALBUM") {
                    Some(MediaType::Album)
                } else {
                    None
                }
            },
        },
    }
}

/// A user profile, as the user-reading endpoint returns it.
#[derive(Debug, Clone)]
pub struct User {
    pub account_type: AccountType,
    pub id: u64,
    pub username: String,
    pub media_count: Option<usize>,
}

/// Ghost image of [`User`].
pub struct UserView {
    pub account_type: AccountType,
    pub id: u64,
    pub username: Seq<char>,
    pub media_count: Option<usize>,
}

impl View for User {
    type V = UserView;

    open spec fn view(&self) -> UserView {
        UserView {
            account_type: self.account_type,
            id: self.id,
            username: self.username@,
            media_count: self.media_count,
        }
    }
}

/// How a user decodes: the id is required (number or digit string), the
/// account kind defaults to `PERSONAL`, the username to empty.
pub open spec fn dec_user(j: JsonData) -> Option<UserView> {
    if !(j is Obj) {
        None
    } else {
        let account_type = match jget(j, "account_type"@) {
            None => Some(AccountType::Personal),
            Some(JsonData::Str(t)) => dec_account_type(t),
            Some(_) => None,
        };
        match account_type {
            None => None,
            Some(account_type) => match jfield_u64_coerced(j, "id"@) {
                None => None,
                Some(id) => match jfield_str_default(j, "username"@) {
                    None => None,
                    Some(username) => match jfield_opt_u64(j, "media_count"@) {
                        None => None,
                        Some(mc) => if mc matches Some(x) && x > usize::MAX as u64 {
                            None
                        } else {
                            Some(
                                UserView {
                                    account_type,
                                    id,
                                    username,
                                    media_count: match mc {
                                        Some(x) => Some(x as usize),
                                        None => None,
                                    },
                                },
                            )
                        },
                    },
                },
            },
        }
    }
}

/// Decodes a user node.
pub fn decode_user(v: &serde_json::Value) -> (r: Option<User>)
    ensures
        match r {
            Some(u) => dec_user(json_of(*v)) == Some(u@),
            None => dec_user(json_of(*v)) is None,
        },
{
    if !value_is_object(v) {
        return None;
    }
    let account_type = match get_field(v, "account_type") {
        None => AccountType::Personal,
        Some(x) => match value_as_str(x) {
            None => {
                return None;
            },
            Some(s) => {
                if str_eq(s, "BUSINESS") {
                    AccountType::Business
                } else if str_eq(s, "MEDIA_CREATOR") {
                    AccountType::MediaCreator
                } else if str_eq(s, "PERSONAL") {
                    AccountType::Personal
                } else {
                    return None;
                }
            },
        },
    };
    let id = match field_u64_coerced(v, "id") {
        Some(x) => x,
        None => {
            return None;
        },
    };
    let username = match field_string_default(v, "username") {
        Some(x) => x,
        None => {
            return None;
        },
    };
    let media_count = match field_opt_u64(v, "media_count") {
        Some(None) => None,
        Some(Some(x)) => {
            if x > usize::MAX as u64 {
                return None;
            }
            Some(x as usize)
        },
        None => {
            return None;
        },
    };
    Some(User { account_type, id, username, media_count })
}

impl User {
    /// The pragmatic privacy test: a personal account with an empty
    /// username.
    pub fn is_private(&self) -> (r: bool)
        ensures
            r == (self@.account_type == AccountType::Personal && self@.username.len() == 0),
    {
        self.account_type == AccountType::Personal && self.username.as_str().is_empty()
    }
}

/// One child of a carousel album.
#[derive(Debug, Clone)]
pub struct MediaCarouselAlbumChild {
    pub id: u64,
    pub media_type: MediaType,
    pub media_url: Option<String>,
    pub permalink: String,
    pub thumbnail_url: Option<String>,
    /// RFC 3339 text, as the server sent it; a decode only succeeds when it
    /// parses.
    pub timestamp: String,
}

/// Ghost image of [`MediaCarouselAlbumChild`].
pub struct MediaCarouselAlbumChildView {
    pub id: u64,
    pub media_type: MediaType,
    pub media_url: Option<Seq<char>>,
    pub permalink: Seq<char>,
    pub thumbnail_url: Option<Seq<char>>,
    pub timestamp: Seq<char>,
}

impl View for MediaCarouselAlbumChild {
    type V = MediaCarouselAlbumChildView;

    open spec fn view(&self) -> MediaCarouselAlbumChildView {
        MediaCarouselAlbumChildView {
            id: self.id,
            media_type: self.media_type,
            media_url: self.media_url.deep_view(),
            permalink: self.permalink@,
            thumbnail_url: self.thumbnail_url.deep_view(),
            timestamp: self.timestamp@,
        }
    }
}

/// How one carousel child decodes.
pub open spec fn dec_media_child(j: JsonData) -> Option<MediaCarouselAlbumChildView> {
    if !(j is Obj) {
        None
    } else {
        match jfield_u64_coerced(j, "id"@) {
            None => None,
            Some(id) => match jfield_str(j, "media_type"@) {
                None => None,
                Some(mt) => match dec_media_type(mt) {
                    None => None,
                    Some(media_type) => match jfield_opt_str(j, "media_url"@) {
                        None => None,
                        Some(media_url) => match jfield_str(j, "permalink"@) {
                            None => None,
                            Some(permalink) => match jfield_opt_str(j, "thumbnail_url"@) {
                                None => None,
                                Some(thumbnail_url) => match jfield_str(j, "timestamp"@) {
                                    None => None,
                                    Some(ts) => if rfc3339_unix_secs(ts) is Some {
                                        Some(
                                            MediaCarouselAlbumChildView {
                                                id,
                                                media_type,
                                                media_url,
                                                permalink,
                                                thumbnail_url,
                                                timestamp: ts,
                                            },
                                        )
                                    } else {
                                        None
                                    },
                                },
                            },
                        },
                    },
                },
            },
        }
    }
}

/// Decodes one carousel child.
pub fn decode_media_child(v: &serde_json::Value) -> (r: Option<MediaCarouselAlbumChild>)
    ensures
        match r {
            Some(c) => dec_media_child(json_of(*v)) == Some(c@),
            None => dec_media_child(json_of(*v)) is None,
        },
{
    if !value_is_object(v) {
        return None;
    }
    let id = match field_u64_coerced(v, "id") {
        Some(x) => x,
        None => {
            return None;
        },
    };
    let media_type = match field_media_type(v, "media_type") {
        Some(x) => x,
        None => {
            return None;
        },
    };
    let media_url = match field_opt_string(v, "media_url") {
        Some(x) => x,
        None => {
            return None;
        },
    };
    let permalink = match field_string(v, "permalink") {
        Some(x) => x,
        None => {
            return None;
        },
    };
    let thumbnail_url = match field_opt_string(v, "thumbnail_url") {
        Some(x) => x,
        None => {
            return None;
        },
    };
    let timestamp = match field_string(v, "timestamp") {
        Some(x) => x,
        None => {
            return None;
        },
    };
    if parse_rfc3339_unix_secs(timestamp.as_str()).is_none() {
        return None;
    }
    Some(MediaCarouselAlbumChild { id, media_type, media_url, permalink, thumbnail_url, timestamp })
}

impl MediaCarouselAlbumChild {
    /// The numeric `ig_id` and shortcode carried by this child's permalink,
    /// when it is a recognized media link.
    pub fn get_ig_id_and_shortcode(&self) -> (r: Option<(u64, String)>)
        ensures
            match r {
                Some(p) => media_link_parts(self@.permalink) == Some((p.0, p.1@)),
                None => media_link_parts(self@.permalink) is None,
            },
    {
        get_ig_id_and_shortcode(self.permalink.as_str())
    }
}

/// The children list of a carousel album.
#[derive(Debug, Clone)]
pub struct MediaChildren {
    pub data: Vec<MediaCarouselAlbumChild>,
}

/// The child decoder, as a value for sequence decoding.
pub open spec fn media_child_dec_fn() -> spec_fn(JsonData) -> Option<MediaCarouselAlbumChildView> {
    |j: JsonData| dec_media_child(j)
}

/// How a children node decodes: an object with a `data` array.
pub open spec fn dec_media_children(j: JsonData) -> Option<Seq<MediaCarouselAlbumChildView>> {
    if !(j is Obj) {
        None
    } else {
        match jget(j, "data"@) {
            Some(JsonData::Arr(a)) => dec_elem_seq(a, media_child_dec_fn()),
            _ => None,
        }
    }
}

/// Decodes a children node.
#[verifier::loop_isolation(false)]
pub fn decode_media_children(v: &serde_json::Value) -> (r: Option<MediaChildren>)
    ensures
        match r {
            Some(c) => dec_media_children(json_of(*v)) == Some(
                c.data@.map_values(|x: MediaCarouselAlbumChild| x@),
            ),
            None => dec_media_children(json_of(*v)) is None,
        },
{
    if !value_is_object(v) {
        return None;
    }
    let data_node = match get_field(v, "data") {
        None => {
            return None;
        },
        Some(x) => x,
    };
    let ghost jx = json_of(*data_node);
    let arr = match value_as_array(data_node) {
        None => {
            return None;
        },
        Some(a) => a,
    };
    let ghost aseq = jx->Arr_0;
    let mut out: Vec<MediaCarouselAlbumChild> = Vec::new();
    let mut i: usize = 0;
    while i < arr.len()
        invariant
            0 <= i <= arr@.len(),
            dec_elem_seq(aseq.subrange(0, i as int), media_child_dec_fn()) == Some(
                out@.map_values(|x: MediaCarouselAlbumChild| x@),
            ),
        decreases arr@.len() - i,
    {
        let ghost pre_map = out@.map_values(|x: MediaCarouselAlbumChild| x@);
        proof {
            let p2 = aseq.subrange(0, i + 1);
            assert(p2.drop_last() =~= aseq.subrange(0, i as int));
            assert(p2.last() == aseq[i as int]);
        }
        match decode_media_child(&arr[i]) {
            Some(c) => {
                out.push(c);
                proof {
                    assert(out@.map_values(|x: MediaCarouselAlbumChild| x@) =~= pre_map.push(c@));
                }
            },
            None => {
                proof {
                    lemma_dec_elem_seq_prefix_none(aseq, media_child_dec_fn(), i + 1);
                }
                return None;
            },
        }
        i = i + 1;
    }
    proof {
        assert(aseq.subrange(0, aseq.len() as int) =~= aseq);
    }
    Some(MediaChildren { data: out })
}

/// A media item, as the listing endpoint returns it.
#[derive(Debug, Clone)]
pub struct Media {
    pub caption: Option<String>,
    pub id: u64,
    pub media_type: MediaType,
    pub media_url: Option<String>,
    pub permalink: String,
    pub thumbnail_url: Option<String>,
    /// RFC 3339 text, as the server sent it; a decode only succeeds when it
    /// parses.
    pub timestamp: String,
    pub username: String,
    pub children: Option<MediaChildren>,
}

/// Ghost image of [`Media`].
pub struct MediaView {
    pub caption: Option<Seq<char>>,
    pub id: u64,
    pub media_type: MediaType,
    pub media_url: Option<Seq<char>>,
    pub permalink: Seq<char>,
    pub thumbnail_url: Option<Seq<char>>,
    pub timestamp: Seq<char>,
    pub username: Seq<char>,
    pub children: Option<Seq<MediaCarouselAlbumChildView>>,
}

impl View for Media {
    type V = MediaView;

    open spec fn view(&self) -> MediaView {
        MediaView {
            caption: self.caption.deep_view(),
            id: self.id,
            media_type: self.media_type,
            media_url: self.media_url.deep_view(),
            permalink: self.permalink@,
            thumbnail_url: self.thumbnail_url.deep_view(),
            timestamp: self.timestamp@,
            username: self.username@,
            children: match self.children {
                Some(c) => Some(c.data@.map_values(|x: MediaCarouselAlbumChild| x@)),
                None => None,
            },
        }
    }
}

/// How a media item decodes.  `children` is optional; when present it must
/// be a well-formed children node.
pub open spec fn dec_media(j: JsonData) -> Option<MediaView> {
    if !(j is Obj) {
        None
    } else {
        match jfield_opt_str(j, "caption"@) {
            None => None,
            Some(caption) => match jfield_u64_coerced(j, "id"@) {
                None => None,
                Some(id) => match jfield_str(j, "media_type"@) {
                    None => None,
                    Some(mt) => match dec_media_type(mt) {
                        None => None,
                        Some(media_type) => match jfield_opt_str(j, "media_url"@) {
                            None => None,
                            Some(media_url) => match jfield_str(j, "permalink"@) {
                                None => None,
                                Some(permalink) => match jfield_opt_str(j, "thumbnail_url"@) {
                                    None => None,
                                    Some(thumbnail_url) => match jfield_str(j, "timestamp"@) {
                                        None => None,
                                        Some(ts) => if !(rfc3339_unix_secs(ts) is Some) {
                                            None
                                        } else {
                                            match jfield_str(j, "username"@) {
                                                None => None,
                                                Some(username) => match dec_media_children_field(
                                                    j,
                                                ) {
                                                    None => None,
                                                    Some(children) => Some(
                                                        MediaView {
                                                            caption,
                                                            id,
                                                            media_type,
                                                            media_url,
                                                            permalink,
                                                            thumbnail_url,
                                                            timestamp: ts,
                                                            username,
                                                            children,
                                                        },
                                                    ),
                                                },
                                            }
                                        },
                                    },
                                },
                            },
                        },
                    },
                },
            },
        }
    }
}

/// The optional `children` member: absent or `null` means none.
pub open spec fn dec_media_children_field(j: JsonData) -> Option<
    Option<Seq<MediaCarouselAlbumChildView>>,
> {
    match jget(j, "children"@) {
        None => Some(None),
        Some(JsonData::Null) => Some(None),
        Some(c) => match dec_media_children(c) {
            None => None,
            Some(s) => Some(Some(s)),
        },
    }
}

/// Decodes a media node.
pub fn decode_media(v: &serde_json::Value) -> (r: Option<Media>)
    ensures
        match r {
            Some(m) => dec_media(json_of(*v)) == Some(m@),
            None => dec_media(json_of(*v)) is None,
        },
{
    if !value_is_object(v) {
        return None;
    }
    let caption = match field_opt_string(v, "caption") {
        Some(x) => x,
        None => {
            return None;
        },
    };
    let id = match field_u64_coerced(v, "id") {
        Some(x) => x,
        None => {
            return None;
        },
    };
    let media_type = match field_media_type(v, "media_type") {
        Some(x) => x,
        None => {
            return None;
        },
    };
    let media_url = match field_opt_string(v, "media_url") {
        Some(x) => x,
        None => {
            return None;
        },
    };
    let permalink = match field_string(v, "permalink") {
        Some(x) => x,
        None => {
            return None;
        },
    };
    let thumbnail_url = match field_opt_string(v, "thumbnail_url") {
        Some(x) => x,
        None => {
            return None;
        },
    };
    let timestamp = match field_string(v, "timestamp") {
        Some(x) => x,
        None => {
            return None;
        },
    };
    if parse_rfc3339_unix_secs(timestamp.as_str()).is_none() {
        return None;
    }
    let username = match field_string(v, "username") {
        Some(x) => x,
        None => {
            return None;
        },
    };
    let children = match get_field(v, "children") {
        None => None,
        Some(c) => {
            if crate::jsonval::value_is_null(c) {
                None
            } else {
                match decode_media_children(c) {
                    Some(ch) => Some(ch),
                    None => {
                        return None;
                    },
                }
            }
        },
    };
    Some(
        Media {
            caption,
            id,
            media_type,
            media_url,
            permalink,
            thumbnail_url,
            timestamp,
            username,
            children,
        },
    )
}

impl Media {
    /// The numeric `ig_id` and shortcode carried by this media's permalink,
    /// when it is a recognized media link.
    pub fn get_ig_id_and_shortcode(&self) -> (r: Option<(u64, String)>)
        ensures
            match r {
                Some(p) => media_link_parts(self@.permalink) == Some((p.0, p.1@)),
                None => media_link_parts(self@.permalink) is None,
            },
    {
        get_ig_id_and_shortcode(self.permalink.as_str())
    }
}

} // verus!
