//! Extracting a media's numeric id and shortcode from its permalink.
//!
//! A permalink in one of the recognized forms — post, story, story
//! highlight, IGTV, reel — carries the media's `ig_id` and shortcode.  The
//! recognition itself is the link-parsing library's job; its outcome is
//! named here and everything downstream speaks of that name.

use vstd::prelude::*;

verus! {

/// What parsing a permalink yields: `None` when the URL is not a recognized
/// media link, otherwise the numeric `ig_id` and the shortcode it carries.
pub uninterp spec fn media_link_parts(s: Seq<char>) -> Option<(u64, Seq<char>)>;

/// Relies on `instagram_link::MediaLink::parse`: the recognized forms and
/// the metadata they carry depend on the URL alone.  Every variant's
/// metadata holds the pair.
#[verifier::external_body]
fn parse_media_link(permalink: &str) -> (r: Option<(u64, String)>)
    ensures
        match r {
            Some(p) => media_link_parts(permalink@) == Some((p.0, p.1@)),
            None => media_link_parts(permalink@) is None,
        },
{
    let metadata = match instagram_link::MediaLink::parse(permalink).ok()? {
        instagram_link::MediaLink::Post { metadata } => metadata,
        instagram_link::MediaLink::Story { metadata, owner_username: _ } => metadata,
        instagram_link::MediaLink::StoryHighlight { metadata, highlight_id: _ } => metadata,
        instagram_link::MediaLink::IGTVVideo { metadata } => metadata,
        instagram_link::MediaLink::Reel { metadata } => metadata,
    };
    Some((metadata.ig_id, metadata.shortcode))
}

/// The numeric `ig_id` and the shortcode of the media a permalink points
/// to, when the permalink is a recognized media link.
pub fn get_ig_id_and_shortcode(permalink: &str) -> (r: Option<(u64, String)>)
    ensures
        match r {
            Some(p) => media_link_parts(permalink@) == Some((p.0, p.1@)),
            None => media_link_parts(permalink@) is None,
        },
{
    parse_media_link(permalink)
}

} // verus!
