//! Token conversions, permalink extraction, and paging.

use instagram_api::paging::{Paging, PagingCursors};
use instagram_api::permalink::get_ig_id_and_shortcode;
use instagram_api::tokens::{
    LongLivedUserAccessToken, ShortLivedUserAccessToken, UserAccessToken,
    LONG_LIVED_USER_ACCESS_TOKEN_LIFETIME_SECS, SHORT_LIVED_USER_ACCESS_TOKEN_LIFETIME_SECS,
};

#[test]
fn tokens_convert_one_way_into_the_generic_kind() {
    let short = ShortLivedUserAccessToken::new("S".to_owned());
    let long = LongLivedUserAccessToken::new("L".to_owned());
    let from_short: UserAccessToken = short.into();
    let from_long: UserAccessToken = long.into();
    assert_eq!(from_short.inner(), "S");
    assert_eq!(from_long.inner(), "L");
    assert_eq!(from_long.into_inner(), "L");
}

#[test]
fn documented_lifetimes() {
    assert_eq!(SHORT_LIVED_USER_ACCESS_TOKEN_LIFETIME_SECS, 3600);
    assert_eq!(LONG_LIVED_USER_ACCESS_TOKEN_LIFETIME_SECS, 3600 * 24 * 60);
}

#[test]
fn permalink_forms_are_recognized() {
    let (ig_id, shortcode) =
        get_ig_id_and_shortcode("https://www.instagram.com/p/CJBsZ11MYha/?igshid=ffffffffffff")
            .unwrap();
    assert_eq!(ig_id, 2468449360609904730);
    assert_eq!(shortcode, "CJBsZ11MYha");

    let (ig_id, shortcode) =
        get_ig_id_and_shortcode("https://www.instagram.com/tv/CJEivokDjPR/").unwrap();
    assert_eq!(ig_id, 2469251302657242065);
    assert_eq!(shortcode, "CJEivokDjPR");

    assert!(get_ig_id_and_shortcode("https://example.com/p/CJBsZ11MYha/").is_none());
    assert!(get_ig_id_and_shortcode("not a url").is_none());
}

#[test]
fn next_cursor_requires_a_next_page() {
    let with_next = Paging {
        cursors: PagingCursors {
            before: Some("B".to_owned()),
            after: Some("A".to_owned()),
        },
        previous: None,
        next: Some("https://next".to_owned()),
    };
    assert_eq!(with_next.next_cursor(), Some("A".to_owned()));

    let without_next = Paging {
        cursors: PagingCursors {
            before: Some("B".to_owned()),
            after: Some("A".to_owned()),
        },
        previous: None,
        next: None,
    };
    assert_eq!(without_next.next_cursor(), None);

    let next_but_no_cursor = Paging {
        cursors: PagingCursors { before: None, after: None },
        previous: None,
        next: Some("https://next".to_owned()),
    };
    assert_eq!(next_but_no_cursor.next_cursor(), None);
}
