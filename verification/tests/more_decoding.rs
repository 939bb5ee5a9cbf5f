//! Further decoding cases: the media edge on a profile, created comments
//! and replies, coercion edge cases, and the remaining creation shapes.

use instagram_api::apierror::EndpointRet;
use instagram_api::bd_common::EndpointError;
use instagram_api::bd_objects::{AccountType, ApiVersion, MediaType};
use instagram_api::bd_user::UserEndpoint;
use instagram_api::httpmsg::{HttpMethod, HttpResponse};
use instagram_api::tokens::UserAccessToken;
use instagram_api::{
    IgCommentRepliesCreating, IgMediaCommentsCreating, IgMediaCommentsReading,
    IgUserMediaCreatingWithCarouselItemImage, IgUserMediaCreatingWithCarouselItemVideo,
};

fn resp(status: u16, body: &[u8]) -> HttpResponse {
    HttpResponse::new(status, body.to_vec())
}

#[test]
fn user_with_media_edge_decodes() {
    let ep = UserEndpoint::me(UserAccessToken::new("T".to_owned()), true);
    let body = br#"{"account_type":"MEDIA_CREATOR","id":9,"username":"u","media_count":2,"media":{"data":[{"caption":"c","id":"5","media_type":"CAROUSEL_ALBUM","permalink":"p","timestamp":"2022-01-01T00:00:00+0000","username":"u","children":{"data":[{"id":"6","media_type":"IMAGE","permalink":"q","timestamp":"2022-01-01T00:00:00+0000"}]}}]}}"#;
    match ep.parse_response(resp(200, body)).unwrap() {
        EndpointRet::Payload(b) => {
            assert_eq!(b.basic.account_type, AccountType::MediaCreator);
            assert!(!b.basic.is_private());
            assert_eq!(b.basic.media_count, Some(2));
            let media = b.media.unwrap();
            assert_eq!(media.data.len(), 1);
            assert_eq!(media.data[0].media_type, MediaType::Album);
            let children = media.data[0].children.as_ref().unwrap();
            assert_eq!(children.data.len(), 1);
            assert_eq!(children.data[0].id, 6);
            assert!(media.paging.is_none());
        }
        other => panic!("{other:?}"),
    }
}

#[test]
fn media_comments_creating_decodes() {
    let ep = IgMediaCommentsCreating::new(1, "foo".to_owned(), "T".to_owned(), None);
    let body = br#"{"hidden":false,"id":"8","like_count":0,"text":"foo","timestamp":"2022-06-01T10:20:30+0000","username":"me"}"#;
    match ep.parse_response(resp(200, body)).unwrap() {
        EndpointRet::Payload(c) => {
            assert_eq!(c.id, 8);
            assert_eq!(c.text, "foo");
            assert!(c.from.is_none());
        }
        other => panic!("{other:?}"),
    }
}

#[test]
fn media_comments_page_decodes_with_default_replies() {
    let ep = IgMediaCommentsReading::new(1, "T".to_owned(), None);
    let body = br#"{"data":[{"hidden":false,"id":"8","like_count":1,"text":"hi","timestamp":"2022-06-01T10:20:30+0000","username":"me"}]}"#;
    match ep.parse_response(resp(200, body)).unwrap() {
        EndpointRet::Payload(page) => {
            assert_eq!(page.data.len(), 1);
            assert!(page.data[0].replies.data.is_empty());
            assert!(page.paging.is_none());
        }
        other => panic!("{other:?}"),
    }
}

#[test]
fn replies_creating_decodes_the_reply() {
    let ep = IgCommentRepliesCreating::new(44, "re".to_owned(), "T".to_owned(), None);
    let body = br#"{"hidden":false,"id":"10","like_count":0,"parent_id":"44","text":"re","timestamp":"2022-06-01T11:00:00+0000","username":"me"}"#;
    match ep.parse_response(resp(200, body)).unwrap() {
        EndpointRet::Payload(reply) => {
            assert_eq!(reply.id, 10);
            assert_eq!(reply.parent_id, 44);
        }
        other => panic!("{other:?}"),
    }
}

#[test]
fn id_with_plus_sign_coerces_like_from_str() {
    let ep = UserEndpoint::me(UserAccessToken::new("T".to_owned()), false);
    let body = br#"{"id":"+5","username":"u"}"#;
    match ep.parse_response(resp(200, body)).unwrap() {
        EndpointRet::Payload(b) => assert_eq!(b.basic.id, 5),
        other => panic!("{other:?}"),
    }
}

#[test]
fn overflowing_string_id_fails_decode() {
    let ep = UserEndpoint::me(UserAccessToken::new("T".to_owned()), false);
    let body = br#"{"id":"99999999999999999999999999","username":"u"}"#;
    match ep.parse_response(resp(200, body)) {
        Err(EndpointError::DeResponseBodyFailed) => (),
        other => panic!("{other:?}"),
    }
}

#[test]
fn fractional_id_fails_decode() {
    let ep = UserEndpoint::me(UserAccessToken::new("T".to_owned()), false);
    let body = br#"{"id":1.5,"username":"u"}"#;
    match ep.parse_response(resp(200, body)) {
        Err(EndpointError::DeResponseBodyFailed) => (),
        other => panic!("{other:?}"),
    }
}

#[test]
fn carousel_item_image_render_request() {
    let ep = IgUserMediaCreatingWithCarouselItemImage::new(
        1,
        "https://example.com/a.jpg".to_owned(),
        "T".to_owned(),
        Some("v14.0".to_owned()),
    );
    let req = ep.render_request().unwrap();
    assert_eq!(req.method, HttpMethod::Post);
    assert_eq!(req.uri, "https://graph.facebook.com/v14.0/1/media?fields=id,status,status_code&image_url=https%3A%2F%2Fexample.com%2Fa.jpg&is_carousel_item=true&access_token=T");
}

#[test]
fn carousel_item_video_render_request() {
    let ep = IgUserMediaCreatingWithCarouselItemVideo::new(
        1,
        "https://example.com/v.mp4".to_owned(),
        "T".to_owned(),
        None,
    )
    .thumb_offset(250);
    let req = ep.render_request().unwrap();
    assert_eq!(req.uri, "https://graph.facebook.com/v15.0/1/media?fields=id,status,status_code&media_type=VIDEO&video_url=https%3A%2F%2Fexample.com%2Fv.mp4&is_carousel_item=true&thumb_offset=250&access_token=T");
}

#[test]
fn api_version_tag_renders() {
    assert_eq!(ApiVersion::V12.as_str(), "v12.0");
}

#[test]
fn graph_ok_status_with_bad_body_is_decode_error() {
    let ep = instagram_api::IgContainerReading::new(1, "T".to_owned(), None);
    match ep.parse_response(resp(200, br#"{"id":"1","status":"x","status_code":"HATCHING"}"#)) {
        Err(instagram_api::graph_common::EndpointError::DeResponseBodyOkJsonFailed) => (),
        other => panic!("{other:?}"),
    }
}
