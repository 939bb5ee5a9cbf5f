//! Response classification: success decoding, the error envelope, and the
//! raw-bytes fallback.

use instagram_api::bd_access_token::ExchangeSlAccessTokenForLlAccessTokenEndpoint;
use instagram_api::bd_common::EndpointError;
use instagram_api::bd_objects::{AccountType, MediaType};
use instagram_api::bd_user::UserEndpoint;
use instagram_api::bd_user_medias::UserMediasEndpoint;
use instagram_api::apierror::EndpointRet;
use instagram_api::graph_objects::IgContainerStatusCode;
use instagram_api::httpmsg::HttpResponse;
use instagram_api::tokens::{ShortLivedUserAccessToken, UserAccessToken};
use instagram_api::{
    IgCommentBulkReading, IgCommentDeleting, IgCommentReading, IgContainerReading,
    IgUserMediaPublishCreating,
};

fn resp(status: u16, body: &[u8]) -> HttpResponse {
    HttpResponse::new(status, body.to_vec())
}

#[test]
fn token_body_decodes() {
    let ep = ExchangeSlAccessTokenForLlAccessTokenEndpoint::new(
        "S".to_owned(),
        ShortLivedUserAccessToken::new("T".to_owned()),
    );
    let body = br#"{"access_token":"LONG","token_type":"bearer","expires_in":5184000}"#;
    match ep.parse_response(resp(200, body)).unwrap() {
        EndpointRet::Payload(b) => {
            assert_eq!(b.access_token, "LONG");
            assert_eq!(b.token_type, "bearer");
            assert_eq!(b.expires_in, Some(5184000));
        }
        other => panic!("{other:?}"),
    }
}

#[test]
fn numeric_id_decodes_from_number_and_string_alike() {
    let ep = UserEndpoint::me(UserAccessToken::new("T".to_owned()), false);
    let as_string =
        br#"{"account_type":"BUSINESS","id":"6489782497758472","username":"u"}"#;
    let as_number = br#"{"account_type":"BUSINESS","id":6489782497758472,"username":"u"}"#;
    let a = match ep.parse_response(resp(200, as_string)).unwrap() {
        EndpointRet::Payload(b) => b.basic.id,
        other => panic!("{other:?}"),
    };
    let b = match ep.parse_response(resp(200, as_number)).unwrap() {
        EndpointRet::Payload(b) => b.basic.id,
        other => panic!("{other:?}"),
    };
    assert_eq!(a, 6489782497758472);
    assert_eq!(a, b);
}

#[test]
fn user_defaults_apply_and_is_private() {
    let ep = UserEndpoint::me(UserAccessToken::new("T".to_owned()), false);
    let body = br#"{"id":"7"}"#;
    match ep.parse_response(resp(200, body)).unwrap() {
        EndpointRet::Payload(b) => {
            assert_eq!(b.basic.account_type, AccountType::Personal);
            assert_eq!(b.basic.username, "");
            assert!(b.basic.media_count.is_none());
            assert!(b.basic.is_private());
            assert!(b.media.is_none());
        }
        other => panic!("{other:?}"),
    }
}

#[test]
fn unknown_account_type_fails_decode() {
    let ep = UserEndpoint::me(UserAccessToken::new("T".to_owned()), false);
    let body = br#"{"account_type":"ROBOT","id":"7"}"#;
    match ep.parse_response(resp(200, body)) {
        Err(EndpointError::DeResponseBodyFailed) => (),
        other => panic!("{other:?}"),
    }
}

#[test]
fn user_medias_body_decodes_with_paging() {
    let ep = UserMediasEndpoint::me("T".to_owned(), None, None);
    let body = br#"{"data":[{"id":"5","media_type":"IMAGE","permalink":"https://www.instagram.com/p/CJBsZ11MYha/","timestamp":"2022-01-01T00:00:00+0000","username":"u"}],"paging":{"cursors":{"before":"B","after":"A"},"next":"https://next"}}"#;
    match ep.parse_response(resp(200, body)).unwrap() {
        EndpointRet::Payload(b) => {
            assert_eq!(b.data.len(), 1);
            assert_eq!(b.data[0].id, 5);
            assert_eq!(b.data[0].media_type, MediaType::Photo);
            assert_eq!(b.data[0].timestamp, "2022-01-01T00:00:00+0000");
            let (ig_id, shortcode) = b.data[0].get_ig_id_and_shortcode().unwrap();
            assert_eq!(ig_id, 2468449360609904730);
            assert_eq!(shortcode, "CJBsZ11MYha");
            let paging = b.paging.unwrap();
            assert_eq!(paging.next_cursor(), Some("A".to_owned()));
        }
        other => panic!("{other:?}"),
    }
}

#[test]
fn bad_timestamp_fails_decode() {
    let ep = UserMediasEndpoint::me("T".to_owned(), None, None);
    let body = br#"{"data":[{"id":"5","media_type":"IMAGE","permalink":"p","timestamp":"yesterday","username":"u"}]}"#;
    match ep.parse_response(resp(200, body)) {
        Err(EndpointError::DeResponseBodyFailed) => (),
        other => panic!("{other:?}"),
    }
}

#[test]
fn non_200_with_envelope_is_other_ok() {
    let ep = UserEndpoint::me(UserAccessToken::new("T".to_owned()), false);
    let body = br#"{"error":{"message":"Error validating access token: Session has expired","type":"OAuthException","code":190,"fbtrace_id":"x"}}"#;
    match ep.parse_response(resp(400, body)).unwrap() {
        EndpointRet::Other((status, Ok(env))) => {
            assert_eq!(status, 400);
            assert_eq!(env.error.code, 190);
            assert!(env.error.is_access_token_session_has_expired());
        }
        other => panic!("{other:?}"),
    }
}

#[test]
fn non_200_with_unparseable_body_is_other_err_raw() {
    let ep = UserEndpoint::me(UserAccessToken::new("T".to_owned()), false);
    let body: &[u8] = b"<html>gateway timeout</html>";
    match ep.parse_response(resp(503, body)).unwrap() {
        EndpointRet::Other((status, Err(raw))) => {
            assert_eq!(status, 503);
            assert_eq!(raw, body.to_vec());
        }
        other => panic!("{other:?}"),
    }
}

#[test]
fn ok_status_with_bad_body_is_decode_error() {
    let ep = UserEndpoint::me(UserAccessToken::new("T".to_owned()), false);
    match ep.parse_response(resp(200, b"not json")) {
        Err(EndpointError::DeResponseBodyFailed) => (),
        other => panic!("{other:?}"),
    }
}

#[test]
fn container_reading_test_de_response_body_ok_json() {
    let ep = IgContainerReading::new(1, "T".to_owned(), None);
    let body = br#"{"id":"17920994597338493","status":"Published: Media has been published.","status_code":"PUBLISHED"}"#;
    match ep.parse_response(resp(200, body)).unwrap() {
        EndpointRet::Payload(b) => {
            assert_eq!(b.0.id, 17920994597338493);
            assert_eq!(b.0.status_code, IgContainerStatusCode::Published);
        }
        other => panic!("{other:?}"),
    }
}

#[test]
fn comment_reading_decodes_with_media_and_replies() {
    let ep = IgCommentReading::new(17857647179815901, "T".to_owned(), None).with_replies();
    let body = br#"{"from":{"id":"2","username":"author"},"hidden":false,"id":"17857647179815901","like_count":3,"media":{"id":"9","media_product_type":"FEED"},"parent_id":"44","text":"hello","timestamp":"2022-06-01T10:20:30+0000","username":"author","replies":{"data":[{"hidden":false,"id":"10","like_count":0,"parent_id":"17857647179815901","text":"re","timestamp":"2022-06-01T11:00:00+0000","username":"other"}]}}"#;
    match ep.parse_response(resp(200, body)).unwrap() {
        EndpointRet::Payload(c) => {
            assert_eq!(c.id, 17857647179815901);
            assert_eq!(c.from.as_ref().unwrap().username, "author");
            assert_eq!(c.media.id, 9);
            assert_eq!(c.parent_id, Some(44));
            assert_eq!(c.replies.data.len(), 1);
            assert_eq!(c.replies.data[0].parent_id, 17857647179815901);
        }
        other => panic!("{other:?}"),
    }
}

#[test]
fn bulk_reading_decodes_each_member() {
    let ep = IgCommentBulkReading::new(&[1, 2], "T".to_owned(), None);
    let body = br#"{"1":{"hidden":false,"id":"1","like_count":0,"media":{"id":"9"},"text":"a","timestamp":"2022-06-01T10:20:30+0000","username":"u"},"2":{"hidden":true,"id":"2","like_count":5,"media":{"id":"9"},"text":"b","timestamp":"2022-06-01T10:21:30+0000","username":"v"}}"#;
    match ep.parse_response(resp(200, body)).unwrap() {
        EndpointRet::Payload(map) => {
            assert_eq!(map.len(), 2);
            assert_eq!(map.get(&1).unwrap().id, 1);
            assert_eq!(map.get(&2).unwrap().username, "v");
        }
        other => panic!("{other:?}"),
    }
}

#[test]
fn deleting_test_de_response_body_ok_json() {
    let ep = IgCommentDeleting::new(1, "T".to_owned(), None);
    match ep.parse_response(resp(200, br#"{"success":true}"#)).unwrap() {
        EndpointRet::Payload(b) => assert!(b.success),
        other => panic!("{other:?}"),
    }
}

#[test]
fn media_publish_decodes_string_id() {
    let ep = IgUserMediaPublishCreating::new(1, 2, "T".to_owned(), None);
    match ep.parse_response(resp(200, br#"{"id":"17932957112492573"}"#)).unwrap() {
        EndpointRet::Payload(b) => assert_eq!(b.id, 17932957112492573),
        other => panic!("{other:?}"),
    }
}
