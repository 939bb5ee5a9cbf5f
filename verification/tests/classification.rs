//! Error classification: the session predicates, known error cases, the
//! business-discovery lift, and the media-creation extended-info errors.

use instagram_api::apierror::{EndpointRet, KnownErrorCase};
use instagram_api::httpmsg::HttpResponse;
use instagram_api::graph_ig_user_business_discovery::ReadingResponseBodyRet;
use instagram_api::graph_ig_user_media::{CreatingResponseBodyRet, ExtInfoError};
use instagram_api::{IgUserBusinessDiscoveryReading, IgUserMediaCreatingWithImage,
    IgUserMediaCreatingWithReels};

fn resp(status: u16, body: &[u8]) -> HttpResponse {
    HttpResponse::new(status, body.to_vec())
}

fn image_creating() -> IgUserMediaCreatingWithImage {
    IgUserMediaCreatingWithImage::new(
        1,
        "https://example.com/a.jpg".to_owned(),
        "T".to_owned(),
        None,
    )
}

#[test]
fn session_predicates_match_case_insensitively() {
    let ep = image_creating();
    let body = br#"{"error":{"message":"Error validating access token: SESSION HAS EXPIRED on Monday","type":"OAuthException","code":190}}"#;
    match ep.parse_response(resp(400, body)).unwrap() {
        EndpointRet::Other((_, Ok(env))) => {
            assert!(env.error.is_access_token_session_has_expired());
            assert!(!env.error.is_access_token_session_has_been_invalidated());
            assert_eq!(
                env.error.to_known_error_case(),
                Some(KnownErrorCase::AccessTokenExpiredOrRevokedOrInvalid)
            );
        }
        other => panic!("{other:?}"),
    }
}

#[test]
fn invalidated_session_is_recognized() {
    let ep = image_creating();
    let body = br#"{"error":{"message":"The session has been invalidated because the user changed their password.","type":"OAuthException","code":190,"error_subcode":460}}"#;
    match ep.parse_response(resp(400, body)).unwrap() {
        EndpointRet::Other((_, Ok(env))) => {
            assert!(env.error.is_access_token_session_has_been_invalidated());
        }
        other => panic!("{other:?}"),
    }
}

#[test]
fn permission_missing_classifies_by_code() {
    let ep = image_creating();
    let body = br#"{"error":{"message":"(#10) Application does not have permission for this action","type":"OAuthException","code":10}}"#;
    match ep.parse_response(resp(403, body)).unwrap() {
        EndpointRet::Other((_, Ok(env))) => {
            assert!(env.error.is_permission_missing());
            assert_eq!(
                env.error.to_known_error_case(),
                Some(KnownErrorCase::PermissionNotGrantedOrRemoved)
            );
        }
        other => panic!("{other:?}"),
    }
}

#[test]
fn test_ext_info_error() {
    // a bad image or video URL, named by code and subcode
    let ep = image_creating();
    let body = br#"{"error":{"message":"Invalid parameter","type":"OAuthException","code":9004,"error_subcode":2207052,"error_user_title":"Bad URL","error_user_msg":"The URL could not be fetched."}}"#;
    match ep.parse_response(resp(400, body)).unwrap() {
        EndpointRet::Payload(CreatingResponseBodyRet::ExtInfoError(
            ExtInfoError::ImageUrlOrVideoUrlInvalid(msg),
        )) => assert_eq!(msg, "Bad URL"),
        other => panic!("{other:?}"),
    }

    // a private or invalid tagged username
    let body = br#"{"error":{"message":"Invalid parameter","type":"OAuthException","code":110,"error_subcode":2207018,"error_user_msg":"The account is private."}}"#;
    match ep.parse_response(resp(400, body)).unwrap() {
        EndpointRet::Payload(CreatingResponseBodyRet::ExtInfoError(
            ExtInfoError::UserTagUsernamePrivateOrInvalid(msg),
        )) => assert_eq!(msg, "The account is private."),
        other => panic!("{other:?}"),
    }

    // a bad aspect ratio, falling back to the plain message
    let body = br#"{"error":{"message":"Invalid parameter","type":"OAuthException","code":36003,"error_subcode":2207009}}"#;
    match ep.parse_response(resp(400, body)).unwrap() {
        EndpointRet::Payload(CreatingResponseBodyRet::ExtInfoError(
            ExtInfoError::ImageAspectRatioInvalid(msg),
        )) => assert_eq!(msg, "Invalid parameter"),
        other => panic!("{other:?}"),
    }

    // an account that may not create, recognized by message text
    let ep = IgUserMediaCreatingWithReels::new(
        1,
        "https://example.com/r.mp4".to_owned(),
        "T".to_owned(),
        None,
    );
    let body = br#"{"error":{"message":"The Account is not allowed to create posts.","type":"OAuthException","code":1}}"#;
    match ep.parse_response(resp(400, body)).unwrap() {
        EndpointRet::Payload(CreatingResponseBodyRet::ExtInfoError(
            ExtInfoError::AccountNotAllowedCreate(msg),
        )) => assert_eq!(msg, "The Account is not allowed to create posts."),
        other => panic!("{other:?}"),
    }
}

#[test]
fn unmatched_creation_error_stays_in_other() {
    let ep = image_creating();
    let body = br#"{"error":{"message":"Something else entirely","type":"OAuthException","code":1}}"#;
    match ep.parse_response(resp(400, body)).unwrap() {
        EndpointRet::Other((400, Ok(env))) => {
            assert_eq!(env.error.message, "Something else entirely");
        }
        other => panic!("{other:?}"),
    }
}

fn discovery() -> IgUserBusinessDiscoveryReading {
    IgUserBusinessDiscoveryReading::new(1, "foo".to_owned(), "T".to_owned(), None)
}

#[test]
fn business_discovery_cannot_find_user_by_subcode() {
    let body = br#"{"error":{"message":"Unsupported get request.","type":"GraphMethodException","code":100,"error_subcode":2207013}}"#;
    match discovery().parse_response(resp(400, body)).unwrap() {
        EndpointRet::Payload(ReadingResponseBodyRet::CannotFindUser) => (),
        other => panic!("{other:?}"),
    }
}

#[test]
fn business_discovery_cannot_find_user_by_title() {
    let body = br#"{"error":{"message":"An unknown error has occurred.","type":"OAuthException","code":1,"error_user_title":"Cannot Find User","error_user_msg":"The username is not correct."}}"#;
    match discovery().parse_response(resp(400, body)).unwrap() {
        EndpointRet::Payload(ReadingResponseBodyRet::CannotFindUser) => (),
        other => panic!("{other:?}"),
    }
}

#[test]
fn business_discovery_other_errors_pass_through() {
    let body = br#"{"error":{"message":"An unknown error has occurred.","type":"OAuthException","code":1}}"#;
    match discovery().parse_response(resp(400, body)).unwrap() {
        EndpointRet::Other((400, Ok(env))) => {
            assert!(!env.is_ig_user_business_discovery_cannot_find_user());
        }
        other => panic!("{other:?}"),
    }
}

#[test]
fn business_discovery_ok_json_decodes() {
    let body = br#"{"business_discovery":{"id":"3","ig_id":"4","followers_count":10,"follows_count":20,"media_count":2,"username":"bluebottle","media":{"data":[{"comments_count":1,"id":"5","like_count":2,"media_product_type":"FEED","media_type":"IMAGE","permalink":"https://www.instagram.com/p/CJBsZ11MYha/","timestamp":"2022-01-01T00:00:00+0000"}]}}}"#;
    match discovery().parse_response(resp(200, body)).unwrap() {
        EndpointRet::Payload(ReadingResponseBodyRet::OkJson(ok)) => {
            assert_eq!(ok.business_discovery.username, "bluebottle");
            assert_eq!(ok.business_discovery.media.data.len(), 1);
            assert_eq!(ok.business_discovery.media.data[0].id, 5);
        }
        ret => panic!("{ret:?}"),
    }
}

#[test]
fn business_discovery_ret_as_ok_json() {
    let ret = ReadingResponseBodyRet::CannotFindUser;
    assert!(ret.as_ok_json().is_none());
}
