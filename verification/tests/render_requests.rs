//! Request rendering: every endpoint's method and URI, byte for byte.

use instagram_api::bd_access_token::{
    ExchangeSlAccessTokenForLlAccessTokenEndpoint, RefreshAccessTokenEndpoint,
};
use instagram_api::bd_user::UserEndpoint;
use instagram_api::bd_user_medias::UserMediasEndpoint;
use instagram_api::httpmsg::HttpMethod;
use instagram_api::tokens::{LongLivedUserAccessToken, ShortLivedUserAccessToken, UserAccessToken};

#[test]
fn exchange_sl_access_token_for_ll_access_token_test_render_request() {
    let req = ExchangeSlAccessTokenForLlAccessTokenEndpoint::new(
        "SECRET".to_owned(),
        ShortLivedUserAccessToken::new("TOKEN".to_owned()),
    )
    .render_request()
    .unwrap();
    assert_eq!(req.method, HttpMethod::Get);
    assert_eq!(req.uri, "https://graph.instagram.com/access_token?grant_type=ig_exchange_token&client_secret=SECRET&access_token=TOKEN");
}

#[test]
fn refresh_access_token_test_render_request() {
    let req = RefreshAccessTokenEndpoint::new(LongLivedUserAccessToken::new("TOKEN".to_owned()))
        .render_request()
        .unwrap();
    assert_eq!(req.method, HttpMethod::Get);
    assert_eq!(req.uri, "https://graph.instagram.com/refresh_access_token?grant_type=ig_refresh_token&access_token=TOKEN");
}

#[test]
fn user_test_render_request() {
    let req = UserEndpoint::new(123, UserAccessToken::new("TOKEN".to_owned()), false)
        .render_request()
        .unwrap();
    assert_eq!(req.method, HttpMethod::Get);
    assert_eq!(req.uri, "https://graph.instagram.com/v15.0/123?fields=account_type%2Cid%2Cusername&access_token=TOKEN");

    let req = UserEndpoint::me(UserAccessToken::new("TOKEN".to_owned()), false)
        .render_request()
        .unwrap();
    assert_eq!(req.method, HttpMethod::Get);
    assert_eq!(req.uri, "https://graph.instagram.com/v15.0/me?fields=account_type%2Cid%2Cusername&access_token=TOKEN");

    let req = UserEndpoint::me(UserAccessToken::new("TOKEN".to_owned()), false)
        .with_api_version("v12.0".to_owned())
        .render_request()
        .unwrap();
    assert_eq!(req.uri, "https://graph.instagram.com/v12.0/me?fields=account_type%2Cid%2Cusername&access_token=TOKEN");
}

#[test]
fn user_medias_test_render_request() {
    let req = UserMediasEndpoint::new(123, "TOKEN".to_owned(), None, None)
        .render_request()
        .unwrap();
    assert_eq!(req.method, HttpMethod::Get);
    assert_eq!(req.uri, "https://graph.instagram.com/v15.0/123/media?fields=caption%2Cid%2Cmedia_type%2Cmedia_url%2Cpermalink%2Cthumbnail_url%2Ctimestamp%2Cusername%2Cchildren.fields(id%2Cmedia_type%2Cmedia_url%2Cpermalink%2Cthumbnail_url%2Ctimestamp)&access_token=TOKEN");

    let req = UserMediasEndpoint::me("TOKEN".to_owned(), None, None)
        .render_request()
        .unwrap();
    assert_eq!(req.method, HttpMethod::Get);
    assert_eq!(req.uri, "https://graph.instagram.com/v15.0/me/media?fields=caption%2Cid%2Cmedia_type%2Cmedia_url%2Cpermalink%2Cthumbnail_url%2Ctimestamp%2Cusername%2Cchildren.fields(id%2Cmedia_type%2Cmedia_url%2Cpermalink%2Cthumbnail_url%2Ctimestamp)&access_token=TOKEN");

    let req = UserMediasEndpoint::me("TOKEN".to_owned(), Some(10), Some("AFTER".to_owned()))
        .render_request()
        .unwrap();
    assert_eq!(req.method, HttpMethod::Get);
    assert_eq!(req.uri, "https://graph.instagram.com/v15.0/me/media?fields=caption%2Cid%2Cmedia_type%2Cmedia_url%2Cpermalink%2Cthumbnail_url%2Ctimestamp%2Cusername%2Cchildren.fields(id%2Cmedia_type%2Cmedia_url%2Cpermalink%2Cthumbnail_url%2Ctimestamp)&limit=10&after=AFTER&access_token=TOKEN");
}

#[test]
fn user_render_request_sends_headers_and_empty_body() {
    let req = UserEndpoint::me(UserAccessToken::new("T".to_owned()), true)
        .render_request()
        .unwrap();
    assert_eq!(req.user_agent, "instagram-basic-display-api");
    assert_eq!(req.accept, "application/json");
    assert!(req.body.is_empty());
}

#[test]
fn user_render_request_is_deterministic() {
    let a = UserEndpoint::new(7, UserAccessToken::new("T".to_owned()), true)
        .render_request()
        .unwrap();
    let b = UserEndpoint::new(7, UserAccessToken::new("T".to_owned()), true)
        .render_request()
        .unwrap();
    assert_eq!(a.method, b.method);
    assert_eq!(a.uri, b.uri);
    assert_eq!(a.user_agent, b.user_agent);
    assert_eq!(a.accept, b.accept);
    assert_eq!(a.body, b.body);
}

#[test]
fn bd_cursor_is_appended_verbatim_while_graph_cursor_is_form_encoded() {
    // the Basic Display listing formats its pairs directly, so the cursor
    // travels as given; the Graph listing goes through the pair builder,
    // which form-urlencodes it
    let bd = UserMediasEndpoint::me("T".to_owned(), None, Some("A B".to_owned()))
        .render_request()
        .unwrap();
    assert!(bd.uri.ends_with("&after=A B&access_token=T"));

    let graph = instagram_api::IgMediaCommentsReading::new(1, "T".to_owned(), None)
        .after("A B".to_owned())
        .render_request()
        .unwrap();
    assert!(graph.uri.ends_with("&access_token=T&after=A+B"));
}

#[test]
fn exchange_encodes_token_under_form_rules() {
    // a space becomes `+`, a plus sign `%2B`, an ampersand `%26`
    let req = ExchangeSlAccessTokenForLlAccessTokenEndpoint::new(
        "a b".to_owned(),
        ShortLivedUserAccessToken::new("t+u&v".to_owned()),
    )
    .render_request()
    .unwrap();
    assert_eq!(req.uri, "https://graph.instagram.com/access_token?grant_type=ig_exchange_token&client_secret=a+b&access_token=t%2Bu%26v");
}
