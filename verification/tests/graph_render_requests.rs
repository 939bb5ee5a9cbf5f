//! Request rendering on the Graph surface.

use instagram_api::httpmsg::HttpMethod;
use instagram_api::{
    IgCommentBulkReading, IgCommentDeleting, IgCommentReading, IgCommentRepliesCreating,
    IgCommentUpdatingWithHideOrUnhide, IgContainerReading, IgMediaCommentsCreating,
    IgMediaCommentsReading, IgMediaUpdatingWithEnableOrDisableComments,
    IgUserBusinessDiscoveryReading, IgUserMediaCreatingValueUserTag,
    IgUserMediaCreatingWithCarousel, IgUserMediaCreatingWithImage, IgUserMediaCreatingWithReels,
    IgUserMediaCreatingWithVideo, IgUserMediaPublishCreating,
};

#[test]
fn reading_test_endpoint_render_request() {
    let ep = IgCommentReading::new(1, "ACCESS_TOKEN".to_owned(), None);
    let req = ep.render_request().unwrap();
    assert_eq!(req.method, HttpMethod::Get);
    assert_eq!(req.uri, "https://graph.facebook.com/v15.0/1?fields=from,hidden,id,like_count,media,parent_id,text,timestamp,username&access_token=ACCESS_TOKEN");

    let ep = IgCommentReading::new(1, "ACCESS_TOKEN".to_owned(), None).with_replies();
    let req = ep.render_request().unwrap();
    assert_eq!(req.method, HttpMethod::Get);
    assert_eq!(req.uri, "https://graph.facebook.com/v15.0/1?fields=from,hidden,id,like_count,media,parent_id,text,timestamp,username,replies{from,hidden,id,like_count,parent_id,text,timestamp,username}&access_token=ACCESS_TOKEN");
}

#[test]
fn deleting_test_endpoint_render_request() {
    let ep = IgCommentDeleting::new(1, "ACCESS_TOKEN".to_owned(), None);
    let req = ep.render_request().unwrap();
    assert_eq!(req.method, HttpMethod::Delete);
    assert_eq!(
        req.uri,
        "https://graph.facebook.com/v15.0/1?access_token=ACCESS_TOKEN"
    );
}

#[test]
fn updating_test_endpoint_render_request() {
    let ep = IgCommentUpdatingWithHideOrUnhide::new(1, true, "ACCESS_TOKEN".to_owned(), None);
    let req = ep.render_request().unwrap();
    assert_eq!(req.method, HttpMethod::Post);
    assert_eq!(
        req.uri,
        "https://graph.facebook.com/v15.0/1?hide=true&access_token=ACCESS_TOKEN"
    );

    let ep = IgCommentUpdatingWithHideOrUnhide::new(1, false, "ACCESS_TOKEN".to_owned(), None);
    let req = ep.render_request().unwrap();
    assert_eq!(req.method, HttpMethod::Post);
    assert_eq!(
        req.uri,
        "https://graph.facebook.com/v15.0/1?hide=false&access_token=ACCESS_TOKEN"
    );
}

#[test]
fn bulk_reading_uses_first_id_path_and_ids_pair() {
    let ep = IgCommentBulkReading::new(&[1, 2, 3], "ACCESS_TOKEN".to_owned(), None);
    let req = ep.render_request().unwrap();
    assert_eq!(req.method, HttpMethod::Get);
    assert_eq!(req.uri, "https://graph.facebook.com/v15.0/1?fields=from,hidden,id,like_count,media,parent_id,text,timestamp,username&ids=1%2C2%2C3&access_token=ACCESS_TOKEN");
}

#[test]
fn replies_creating_render_request() {
    let ep = IgCommentRepliesCreating::new(1, "nice".to_owned(), "ACCESS_TOKEN".to_owned(), None);
    let req = ep.render_request().unwrap();
    assert_eq!(req.method, HttpMethod::Post);
    assert_eq!(req.uri, "https://graph.facebook.com/v15.0/1/replies?fields=from,hidden,id,like_count,parent_id,text,timestamp,username&message=nice&access_token=ACCESS_TOKEN");
}

#[test]
fn container_reading_test_endpoint_render_request() {
    let ep = IgContainerReading::new(1, "ACCESS_TOKEN".to_owned(), None);
    let req = ep.render_request().unwrap();
    assert_eq!(req.method, HttpMethod::Get);
    assert_eq!(
        req.uri,
        "https://graph.facebook.com/v15.0/1?fields=id,status,status_code&access_token=ACCESS_TOKEN"
    );
}

#[test]
fn media_comments_reading_test_endpoint_render_request() {
    let ep = IgMediaCommentsReading::new(1, "ACCESS_TOKEN".to_owned(), None)
        .limit(30)
        .after("AFTER".to_owned());
    let req = ep.render_request().unwrap();
    assert_eq!(req.method, HttpMethod::Get);
    assert_eq!(req.uri, "https://graph.facebook.com/v15.0/1/comments?fields=from,hidden,id,like_count,text,timestamp,username,replies{from,hidden,id,like_count,parent_id,text,timestamp,username}&access_token=ACCESS_TOKEN&limit=30&after=AFTER");
}

#[test]
fn media_comments_creating_test_endpoint_render_request() {
    let ep = IgMediaCommentsCreating::new(1, "foo".to_owned(), "ACCESS_TOKEN".to_owned(), None);
    let req = ep.render_request().unwrap();
    assert_eq!(req.method, HttpMethod::Post);
    assert_eq!(req.uri, "https://graph.facebook.com/v15.0/1/comments?fields=from,hidden,id,like_count,text,timestamp,username&message=foo&access_token=ACCESS_TOKEN");
}

#[test]
fn media_updating_test_endpoint_render_request() {
    let ep =
        IgMediaUpdatingWithEnableOrDisableComments::new(1, true, "ACCESS_TOKEN".to_owned(), None);
    let req = ep.render_request().unwrap();
    assert_eq!(req.method, HttpMethod::Post);
    assert_eq!(
        req.uri,
        "https://graph.facebook.com/v15.0/1?comment_enabled=true&access_token=ACCESS_TOKEN"
    );

    let ep =
        IgMediaUpdatingWithEnableOrDisableComments::new(1, false, "ACCESS_TOKEN".to_owned(), None);
    let req = ep.render_request().unwrap();
    assert_eq!(req.method, HttpMethod::Post);
    assert_eq!(
        req.uri,
        "https://graph.facebook.com/v15.0/1?comment_enabled=false&access_token=ACCESS_TOKEN"
    );
}

#[test]
fn business_discovery_reading_test_endpoint_render_request() {
    // 2022-01-01T00:00:00Z is 1640995200 seconds after the epoch
    let ep = IgUserBusinessDiscoveryReading::new(1, "foo".to_owned(), "ACCESS_TOKEN".to_owned(), None)
        .media_limit(30)
        .media_since(1640995200);
    let req = ep.render_request().unwrap();
    assert_eq!(req.method, HttpMethod::Get);
    assert_eq!(req.uri, "https://graph.facebook.com/v15.0/1?fields=business_discovery.username(foo){biography,id,ig_id,followers_count,follows_count,media_count,name,profile_picture_url,username,website,media.since(1640995200).limit(30){caption,comments_count,id,like_count,media_product_type,media_type,media_url,permalink,timestamp,children{id,media_type,media_url,permalink,timestamp}}}&access_token=ACCESS_TOKEN");
}

#[test]
fn creating_test_endpoint_render_request() {
    let ep = IgUserMediaCreatingWithImage::new(
        1,
        "https://example.com/a.jpg".to_owned(),
        "ACCESS_TOKEN".to_owned(),
        None,
    );
    let req = ep.render_request().unwrap();
    assert_eq!(req.method, HttpMethod::Post);
    assert_eq!(req.uri, "https://graph.facebook.com/v15.0/1/media?fields=id,status,status_code&image_url=https%3A%2F%2Fexample.com%2Fa.jpg&is_carousel_item=false&access_token=ACCESS_TOKEN");
}

#[test]
fn creating_with_image_optionals_in_order() {
    let tags = vec![IgUserMediaCreatingValueUserTag::new(
        "0.5".to_owned(),
        "0.5".to_owned(),
        "friend".to_owned(),
    )];
    let ep = IgUserMediaCreatingWithImage::new(
        1,
        "https://example.com/a.jpg".to_owned(),
        "T".to_owned(),
        None,
    )
    .caption("hi there".to_owned())
    .location_id(7)
    .user_tags(tags);
    let req = ep.render_request().unwrap();
    assert_eq!(req.uri, "https://graph.facebook.com/v15.0/1/media?fields=id,status,status_code&image_url=https%3A%2F%2Fexample.com%2Fa.jpg&is_carousel_item=false&caption=hi+there&location_id=7&user_tags=%5B%7B%22x%22%3A0.5%2C%22y%22%3A0.5%2C%22username%22%3A%22friend%22%7D%5D&access_token=T");
}

#[test]
fn creating_with_video_render_request() {
    let ep = IgUserMediaCreatingWithVideo::new(
        1,
        "https://example.com/v.mp4".to_owned(),
        "T".to_owned(),
        None,
    )
    .thumb_offset(500);
    let req = ep.render_request().unwrap();
    assert_eq!(req.uri, "https://graph.facebook.com/v15.0/1/media?fields=id,status,status_code&media_type=VIDEO&video_url=https%3A%2F%2Fexample.com%2Fv.mp4&is_carousel_item=false&thumb_offset=500&access_token=T");
}

#[test]
fn creating_with_carousel_render_request() {
    let ep = IgUserMediaCreatingWithCarousel::new(1, vec![11, 22], "T".to_owned(), None)
        .caption("c".to_owned());
    let req = ep.render_request().unwrap();
    assert_eq!(req.uri, "https://graph.facebook.com/v15.0/1/media?fields=id,status,status_code&media_type=CAROUSEL&children=%5B11%2C22%5D&caption=c&access_token=T");
}

#[test]
fn creating_with_reels_render_request() {
    let ep = IgUserMediaCreatingWithReels::new(
        1,
        "https://example.com/r.mp4".to_owned(),
        "T".to_owned(),
        None,
    )
    .share_to_feed(true);
    let req = ep.render_request().unwrap();
    assert_eq!(req.uri, "https://graph.facebook.com/v15.0/1/media?fields=id,status,status_code&media_type=REELS&video_url=https%3A%2F%2Fexample.com%2Fr.mp4&share_to_feed=true&access_token=T");
}

#[test]
fn media_publish_creating_test_endpoint_render_request() {
    let ep = IgUserMediaPublishCreating::new(1, 2, "ACCESS_TOKEN".to_owned(), None);
    let req = ep.render_request().unwrap();
    assert_eq!(req.method, HttpMethod::Post);
    assert_eq!(
        req.uri,
        "https://graph.facebook.com/v15.0/1/media_publish?creation_id=2&access_token=ACCESS_TOKEN"
    );
}
