//! The per-operation field lists, exactly as the endpoints send them.

use instagram_api::bd_user_medias::MEDIA_FIELDS;
use instagram_api::graph_bd_objects::IgUserForIgUserBusinessDiscoveryReadingOperation;
use instagram_api::graph_comment_objects::{
    IgCommentAsReply, IgCommentForIgCommentReadingOperation,
    IgCommentForIgMediaCommentsCreatingOperation, IgCommentForIgMediaCommentsReadingOperation,
};
use instagram_api::graph_objects::{IgContainer, IgMediaForIgUserMediaPublishCreatingOperation};

#[test]
fn media_fields_cover_the_children_sub_selection() {
    assert_eq!(MEDIA_FIELDS, "caption,id,media_type,media_url,permalink,thumbnail_url,timestamp,username,children.fields(id,media_type,media_url,permalink,thumbnail_url,timestamp)");
}

#[test]
fn container_and_publish_fields() {
    assert_eq!(IgContainer::fields(), "id,status,status_code");
    assert_eq!(IgMediaForIgUserMediaPublishCreatingOperation::fields(), "id");
}

#[test]
fn comment_fields_per_operation() {
    assert_eq!(
        IgCommentForIgMediaCommentsReadingOperation::fields(),
        "from,hidden,id,like_count,text,timestamp,username,replies{from,hidden,id,like_count,parent_id,text,timestamp,username}"
    );
    assert_eq!(
        IgCommentForIgMediaCommentsCreatingOperation::fields(),
        "from,hidden,id,like_count,text,timestamp,username"
    );
    assert_eq!(
        IgCommentForIgCommentReadingOperation::fields(),
        "from,hidden,id,like_count,media,parent_id,text,timestamp,username"
    );
    assert_eq!(
        IgCommentForIgCommentReadingOperation::fields_with_replies(),
        "from,hidden,id,like_count,media,parent_id,text,timestamp,username,replies{from,hidden,id,like_count,parent_id,text,timestamp,username}"
    );
    assert_eq!(
        IgCommentAsReply::fields(),
        "from,hidden,id,like_count,parent_id,text,timestamp,username"
    );
}

#[test]
fn business_discovery_fields_with_and_without_the_media_window() {
    assert_eq!(
        IgUserForIgUserBusinessDiscoveryReadingOperation::fields(None, None),
        "biography,id,ig_id,followers_count,follows_count,media_count,name,profile_picture_url,username,website,media{caption,comments_count,id,like_count,media_product_type,media_type,media_url,permalink,timestamp,children{id,media_type,media_url,permalink,timestamp}}"
    );
    assert_eq!(
        IgUserForIgUserBusinessDiscoveryReadingOperation::fields(Some(1640995200), Some(30)),
        "biography,id,ig_id,followers_count,follows_count,media_count,name,profile_picture_url,username,website,media.since(1640995200).limit(30){caption,comments_count,id,like_count,media_product_type,media_type,media_url,permalink,timestamp,children{id,media_type,media_url,permalink,timestamp}}"
    );
}
