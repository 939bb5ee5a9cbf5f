//! A typed client library for the Instagram Basic Display API and the
//! Instagram Graph API.
//!
//! Each operation is described by an endpoint value: `render_request`
//! produces the exact HTTP request for the operation, and `parse_response`
//! classifies the transport's answer into a decoded payload, a recognized
//! domain outcome, or the provider's error envelope.  No I/O happens here;
//! callers hand the rendered request to whatever transport they use.
//!
//! The `bd_` modules cover the Basic Display surface (token exchange and
//! refresh, user and media reads); the `graph_` modules cover the Graph
//! surface (comments, containers, business discovery, media creation and
//! publishing).  The supporting modules hold what both share: URL
//! rendering, the JSON decoding model, the error envelope, pagination and
//! the token kinds.

pub mod apierror;
pub mod bd_access_token;
pub mod bd_common;
pub mod bd_objects;
pub mod bd_user;
pub mod bd_user_medias;
pub mod bytestr;
pub mod graph_bd_objects;
pub mod graph_comment_objects;
pub mod graph_common;
pub mod graph_ig_comment;
pub mod graph_ig_comment_replies;
pub mod graph_ig_container;
pub mod graph_ig_media;
pub mod graph_ig_user_business_discovery;
pub mod graph_ig_user_media;
pub mod graph_ig_user_media_publish;
pub mod graph_objects;
pub mod httpmsg;
pub mod jsonval;
pub mod paging;
pub mod permalink;
pub mod timefmt;
pub mod tokens;
pub mod urlenc;

pub use bd_access_token::{ExchangeSlAccessTokenForLlAccessTokenEndpoint,
    ExchangeSlAccessTokenForLlAccessTokenResponseBody, RefreshAccessTokenEndpoint,
    RefreshAccessTokenResponseBody};
pub use bd_user::{UserEndpoint, UserResponseBody};
pub use bd_user_medias::{UserMediasEndpoint, UserMediasResponseBody};
pub use graph_ig_comment::{BulkReading as IgCommentBulkReading, Deleting as IgCommentDeleting,
    Reading as IgCommentReading, UpdatingWithHideOrUnhide as IgCommentUpdatingWithHideOrUnhide};
pub use graph_ig_comment_replies::Creating as IgCommentRepliesCreating;
pub use graph_ig_container::Reading as IgContainerReading;
pub use graph_ig_media::{Creating as IgMediaCommentsCreating, Reading as IgMediaCommentsReading,
    ReadingResponseBodyOkJson as IgMediaCommentsReadingResponseBodyOkJson,
    UpdatingWithEnableOrDisableComments as IgMediaUpdatingWithEnableOrDisableComments};
pub use graph_ig_user_business_discovery::Reading as IgUserBusinessDiscoveryReading;
pub use graph_ig_user_media::{CreatingWithCarousel as IgUserMediaCreatingWithCarousel,
    CreatingWithCarouselItemImage as IgUserMediaCreatingWithCarouselItemImage,
    CreatingWithCarouselItemVideo as IgUserMediaCreatingWithCarouselItemVideo,
    CreatingWithImage as IgUserMediaCreatingWithImage,
    CreatingWithReels as IgUserMediaCreatingWithReels,
    CreatingWithVideo as IgUserMediaCreatingWithVideo,
    ExtInfoError as IgUserMediaCreatingExtInfoError,
    ValueUserTag as IgUserMediaCreatingValueUserTag};
pub use graph_ig_user_media_publish::{Creating as IgUserMediaPublishCreating,
    CreatingResponseBodyOkJson as IgUserMediaPublishCreatingResponseBodyOkJson};
