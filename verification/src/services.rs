use vstd::prelude::*;

verus! {

/// Reads and updates authors.
pub trait AuthorService: Send + Sync {}

/// Reads and updates posts.
pub trait PostService: Send + Sync {}

/// Reads and updates comments.
pub trait CommentService: Send + Sync {}

/// Joins comments with their authors.
pub trait EntityCommentService: Send + Sync {}

/// Joins posts with their authors.
pub trait EntityPostService: Send + Sync {}

/// Publishes domain events to other services.
pub trait EventBusService: Send + Sync {}

/// Subscriptions and social-network data of authors.
pub trait SocialService: Send + Sync {}

} // verus!
