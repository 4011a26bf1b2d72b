use vstd::prelude::*;
use std::sync::Arc;

use crate::services::{
    AuthorService, CommentService, EntityCommentService, EntityPostService, EventBusService,
    PostService, SocialService,
};

verus! {

/// A source of shared values of type `T`: each call hands out the same value.
pub trait Resolve<T>: Send + Sync {
    /// The value that `resolve` hands out.
    spec fn resolved(&self) -> T;

    fn resolve(&self) -> (res: T)
        ensures
            res == self.resolved(),
    ;
}

/// Everything a request handler may resolve: one shared instance of each service.
pub trait ExtensionsProviderType:
    Resolve<Arc<Box<dyn AuthorService>>> +
    Resolve<Arc<Box<dyn PostService>>> +
    Resolve<Arc<Box<dyn CommentService>>> +
    Resolve<Arc<Box<dyn EntityCommentService>>> +
    Resolve<Arc<Box<dyn EntityPostService>>> +
    Resolve<Arc<Box<dyn EventBusService>>> +
    Resolve<Arc<Box<dyn SocialService>>> {

}

/// Clones an `Arc` (`<Arc<T> as Clone>::clone`). Claimed: the clone points to the
/// same value, so by value the two are equal.
#[verifier::external_body]
fn share<T: ?Sized>(a: &Arc<T>) -> (res: Arc<T>)
    ensures
        res == *a,
{
    a.clone()
}

/// The services of the application, each created once and shared.
pub struct ExtensionsProvider {
    author_service: Arc<Box<dyn AuthorService>>,
    post_service: Arc<Box<dyn PostService>>,
    comment_service: Arc<Box<dyn CommentService>>,
    entity_comment_service: Arc<Box<dyn EntityCommentService>>,
    entity_post_service: Arc<Box<dyn EntityPostService>>,
    event_bus_service: Arc<Box<dyn EventBusService>>,
    social_service: Arc<Box<dyn SocialService>>,
}

impl ExtensionsProvider {
    pub closed spec fn author_service(&self) -> Arc<Box<dyn AuthorService>> {
        self.author_service
    }

    pub closed spec fn post_service(&self) -> Arc<Box<dyn PostService>> {
        self.post_service
    }

    pub closed spec fn comment_service(&self) -> Arc<Box<dyn CommentService>> {
        self.comment_service
    }

    pub closed spec fn entity_comment_service(&self) -> Arc<Box<dyn EntityCommentService>> {
        self.entity_comment_service
    }

    pub closed spec fn entity_post_service(&self) -> Arc<Box<dyn EntityPostService>> {
        self.entity_post_service
    }

    pub closed spec fn event_bus_service(&self) -> Arc<Box<dyn EventBusService>> {
        self.event_bus_service
    }

    pub closed spec fn social_service(&self) -> Arc<Box<dyn SocialService>> {
        self.social_service
    }
}

impl ExtensionsProviderType for ExtensionsProvider {

}

impl Resolve<Arc<Box<dyn AuthorService>>> for ExtensionsProvider {
    open spec fn resolved(&self) -> Arc<Box<dyn AuthorService>> {
        self.author_service()
    }

    fn resolve(&self) -> Arc<Box<dyn AuthorService>> {
        share(&self.author_service)
    }
}

impl Resolve<Arc<Box<dyn PostService>>> for ExtensionsProvider {
    open spec fn resolved(&self) -> Arc<Box<dyn PostService>> {
        self.post_service()
    }

    fn resolve(&self) -> Arc<Box<dyn PostService>> {
        share(&self.post_service)
    }
}

impl Resolve<Arc<Box<dyn CommentService>>> for ExtensionsProvider {
    open spec fn resolved(&self) -> Arc<Box<dyn CommentService>> {
        self.comment_service()
    }

    fn resolve(&self) -> Arc<Box<dyn CommentService>> {
        share(&self.comment_service)
    }
}

impl Resolve<Arc<Box<dyn EntityCommentService>>> for ExtensionsProvider {
    open spec fn resolved(&self) -> Arc<Box<dyn EntityCommentService>> {
        self.entity_comment_service()
    }

    fn resolve(&self) -> Arc<Box<dyn EntityCommentService>> {
        share(&self.entity_comment_service)
    }
}

impl Resolve<Arc<Box<dyn EntityPostService>>> for ExtensionsProvider {
    open spec fn resolved(&self) -> Arc<Box<dyn EntityPostService>> {
        self.entity_post_service()
    }

    fn resolve(&self) -> Arc<Box<dyn EntityPostService>> {
        share(&self.entity_post_service)
    }
}

impl Resolve<Arc<Box<dyn EventBusService>>> for ExtensionsProvider {
    open spec fn resolved(&self) -> Arc<Box<dyn EventBusService>> {
        self.event_bus_service()
    }

    fn resolve(&self) -> Arc<Box<dyn EventBusService>> {
        share(&self.event_bus_service)
    }
}

impl Resolve<Arc<Box<dyn SocialService>>> for ExtensionsProvider {
    open spec fn resolved(&self) -> Arc<Box<dyn SocialService>> {
        self.social_service()
    }

    fn resolve(&self) -> Arc<Box<dyn SocialService>> {
        share(&self.social_service)
    }
}

/// Creates every service once, each in the shared form that handlers resolve:
/// the author, post and comment services from the database handle; the entity
/// services and the social service on top of the one shared author service; the
/// social service with the one shared event bus, which the provider hands out too.
pub fn make_extensions<D, FA, FP, FC, FEC, FEP, FS>(
    database: &D,
    event_bus: Box<dyn EventBusService>,
    create_author_service: FA,
    create_post_service: FP,
    create_comment_service: FC,
    create_entity_comment_service: FEC,
    create_entity_post_service: FEP,
    create_social_service: FS,
) -> (res: ExtensionsProvider) where
    FA: FnOnce(&D) -> Arc<Box<dyn AuthorService>>,
    FP: FnOnce(&D) -> Arc<Box<dyn PostService>>,
    FC: FnOnce(&D) -> Arc<Box<dyn CommentService>>,
    FEC: FnOnce(Arc<Box<dyn AuthorService>>) -> Arc<Box<dyn EntityCommentService>>,
    FEP: FnOnce(Arc<Box<dyn AuthorService>>) -> Arc<Box<dyn EntityPostService>>,
    FS: FnOnce(Arc<Box<dyn AuthorService>>, Arc<Box<dyn EventBusService>>) -> Arc<Box<dyn SocialService>>,

    requires
        create_author_service.requires((database,)),
        create_post_service.requires((database,)),
        create_comment_service.requires((database,)),
        forall|a: Arc<Box<dyn AuthorService>>| create_entity_comment_service.requires((a,)),
        forall|a: Arc<Box<dyn AuthorService>>| create_entity_post_service.requires((a,)),
        forall|a: Arc<Box<dyn AuthorService>>, e: Arc<Box<dyn EventBusService>>|
            create_social_service.requires((a, e)),
    ensures
        create_author_service.ensures((database,), res.author_service()),
        create_post_service.ensures((database,), res.post_service()),
        create_comment_service.ensures((database,), res.comment_service()),
        create_entity_comment_service.ensures(
            (res.author_service(),),
            res.entity_comment_service(),
        ),
        create_entity_post_service.ensures((res.author_service(),), res.entity_post_service()),
        *res.event_bus_service() == event_bus,
        create_social_service.ensures(
            (res.author_service(), res.event_bus_service()),
            res.social_service(),
        ),
{
    let author_service = create_author_service(database);
    let event_bus = Arc::new(event_bus);
    let post_service = create_post_service(database);
    let comment_service = create_comment_service(database);
    let entity_comment_service = create_entity_comment_service(share(&author_service));
    let entity_post_service = create_entity_post_service(share(&author_service));
    let social_service = create_social_service(share(&author_service), share(&event_bus));
    ExtensionsProvider {
        author_service,
        post_service,
        comment_service,
        entity_comment_service,
        entity_post_service,
        event_bus_service: event_bus,
        social_service,
    }
}

} // verus!
