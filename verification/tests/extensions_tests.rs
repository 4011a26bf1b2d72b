use std::sync::Arc;

use blog_server::extensions::{make_extensions, ExtensionsProvider, Resolve};
use blog_server::request::{AuthorsRequestContent, RequestOriginContent, RequestParams};
use blog_server::services::{
    AuthorService, CommentService, EntityCommentService, EntityPostService, EventBusService,
    PostService, SocialService,
};

struct Authors;
impl AuthorService for Authors {}
struct Posts;
impl PostService for Posts {}
struct Comments;
impl CommentService for Comments {}
struct EntityComments(Arc<Box<dyn AuthorService>>);
impl EntityCommentService for EntityComments {}
struct EntityPosts(Arc<Box<dyn AuthorService>>);
impl EntityPostService for EntityPosts {}
struct Bus;
impl EventBusService for Bus {}
struct Social(Arc<Box<dyn AuthorService>>, Arc<Box<dyn EventBusService>>);
impl SocialService for Social {}

fn provider_and_witnesses() -> (
    ExtensionsProvider,
    std::sync::Mutex<Vec<Arc<Box<dyn AuthorService>>>>,
) {
    let seen: std::sync::Mutex<Vec<Arc<Box<dyn AuthorService>>>> = std::sync::Mutex::new(Vec::new());
    let database = String::from("db handle");
    let provider = make_extensions(
        &database,
        Box::new(Bus),
        |db: &String| {
            assert_eq!(db, "db handle");
            Arc::new(Box::new(Authors) as Box<dyn AuthorService>)
        },
        |_db: &String| Arc::new(Box::new(Posts) as Box<dyn PostService>),
        |_db: &String| Arc::new(Box::new(Comments) as Box<dyn CommentService>),
        |a: Arc<Box<dyn AuthorService>>| {
            seen.lock().unwrap().push(a.clone());
            Arc::new(Box::new(EntityComments(a)) as Box<dyn EntityCommentService>)
        },
        |a: Arc<Box<dyn AuthorService>>| {
            seen.lock().unwrap().push(a.clone());
            Arc::new(Box::new(EntityPosts(a)) as Box<dyn EntityPostService>)
        },
        |a: Arc<Box<dyn AuthorService>>, e: Arc<Box<dyn EventBusService>>| {
            seen.lock().unwrap().push(a.clone());
            Arc::new(Box::new(Social(a, e)) as Box<dyn SocialService>)
        },
    );
    (provider, seen)
}

#[test]
fn extensions_share_one_author_service() {
    let (provider, seen) = provider_and_witnesses();
    let author: Arc<Box<dyn AuthorService>> = provider.resolve();
    let seen = seen.lock().unwrap();
    assert_eq!(seen.len(), 3);
    for a in seen.iter() {
        assert!(Arc::ptr_eq(a, &author));
    }
}

#[test]
fn extensions_resolve_the_same_instances() {
    let (provider, _) = provider_and_witnesses();
    let a1: Arc<Box<dyn AuthorService>> = provider.resolve();
    let a2: Arc<Box<dyn AuthorService>> = provider.resolve();
    assert!(Arc::ptr_eq(&a1, &a2));
    let p1: Arc<Box<dyn PostService>> = provider.resolve();
    let p2: Arc<Box<dyn PostService>> = provider.resolve();
    assert!(Arc::ptr_eq(&p1, &p2));
    let c1: Arc<Box<dyn CommentService>> = provider.resolve();
    let c2: Arc<Box<dyn CommentService>> = provider.resolve();
    assert!(Arc::ptr_eq(&c1, &c2));
    let e1: Arc<Box<dyn EntityCommentService>> = provider.resolve();
    let e2: Arc<Box<dyn EntityCommentService>> = provider.resolve();
    assert!(Arc::ptr_eq(&e1, &e2));
    let f1: Arc<Box<dyn EntityPostService>> = provider.resolve();
    let f2: Arc<Box<dyn EntityPostService>> = provider.resolve();
    assert!(Arc::ptr_eq(&f1, &f2));
    let b1: Arc<Box<dyn EventBusService>> = provider.resolve();
    let b2: Arc<Box<dyn EventBusService>> = provider.resolve();
    assert!(Arc::ptr_eq(&b1, &b2));
    let s1: Arc<Box<dyn SocialService>> = provider.resolve();
    let s2: Arc<Box<dyn SocialService>> = provider.resolve();
    assert!(Arc::ptr_eq(&s1, &s2));
}

fn params(pairs: &[(&str, &str)]) -> RequestParams {
    RequestParams {
        pairs: pairs.iter().map(|(k, v)| (k.to_string(), v.to_string())).collect(),
    }
}

#[test]
fn request_params_lookup() {
    let p = params(&[("a", "1"), ("offset", "x"), ("offset", "5")]);
    assert_eq!(p.get("offset").map(|s| s.as_str()), Some("x"));
    assert_eq!(p.get("missing"), None);
    assert_eq!(p.get_u64("a"), Some(1));
    assert_eq!(p.get_u64("offset"), None);
    assert_eq!(p.get_u64("missing"), None);
}

#[test]
fn authors_request_content_reads_its_parameters() {
    let (provider, _) = provider_and_witnesses();
    let expected: Arc<Box<dyn AuthorService>> = provider.resolve();
    let content = AuthorsRequestContent::create(RequestOriginContent {
        path: params(&[("query", "tolstoy")]),
        query: params(&[("offset", "20"), ("limit", "+10")]),
        extensions: provider,
    });
    assert_eq!(content.query.as_deref(), Some("tolstoy"));
    assert_eq!(content.offset, Some(20));
    assert_eq!(content.limit, Some(10));
    assert!(Arc::ptr_eq(&content.author_service, &expected));
}

#[test]
fn authors_request_content_defaults() {
    let (provider, _) = provider_and_witnesses();
    let content = AuthorsRequestContent::create(RequestOriginContent {
        path: params(&[]),
        query: params(&[("offset", "-1"), ("limit", "ten"), ("query", "ignored")]),
        extensions: provider,
    });
    assert_eq!(content.query, None);
    assert_eq!(content.offset, None);
    assert_eq!(content.limit, None);
}
