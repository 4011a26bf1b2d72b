use blog_server::router::{
    api_not_found, make_router, Endpoint, Method, MethodFilter, NotFoundResponseContentFailure,
};

#[test]
fn router_table() {
    let router = make_router(true);
    assert!(router.json_pretty_printed);
    assert_eq!(router.fallback_status, 404);
    let table: Vec<(MethodFilter, &str, Endpoint)> =
        router.routes.iter().map(|r| (r.method, r.path.as_str(), r.endpoint)).collect();
    let get = MethodFilter::Only(Method::Get);
    assert_eq!(
        table,
        vec![
            (get, "/api/author/me", Endpoint::AuthorMe),
            (get, "/api/author/slug/{slug:[^/]*}", Endpoint::Author),
            (get, "/api/authors/search/{query:[^/]*}", Endpoint::Authors),
            (get, "/api/authors", Endpoint::Authors),
            (get, "/api/posts/search/{search_query:[^/]*}", Endpoint::Posts),
            (get, "/api/posts/author/id/{author_id:[^/]*}", Endpoint::Posts),
            (get, "/api/posts/tag/{tag_id:[^/]*}", Endpoint::Posts),
            (get, "/api/posts", Endpoint::Posts),
            (get, "/api/comments/{post_id:[^/]*}", Endpoint::Comments),
            (MethodFilter::Only(Method::Post), "/api/login", Endpoint::Login),
            (MethodFilter::Any, "/api/{_:.*}", Endpoint::ApiNotFound),
        ]
    );
    assert!(!make_router(false).json_pretty_printed);
}

#[test]
fn router_paths_under_api() {
    let router = make_router(false);
    for r in router.routes.iter() {
        assert!(r.path.starts_with("/api"));
    }
}

#[test]
fn not_found_failure() {
    let f = NotFoundResponseContentFailure;
    assert_eq!(f.status_code(), 404);
    assert_eq!(f.identifier(), "NOT_FOUND");
    assert_eq!(f.reason(), Some("route not found".to_string()));
    assert!(api_not_found().is_err());
}
