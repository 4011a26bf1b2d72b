use vstd::prelude::*;
use vstd::string::StringExecFns;

verus! {

/// HTTP methods that routes are bound to.
#[derive(PartialEq, Eq, Structural, Debug, Clone, Copy)]
pub enum Method {
    Get,
    Post,
}

/// Which methods a route answers.
#[derive(PartialEq, Eq, Structural, Debug, Clone, Copy)]
pub enum MethodFilter {
    Only(Method),
    Any,
}

/// The handlers that routes lead to.
#[derive(PartialEq, Eq, Structural, Debug, Clone, Copy)]
pub enum Endpoint {
    AuthorMe,
    Author,
    Authors,
    Posts,
    Comments,
    Login,
    ApiNotFound,
}

/// A route: the methods it answers, its full path pattern (segments such as
/// `{slug:[^/]*}` capture a named parameter), and its handler.
pub struct Route {
    pub method: MethodFilter,
    pub path: String,
    pub endpoint: Endpoint,
}

/// A route by value.
pub struct RouteModel {
    pub method: MethodFilter,
    pub path: Seq<char>,
    pub endpoint: Endpoint,
}

impl View for Route {
    type V = RouteModel;

    open spec fn view(&self) -> RouteModel {
        RouteModel { method: self.method, path: self.path@, endpoint: self.endpoint }
    }
}

/// The routing table of the application. Every route lies under `/api`, where
/// responses are JSON, pretty-printed when `json_pretty_printed` holds; routes are
/// tried in order; a request that no route takes is answered with an empty body
/// and status `fallback_status`.
pub struct Router {
    pub json_pretty_printed: bool,
    pub routes: Vec<Route>,
    pub fallback_status: u16,
}

pub open spec fn routes_view(routes: Seq<Route>) -> Seq<RouteModel> {
    routes.map_values(|r: Route| r@)
}

pub open spec fn get(path: Seq<char>, endpoint: Endpoint) -> RouteModel {
    RouteModel { method: MethodFilter::Only(Method::Get), path, endpoint }
}

/// The routes, in the order they are tried.
pub open spec fn route_table() -> Seq<RouteModel> {
    seq![
        get("/api/author/me"@, Endpoint::AuthorMe),
        get("/api/author/slug/{slug:[^/]*}"@, Endpoint::Author),
        get("/api/authors/search/{query:[^/]*}"@, Endpoint::Authors),
        get("/api/authors"@, Endpoint::Authors),
        get("/api/posts/search/{search_query:[^/]*}"@, Endpoint::Posts),
        get("/api/posts/author/id/{author_id:[^/]*}"@, Endpoint::Posts),
        get("/api/posts/tag/{tag_id:[^/]*}"@, Endpoint::Posts),
        get("/api/posts"@, Endpoint::Posts),
        get("/api/comments/{post_id:[^/]*}"@, Endpoint::Comments),
        RouteModel {
            method: MethodFilter::Only(Method::Post),
            path: "/api/login"@,
            endpoint: Endpoint::Login,
        },
        RouteModel { method: MethodFilter::Any, path: "/api/{_:.*}"@, endpoint: Endpoint::ApiNotFound },
    ]
}

/// A route whose path is `scope` followed by `path`.
fn scoped_route(method: MethodFilter, scope: &str, path: &str, endpoint: Endpoint) -> (res: Route)
    ensures
        res@ == (RouteModel { method, path: scope@ + path@, endpoint }),
{
    Route { method, path: String::from_str(scope).concat(path), endpoint }
}

/// Builds the routing table: under `/api`, the author routes under `/author`,
/// the author lists under `/authors`, the post lists under `/posts`, the comments
/// of a post, the login, and last a route that answers every other `/api` request
/// with a not-found failure. Outside `/api`, status 404.
pub fn make_router(json_pretty_printed: bool) -> (res: Router)
    ensures
        res.json_pretty_printed == json_pretty_printed,
        routes_view(res.routes@) == route_table(),
        res.fallback_status == 404,
{
    let get = MethodFilter::Only(Method::Get);
    let mut routes: Vec<Route> = Vec::new();
    routes.push(scoped_route(get, "/api/author", "/me", Endpoint::AuthorMe));
    routes.push(scoped_route(get, "/api/author", "/slug/{slug:[^/]*}", Endpoint::Author));
    routes.push(scoped_route(get, "/api/authors", "/search/{query:[^/]*}", Endpoint::Authors));
    routes.push(scoped_route(get, "/api/authors", "", Endpoint::Authors));
    routes.push(
        scoped_route(get, "/api/posts", "/search/{search_query:[^/]*}", Endpoint::Posts),
    );
    routes.push(
        scoped_route(get, "/api/posts", "/author/id/{author_id:[^/]*}", Endpoint::Posts),
    );
    routes.push(scoped_route(get, "/api/posts", "/tag/{tag_id:[^/]*}", Endpoint::Posts));
    routes.push(scoped_route(get, "/api/posts", "", Endpoint::Posts));
    routes.push(scoped_route(get, "/api", "/comments/{post_id:[^/]*}", Endpoint::Comments));
    routes.push(
        scoped_route(MethodFilter::Only(Method::Post), "/api", "/login", Endpoint::Login),
    );
    routes.push(scoped_route(MethodFilter::Any, "/api", "/{_:.*}", Endpoint::ApiNotFound));
    proof {
        lemma_route_paths();
        assert(routes_view(routes@) =~= route_table());
    }
    Router { json_pretty_printed, routes, fallback_status: 404 }
}

/// The scoped paths spell out the full paths of the table.
proof fn lemma_route_paths()
    ensures
        "/api/author"@ + "/me"@ == "/api/author/me"@,
        "/api/author"@ + "/slug/{slug:[^/]*}"@ == "/api/author/slug/{slug:[^/]*}"@,
        "/api/authors"@ + "/search/{query:[^/]*}"@ == "/api/authors/search/{query:[^/]*}"@,
        "/api/authors"@ + ""@ == "/api/authors"@,
        "/api/posts"@ + "/search/{search_query:[^/]*}"@
            == "/api/posts/search/{search_query:[^/]*}"@,
        "/api/posts"@ + "/author/id/{author_id:[^/]*}"@
            == "/api/posts/author/id/{author_id:[^/]*}"@,
        "/api/posts"@ + "/tag/{tag_id:[^/]*}"@ == "/api/posts/tag/{tag_id:[^/]*}"@,
        "/api/posts"@ + ""@ == "/api/posts"@,
        "/api"@ + "/comments/{post_id:[^/]*}"@ == "/api/comments/{post_id:[^/]*}"@,
        "/api"@ + "/login"@ == "/api/login"@,
        "/api"@ + "/{_:.*}"@ == "/api/{_:.*}"@,
{
    reveal_strlit("/api/author");
    reveal_strlit("/me");
    reveal_strlit("/api/author/me");
    assert("/api/author"@ + "/me"@ =~= "/api/author/me"@);
    reveal_strlit("/slug/{slug:[^/]*}");
    reveal_strlit("/api/author/slug/{slug:[^/]*}");
    assert("/api/author"@ + "/slug/{slug:[^/]*}"@ =~= "/api/author/slug/{slug:[^/]*}"@);
    reveal_strlit("/api/authors");
    reveal_strlit("/search/{query:[^/]*}");
    reveal_strlit("/api/authors/search/{query:[^/]*}");
    assert("/api/authors"@ + "/search/{query:[^/]*}"@ =~= "/api/authors/search/{query:[^/]*}"@);
    reveal_strlit("");
    assert("/api/authors"@ + ""@ =~= "/api/authors"@);
    reveal_strlit("/api/posts");
    reveal_strlit("/search/{search_query:[^/]*}");
    reveal_strlit("/api/posts/search/{search_query:[^/]*}");
    assert("/api/posts"@ + "/search/{search_query:[^/]*}"@
        =~= "/api/posts/search/{search_query:[^/]*}"@);
    reveal_strlit("/author/id/{author_id:[^/]*}");
    reveal_strlit("/api/posts/author/id/{author_id:[^/]*}");
    assert("/api/posts"@ + "/author/id/{author_id:[^/]*}"@
        =~= "/api/posts/author/id/{author_id:[^/]*}"@);
    reveal_strlit("/tag/{tag_id:[^/]*}");
    reveal_strlit("/api/posts/tag/{tag_id:[^/]*}");
    assert("/api/posts"@ + "/tag/{tag_id:[^/]*}"@ =~= "/api/posts/tag/{tag_id:[^/]*}"@);
    assert("/api/posts"@ + ""@ =~= "/api/posts"@);
    reveal_strlit("/api");
    reveal_strlit("/comments/{post_id:[^/]*}");
    reveal_strlit("/api/comments/{post_id:[^/]*}");
    assert("/api"@ + "/comments/{post_id:[^/]*}"@ =~= "/api/comments/{post_id:[^/]*}"@);
    reveal_strlit("/login");
    reveal_strlit("/api/login");
    assert("/api"@ + "/login"@ =~= "/api/login"@);
    reveal_strlit("/{_:.*}");
    reveal_strlit("/api/{_:.*}");
    assert("/api"@ + "/{_:.*}"@ =~= "/api/{_:.*}"@);
}

/// Law: every route path begins with `/api`, only the login
/// answers `POST`, and the catch-all not-found route comes last, so that every
/// other route is tried before it.
pub proof fn law_route_table_shape()
    ensures
        forall|i: int|
            0 <= i < route_table().len() ==> (#[trigger] route_table()[i]).path.subrange(0, 4)
                == "/api"@,
        forall|i: int|
            0 <= i < route_table().len() && (#[trigger] route_table()[i]).method
                == MethodFilter::Only(Method::Post) ==> route_table()[i].endpoint
                == Endpoint::Login,
        route_table().last().endpoint == Endpoint::ApiNotFound,
        route_table().last().method == MethodFilter::Any,
        forall|i: int|
            0 <= i < route_table().len() - 1 ==> (#[trigger] route_table()[i]).endpoint
                != Endpoint::ApiNotFound,
{
    lemma_route_paths();
    reveal_strlit("/api");
    reveal_strlit("/api/author/me");
    reveal_strlit("/api/author/slug/{slug:[^/]*}");
    reveal_strlit("/api/authors/search/{query:[^/]*}");
    reveal_strlit("/api/authors");
    reveal_strlit("/api/posts/search/{search_query:[^/]*}");
    reveal_strlit("/api/posts/author/id/{author_id:[^/]*}");
    reveal_strlit("/api/posts/tag/{tag_id:[^/]*}");
    reveal_strlit("/api/posts");
    reveal_strlit("/api/comments/{post_id:[^/]*}");
    reveal_strlit("/api/login");
    reveal_strlit("/api/{_:.*}");
    let t = route_table();
    assert(t.len() == 11);
    assert forall|i: int| 0 <= i < t.len() implies (#[trigger] t[i]).path.subrange(0, 4)
        == "/api"@ by {
        assert(t[i].path.subrange(0, 4) =~= "/api"@);
    }
}

/// Whether the table has a route with this path pattern, answering `method`,
/// that leads to `endpoint`.
pub open spec fn routes_to(table: Seq<RouteModel>, path: Seq<char>, method: MethodFilter, endpoint: Endpoint) -> bool {
    exists|i: int|
        0 <= i < table.len() && (#[trigger] table[i]).path == path && table[i].method == method
            && table[i].endpoint == endpoint
}

/// Law: each path of the API leads to its handler: `GET` on the current author,
/// on an author by slug, on the author list (all or by search text), on the post
/// list (all, by search text, by author id or by tag id) and on the comments of a
/// post; `POST` on the login; and any method on every other `/api` path to the
/// not-found answer.
pub proof fn law_route_endpoints()
    ensures
        routes_to(route_table(), "/api/author/me"@, MethodFilter::Only(Method::Get), Endpoint::AuthorMe),
        routes_to(route_table(), "/api/author/slug/{slug:[^/]*}"@, MethodFilter::Only(Method::Get), Endpoint::Author),
        routes_to(route_table(), "/api/authors/search/{query:[^/]*}"@, MethodFilter::Only(Method::Get), Endpoint::Authors),
        routes_to(route_table(), "/api/authors"@, MethodFilter::Only(Method::Get), Endpoint::Authors),
        routes_to(route_table(), "/api/posts/search/{search_query:[^/]*}"@, MethodFilter::Only(Method::Get), Endpoint::Posts),
        routes_to(route_table(), "/api/posts/author/id/{author_id:[^/]*}"@, MethodFilter::Only(Method::Get), Endpoint::Posts),
        routes_to(route_table(), "/api/posts/tag/{tag_id:[^/]*}"@, MethodFilter::Only(Method::Get), Endpoint::Posts),
        routes_to(route_table(), "/api/posts"@, MethodFilter::Only(Method::Get), Endpoint::Posts),
        routes_to(route_table(), "/api/comments/{post_id:[^/]*}"@, MethodFilter::Only(Method::Get), Endpoint::Comments),
        routes_to(route_table(), "/api/login"@, MethodFilter::Only(Method::Post), Endpoint::Login),
        routes_to(route_table(), "/api/{_:.*}"@, MethodFilter::Any, Endpoint::ApiNotFound),
{
    let t = route_table();
    assert(t[0].path == "/api/author/me"@);
    assert(t[1].path == "/api/author/slug/{slug:[^/]*}"@);
    assert(t[2].path == "/api/authors/search/{query:[^/]*}"@);
    assert(t[3].path == "/api/authors"@);
    assert(t[4].path == "/api/posts/search/{search_query:[^/]*}"@);
    assert(t[5].path == "/api/posts/author/id/{author_id:[^/]*}"@);
    assert(t[6].path == "/api/posts/tag/{tag_id:[^/]*}"@);
    assert(t[7].path == "/api/posts"@);
    assert(t[8].path == "/api/comments/{post_id:[^/]*}"@);
    assert(t[9].path == "/api/login"@);
    assert(t[10].path == "/api/{_:.*}"@);
}

/// The failure that `/api` requests no route takes are answered with.
pub struct NotFoundResponseContentFailure;

impl NotFoundResponseContentFailure {
    /// HTTP 404.
    pub fn status_code(&self) -> (res: u16)
        ensures
            res == 404,
    {
        404
    }

    pub fn identifier(&self) -> (res: &'static str)
        ensures
            res@ == "NOT_FOUND"@,
    {
        "NOT_FOUND"
    }

    pub fn reason(&self) -> (res: Option<String>)
        ensures
            res matches Some(r) && r@ == "route not found"@,
    {
        Some(String::from_str("route not found"))
    }
}

/// The answer to an `/api` request that no route takes: always the not-found
/// failure.
pub fn api_not_found() -> (res: Result<(), NotFoundResponseContentFailure>)
    ensures
        res == Err::<(), NotFoundResponseContentFailure>(NotFoundResponseContentFailure),
{
    Err(NotFoundResponseContentFailure)
}

} // verus!
