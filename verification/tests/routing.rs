use recipe_recommender_service::app_router;
use recipe_recommender_service::router::{Handler, Router, Segment};
use recipe_recommender_service::service::health::build_health_route;
use recipe_recommender_service::service::home::build_welcome_route;

#[test]
fn dispatch_readiness() {
    let r = app_router().dispatch("GET", "/health/readiness");
    assert_eq!(r.status, 200);
    assert_eq!(r.body, "{\"ready\":true}");
}

#[test]
fn dispatch_liveness() {
    let r = app_router().dispatch("GET", "/health/liveness");
    assert_eq!(r.status, 200);
    assert_eq!(r.body, "{\"live\":true}");
}

#[test]
fn dispatch_root() {
    let r = app_router().dispatch("GET", "/");
    assert_eq!(r.status, 200);
    assert_eq!(r.body, "{\"message\":\"Hello, welcome to recipe-recommender-service\"}");
}

#[test]
fn dispatch_named() {
    let r = app_router().dispatch("GET", "/Alice");
    assert_eq!(r.status, 200);
    assert_eq!(
        r.body,
        "{\"message\":\"Hello, Alice! Welcome to recipe-recommender-service\"}"
    );
}

#[test]
fn dispatch_single_segment_binds_any_name() {
    let r = app_router().dispatch("GET", "/health");
    assert_eq!(r.status, 200);
    assert_eq!(
        r.body,
        "{\"message\":\"Hello, health! Welcome to recipe-recommender-service\"}"
    );
}

#[test]
fn dispatch_is_idempotent() {
    let table = app_router();
    for path in ["/", "/Alice", "/health/readiness", "/health/liveness", "/no/such/route"] {
        let r1 = table.dispatch("GET", path);
        let r2 = table.dispatch("GET", path);
        assert_eq!(r1.status, r2.status);
        assert_eq!(r1.body.as_bytes(), r2.body.as_bytes());
    }
}

#[test]
fn dispatch_unknown_path_is_not_found() {
    let r = app_router().dispatch("GET", "/nonexistent/deep/path");
    assert_eq!(r.status, 404);
    assert_eq!(r.body, "");
}

#[test]
fn dispatch_wrong_method_is_not_found() {
    let r = app_router().dispatch("POST", "/health/readiness");
    assert_eq!(r.status, 404);
    let r = app_router().dispatch("POST", "/");
    assert_eq!(r.status, 404);
}

#[test]
fn dispatch_without_leading_slash_is_not_found() {
    let r = app_router().dispatch("GET", "health/readiness");
    assert_eq!(r.status, 404);
    let r = app_router().dispatch("GET", "");
    assert_eq!(r.status, 404);
}

#[test]
fn dispatch_trailing_slash_is_not_found() {
    let r = app_router().dispatch("GET", "/Alice/");
    assert_eq!(r.status, 404);
    let r = app_router().dispatch("GET", "/health/readiness/");
    assert_eq!(r.status, 404);
    let r = app_router().dispatch("GET", "//");
    assert_eq!(r.status, 404);
}

#[test]
fn builders_grow_the_table() {
    let table = Router::new();
    assert_eq!(table.routes.len(), 0);
    let table = build_health_route(table);
    assert_eq!(table.routes.len(), 2);
    let table = build_welcome_route(table);
    assert_eq!(table.routes.len(), 4);
}

#[test]
fn empty_table_finds_nothing() {
    let r = Router::new().dispatch("GET", "/");
    assert_eq!(r.status, 404);
    assert_eq!(r.body, "");
}

#[test]
fn exact_route_wins_over_parameter() {
    // A table where a parameter route is registered before an exact route for
    // the same shape of path: the exact one must still win.
    let table = Router::new();
    let table = table.route("GET", vec![Segment::Param], Handler::WelcomeWithName);
    let table = table.route(
        "GET",
        vec![Segment::Literal(String::from("ping"))],
        Handler::Readiness,
    );
    let r = table.dispatch("GET", "/ping");
    assert_eq!(r.body, "{\"ready\":true}");
    let r = table.dispatch("GET", "/pong");
    assert_eq!(
        r.body,
        "{\"message\":\"Hello, pong! Welcome to recipe-recommender-service\"}"
    );
}
