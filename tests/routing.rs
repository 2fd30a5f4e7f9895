use hyper::{Body, Request, Response, StatusCode};
use reset_router::{
    captures_from_groups, default_not_found, not_allowed, Dispatch, Error, Router, RouterBuilder,
};

fn test_handler(_: Request<Body>, _: Option<Vec<String>>) -> Response<Body> {
    Response::builder()
        .status(StatusCode::OK)
        .body("Ok".into())
        .unwrap()
}

fn build(routes: &[(&str, &str, &'static str)]) -> Router<&'static str> {
    let mut b = RouterBuilder::new();
    for (verb, pattern, label) in routes {
        b.route(verb, pattern, *label);
    }
    b.finalize().ok().expect("all patterns are valid")
}

fn chosen(router: &Router<&'static str>, method: &str, path: &str) -> (&'static str, Option<Vec<String>>) {
    match router.handle(method, path) {
        Dispatch::Route { index, captures } => (*router.handler(index), captures),
        other => panic!("expected a route, got {:?}", other),
    }
}

#[test]
fn bad_regular_expression() {
    let mut router = RouterBuilder::new();
    router.route("GET", r"/[", test_handler);
    let e = router.finalize();
    assert!(e.is_err());
}

#[test]
fn invalid_pattern_is_identified() {
    let mut b = RouterBuilder::new();
    b.get("/ok", 1u8).get(r"/[", 2u8).get(r"/(", 3u8);
    match b.finalize() {
        Err(Error::InvalidPattern { index, pattern }) => {
            assert_eq!(index, 1);
            assert_eq!(pattern, r"\A/[\z");
        }
        _ => panic!("expected the second pattern to be reported"),
    }
}

#[test]
fn valid_patterns_finalize() {
    let mut b = RouterBuilder::new();
    b.get("/", 0u8).post(r"/users/(\d+)", 1u8).delete(r"/a|/b", 2u8);
    assert!(b.finalize().is_ok());
}

#[test]
fn empty_table_finalizes_and_finds_nothing() {
    let b: RouterBuilder<u8> = RouterBuilder::new();
    let router = b.finalize().ok().unwrap();
    assert!(matches!(router.handle("GET", "/"), Dispatch::NotFound));
}

#[test]
fn literal_route_has_no_captures() {
    let router = build(&[("GET", "/hello", "hello"), ("POST", "/submit", "submit")]);
    assert_eq!(chosen(&router, "GET", "/hello"), ("hello", None));
    assert_eq!(chosen(&router, "POST", "/submit"), ("submit", None));
}

#[test]
fn captures_in_group_order() {
    let router = build(&[("GET", r"/users/(\d+)/posts/(\d+)", "post")]);
    let (label, caps) = chosen(&router, "GET", "/users/42/posts/7");
    assert_eq!(label, "post");
    assert_eq!(caps, Some(vec!["42".to_string(), "7".to_string()]));
}

#[test]
fn non_participating_group_is_skipped() {
    let router = build(&[("GET", r"/(?:(a)|(b))/(\d+)", "alt")]);
    let (_, caps) = chosen(&router, "GET", "/b/9");
    assert_eq!(caps, Some(vec!["b".to_string(), "9".to_string()]));
}

#[test]
fn unknown_path_is_not_found() {
    let router = build(&[("GET", "/users", "users")]);
    assert!(matches!(router.handle("GET", "/nonexistent"), Dispatch::NotFound));
    let reply = default_not_found();
    assert_eq!(reply.status, 404);
    assert_eq!(reply.body, "Not Found");
}

#[test]
fn known_path_wrong_method_is_not_allowed() {
    let router = build(&[("GET", "/users", "users")]);
    assert!(matches!(router.handle("POST", "/users"), Dispatch::MethodNotAllowed));
    let reply = not_allowed();
    assert_eq!(reply.status, 405);
    assert_eq!(reply.body, "Method Not Allowed");
}

#[test]
fn first_registered_route_wins() {
    let router = build(&[("GET", "/a", "exact"), ("GET", "/(.)", "one_char")]);
    assert_eq!(chosen(&router, "GET", "/a"), ("exact", None));
    assert_eq!(chosen(&router, "GET", "/b"), ("one_char", Some(vec!["b".to_string()])));
}

#[test]
fn method_filters_before_order() {
    let router = build(&[("POST", "/(.)", "post_any"), ("GET", "/a", "get_a")]);
    assert_eq!(chosen(&router, "GET", "/a"), ("get_a", None));
}

#[test]
fn duplicate_route_is_shadowed() {
    let router = build(&[("GET", "/x", "first"), ("GET", "/x", "second")]);
    assert_eq!(chosen(&router, "GET", "/x"), ("first", None));
}

#[test]
fn patterns_are_anchored() {
    let router = build(&[("GET", r"/items/(\d+)", "item")]);
    assert!(matches!(router.handle("GET", "/items/42/extra"), Dispatch::NotFound));
    assert!(matches!(router.handle("GET", "/x/items/42"), Dispatch::NotFound));
    assert_eq!(chosen(&router, "GET", "/items/42"), ("item", Some(vec!["42".to_string()])));
}

#[test]
fn repeated_dispatch_is_identical() {
    let router = build(&[("GET", r"/users/(\d+)", "user"), ("GET", "/(.*)", "rest")]);
    let first = chosen(&router, "GET", "/users/5");
    for _ in 0..3 {
        assert_eq!(chosen(&router, "GET", "/users/5"), first);
    }
    assert_eq!(first, ("user", Some(vec!["5".to_string()])));
}

#[test]
fn convenience_verbs_register_their_method() {
    let mut b = RouterBuilder::new();
    b.get("/r", "get").post("/r", "post").put("/r", "put");
    b.patch("/r", "patch").delete("/r", "delete").options("/r", "options");
    let router = b.finalize().ok().unwrap();
    for verb in ["GET", "POST", "PUT", "PATCH", "DELETE", "OPTIONS"] {
        assert_eq!(chosen(&router, verb, "/r").0, verb.to_lowercase());
    }
    assert!(matches!(router.handle("HEAD", "/r"), Dispatch::MethodNotAllowed));
}

#[test]
fn fallback_handler_is_kept() {
    let mut b = RouterBuilder::new();
    b.get("/", "root");
    assert!(b.finalize().ok().unwrap().not_found_handler().is_none());
    let mut b = RouterBuilder::new();
    b.get("/", "root").not_found("custom");
    let router = b.finalize().ok().unwrap();
    assert_eq!(router.not_found_handler(), Some(&"custom"));
}

#[test]
fn groups_become_captures() {
    assert_eq!(captures_from_groups(None), None);
    assert_eq!(captures_from_groups(Some(vec![Some("/".to_string())])), None);
    let groups = vec![Some("/a/b".to_string()), None, Some("a".to_string()), Some("b".to_string())];
    assert_eq!(captures_from_groups(Some(groups)), Some(vec!["a".to_string(), "b".to_string()]));
    assert_eq!(captures_from_groups(Some(vec![Some("/".to_string()), None])), Some(vec![]));
}
