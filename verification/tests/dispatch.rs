use spike::{
    any, get, post, put, Headers, MergeError, Method, Request, RequestBody, Response,
    ResponseBody, RouteError, Router, StatusCode,
};

type TextHandler = fn(Method, String) -> (StatusCode, String);

fn method_name(m: Method) -> &'static str {
    match m {
        Method::Get => "GET",
        Method::Post => "POST",
        Method::Put => "PUT",
        Method::Patch => "PATCH",
        Method::Delete => "DELETE",
        Method::Head => "HEAD",
        Method::Options => "OPTIONS",
        Method::Trace => "TRACE",
        Method::Connect => "CONNECT",
    }
}

fn hello(m: Method, body: String) -> (StatusCode, String) {
    (StatusCode::created(), format!("hello:{}:{}", method_name(m), body))
}

fn world(m: Method, body: String) -> (StatusCode, String) {
    (StatusCode::created(), format!("world:{}:{}", method_name(m), body))
}

fn fall(m: Method, body: String) -> (StatusCode, String) {
    (StatusCode::ok(), format!("any:{}:{}", method_name(m), body))
}

fn boom(_m: Method, _body: String) -> (StatusCode, String) {
    panic!("handler invoked although extraction failed");
}

fn req(m: Method, path: &str, body: &[u8]) -> Request {
    Request::new(m, path.to_string(), Headers::empty(), RequestBody::Bytes(body.to_vec()))
}

fn text_body(r: &Response) -> String {
    match &r.body {
        ResponseBody::Text(s) => s.clone(),
        ResponseBody::Empty => panic!("expected a text body, found an empty one"),
        ResponseBody::Octets(_) => panic!("expected a text body, found bytes"),
    }
}

#[test]
fn exact_path_and_method_reach_their_handler() {
    let router = Router::new()
        .route("/hello", get(hello as TextHandler))
        .unwrap()
        .route("/world", get(world as TextHandler))
        .unwrap();

    let r1 = router.call(req(Method::Get, "/hello", b"a"));
    assert_eq!(r1.status.code, 201);
    assert_eq!(text_body(&r1), "hello:GET:a");

    let r2 = router.call(req(Method::Get, "/world", b"b"));
    assert_eq!(text_body(&r2), "world:GET:b");
}

#[test]
fn get_then_post_serve_both_and_put_is_405() {
    let router = Router::new()
        .route("/x", get(hello as TextHandler))
        .unwrap()
        .route("/x", post(world as TextHandler))
        .unwrap();

    let r_get = router.call(req(Method::Get, "/x", b""));
    assert_eq!(text_body(&r_get), "hello:GET:");

    let r_post = router.call(req(Method::Post, "/x", b""));
    assert_eq!(text_body(&r_post), "world:POST:");

    let r_put = router.call(req(Method::Put, "/x", b""));
    assert_eq!(r_put.status.code, 405);
    assert!(matches!(r_put.body, ResponseBody::Empty));

    let r_missing = router.call(req(Method::Get, "/y", b""));
    assert_eq!(r_missing.status.code, 404);
    assert!(matches!(r_missing.body, ResponseBody::Empty));
}

#[test]
fn chained_builder_serves_each_method() {
    let router = Router::new()
        .route("/x", get(hello as TextHandler).post(world as TextHandler))
        .unwrap();

    assert_eq!(text_body(&router.call(req(Method::Get, "/x", b""))), "hello:GET:");
    assert_eq!(text_body(&router.call(req(Method::Post, "/x", b""))), "world:POST:");
}

#[test]
fn fallback_serves_unlisted_methods() {
    let router = Router::new()
        .route("/x", put(hello as TextHandler).any(fall as TextHandler))
        .unwrap();

    assert_eq!(text_body(&router.call(req(Method::Put, "/x", b""))), "hello:PUT:");
    assert_eq!(text_body(&router.call(req(Method::Delete, "/x", b""))), "any:DELETE:");
}

#[test]
fn duplicate_method_registration_fails() {
    let result = Router::new()
        .route("/x", get(hello as TextHandler))
        .unwrap()
        .route("/x", get(world as TextHandler));
    match result {
        Err(RouteError::Conflict { path, conflict }) => {
            assert_eq!(path, "/x");
            assert!(matches!(conflict, MergeError::DuplicateMethod(Method::Get)));
        },
        Err(_) => panic!("expected a slot conflict, got another error"),
        Ok(_) => panic!("duplicate GET registration must fail"),
    }
}

#[test]
fn duplicate_fallback_registration_fails() {
    let result = Router::new()
        .route("/x", get(hello as TextHandler).any(fall as TextHandler))
        .unwrap()
        .route("/x", any(world as TextHandler));
    match result {
        Err(RouteError::Conflict { path, conflict }) => {
            assert_eq!(path, "/x");
            assert!(matches!(conflict, MergeError::DuplicateFallback));
        },
        _ => panic!("duplicate fallback registration must fail"),
    }
}

#[test]
fn merge_failure_does_not_serve_the_second_handler() {
    let first = Router::new().route("/x", get(hello as TextHandler)).unwrap();
    assert!(first.route("/x", get(world as TextHandler)).is_err());

    let again = Router::new().route("/x", get(hello as TextHandler)).unwrap();
    assert_eq!(text_body(&again.call(req(Method::Get, "/x", b""))), "hello:GET:");
}

#[test]
fn pattern_with_too_many_captures_is_rejected() {
    let mut pattern = String::new();
    for i in 0..26 {
        pattern.push_str(&format!("/:p{}", i));
    }
    let result = Router::new().route(&pattern, get(hello as TextHandler));
    assert!(matches!(result, Err(RouteError::CaptureLimit)));
}

#[test]
fn captures_within_the_limit_register() {
    let mut pattern = String::new();
    for i in 0..25 {
        pattern.push_str(&format!("/:p{}", i));
    }
    let result = Router::new().route(&pattern, get(hello as TextHandler));
    assert!(result.is_ok());
}

#[test]
fn rejected_pattern_is_a_configuration_error() {
    let result = Router::new().route("/files/*", get(hello as TextHandler));
    assert!(matches!(result, Err(RouteError::Pattern(_))));
}

#[test]
fn empty_router_answers_404() {
    let router: Router<spike::HandlerService<TextHandler, (Method, String)>> = Router::new();
    let r = router.call(req(Method::Get, "/anything", b""));
    assert_eq!(r.status.code, 404);
}

#[test]
fn extraction_order_method_then_body() {
    let router = Router::new().route("/hello", put(hello as TextHandler)).unwrap();
    let r = router.call(req(Method::Put, "/hello", b"hi"));
    assert_eq!(r.status.code, 201);
    assert_eq!(text_body(&r), "hello:PUT:hi");
}

#[test]
fn invalid_utf8_body_gives_500_and_skips_handler() {
    let router = Router::new().route("/x", get(boom as TextHandler)).unwrap();
    let r = router.call(req(Method::Get, "/x", &[0xff, 0xfe, 0x01]));
    assert_eq!(r.status.code, 500);
    assert_eq!(text_body(&r), "error reading body");
}

#[test]
fn failed_body_read_gives_500_and_skips_handler() {
    let router = Router::new().route("/x", get(boom as TextHandler)).unwrap();
    let r = router.call(Request::new(
        Method::Get,
        "/x".to_string(),
        Headers::empty(),
        RequestBody::Failed,
    ));
    assert_eq!(r.status.code, 500);
    assert_eq!(text_body(&r), "error reading body");
}

#[test]
fn multibyte_utf8_body_reaches_handler_intact() {
    let router = Router::new().route("/x", get(hello as TextHandler)).unwrap();
    let text = "héllo wörld ✓";
    let r = router.call(req(Method::Get, "/x", text.as_bytes()));
    assert_eq!(text_body(&r), format!("hello:GET:{}", text));
}

#[test]
fn many_dispatches_on_one_router_stay_independent() {
    let router = Router::new()
        .route("/a", get(hello as TextHandler))
        .unwrap()
        .route("/b", get(world as TextHandler))
        .unwrap();

    let mut outputs: Vec<String> = Vec::new();
    for i in 0..8 {
        let path = if i % 2 == 0 { "/a" } else { "/b" };
        let body = format!("{}", i);
        let r = router.call(req(Method::Get, path, body.as_bytes()));
        outputs.push(text_body(&r));
    }
    for (i, out) in outputs.iter().enumerate() {
        let expected = if i % 2 == 0 {
            format!("hello:GET:{}", i)
        } else {
            format!("world:GET:{}", i)
        };
        assert_eq!(out, &expected);
    }
}
