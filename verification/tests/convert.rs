use spike::{
    get, Headers, IntoResponse, Method, PathParams, Request, RequestBody, Response, ResponseBody,
    Router, StatusCode,
};

type ParamHandler = fn(PathParams, String) -> String;
type HeaderHandler = fn(Headers, String) -> String;
type NullaryHandler = fn() -> &'static str;
type BodyHandler = fn(String) -> String;

fn text_body(r: &Response) -> String {
    match &r.body {
        ResponseBody::Text(s) => s.clone(),
        ResponseBody::Empty => panic!("expected a text body, found an empty one"),
        ResponseBody::Octets(_) => panic!("expected a text body, found bytes"),
    }
}

#[test]
fn created_and_text_tuple_converts_to_201_plain_text() {
    let r = (StatusCode::created(), "ok").into_response();
    assert_eq!(r.status.code, 201);
    assert_eq!(r.headers.entries.len(), 1);
    assert_eq!(r.headers.entries[0].0, "content-type");
    assert_eq!(r.headers.entries[0].1, "text/plain;charset=utf-8");
    assert_eq!(text_body(&r), "ok");
}

#[test]
fn owned_string_converts_to_200_plain_text() {
    let r = String::from("body text").into_response();
    assert_eq!(r.status.code, 200);
    assert_eq!(r.headers.entries[0].0, "content-type");
    assert_eq!(r.headers.entries[0].1, "text/plain;charset=utf-8");
    assert_eq!(text_body(&r), "body text");
}

#[test]
fn byte_buffers_convert_to_octet_stream() {
    let owned = vec![1u8, 2, 3].into_response();
    assert_eq!(owned.status.code, 200);
    assert_eq!(owned.headers.entries[0].0, "content-type");
    assert_eq!(owned.headers.entries[0].1, "application/octet-stream");
    assert!(matches!(&owned.body, ResponseBody::Octets(b) if b == &vec![1u8, 2, 3]));

    let fixed: &'static [u8] = b"abc";
    let r = fixed.into_response();
    assert!(matches!(&r.body, ResponseBody::Octets(b) if b == &b"abc".to_vec()));

    let array: [u8; 4] = [9, 8, 7, 6];
    let r = array.into_response();
    assert_eq!(r.headers.entries[0].1, "application/octet-stream");
    assert!(matches!(&r.body, ResponseBody::Octets(b) if b == &vec![9u8, 8, 7, 6]));

    let fixed_ref: &'static [u8; 3] = b"xyz";
    let r = fixed_ref.into_response();
    assert!(matches!(&r.body, ResponseBody::Octets(b) if b == &b"xyz".to_vec()));
}

#[test]
fn bare_status_converts_to_empty_body() {
    let r = StatusCode::not_found().into_response();
    assert_eq!(r.status.code, 404);
    assert_eq!(r.headers.entries.len(), 0);
    assert!(matches!(r.body, ResponseBody::Empty));
}

#[test]
fn prebuilt_response_converts_to_itself() {
    let original = (StatusCode::created(), "kept").into_response();
    let converted = original.into_response();
    assert_eq!(converted.status.code, 201);
    assert_eq!(text_body(&converted), "kept");
}

#[test]
fn custom_status_code_overwrites_the_text_status() {
    let r = (StatusCode::new(418), "teapot").into_response();
    assert_eq!(r.status.code, 418);
    assert_eq!(text_body(&r), "teapot");
}

#[test]
fn two_part_contributors_apply_left_to_right() {
    let r = (StatusCode::created(), StatusCode::not_found(), "ok").into_response();
    assert_eq!(r.status.code, 404);
    assert_eq!(text_body(&r), "ok");
}

#[test]
fn captured_path_parameters_reach_the_handler() {
    fn show(params: PathParams, _body: String) -> String {
        let mut out = String::new();
        for (name, value) in &params.params {
            out.push_str(name);
            out.push('=');
            out.push_str(value);
            out.push(';');
        }
        out
    }
    let router = Router::new().route("/users/:id", get(show as ParamHandler)).unwrap();
    let r = router.call(Request::new(
        Method::Get,
        "/users/42".to_string(),
        Headers::empty(),
        RequestBody::Bytes(Vec::new()),
    ));
    assert_eq!(r.status.code, 200);
    assert_eq!(text_body(&r), "id=42;");
}

#[test]
fn header_extraction_reads_metadata_without_consuming_the_body() {
    fn show(headers: Headers, body: String) -> String {
        let mut out = String::new();
        for (name, value) in &headers.entries {
            out.push_str(name);
            out.push('=');
            out.push_str(value);
            out.push(';');
        }
        out.push_str(&body);
        out
    }
    let router = Router::new().route("/h", get(show as HeaderHandler)).unwrap();
    let mut headers = Headers::empty();
    headers.append("x-trace".to_string(), "abc".to_string());
    let r = router.call(Request::new(
        Method::Get,
        "/h".to_string(),
        headers,
        RequestBody::Bytes(b"tail".to_vec()),
    ));
    assert_eq!(text_body(&r), "x-trace=abc;tail");
}

#[test]
fn nullary_handler_ignores_the_request() {
    fn ping() -> &'static str {
        "pong"
    }
    let router = Router::new().route("/ping", get(ping as NullaryHandler)).unwrap();
    let r = router.call(Request::new(
        Method::Get,
        "/ping".to_string(),
        Headers::empty(),
        RequestBody::Bytes(b"ignored".to_vec()),
    ));
    assert_eq!(r.status.code, 200);
    assert_eq!(text_body(&r), "pong");
}

#[test]
fn single_parameter_handler_consumes_the_body() {
    fn echo(body: String) -> String {
        body
    }
    let router = Router::new().route("/echo", get(echo as BodyHandler)).unwrap();
    let r = router.call(Request::new(
        Method::Get,
        "/echo".to_string(),
        Headers::empty(),
        RequestBody::Bytes(b"payload".to_vec()),
    ));
    assert_eq!(text_body(&r), "payload");
}

#[test]
fn method_only_handler_never_touches_the_body() {
    fn name_of(m: Method) -> String {
        match m {
            Method::Post => "posted".to_string(),
            _ => "other".to_string(),
        }
    }
    type MethodHandler = fn(Method) -> String;
    let router = Router::new().route("/m", spike::post(name_of as MethodHandler)).unwrap();
    let r = router.call(Request::new(
        Method::Post,
        "/m".to_string(),
        Headers::empty(),
        // not valid UTF-8: a method-only handler must still succeed
        RequestBody::Bytes(vec![0xff, 0xfe]),
    ));
    assert_eq!(r.status.code, 200);
    assert_eq!(text_body(&r), "posted");
}

#[test]
fn three_parameter_handler_extracts_left_to_right() {
    fn show(m: Method, headers: Headers, body: String) -> String {
        let mut out = String::new();
        if let Method::Get = m {
            out.push_str("GET/");
        }
        out.push_str(&format!("{}", headers.entries.len()));
        out.push('/');
        out.push_str(&body);
        out
    }
    type TripleHandler = fn(Method, Headers, String) -> String;
    let router = Router::new().route("/t", get(show as TripleHandler)).unwrap();
    let mut headers = Headers::empty();
    headers.append("a".to_string(), "1".to_string());
    headers.append("b".to_string(), "2".to_string());
    let r = router.call(Request::new(
        Method::Get,
        "/t".to_string(),
        headers,
        RequestBody::Bytes(b"end".to_vec()),
    ));
    assert_eq!(text_body(&r), "GET/2/end");
}

#[test]
fn headers_append_keeps_order() {
    let mut headers = Headers::empty();
    headers.append("a".to_string(), "1".to_string());
    headers.append("b".to_string(), "2".to_string());
    headers.append("a".to_string(), "3".to_string());
    assert_eq!(headers.len(), 3);
    assert_eq!(headers.entries[0], ("a".to_string(), "1".to_string()));
    assert_eq!(headers.entries[1], ("b".to_string(), "2".to_string()));
    assert_eq!(headers.entries[2], ("a".to_string(), "3".to_string()));
}
