use v6_engine::fetch::{
    build_request, build_response, method_from_upper, parse_method, response_with, status_ok,
    string_headers, FetchError, FetchOptions, HeaderField, HttpMethod,
};
use v6_engine::text::same_text;

fn field(name: &str, value: Option<&str>) -> HeaderField {
    HeaderField { name: name.to_string(), value: value.map(str::to_string) }
}

fn pair(name: &str, value: &str) -> (String, String) {
    (name.to_string(), value.to_string())
}

#[test]
fn texts_are_the_same_character_by_character() {
    assert!(same_text("", ""));
    assert!(same_text("GET", "GET"));
    assert!(!same_text("GET", "get"));
    assert!(!same_text("GET", "GE"));
    assert!(!same_text("GE", "GET"));
    assert!(same_text("héllo ∞", "héllo ∞"));
    assert!(!same_text("héllo", "hello"));
}

#[test]
fn the_six_methods_in_upper_case() {
    assert_eq!(method_from_upper("GET"), Some(HttpMethod::Get));
    assert_eq!(method_from_upper("POST"), Some(HttpMethod::Post));
    assert_eq!(method_from_upper("PUT"), Some(HttpMethod::Put));
    assert_eq!(method_from_upper("DELETE"), Some(HttpMethod::Delete));
    assert_eq!(method_from_upper("PATCH"), Some(HttpMethod::Patch));
    assert_eq!(method_from_upper("HEAD"), Some(HttpMethod::Head));
}

#[test]
fn other_names_are_no_method() {
    for name in ["", "get", "Get", "OPTIONS", "TRACE", "CONNECT", "GETS", " GET", "GET "] {
        assert_eq!(method_from_upper(name), None);
    }
}

#[test]
fn a_method_is_named_in_any_casing() {
    assert_eq!(parse_method("get"), Some(HttpMethod::Get));
    assert_eq!(parse_method("Post"), Some(HttpMethod::Post));
    assert_eq!(parse_method("pUt"), Some(HttpMethod::Put));
    assert_eq!(parse_method("delete"), Some(HttpMethod::Delete));
    assert_eq!(parse_method("PATCH"), Some(HttpMethod::Patch));
    assert_eq!(parse_method("head"), Some(HttpMethod::Head));
    assert_eq!(parse_method("options"), None);
    assert_eq!(parse_method(""), None);
}

#[test]
fn upper_casing_is_that_of_the_standard_library() {
    assert_eq!(parse_method("po\u{17f}t"), Some(HttpMethod::Post));
    assert_eq!(parse_method("po\u{17f}t"), method_from_upper("po\u{17f}t".to_uppercase().as_str()));
    assert_eq!(method_from_upper("po\u{17f}t"), None);
}

#[test]
fn success_is_two_hundred_to_two_ninety_nine() {
    assert!(!status_ok(199));
    assert!(status_ok(200));
    assert!(status_ok(204));
    assert!(status_ok(299));
    assert!(!status_ok(300));
    assert!(!status_ok(404));
    assert!(!status_ok(0));
    assert!(!status_ok(u16::MAX));
}

#[test]
fn headers_with_a_string_value_are_kept_in_order() {
    let fields = vec![
        field("accept", Some("*/*")),
        field("x-count", None),
        field("content-type", Some("application/json")),
        field("x-flag", None),
        field("accept", Some("text/html")),
    ];
    assert_eq!(
        string_headers(&fields),
        vec![pair("accept", "*/*"), pair("content-type", "application/json"), pair("accept", "text/html")]
    );
    assert_eq!(string_headers(&vec![]), vec![]);
    assert_eq!(string_headers(&vec![field("a", None)]), vec![]);
}

#[test]
fn a_request_without_options_is_a_get() {
    let request = build_request("http://localhost:8080/".to_string(), None).unwrap();
    assert_eq!(request.method, HttpMethod::Get);
    assert_eq!(request.url, "http://localhost:8080/");
    assert_eq!(request.headers, vec![]);
    assert_eq!(request.body, None);
}

#[test]
fn a_request_without_a_method_is_a_get() {
    let options = FetchOptions {
        method: None,
        headers: vec![field("accept", Some("*/*"))],
        body: Some("ping".to_string()),
    };
    let request = build_request("http://h/".to_string(), Some(options)).unwrap();
    assert_eq!(request.method, HttpMethod::Get);
    assert_eq!(request.headers, vec![pair("accept", "*/*")]);
    assert_eq!(request.body, Some("ping".to_string()));
}

#[test]
fn a_request_takes_method_headers_and_body_from_the_options() {
    let options = FetchOptions {
        method: Some("post".to_string()),
        headers: vec![field("content-type", Some("application/json")), field("x-n", None)],
        body: Some("{\"a\":1}".to_string()),
    };
    let request = build_request("https://api.test/items".to_string(), Some(options)).unwrap();
    assert_eq!(request.method, HttpMethod::Post);
    assert_eq!(request.url, "https://api.test/items");
    assert_eq!(request.headers, vec![pair("content-type", "application/json")]);
    assert_eq!(request.body, Some("{\"a\":1}".to_string()));
}

#[test]
fn an_unsupported_method_is_refused() {
    for name in ["OPTIONS", "trace", "", "fetch"] {
        let options = FetchOptions { method: Some(name.to_string()), headers: vec![], body: None };
        assert_eq!(
            build_request("http://h/".to_string(), Some(options)),
            Err(FetchError::UnsupportedMethod)
        );
    }
}

#[test]
fn a_response_carries_the_standard_reason_phrase() {
    let response = build_response(200, vec![pair("content-type", "text/plain")], "hello".to_string());
    assert_eq!(response.status, 200);
    assert!(response.ok);
    assert_eq!(response.status_text, "OK");
    assert_eq!(response.headers, vec![pair("content-type", "text/plain")]);
    assert_eq!(response.body, "hello");

    let response = build_response(404, vec![], String::new());
    assert_eq!(response.status, 404);
    assert!(!response.ok);
    assert_eq!(response.status_text, "Not Found");

    assert_eq!(build_response(201, vec![], String::new()).status_text, "Created");
    assert_eq!(build_response(500, vec![], String::new()).status_text, "Internal Server Error");
}

#[test]
fn a_status_without_a_reason_phrase_has_an_empty_text() {
    let response = build_response(299, vec![], "x".to_string());
    assert!(response.ok);
    assert_eq!(response.status_text, "");
    assert_eq!(build_response(999, vec![], String::new()).status_text, "");
    assert_eq!(build_response(99, vec![], String::new()).status_text, "");
    assert_eq!(build_response(1000, vec![], String::new()).status_text, "");
    assert_eq!(build_response(0, vec![], String::new()).status_text, "");
}

#[test]
fn a_response_with_a_given_reason() {
    let response = response_with(250, Some("Fine".to_string()), vec![], "b".to_string());
    assert_eq!((response.status, response.ok), (250, true));
    assert_eq!(response.status_text, "Fine");
    assert_eq!(response.body, "b");
    let response = response_with(301, None, vec![pair("location", "/x")], String::new());
    assert_eq!((response.status, response.ok), (301, false));
    assert_eq!(response.status_text, "");
    assert_eq!(response.headers, vec![pair("location", "/x")]);
}
