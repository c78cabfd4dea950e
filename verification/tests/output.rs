use aurl_rust::output::{Curl, Output, RequestSnapshot, Type};
use reqwest::Client;

fn snapshot(req: &reqwest::Request) -> RequestSnapshot {
    RequestSnapshot {
        method: req.method().as_str().to_string(),
        headers: req
            .headers()
            .iter()
            .map(|(k, v)| (k.as_str().to_string(), v.to_str().unwrap().to_string()))
            .collect(),
        url: req.url().as_str().to_string(),
    }
}

#[test]
fn export_curl_test_without_authorization() {
    let req = Client::new()
        .request(reqwest::Method::GET, "https://example.com/test")
        .header("key_001", "value")
        .header("key_002", "value")
        .build()
        .unwrap();

    let header_str = Curl::output(&snapshot(&req));
    assert_eq!(
        "curl -X GET -H \"key_001: value\" -H \"key_002: value\" https://example.com/test",
        header_str
    );
}

#[test]
fn export_header_test_without_basic() {
    // setup
    let req = Client::new()
        .request(reqwest::Method::GET, "https://example.com/test")
        .header("key_001", "value")
        .basic_auth("username", Some("password"))
        .build()
        .unwrap();

    // exercise
    let header_str = Curl::output(&snapshot(&req));

    // verify
    let auth_value = base64::encode("username:password".as_bytes());
    assert_eq!(
        format!(
            "curl -X GET -H \"key_001: value\" -H \"authorization: Basic {}\" https://example.com/test",
            auth_value
        ),
        header_str
    );
}

#[test]
fn export_post_method() {
    // setup
    let req = Client::new()
        .request(reqwest::Method::POST, "https://example.com/test")
        .basic_auth("username", Some("password"))
        .build()
        .unwrap();

    // exercise
    let curl = Curl::output(&snapshot(&req));

    // verify
    assert!(curl.contains("curl -X POST"));
}

#[test]
fn curl_without_headers_keeps_both_spaces() {
    let req = RequestSnapshot {
        method: "DELETE".to_string(),
        headers: vec![],
        url: "http://localhost/x".to_string(),
    };
    assert_eq!(Curl::output(&req), "curl -X DELETE  http://localhost/x");
}

#[test]
fn output_type_ignores_case() {
    assert_eq!(Type::parse("CuRl"), Ok(Type::Curl));
    assert_eq!(Type::parse("NONE"), Ok(Type::NoOutput));
    assert_eq!(Type::parse("none"), Ok(Type::NoOutput));
    assert_eq!(Type::parse("json"), Err("UnknownType".to_string()));
    assert_eq!("curl".parse::<Type>(), Ok(Type::Curl));
}
