use aurl_rust::authserver::{capture_auth_code, split_auth_code, AuthCodeServer};

#[test]
fn test_regex_path() {
    match capture_auth_code("?hogehoge=fugafuga&code=ZZZZ-XXXX-CCCC&state=hogehoge") {
        Some(code) => {
            assert_eq!(code, "ZZZZ-XXXX-CCCC")
        }
        None => panic!("test failed"),
    }
}

#[test]
fn test_split_auth_code_valid_path() {
    let first_line = "GET /callback?code=ZZZZ-XXXX-CCCC&state=hogehoge HTTP/1.1";
    let result = split_auth_code(first_line, "/callback");
    assert_eq!(result, Ok("ZZZZ-XXXX-CCCC".to_string()));
}

#[test]
fn test_split_auth_code_unexpected_path() {
    let first_line = "GET /other?code=ZZZZ-XXXX-CCCC&state=hogehoge HTTP/1.1";
    let result = split_auth_code(first_line, "/callback");
    assert!(result.is_err());
}

#[test]
fn unexpected_path_reason() {
    let result = split_auth_code("GET /other?code=A&b HTTP/1.1", "/callback");
    assert_eq!(result, Err("Unexpected callback path"));
}

#[test]
fn non_get_method_is_refused() {
    let result = split_auth_code("POST /callback?code=A&b HTTP/1.1", "/callback");
    assert_eq!(result, Err("Unknown Http Method."));
}

#[test]
fn missing_path_is_refused() {
    assert_eq!(split_auth_code("GET", "/callback"), Err("Unknown Http Method."));
    assert_eq!(split_auth_code("", "/callback"), Err("Unknown Http Method."));
}

#[test]
fn code_needs_a_following_ampersand() {
    let result = split_auth_code("GET /callback?code=ABC HTTP/1.1", "/callback");
    assert_eq!(result, Err("failed capture auth_code"));
}

#[test]
fn code_runs_to_the_last_ampersand() {
    assert_eq!(capture_auth_code("/cb?code=A&x=1&y=2"), Some("A&x=1".to_string()));
    assert_eq!(capture_auth_code("/cb?state=1"), None);
}

#[test]
fn extra_white_space_between_tokens() {
    let result = split_auth_code("  GET \t /callback?code=QQ&s=1   HTTP/1.1\r\n", "/callback");
    assert_eq!(result, Ok("QQ".to_string()));
}

#[test]
fn server_answers_with_reply() {
    let server = AuthCodeServer::new(8080, "/callback".to_string());
    assert_eq!(server.port(), 8080);
    assert_eq!(server.path(), "/callback");
    let reply = server.answer("GET /callback?code=XYZ&state=s HTTP/1.1").ok().unwrap();
    assert_eq!(reply.code, "XYZ");
    assert_eq!(
        reply.response,
        "HTTP/1.1 200 OK\nContent-Type: text/plain; charset=UTF-8\r\n\nauth_code=XYZ\n"
    );
    assert_eq!(server.answer("GET /x?code=XYZ&s HTTP/1.1").err(), Some("Unexpected callback path"));
}
