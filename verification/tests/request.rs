use aurl_rust::oauth2::{AccessToken, AccessTokenError, GrantType, OAuth2Config};
use aurl_rust::options::Opts;
use aurl_rust::output::Type;
use aurl_rust::request::auth_header::{split_custom_header, AuthHeaderFault, CustomAuthHeader};
use aurl_rust::request::body::Body;
use aurl_rust::request::cors::{redirect_decision, redirect_verdict, RedirectVerdict};
use aurl_rust::request::custom_headers::custom_headers;
use aurl_rust::request::error::RequestError;
use aurl_rust::request::headers::Headers;
use aurl_rust::request::modifier::RequestModifier;
use aurl_rust::request::plan::{AuthHeader, RequestPlan};
use aurl_rust::request::timeout::Timeout;
use aurl_rust::version::name;

fn opts(headers: &[&str]) -> Opts {
    Opts {
        profile: "default".to_string(),
        request: "GET".to_string(),
        header: headers.iter().map(|h| h.to_string()).collect(),
        verbose: false,
        auth_header_template: String::new(),
        output: Type::NoOutput,
        url: "http://localhost/headers".to_string(),
        data: None,
        timeout: 30,
    }
}

fn config() -> OAuth2Config {
    OAuth2Config {
        auth_server_auth_endpoint: None,
        auth_server_token_endpoint: Some("https://auth/token".to_string()),
        client_id: Some("cid".to_string()),
        client_secret: None,
        scopes: Some("s".to_string()),
        username: None,
        password: None,
        grant_type: GrantType::ClientCredentials,
        redirect: None,
        default_content_type: None,
        default_user_agent: None,
        default_auth_header_template: None,
    }
}

fn token(t: &str) -> AccessToken {
    AccessToken {
        access_token: t.to_string(),
        token_type: "bearer".to_string(),
        refresh_token: None,
        expires_in: 3600,
        scope: None,
        id_token: None,
    }
}

#[test]
fn headers_add_replaces_in_place() {
    let mut h = Headers::with_capacity(2);
    h.add("a".to_string(), "1".to_string());
    h.add("b".to_string(), "2".to_string());
    h.add("a".to_string(), "3".to_string());
    assert_eq!(h.len(), 2);
    assert_eq!(h.get("a").map(|s| s.as_str()), Some("3"));
    assert_eq!(
        h.entries(),
        &vec![("a".to_string(), "3".to_string()), ("b".to_string(), "2".to_string())]
    );
}

#[test]
fn headers_defaults_do_not_override() {
    let mut h = Headers::with_capacity(0);
    h.add("user-agent".to_string(), "mine".to_string());
    h.add_if_absent("user-agent".to_string(), "default".to_string());
    h.add_if_absent("accept".to_string(), "*/*".to_string());
    h.add_if_absent("accept".to_string(), "text/plain".to_string());
    h.add_if_absent_opt("content-type".to_string(), None);
    h.add_if_absent_opt("x-extra".to_string(), Some("1".to_string()));
    assert_eq!(h.get("user-agent").map(|s| s.as_str()), Some("mine"));
    assert_eq!(h.get("accept").map(|s| s.as_str()), Some("*/*"));
    assert!(!h.contains_key("content-type"));
    assert!(h.contains_key("x-extra"));
}

#[test]
fn custom_headers_from_options_and_defaults() {
    let mut c = config();
    c.default_content_type = Some("application/json".to_string());
    let o = opts(&["x-a:1", "bad-entry", "x-b:2:3", "user-agent:me", "x-c,4"]);
    let h = custom_headers().headers(&o, &c);
    assert_eq!(h.get("x-a").map(|s| s.as_str()), Some("1"));
    assert!(!h.contains_key("bad-entry"));
    assert_eq!(h.get("x-b").map(|s| s.as_str()), Some("2:3"));
    assert!(!h.contains_key("x-c,4"));
    assert!(!h.contains_key("x-c"));
    assert_eq!(h.get("user-agent").map(|s| s.as_str()), Some("me"));
    assert_eq!(h.get("content-type").map(|s| s.as_str()), Some("application/json"));
    let h2 = custom_headers().headers(&opts(&[]), &config());
    assert_eq!(h2.get("user-agent").cloned(), Some(name()));
    assert_eq!(name(), "aurl-rust 0.1.3");
}

#[test]
fn colon_separated_header_with_profile_agent() {
    let mut c = config();
    c.default_user_agent = Some("ua".to_string());
    let plan = RequestPlan::new("GET".to_string(), "https://example.com/".to_string());
    let plan = custom_headers().modify(plan, &opts(&["x-foo:bar"]), &c).ok().unwrap();
    assert_eq!(plan.headers.get("x-foo").map(|s| s.as_str()), Some("bar"));
    assert_eq!(plan.headers.get("user-agent").map(|s| s.as_str()), Some("ua"));
}

#[test]
fn invalid_header_is_refused() {
    let plan = RequestPlan::new("GET".to_string(), "http://x/".to_string());
    match custom_headers().modify(plan, &opts(&["bad name:1"]), &config()) {
        Err(RequestError::InvalidHeader(m)) => assert_eq!(m, "http::Error(InvalidHeaderName)"),
        _ => panic!("expected InvalidHeader"),
    }
    let plan = RequestPlan::new("GET".to_string(), "http://x/".to_string());
    match custom_headers().modify(plan, &opts(&["x-ok:line\nbreak"]), &config()) {
        Err(RequestError::InvalidHeader(m)) => assert_eq!(m, "http::Error(InvalidHeaderValue)"),
        _ => panic!("expected InvalidHeader"),
    }
    let plan = RequestPlan::new("GET".to_string(), "http://x/".to_string());
    let plan = custom_headers().modify(plan, &opts(&["x-ok:tab\there"]), &config()).ok().unwrap();
    assert_eq!(plan.headers.get("x-ok").map(|s| s.as_str()), Some("tab\there"));
}

#[test]
fn custom_header_template() {
    let (n, v) = split_custom_header("X-Api-Key= $TOKEN ", "Ab1").ok().unwrap();
    assert_eq!(n, "X-Api-Key");
    assert_eq!(v, "Ab1");
    let (n, v) = split_custom_header("Authorization=Token $token/$token", "t").ok().unwrap();
    assert_eq!(n, "Authorization");
    assert_eq!(v, "token t/t");
    match split_custom_header("X-Key", "t") {
        Err(AccessTokenError::InvalidConfig(m)) => assert_eq!(m, "invalid custom_header_template"),
        _ => panic!("expected InvalidConfig"),
    }
    match split_custom_header("a=b=c", "t") {
        Err(AccessTokenError::InvalidConfig(m)) => assert_eq!(m, "invalid custom_header_template"),
        _ => panic!("expected InvalidConfig"),
    }
    match split_custom_header("X-Key=value", "t") {
        Err(AccessTokenError::InvalidConfig(m)) => assert_eq!(m, "can't find '$token' placeholder"),
        _ => panic!("expected InvalidConfig"),
    }
}

#[test]
fn bearer_and_custom_authorization() {
    let plan = RequestPlan::new("GET".to_string(), "http://x/".to_string());
    let plan = CustomAuthHeader::from(token("tok")).modify(plan, &opts(&[]), &config()).ok().unwrap();
    match plan.auth {
        Some(AuthHeader::Bearer(t)) => assert_eq!(t, "tok"),
        _ => panic!("expected bearer"),
    }
    let mut o = opts(&[]);
    o.auth_header_template = "X-Token=$token".to_string();
    let plan = RequestPlan::new("GET".to_string(), "http://x/".to_string());
    let plan = CustomAuthHeader::from(token("tok")).modify(plan, &o, &config()).ok().unwrap();
    match plan.auth {
        Some(AuthHeader::Custom(n, v)) => {
            assert_eq!(n, "X-Token");
            assert_eq!(v, "tok");
        }
        _ => panic!("expected custom"),
    }
    let mut c = config();
    c.default_auth_header_template = Some("X-From-Profile=$token".to_string());
    let plan = RequestPlan::new("GET".to_string(), "http://x/".to_string());
    let plan = CustomAuthHeader::from(token("tok")).modify(plan, &opts(&[]), &c).ok().unwrap();
    match plan.auth {
        Some(AuthHeader::Custom(n, _)) => assert_eq!(n, "X-From-Profile"),
        _ => panic!("expected custom"),
    }
}

#[test]
fn authorization_faults() {
    let mut o = opts(&[]);
    o.auth_header_template = "no placeholder".to_string();
    let plan = RequestPlan::new("GET".to_string(), "http://x/".to_string());
    match CustomAuthHeader::from(token("tok")).try_modify(plan, &o, &config()) {
        Err(AuthHeaderFault::Template(_)) => (),
        _ => panic!("expected template fault"),
    }
    o.auth_header_template = "bad name=$token".to_string();
    let plan = RequestPlan::new("GET".to_string(), "http://x/".to_string());
    match CustomAuthHeader::from(token("tok")).try_modify(plan, &o, &config()) {
        Err(AuthHeaderFault::HeaderName) => (),
        _ => panic!("expected header name fault"),
    }
    o.auth_header_template = "x-key=$token".to_string();
    let plan = RequestPlan::new("GET".to_string(), "http://x/".to_string());
    match CustomAuthHeader::from(token("a\u{7f}b")).try_modify(plan, &o, &config()) {
        Err(AuthHeaderFault::HeaderValue) => (),
        _ => panic!("expected header value fault"),
    }
}

#[test]
fn timeout_and_body() {
    let mut o = opts(&[]);
    o.data = Some("{\"a\":1}".to_string());
    o.timeout = 7;
    let plan = RequestPlan::new("POST".to_string(), "http://x/".to_string());
    let plan = Timeout::new().modify(plan, &o, &config()).ok().unwrap();
    let plan = Body::new().modify(plan, &o, &config()).ok().unwrap();
    assert_eq!(plan.timeout_secs, Some(7));
    assert_eq!(plan.body.as_deref(), Some("{\"a\":1}"));
    let plan = Body::new().modify(plan, &opts(&[]), &config()).ok().unwrap();
    assert_eq!(plan.body.as_deref(), Some("{\"a\":1}"));
}

#[test]
fn redirects() {
    assert_eq!(redirect_verdict(1, true), RedirectVerdict::Follow);
    assert_eq!(redirect_verdict(5, true), RedirectVerdict::Follow);
    assert_eq!(redirect_verdict(6, true), RedirectVerdict::TooMany);
    assert_eq!(redirect_verdict(7, false), RedirectVerdict::TooMany);
    assert_eq!(redirect_verdict(1, false), RedirectVerdict::Stop);
    assert_eq!(redirect_verdict(0, true), RedirectVerdict::Stop);
}

#[test]
fn redirects_by_origin() {
    let first = Some("https://api.example.com/v1/items");
    assert_eq!(redirect_decision(1, first, "https://api.example.com/v2/items"), RedirectVerdict::Follow);
    assert_eq!(redirect_decision(1, first, "https://api.example.com:443/x"), RedirectVerdict::Follow);
    assert_eq!(redirect_decision(1, first, "https://other.example.com/v1/items"), RedirectVerdict::Stop);
    assert_eq!(redirect_decision(1, first, "http://api.example.com/v1/items"), RedirectVerdict::Stop);
    assert_eq!(redirect_decision(1, first, "https://api.example.com:8443/v1"), RedirectVerdict::Stop);
    assert_eq!(redirect_decision(6, first, "https://api.example.com/v2"), RedirectVerdict::TooMany);
    assert_eq!(redirect_decision(0, None, "https://api.example.com/v2"), RedirectVerdict::Stop);
    assert_eq!(redirect_decision(1, Some("not a url"), "not a url"), RedirectVerdict::Stop);
}
