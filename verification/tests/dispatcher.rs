use aurl_rust::oauth2::{AccessToken, AccessTokenError, AuthorizationStep, GrantType, OAuth2Config};
use aurl_rust::options::Opts;
use aurl_rust::output::Type;
use aurl_rust::request::dispatcher::{
    failed_send, next, outcome_for_reply, outcome_for_status, try_next, DispatchAction, DispatchEvent, DispatchFault,
    DispatchPhase, SendOutcome,
};
use aurl_rust::request::error::RequestError;
use aurl_rust::request::plan::AuthHeader;

fn opts(output: Type) -> Opts {
    Opts {
        profile: "default".to_string(),
        request: "GET".to_string(),
        header: vec!["x-a:1".to_string()],
        verbose: false,
        auth_header_template: String::new(),
        output,
        url: "http://localhost/headers".to_string(),
        data: None,
        timeout: 30,
    }
}

fn config(grant_type: GrantType) -> OAuth2Config {
    OAuth2Config {
        auth_server_auth_endpoint: None,
        auth_server_token_endpoint: Some("https://auth/token".to_string()),
        client_id: Some("cid".to_string()),
        client_secret: Some("sec".to_string()),
        scopes: Some("s".to_string()),
        username: None,
        password: None,
        grant_type,
        redirect: None,
        default_content_type: None,
        default_user_agent: None,
        default_auth_header_template: None,
    }
}

fn token(t: &str) -> AccessToken {
    AccessToken {
        access_token: t.to_string(),
        token_type: "bearer".to_string(),
        refresh_token: None,
        expires_in: 3600,
        scope: None,
        id_token: None,
    }
}

fn some_error() -> reqwest::Error {
    reqwest::Client::new().get("not a url").build().unwrap_err()
}

fn status_error(status: u16) -> reqwest::Error {
    let reply = http::Response::builder().status(status).body("").unwrap();
    reqwest::Response::from(reply).error_for_status().unwrap_err()
}

#[test]
fn full_round_with_token_request_and_retry() {
    let o = opts(Type::NoOutput);
    let c = config(GrantType::ClientCredentials);
    let (phase, action) = next(DispatchPhase::Start, DispatchEvent::Begin, &o, &c);
    assert!(matches!(action, DispatchAction::RestoreCache));
    let (phase, action) = next(phase, DispatchEvent::CacheRestored(None), &o, &c);
    match action {
        DispatchAction::FetchToken(req) => {
            assert_eq!(req.endpoint, "https://auth/token");
            assert_eq!(req.form[0].1, "client_credentials");
            assert_eq!(req.timeout_secs, 30);
        }
        _ => panic!("expected FetchToken"),
    }
    let (phase, action) = next(phase, DispatchEvent::TokenIssued(Ok(token("T1"))), &o, &c);
    match action {
        DispatchAction::SaveCache(t) => assert_eq!(t.access_token, "T1"),
        _ => panic!("expected SaveCache"),
    }
    let (phase, action) = next(phase, DispatchEvent::CacheSaved, &o, &c);
    match action {
        DispatchAction::Send(p) => {
            assert_eq!(p.method, "GET");
            assert_eq!(p.url, "http://localhost/headers");
            assert_eq!(p.headers.get("x-a").map(|s| s.as_str()), Some("1"));
            assert_eq!(p.headers.get("user-agent").map(|s| s.as_str()), Some("aurl-rust 0.1.3"));
            assert_eq!(p.timeout_secs, Some(30));
            match p.auth {
                Some(AuthHeader::Bearer(t)) => assert_eq!(t, "T1"),
                _ => panic!("expected bearer"),
            }
        }
        _ => panic!("expected Send"),
    }
    let (phase, action) = next(phase, DispatchEvent::Sent(SendOutcome::Unauthorized), &o, &c);
    assert!(matches!(action, DispatchAction::RemoveCache));
    let (phase, action) = next(phase, DispatchEvent::CacheRemoved, &o, &c);
    assert!(matches!(action, DispatchAction::RestoreCache));
    let (phase, action) = next(phase, DispatchEvent::CacheRestored(Some(token("T2"))), &o, &c);
    assert!(matches!(action, DispatchAction::SaveCache(_)));
    let (phase, _) = next(phase, DispatchEvent::CacheSaved, &o, &c);
    let (phase, action) = next(phase, DispatchEvent::Sent(SendOutcome::Delivered), &o, &c);
    assert!(matches!(action, DispatchAction::Deliver));
    assert!(matches!(phase, DispatchPhase::Finished));
}

#[test]
fn curl_output_is_emitted_not_sent() {
    let o = opts(Type::Curl);
    let c = config(GrantType::Password);
    let (phase, _) = next(DispatchPhase::RestoringCache, DispatchEvent::CacheRestored(Some(token("T"))), &o, &c);
    let (phase, action) = next(phase, DispatchEvent::CacheSaved, &o, &c);
    assert!(matches!(action, DispatchAction::EmitSnippet(_)));
    assert!(matches!(phase, DispatchPhase::Finished));
}

#[test]
fn missing_setting_fails_dispatch() {
    let o = opts(Type::NoOutput);
    let mut c = config(GrantType::ClientCredentials);
    c.scopes = None;
    let (phase, action) = next(DispatchPhase::RestoringCache, DispatchEvent::CacheRestored(None), &o, &c);
    match action {
        DispatchAction::Fail(RequestError::OAuth(AccessTokenError::InvalidConfig(m))) => {
            assert_eq!(m, "scopes")
        }
        _ => panic!("expected Fail"),
    }
    assert!(matches!(phase, DispatchPhase::Finished));
}

#[test]
fn token_failure_and_send_failure_end_dispatch() {
    let o = opts(Type::NoOutput);
    let c = config(GrantType::ClientCredentials);
    let (_, action) = next(
        DispatchPhase::FetchingToken,
        DispatchEvent::TokenIssued(Err(AccessTokenError::InvalidConfig("x".to_string()))),
        &o,
        &c,
    );
    assert!(matches!(action, DispatchAction::Fail(RequestError::OAuth(_))));
    let (_, action) = next(
        DispatchPhase::Sending,
        DispatchEvent::Sent(SendOutcome::Failed(some_error())),
        &o,
        &c,
    );
    assert!(matches!(action, DispatchAction::Fail(RequestError::Http(_))));
}

#[test]
fn invalid_extra_header_fails_dispatch() {
    let mut o = opts(Type::NoOutput);
    o.header = vec!["bad name:1".to_string()];
    let c = config(GrantType::ClientCredentials);
    let (_, action) = next(DispatchPhase::SavingCache(token("T")), DispatchEvent::CacheSaved, &o, &c);
    assert!(matches!(action, DispatchAction::Fail(RequestError::InvalidHeader(_))));
}

#[test]
fn faults_where_the_program_stops() {
    let mut o = opts(Type::NoOutput);
    o.auth_header_template = "broken".to_string();
    let c = config(GrantType::ClientCredentials);
    let r = try_next(DispatchPhase::SavingCache(token("T")), DispatchEvent::CacheSaved, &o, &c);
    assert!(matches!(r, Err(DispatchFault::AuthHeader(_))));
}

#[test]
fn replies_by_status() {
    assert!(matches!(outcome_for_reply(401), SendOutcome::Unauthorized));
    assert!(matches!(outcome_for_reply(200), SendOutcome::Delivered));
    assert!(matches!(outcome_for_reply(403), SendOutcome::Delivered));
    assert!(matches!(outcome_for_reply(500), SendOutcome::Delivered));
}

#[test]
fn reply_401_clears_cache_and_retries() {
    let o = opts(Type::NoOutput);
    let c = config(GrantType::ClientCredentials);
    let (phase, _) = next(DispatchPhase::Start, DispatchEvent::Begin, &o, &c);
    let (phase, _) = next(phase, DispatchEvent::CacheRestored(Some(token("OLD"))), &o, &c);
    let (phase, action) = next(phase, DispatchEvent::CacheSaved, &o, &c);
    assert!(matches!(action, DispatchAction::Send(_)));
    let (phase, action) = next(phase, DispatchEvent::Sent(outcome_for_reply(401)), &o, &c);
    assert!(matches!(action, DispatchAction::RemoveCache));
    let (phase, action) = next(phase, DispatchEvent::CacheRemoved, &o, &c);
    assert!(matches!(action, DispatchAction::RestoreCache));
    let (phase, action) = next(phase, DispatchEvent::CacheRestored(None), &o, &c);
    assert!(matches!(action, DispatchAction::FetchToken(_)));
    let (phase, _) = next(phase, DispatchEvent::TokenIssued(Ok(token("NEW"))), &o, &c);
    let (phase, action) = next(phase, DispatchEvent::CacheSaved, &o, &c);
    match action {
        DispatchAction::Send(p) => match p.auth {
            Some(AuthHeader::Bearer(t)) => assert_eq!(t, "NEW"),
            _ => panic!("expected bearer"),
        },
        _ => panic!("expected Send"),
    }
    let (phase, action) = next(phase, DispatchEvent::Sent(outcome_for_reply(200)), &o, &c);
    assert!(matches!(action, DispatchAction::Deliver));
    assert!(matches!(phase, DispatchPhase::Finished));
}

#[test]
fn authorization_url_of_a_bad_endpoint() {
    let step = AuthorizationStep {
        endpoint: "no endpoint".to_string(),
        query: vec![("a".to_string(), "b c".to_string())],
        port: 8080,
        path: "/".to_string(),
    };
    assert_eq!(step.authorization_url(), None);
    let step = AuthorizationStep {
        endpoint: "https://auth/authorize?x=1".to_string(),
        query: vec![("a".to_string(), "b c".to_string())],
        port: 8080,
        path: "/".to_string(),
    };
    assert_eq!(step.authorization_url().as_deref(), Some("https://auth/authorize?x=1&a=b+c"));
}

#[test]
fn send_failures_by_status() {
    assert!(matches!(outcome_for_status(Some(401), some_error()), SendOutcome::Unauthorized));
    assert!(matches!(outcome_for_status(Some(500), some_error()), SendOutcome::Failed(_)));
    assert!(matches!(outcome_for_status(None, some_error()), SendOutcome::Failed(_)));
    assert!(matches!(failed_send(some_error()), SendOutcome::Failed(_)));
    assert!(matches!(failed_send(status_error(401)), SendOutcome::Unauthorized));
    assert!(matches!(failed_send(status_error(403)), SendOutcome::Failed(_)));
    assert!(matches!(failed_send(status_error(500)), SendOutcome::Failed(_)));
}

#[test]
fn authorization_code_flow() {
    let o = opts(Type::NoOutput);
    let mut c = config(GrantType::AuthorizationCode);
    c.auth_server_auth_endpoint = Some("https://auth/authorize".to_string());
    c.redirect = Some("http://localhost:8080/callback".to_string());
    let (phase, action) = next(DispatchPhase::RestoringCache, DispatchEvent::CacheRestored(None), &o, &c);
    match action {
        DispatchAction::Authorize(step) => {
            assert_eq!(step.endpoint, "https://auth/authorize");
            assert_eq!(step.port, 8080);
            assert_eq!(step.path, "/callback");
            assert_eq!(
                step.authorization_url().as_deref(),
                Some(
                    "https://auth/authorize?response_type=code&client_id=cid&redirect_uri=http%3A%2F%2Flocalhost%3A8080%2Fcallback&scope=s"
                )
            );
            assert_eq!(
                step.query,
                vec![
                    ("response_type".to_string(), "code".to_string()),
                    ("client_id".to_string(), "cid".to_string()),
                    ("redirect_uri".to_string(), "http://localhost:8080/callback".to_string()),
                    ("scope".to_string(), "s".to_string())
                ]
            );
        }
        _ => panic!("expected Authorize"),
    }
    let (_, action) = next(phase, DispatchEvent::AuthCodeReceived(Ok("C0DE".to_string())), &o, &c);
    match action {
        DispatchAction::FetchToken(req) => {
            assert_eq!(req.endpoint, "https://auth/token");
            assert_eq!(req.client_secret.as_deref(), Some("sec"));
            assert_eq!(
                req.form,
                vec![
                    ("grant_type".to_string(), "authorization_code".to_string()),
                    ("code".to_string(), "C0DE".to_string()),
                    ("redirect_uri".to_string(), "http://localhost:8080/callback".to_string())
                ]
            );
        }
        _ => panic!("expected FetchToken"),
    }
    let (phase, action) = next(
        DispatchPhase::AwaitingAuthCode,
        DispatchEvent::AuthCodeReceived(Err("Can not receive auth_code".to_string())),
        &o,
        &c,
    );
    match action {
        DispatchAction::Fail(RequestError::OAuth(AccessTokenError::AuthorizationFailed(m))) => {
            assert_eq!(m, "Can not receive auth_code")
        }
        _ => panic!("expected Fail"),
    }
    assert!(matches!(phase, DispatchPhase::Finished));
}

#[test]
fn authorization_code_needs_redirect() {
    let o = opts(Type::NoOutput);
    let mut c = config(GrantType::AuthorizationCode);
    c.auth_server_auth_endpoint = Some("https://auth/authorize".to_string());
    let (_, action) = next(DispatchPhase::RestoringCache, DispatchEvent::CacheRestored(None), &o, &c);
    match action {
        DispatchAction::Fail(RequestError::OAuth(AccessTokenError::InvalidConfig(m))) => assert_eq!(m, "redirect"),
        _ => panic!("expected Fail"),
    }
    c.redirect = Some("not a url".to_string());
    let (_, action) = next(DispatchPhase::RestoringCache, DispatchEvent::CacheRestored(None), &o, &c);
    match action {
        DispatchAction::Fail(RequestError::OAuth(AccessTokenError::InvalidConfig(m))) => assert_eq!(m, "redirect"),
        _ => panic!("expected Fail"),
    }
    c.auth_server_auth_endpoint = None;
    let (_, action) = next(DispatchPhase::RestoringCache, DispatchEvent::CacheRestored(None), &o, &c);
    match action {
        DispatchAction::Fail(RequestError::OAuth(AccessTokenError::InvalidConfig(m))) => {
            assert_eq!(m, "auth_server_auth_endpoint")
        }
        _ => panic!("expected Fail"),
    }
}
