use aurl_rust::cli::{select_profile, AppError};
use aurl_rust::oauth2::{AccessTokenError, GrantType, OAuth2Config};
use aurl_rust::profile::{find_profile, read_profiles, InvalidConfig, Profile};

const PROFILES: &str = "[default]
grant_type = password
auth_server_token_endpoint = https://auth.example.com/token
client_id = my-client
client_secret = s3cret
scopes = read write
username = alice
password = pw

[machine]
grant_type = client ; comment
auth_server_token_endpoint = https://auth.example.com/token
client_id = robot
scopes = all
default_user_agent = robot/1.0
default_content_type = application/json
";

#[test]
fn profiles_are_read_from_ini_text() {
    let profiles = read_profiles(PROFILES).ok().unwrap();
    assert_eq!(profiles.len(), 2);
    assert_eq!(profiles[0].0, "default");
    let c = &profiles[0].1;
    assert_eq!(c.grant_type, GrantType::Password);
    assert_eq!(c.client_id.as_deref(), Some("my-client"));
    assert_eq!(c.scopes.as_deref(), Some("read write"));
    assert_eq!(c.redirect, None);
    let m = &profiles[1].1;
    assert_eq!(profiles[1].0, "machine");
    assert_eq!(m.grant_type, GrantType::ClientCredentials);
    assert_eq!(m.default_user_agent.as_deref(), Some("robot/1.0"));
    assert_eq!(m.client_secret, None);
}

#[test]
fn section_without_grant_type_is_refused() {
    match read_profiles("[a]\nclient_id = x\n") {
        Err(InvalidConfig::MissingFields(f)) => assert_eq!(f, "grant_type"),
        _ => panic!("expected MissingFields"),
    }
}

#[test]
fn unknown_grant_type_counts_as_missing() {
    match read_profiles("[a]\ngrant_type = implicit\n") {
        Err(InvalidConfig::MissingFields(f)) => assert_eq!(f, "grant_type"),
        _ => panic!("expected MissingFields"),
    }
}

#[test]
fn malformed_ini_is_refused() {
    match read_profiles("[broken\n") {
        Err(InvalidConfig::IniFileError(_)) => (),
        _ => panic!("expected IniFileError"),
    }
}

#[test]
fn grant_types_and_aliases() {
    assert_eq!(GrantType::parse("password").ok(), Some(GrantType::Password));
    assert_eq!(GrantType::parse("auth").ok(), Some(GrantType::AuthorizationCode));
    assert_eq!(GrantType::parse("authorization_code").ok(), Some(GrantType::AuthorizationCode));
    assert_eq!(GrantType::parse("client").ok(), Some(GrantType::ClientCredentials));
    assert_eq!(GrantType::parse("client_credentials").ok(), Some(GrantType::ClientCredentials));
    match GrantType::parse("Password") {
        Err(InvalidConfig::InvalidGrantType(s)) => assert_eq!(s, "Password"),
        _ => panic!("expected InvalidGrantType"),
    }
    assert_eq!("client".parse::<GrantType>().ok(), Some(GrantType::ClientCredentials));
}

#[test]
fn profile_paths() {
    assert_eq!(Profile::config_file("/home/alice"), "/home/alice/.aurl/profiles");
    assert_eq!(Profile::config_file("/home/alice/"), "/home/alice/.aurl/profiles");
    assert_eq!(Profile::basedir(""), ".aurl/");
    let p = Profile::new("work");
    assert_eq!(p.name, "work");
    assert_eq!(p.token_file("/root"), "/root/.aurl/token/work.json");
}

#[test]
fn profile_selection() {
    let profiles = read_profiles(PROFILES).ok().unwrap();
    let chosen = select_profile(&profiles, &Profile::new("machine")).ok().unwrap();
    assert_eq!(chosen.client_id.as_deref(), Some("robot"));
    match select_profile(&profiles, &Profile::new("nobody")) {
        Err(AppError::ProfileNotFound(n)) => assert_eq!(n, "nobody"),
        _ => panic!("expected ProfileNotFound"),
    }
}

fn config(grant_type: GrantType) -> OAuth2Config {
    OAuth2Config {
        auth_server_auth_endpoint: None,
        auth_server_token_endpoint: Some("https://auth/token".to_string()),
        client_id: Some("cid".to_string()),
        client_secret: None,
        scopes: Some("s".to_string()),
        username: Some("u".to_string()),
        password: None,
        grant_type,
        redirect: None,
        default_content_type: None,
        default_user_agent: None,
        default_auth_header_template: None,
    }
}

#[test]
fn last_section_of_a_name_wins() {
    let profiles = vec![
        ("a".to_string(), config(GrantType::Password)),
        ("a".to_string(), config(GrantType::ClientCredentials)),
    ];
    assert_eq!(find_profile(&profiles, "a").unwrap().grant_type, GrantType::ClientCredentials);
    assert!(find_profile(&profiles, "b").is_none());
}

#[test]
fn token_request_for_client_credentials() {
    let c = config(GrantType::ClientCredentials);
    let req = GrantType::ClientCredentials.token_request(&c, 30).ok().unwrap();
    assert_eq!(req.endpoint, "https://auth/token");
    assert_eq!(req.client_id, "cid");
    assert_eq!(req.client_secret, None);
    assert_eq!(req.timeout_secs, 30);
    assert_eq!(
        req.form,
        vec![
            ("grant_type".to_string(), "client_credentials".to_string()),
            ("scope".to_string(), "s".to_string())
        ]
    );
}

#[test]
fn token_request_reports_first_missing_setting() {
    let c = config(GrantType::Password);
    match GrantType::Password.token_request(&c, 30) {
        Err(AccessTokenError::InvalidConfig(f)) => assert_eq!(f, "password"),
        _ => panic!("expected InvalidConfig"),
    }
    let mut c = config(GrantType::Password);
    c.client_id = None;
    c.auth_server_token_endpoint = None;
    match GrantType::Password.token_request(&c, 30) {
        Err(AccessTokenError::InvalidConfig(f)) => assert_eq!(f, "auth_server_token_endpoint"),
        _ => panic!("expected InvalidConfig"),
    }
}

#[test]
fn token_request_for_password() {
    let mut c = config(GrantType::Password);
    c.password = Some("pw".to_string());
    c.client_secret = Some("sec".to_string());
    let req = GrantType::Password.token_request(&c, 5).ok().unwrap();
    assert_eq!(req.client_secret.as_deref(), Some("sec"));
    assert_eq!(
        req.form,
        vec![
            ("grant_type".to_string(), "password".to_string()),
            ("scope".to_string(), "s".to_string()),
            ("username".to_string(), "u".to_string()),
            ("password".to_string(), "pw".to_string())
        ]
    );
}

#[test]
fn required_settings() {
    let c = config(GrantType::Password);
    assert_eq!(c.client_id().ok().as_deref(), Some("cid"));
    assert_eq!(c.scopes().ok().as_deref(), Some("s"));
    assert_eq!(c.username().ok().as_deref(), Some("u"));
    assert_eq!(c.auth_server_token_endpoint().ok().as_deref(), Some("https://auth/token"));
    match c.auth_server_auth_endpoint() {
        Err(AccessTokenError::InvalidConfig(f)) => assert_eq!(f, "auth_server_auth_endpoint"),
        _ => panic!("expected InvalidConfig"),
    }
    match c.password() {
        Err(AccessTokenError::InvalidConfig(f)) => assert_eq!(f, "password"),
        _ => panic!("expected InvalidConfig"),
    }
}
