//! OAuth2 profile settings, grant types, and the token request that each
//! grant type sends to the authorization server.
use vstd::prelude::*;

use crate::profile::InvalidConfig;
use crate::text::{owned, str_eq};

verus! {

#[verifier::external_type_specification]
#[verifier::external_body]
pub struct ExReqwestError(reqwest::Error);

/// The view of an optional string.
pub open spec fn opt_view(o: Option<String>) -> Option<Seq<char>> {
    match o {
        Some(s) => Some(s@),
        None => None,
    }
}

/// The view of a list of string pairs.
pub open spec fn pairs_view(v: Seq<(String, String)>) -> Seq<(Seq<char>, Seq<char>)> {
    v.map_values(|p: (String, String)| (p.0@, p.1@))
}

/// A copy of an optional string.
pub fn clone_opt(o: &Option<String>) -> (r: Option<String>)
    ensures
        opt_view(r) == opt_view(*o),
{
    match o {
        Some(s) => Some(s.clone()),
        None => None,
    }
}

/// The settings of one profile.
pub struct OAuth2Config {
    pub auth_server_auth_endpoint: Option<String>,
    pub auth_server_token_endpoint: Option<String>,
    pub client_id: Option<String>,
    pub client_secret: Option<String>,
    pub scopes: Option<String>,
    pub username: Option<String>,
    pub password: Option<String>,
    pub grant_type: GrantType,
    pub redirect: Option<String>,
    pub default_content_type: Option<String>,
    pub default_user_agent: Option<String>,
    pub default_auth_header_template: Option<String>,
}

/// `r` is the value of a required setting `v` named `name`: the value when
/// it is set, otherwise a configuration error that names the setting.
pub open spec fn required(v: Option<String>, name: Seq<char>, r: Result<String, AccessTokenError>) -> bool {
    match v {
        Some(x) => r matches Ok(y) && y@ == x@,
        None => r matches Err(AccessTokenError::InvalidConfig(m)) && m@ == name,
    }
}

/// The value of a required setting, or a configuration error naming it.
pub fn ok_or<T>(v: Option<T>, fname: &str) -> (r: Result<T, AccessTokenError>)
    ensures
        match v {
            Some(x) => r == Ok::<T, AccessTokenError>(x),
            None => r matches Err(AccessTokenError::InvalidConfig(m)) && m@ == fname@,
        },
{
    match v {
        Some(x) => Ok(x),
        None => Err(AccessTokenError::InvalidConfig(owned(fname))),
    }
}

impl OAuth2Config {
    pub fn auth_server_auth_endpoint(&self) -> (r: Result<String, AccessTokenError>)
        ensures
            required(self.auth_server_auth_endpoint, "auth_server_auth_endpoint"@, r),
    {
        ok_or(clone_opt(&self.auth_server_auth_endpoint), "auth_server_auth_endpoint")
    }

    pub fn auth_server_token_endpoint(&self) -> (r: Result<String, AccessTokenError>)
        ensures
            required(self.auth_server_token_endpoint, "auth_server_token_endpoint"@, r),
    {
        ok_or(clone_opt(&self.auth_server_token_endpoint), "auth_server_token_endpoint")
    }

    pub fn client_id(&self) -> (r: Result<String, AccessTokenError>)
        ensures
            required(self.client_id, "client_id"@, r),
    {
        ok_or(clone_opt(&self.client_id), "client_id")
    }

    pub fn username(&self) -> (r: Result<String, AccessTokenError>)
        ensures
            required(self.username, "username"@, r),
    {
        ok_or(clone_opt(&self.username), "username")
    }

    pub fn password(&self) -> (r: Result<String, AccessTokenError>)
        ensures
            required(self.password, "password"@, r),
    {
        ok_or(clone_opt(&self.password), "password")
    }

    pub fn scopes(&self) -> (r: Result<String, AccessTokenError>)
        ensures
            required(self.scopes, "scopes"@, r),
    {
        ok_or(clone_opt(&self.scopes), "scopes")
    }
}

/// An access token as the authorization server issues it.
pub struct AccessToken {
    pub access_token: String,
    pub token_type: String,
    pub refresh_token: Option<String>,
    pub expires_in: u64,
    pub scope: Option<String>,
    pub id_token: Option<String>,
}

/// An exact copy of an optional string.
fn copy_opt(o: &Option<String>) -> (r: Option<String>)
    ensures
        r == *o,
{
    match o {
        Some(s) => Some(s.clone()),
        None => None,
    }
}

impl AccessToken {
    /// An exact copy of the token.
    pub fn duplicate(&self) -> (t: AccessToken)
        ensures
            t == *self,
    {
        AccessToken {
            access_token: self.access_token.clone(),
            token_type: self.token_type.clone(),
            refresh_token: copy_opt(&self.refresh_token),
            expires_in: self.expires_in,
            scope: copy_opt(&self.scope),
            id_token: copy_opt(&self.id_token),
        }
    }
}

/// Why no access token could be had.
#[derive(Debug)]
pub enum AccessTokenError {
    /// A setting that the grant type needs is missing (its name), or the
    /// custom header template is malformed.
    InvalidConfig(String),
    /// The token request failed.
    HttpError(reqwest::Error),
    /// No authorization code came back to the redirect address (the
    /// reason).
    AuthorizationFailed(String),
}

/// How the access token is obtained.
#[derive(Debug, Clone, Copy, PartialEq, Eq, Structural)]
pub enum GrantType {
    Password,
    AuthorizationCode,
    ClientCredentials,
}

/// The grant type that a setting names, with its short aliases.
pub open spec fn grant_type_named(s: Seq<char>) -> Option<GrantType> {
    if s == "password"@ {
        Some(GrantType::Password)
    } else if s == "authorization_code"@ || s == "auth"@ {
        Some(GrantType::AuthorizationCode)
    } else if s == "client_credentials"@ || s == "client"@ {
        Some(GrantType::ClientCredentials)
    } else {
        None
    }
}

/// The short names are aliases: `auth` names the authorization-code grant
/// and `client` the client-credentials grant, as their long names do.
pub proof fn lemma_grant_type_aliases()
    ensures
        grant_type_named("auth"@) == grant_type_named("authorization_code"@),
        grant_type_named("client"@) == grant_type_named("client_credentials"@),
        grant_type_named("auth"@) == Some(GrantType::AuthorizationCode),
        grant_type_named("client"@) == Some(GrantType::ClientCredentials),
{
    reveal_strlit("auth");
    reveal_strlit("authorization_code");
    reveal_strlit("client");
    reveal_strlit("client_credentials");
    reveal_strlit("password");
    assert("auth"@.len() != "password"@.len());
    assert("authorization_code"@.len() != "password"@.len());
    assert("client"@.len() != "password"@.len());
    assert("client"@.len() != "authorization_code"@.len());
    assert("client"@.len() != "auth"@.len());
    assert("client_credentials"@.len() != "password"@.len());
    assert("client_credentials"@[1] != "authorization_code"@[1]);
    assert("client_credentials"@.len() != "auth"@.len());
}

impl GrantType {
    /// Reads a grant type: `password`, `authorization_code` (or `auth`),
    /// `client_credentials` (or `client`).
    pub fn parse(s: &str) -> (r: Result<GrantType, InvalidConfig>)
        ensures
            match r {
                Ok(g) => grant_type_named(s@) == Some(g),
                Err(e) => grant_type_named(s@) is None && (e matches InvalidConfig::InvalidGrantType(m)
                    && m@ == s@),
            },
    {
        if str_eq(s, "password") {
            Ok(GrantType::Password)
        } else if str_eq(s, "authorization_code") || str_eq(s, "auth") {
            Ok(GrantType::AuthorizationCode)
        } else if str_eq(s, "client_credentials") || str_eq(s, "client") {
            Ok(GrantType::ClientCredentials)
        } else {
            Err(InvalidConfig::InvalidGrantType(owned(s)))
        }
    }

    /// The token request that this grant type sends, built from the profile
    /// settings; the first required setting that is missing is reported.
    /// The authorization-code grant needs a received code first: see
    /// `OAuth2Config::authorization_step` and `code_token_request`.
    pub fn token_request(&self, config: &OAuth2Config, timeout_secs: u64) -> (r: Result<
        TokenRequest,
        AccessTokenError,
    >)
        requires
            *self != GrantType::AuthorizationCode,
        ensures
            match missing_setting(*self, *config) {
                Some(name) => r matches Err(AccessTokenError::InvalidConfig(m)) && m@ == name,
                None => r matches Ok(req) && req@ == token_request_of(*self, *config, timeout_secs),
            },
    {
        let endpoint = match config.auth_server_token_endpoint() {
            Ok(e) => e,
            Err(e) => return Err(e),
        };
        let client_id = match config.client_id() {
            Ok(c) => c,
            Err(e) => return Err(e),
        };
        let client_secret = clone_opt(&config.client_secret);
        let scope = match config.scopes() {
            Ok(s) => s,
            Err(e) => return Err(e),
        };
        let mut form: Vec<(String, String)> = Vec::new();
        match self {
            GrantType::Password => {
                let username = match config.username() {
                    Ok(u) => u,
                    Err(e) => return Err(e),
                };
                let password = match config.password() {
                    Ok(p) => p,
                    Err(e) => return Err(e),
                };
                form.push((owned("grant_type"), owned("password")));
                form.push((owned("scope"), scope));
                form.push((owned("username"), username));
                form.push((owned("password"), password));
            },
            _ => {
                form.push((owned("grant_type"), owned("client_credentials")));
                form.push((owned("scope"), scope));
            },
        }
        let req = TokenRequest { endpoint, client_id, client_secret, form, timeout_secs };
        assert(req@.form =~= token_request_of(*self, *config, timeout_secs).form);
        Ok(req)
    }
}

impl core::str::FromStr for GrantType {
    type Err = InvalidConfig;

    fn from_str(s: &str) -> (r: Result<GrantType, InvalidConfig>)
        ensures
            match r {
                Ok(g) => grant_type_named(s@) == Some(g),
                Err(e) => grant_type_named(s@) is None && (e matches InvalidConfig::InvalidGrantType(m)
                    && m@ == s@),
            },
    {
        GrantType::parse(s)
    }
}

/// A token request: a form POSTed to the token endpoint with HTTP basic
/// authentication by client id and (optional) secret.
pub struct TokenRequest {
    pub endpoint: String,
    pub client_id: String,
    pub client_secret: Option<String>,
    pub form: Vec<(String, String)>,
    pub timeout_secs: u64,
}

/// The plain contents of a token request.
pub struct TokenRequestView {
    pub endpoint: Seq<char>,
    pub client_id: Seq<char>,
    pub client_secret: Option<Seq<char>>,
    pub form: Seq<(Seq<char>, Seq<char>)>,
    pub timeout_secs: u64,
}

impl View for TokenRequest {
    type V = TokenRequestView;

    open spec fn view(&self) -> TokenRequestView {
        TokenRequestView {
            endpoint: self.endpoint@,
            client_id: self.client_id@,
            client_secret: opt_view(self.client_secret),
            form: pairs_view(self.form@),
            timeout_secs: self.timeout_secs,
        }
    }
}

/// The first setting, in the order they are read, that a grant type needs
/// and the profile lacks.
pub open spec fn missing_setting(grant: GrantType, c: OAuth2Config) -> Option<Seq<char>> {
    if c.auth_server_token_endpoint is None {
        Some("auth_server_token_endpoint"@)
    } else if c.client_id is None {
        Some("client_id"@)
    } else if c.scopes is None {
        Some("scopes"@)
    } else if grant == GrantType::Password && c.username is None {
        Some("username"@)
    } else if grant == GrantType::Password && c.password is None {
        Some("password"@)
    } else {
        None
    }
}

/// The token request of a grant type for a profile that has every setting
/// the grant type needs.
pub open spec fn token_request_of(grant: GrantType, c: OAuth2Config, timeout_secs: u64) -> TokenRequestView {
    TokenRequestView {
        endpoint: c.auth_server_token_endpoint.unwrap()@,
        client_id: c.client_id.unwrap()@,
        client_secret: opt_view(c.client_secret),
        form: if grant == GrantType::Password {
            seq![
                ("grant_type"@, "password"@),
                ("scope"@, c.scopes.unwrap()@),
                ("username"@, c.username.unwrap()@),
                ("password"@, c.password.unwrap()@),
            ]
        } else {
            seq![("grant_type"@, "client_credentials"@), ("scope"@, c.scopes.unwrap()@)]
        },
        timeout_secs,
    }
}

/// The port and the path of a redirect URL, as the `url` crate reads them
/// (the port given, or the scheme's default one); `None` when the URL does
/// not parse or has no port.
pub uninterp spec fn url_port_path(url: Seq<char>) -> Option<(u16, Seq<char>)>;

/// Calls `reqwest::Url::parse` on the URL, then `port_or_known_default` and
/// `path` on the result. The contract names the result, a function of the
/// URL alone; URL syntax is not restated.
#[verifier::external_body]
fn redirect_port_path(url: &str) -> (r: Option<(u16, String)>)
    ensures
        match r {
            Some((port, path)) => url_port_path(url@) == Some((port, path@)),
            None => url_port_path(url@) is None,
        },
{
    match reqwest::Url::parse(url) {
        Ok(u) => match u.port_or_known_default() {
            Some(port) => Some((port, u.path().to_string())),
            None => None,
        },
        Err(_) => None,
    }
}

/// The URL of the authorization request: the endpoint with the query pairs
/// appended form-urlencoded, as the `url` crate serialises it; `None` when
/// the endpoint does not parse.
pub uninterp spec fn url_with_query(endpoint: Seq<char>, query: Seq<(Seq<char>, Seq<char>)>) -> Option<
    Seq<char>,
>;

/// Calls `reqwest::Url::parse_with_params` on the endpoint and the query
/// pairs and serialises the URL. The contract names the result, a function
/// of the endpoint and the pairs; URL syntax and form encoding are not
/// restated.
#[verifier::external_body]
fn parse_with_params(endpoint: &str, query: &Vec<(String, String)>) -> (r: Option<String>)
    ensures
        match r {
            Some(u) => url_with_query(endpoint@, pairs_view(query@)) == Some(u@),
            None => url_with_query(endpoint@, pairs_view(query@)) is None,
        },
{
    match reqwest::Url::parse_with_params(endpoint, query) {
        Ok(u) => Some(u.as_str().to_string()),
        Err(_) => None,
    }
}

/// The first step of the authorization-code grant: the authorization
/// request to open in a browser (endpoint and query parameters), and the
/// local port and path on which the redirect with the code arrives.
pub struct AuthorizationStep {
    pub endpoint: String,
    pub query: Vec<(String, String)>,
    pub port: u16,
    pub path: String,
}

impl AuthorizationStep {
    /// The URL to open in a browser to authorize: the endpoint with the
    /// query; `None` when the endpoint is no URL.
    pub fn authorization_url(&self) -> (r: Option<String>)
        ensures
            match r {
                Some(u) => url_with_query(self.endpoint@, pairs_view(self.query@)) == Some(u@),
                None => url_with_query(self.endpoint@, pairs_view(self.query@)) is None,
            },
    {
        parse_with_params(&self.endpoint, &self.query)
    }
}

/// The first setting, in the order they are read, that the
/// authorization-code grant needs and the profile lacks.
pub open spec fn missing_authorization_setting(c: OAuth2Config) -> Option<Seq<char>> {
    if c.auth_server_auth_endpoint is None {
        Some("auth_server_auth_endpoint"@)
    } else if c.auth_server_token_endpoint is None {
        Some("auth_server_token_endpoint"@)
    } else if c.client_id is None {
        Some("client_id"@)
    } else if c.scopes is None {
        Some("scopes"@)
    } else if c.redirect is None {
        Some("redirect"@)
    } else {
        None
    }
}

/// The query of the authorization request (RFC 6749, 4.1.1).
pub open spec fn authorization_query(c: OAuth2Config) -> Seq<(Seq<char>, Seq<char>)> {
    seq![
        ("response_type"@, "code"@),
        ("client_id"@, c.client_id.unwrap()@),
        ("redirect_uri"@, c.redirect.unwrap()@),
        ("scope"@, c.scopes.unwrap()@),
    ]
}

/// The first step of the authorization-code grant for a profile, or the
/// setting that keeps it from being taken (a redirect URL without a port
/// counts as missing).
pub open spec fn authorization_step_of(c: OAuth2Config, step: AuthorizationStep) -> bool {
    &&& step.endpoint@ == c.auth_server_auth_endpoint.unwrap()@
    &&& pairs_view(step.query@) == authorization_query(c)
    &&& url_port_path(c.redirect.unwrap()@) == Some((step.port, step.path@))
}

/// The token request of the authorization-code grant for a received code
/// (RFC 6749, 4.1.3).
pub open spec fn code_token_request_of(c: OAuth2Config, code: Seq<char>, timeout_secs: u64) -> TokenRequestView {
    TokenRequestView {
        endpoint: c.auth_server_token_endpoint.unwrap()@,
        client_id: c.client_id.unwrap()@,
        client_secret: opt_view(c.client_secret),
        form: seq![
            ("grant_type"@, "authorization_code"@),
            ("code"@, code),
            ("redirect_uri"@, c.redirect.unwrap()@),
        ],
        timeout_secs,
    }
}

/// Whatever the grant, a token request goes to the profile's token
/// endpoint and authenticates with the profile's client id and client
/// secret (the secret left out only when the profile has none), within the
/// timeout given.
pub proof fn lemma_token_request_credentials(
    grant: GrantType,
    c: OAuth2Config,
    code: Seq<char>,
    timeout_secs: u64,
)
    ensures
        token_request_of(grant, c, timeout_secs).endpoint == c.auth_server_token_endpoint.unwrap()@,
        token_request_of(grant, c, timeout_secs).client_id == c.client_id.unwrap()@,
        token_request_of(grant, c, timeout_secs).client_secret == match c.client_secret {
            Some(s) => Some(s@),
            None => None::<Seq<char>>,
        },
        token_request_of(grant, c, timeout_secs).timeout_secs == timeout_secs,
        code_token_request_of(c, code, timeout_secs).endpoint == c.auth_server_token_endpoint.unwrap()@,
        code_token_request_of(c, code, timeout_secs).client_id == c.client_id.unwrap()@,
        code_token_request_of(c, code, timeout_secs).client_secret == match c.client_secret {
            Some(s) => Some(s@),
            None => None::<Seq<char>>,
        },
        code_token_request_of(c, code, timeout_secs).timeout_secs == timeout_secs,
{
}

/// The form a token request posts names the grant and carries the
/// profile's values: for the password grant the scope, user name and
/// password; for client credentials the scope; for the authorization-code
/// grant the code received and the redirect address.
pub proof fn lemma_token_request_forms(c: OAuth2Config, code: Seq<char>, timeout_secs: u64)
    ensures
        token_request_of(GrantType::Password, c, timeout_secs).form =~= seq![
            ("grant_type"@, "password"@),
            ("scope"@, c.scopes.unwrap()@),
            ("username"@, c.username.unwrap()@),
            ("password"@, c.password.unwrap()@),
        ],
        token_request_of(GrantType::ClientCredentials, c, timeout_secs).form =~= seq![
            ("grant_type"@, "client_credentials"@),
            ("scope"@, c.scopes.unwrap()@),
        ],
        code_token_request_of(c, code, timeout_secs).form =~= seq![
            ("grant_type"@, "authorization_code"@),
            ("code"@, code),
            ("redirect_uri"@, c.redirect.unwrap()@),
        ],
{
}

/// A password or client-credentials token request can be built exactly when
/// the profile has a token endpoint, a client id and scopes, and, for the
/// password grant, a user name and a password.
pub proof fn lemma_required_settings(grant: GrantType, c: OAuth2Config)
    requires
        grant != GrantType::AuthorizationCode,
    ensures
        (missing_setting(grant, c) is None) <==> (c.auth_server_token_endpoint is Some
            && c.client_id is Some && c.scopes is Some && (grant == GrantType::Password ==> (
        c.username is Some && c.password is Some))),
        missing_setting(grant, c) == Some("auth_server_token_endpoint"@)
            ==> c.auth_server_token_endpoint is None,
        missing_setting(grant, c) == Some("client_id"@) ==> c.client_id is None,
        missing_setting(grant, c) == Some("scopes"@) ==> c.scopes is None,
        missing_setting(grant, c) == Some("username"@) ==> c.username is None,
        missing_setting(grant, c) == Some("password"@) ==> c.password is None,
{
    reveal_strlit("auth_server_token_endpoint");
    reveal_strlit("client_id");
    reveal_strlit("scopes");
    reveal_strlit("username");
    reveal_strlit("password");
    assert("auth_server_token_endpoint"@.len() != "client_id"@.len());
    assert("auth_server_token_endpoint"@.len() != "scopes"@.len());
    assert("auth_server_token_endpoint"@.len() != "username"@.len());
    assert("auth_server_token_endpoint"@.len() != "password"@.len());
    assert("client_id"@.len() != "scopes"@.len());
    assert("client_id"@.len() != "username"@.len());
    assert("client_id"@.len() != "password"@.len());
    assert("scopes"@.len() != "username"@.len());
    assert("scopes"@.len() != "password"@.len());
    assert("username"@[0] != "password"@[0]);
}

/// The first setting that the token request of the authorization-code
/// grant needs and the profile lacks.
pub open spec fn missing_code_token_setting(c: OAuth2Config) -> Option<Seq<char>> {
    if c.auth_server_token_endpoint is None {
        Some("auth_server_token_endpoint"@)
    } else if c.client_id is None {
        Some("client_id"@)
    } else if c.redirect is None {
        Some("redirect"@)
    } else {
        None
    }
}

impl OAuth2Config {
    /// The first step of the authorization-code grant: where to send the
    /// user, and where the code comes back.
    pub fn authorization_step(&self) -> (r: Result<AuthorizationStep, AccessTokenError>)
        ensures
            match missing_authorization_setting(*self) {
                Some(name) => r matches Err(AccessTokenError::InvalidConfig(m)) && m@ == name,
                None => match url_port_path(self.redirect.unwrap()@) {
                    None => r matches Err(AccessTokenError::InvalidConfig(m)) && m@ == "redirect"@,
                    Some(_) => r matches Ok(step) && authorization_step_of(*self, step),
                },
            },
    {
        let endpoint = match self.auth_server_auth_endpoint() {
            Ok(e) => e,
            Err(e) => return Err(e),
        };
        match self.auth_server_token_endpoint() {
            Ok(_) => {},
            Err(e) => return Err(e),
        }
        let client_id = match self.client_id() {
            Ok(c) => c,
            Err(e) => return Err(e),
        };
        let scope = match self.scopes() {
            Ok(s) => s,
            Err(e) => return Err(e),
        };
        let redirect = match ok_or(clone_opt(&self.redirect), "redirect") {
            Ok(r) => r,
            Err(e) => return Err(e),
        };
        let (port, path) = match redirect_port_path(redirect.as_str()) {
            Some(pp) => pp,
            None => return Err(AccessTokenError::InvalidConfig(owned("redirect"))),
        };
        let mut query: Vec<(String, String)> = Vec::new();
        query.push((owned("response_type"), owned("code")));
        query.push((owned("client_id"), client_id));
        query.push((owned("redirect_uri"), redirect));
        query.push((owned("scope"), scope));
        let step = AuthorizationStep { endpoint, query, port, path };
        assert(pairs_view(step.query@) =~= authorization_query(*self));
        Ok(step)
    }

    /// The token request of the authorization-code grant for a received
    /// code.
    pub fn code_token_request(&self, code: &str, timeout_secs: u64) -> (r: Result<
        TokenRequest,
        AccessTokenError,
    >)
        ensures
            match missing_code_token_setting(*self) {
                Some(name) => r matches Err(AccessTokenError::InvalidConfig(m)) && m@ == name,
                None => r matches Ok(req) && req@ == code_token_request_of(*self, code@, timeout_secs),
            },
    {
        let endpoint = match self.auth_server_token_endpoint() {
            Ok(e) => e,
            Err(e) => return Err(e),
        };
        let client_id = match self.client_id() {
            Ok(c) => c,
            Err(e) => return Err(e),
        };
        let redirect = match ok_or(clone_opt(&self.redirect), "redirect") {
            Ok(r) => r,
            Err(e) => return Err(e),
        };
        let mut form: Vec<(String, String)> = Vec::new();
        form.push((owned("grant_type"), owned("authorization_code")));
        form.push((owned("code"), owned(code)));
        form.push((owned("redirect_uri"), redirect));
        let req = TokenRequest {
            endpoint,
            client_id,
            client_secret: clone_opt(&self.client_secret),
            form,
            timeout_secs,
        };
        assert(req@.form =~= code_token_request_of(*self, code@, timeout_secs).form);
        Ok(req)
    }
}

} // verus!
