//! How the access token is attached to the request: as a bearer token, or
//! in a custom header built from a `NAME=VALUE` template with a `$token`
//! placeholder.
use vstd::prelude::*;

use crate::oauth2::{AccessToken, AccessTokenError, OAuth2Config};
use crate::options::Opts;
use crate::request::headers::{
    header_name_error, header_value_error, valid_header_name, valid_header_value,
};
use crate::request::error::RequestError;
use crate::request::modifier::RequestModifier;
use crate::request::plan::{AuthHeader, RequestPlan};
use crate::text::{
    contains, contains_seq, lowercase, owned, replace, replaced, split_char, split_on, to_lowercase,
    trim, trimmed, views,
};

verus! {

/// The header that a template gives for a token, or why the template is
/// refused: it must split at `=` into exactly two pieces, and the second,
/// lower-cased, must hold `$token`. The value is the second piece trimmed
/// and lower-cased, with each `$token` replaced by the token.
pub open spec fn custom_header_of(template: Seq<char>, token: Seq<char>) -> Result<
    (Seq<char>, Seq<char>),
    Seq<char>,
> {
    let parts = split_on(template, '=');
    if parts.len() != 2 {
        Err("invalid custom_header_template"@)
    } else if !contains_seq(lowercase(parts[1]), "$token"@) {
        Err("can't find '$token' placeholder"@)
    } else {
        Ok((parts[0], replaced(lowercase(trimmed(parts[1])), "$token"@, token)))
    }
}

/// Splits a custom header template into the header name and the value for
/// the given token.
pub fn split_custom_header(template: &str, access_token: &str) -> (r: Result<
    (String, String),
    AccessTokenError,
>)
    ensures
        match custom_header_of(template@, access_token@) {
            Ok((n, v)) => r matches Ok((name, value)) && name@ == n && value@ == v,
            Err(m) => r matches Err(AccessTokenError::InvalidConfig(msg)) && msg@ == m,
        },
{
    let split = split_char(template, '=');
    assert(views(split@).len() == split@.len());
    if split.len() != 2 {
        return Err(AccessTokenError::InvalidConfig(owned("invalid custom_header_template")));
    }
    assert(views(split@)[0] == split@[0]@);
    assert(views(split@)[1] == split@[1]@);
    let lower = to_lowercase(split[1].as_str());
    if !contains(lower.as_str(), "$token") {
        return Err(AccessTokenError::InvalidConfig(owned("can't find '$token' placeholder")));
    }
    let trimmed_value = trim(split[1].as_str());
    let lowered = to_lowercase(trimmed_value.as_str());
    proof {
        reveal_strlit("$token");
    }
    let value = replace(lowered.as_str(), "$token", access_token);
    Ok((split[0].clone(), value))
}

/// The template in force: the command-line one when given, otherwise the
/// profile's, otherwise none (empty).
pub open spec fn auth_template(opts: Opts, oauth2: OAuth2Config) -> Seq<char> {
    if opts.auth_header_template@.len() > 0 {
        opts.auth_header_template@
    } else {
        match oauth2.default_auth_header_template {
            Some(t) => t@,
            None => Seq::<char>::empty(),
        }
    }
}

/// The template gives a header with a valid name and value (or there is
/// no template).
pub open spec fn auth_header_ok(template: Seq<char>, token: Seq<char>) -> bool {
    template.len() == 0 || (custom_header_of(template, token) matches Ok((n, v))
        && valid_header_name(n) && valid_header_value(v))
}

/// Why a custom authorization header cannot be set.
#[derive(Debug)]
pub enum AuthHeaderFault {
    /// The template is malformed.
    Template(AccessTokenError),
    /// The template names an invalid header.
    HeaderName,
    /// The value is not a valid header value.
    HeaderValue,
}

/// Attaches an access token to the request.
pub struct CustomAuthHeader {
    token: AccessToken,
}

impl View for CustomAuthHeader {
    type V = Seq<char>;

    /// The access token.
    closed spec fn view(&self) -> Seq<char> {
        self.token.access_token@
    }
}

/// The modifier that attaches `token`.
pub fn auth_header(token: AccessToken) -> (m: CustomAuthHeader)
    ensures
        m@ == token.access_token@,
{
    CustomAuthHeader::from(token)
}

/// `res` is `request` with the token attached as the template says.
pub open spec fn authorized(
    request: RequestPlan,
    res: RequestPlan,
    template: Seq<char>,
    token: Seq<char>,
) -> bool {
    &&& request.same_but_auth(res)
    &&& if template.len() == 0 {
        res.auth matches Some(AuthHeader::Bearer(t)) && t@ == token
    } else {
        res.auth matches Some(AuthHeader::Custom(n, v)) && custom_header_of(template, token) == Ok::<
            (Seq<char>, Seq<char>),
            Seq<char>,
        >((n@, v@))
    }
}

/// The template in force.
pub fn template_for(opts: &Opts, oauth2: &OAuth2Config) -> (t: String)
    ensures
        t@ == auth_template(*opts, *oauth2),
{
    if opts.auth_header_template.as_str().is_empty() {
        match &oauth2.default_auth_header_template {
            Some(t) => t.clone(),
            None => String::new(),
        }
    } else {
        opts.auth_header_template.clone()
    }
}

/// What keeps the template from giving a valid header for the token.
pub open spec fn auth_fault_of(fault: AuthHeaderFault, template: Seq<char>, token: Seq<char>) -> bool {
    match fault {
        AuthHeaderFault::Template(AccessTokenError::InvalidConfig(m)) => custom_header_of(
            template,
            token,
        ) == Err::<(Seq<char>, Seq<char>), Seq<char>>(m@),
        AuthHeaderFault::HeaderName => custom_header_of(template, token) matches Ok((n, v))
            && !valid_header_name(n),
        AuthHeaderFault::HeaderValue => custom_header_of(template, token) matches Ok((n, v))
            && valid_header_name(n) && !valid_header_value(v),
        _ => false,
    }
}

/// Checks a template against a token: `None` when there is no template or
/// it gives a valid header, otherwise what is wrong.
pub fn auth_fault(template: &str, token: &str) -> (r: Option<AuthHeaderFault>)
    ensures
        match r {
            None => auth_header_ok(template@, token@),
            Some(f) => !auth_header_ok(template@, token@) && auth_fault_of(f, template@, token@),
        },
{
    if template.is_empty() {
        return None;
    }
    let (header, value) = match split_custom_header(template, token) {
        Ok(hv) => hv,
        Err(e) => return Some(AuthHeaderFault::Template(e)),
    };
    if header_name_error(header.as_str()).is_some() {
        return Some(AuthHeaderFault::HeaderName);
    }
    if header_value_error(value.as_str()).is_some() {
        return Some(AuthHeaderFault::HeaderValue);
    }
    None
}

impl CustomAuthHeader {
    pub fn from(token: AccessToken) -> (m: CustomAuthHeader)
        ensures
            m@ == token.access_token@,
    {
        CustomAuthHeader { token }
    }

    /// Attaches the token: as a bearer token when no template is in force,
    /// otherwise in the header the template gives.
    fn attach(self, request: RequestPlan, opts: &Opts, oauth2: &OAuth2Config) -> (res: RequestPlan)
        requires
            auth_header_ok(auth_template(*opts, *oauth2), self@),
        ensures
            authorized(request, res, auth_template(*opts, *oauth2), self@),
    {
        let template = template_for(opts, oauth2);
        let mut request = request;
        if template.as_str().is_empty() {
            request.auth = Some(AuthHeader::Bearer(self.token.access_token));
        } else {
            match split_custom_header(template.as_str(), self.token.access_token.as_str()) {
                Ok((header, value)) => {
                    request.auth = Some(AuthHeader::Custom(header, value));
                },
                Err(_) => {},
            }
        }
        request
    }

    /// Attaches the token, or says why the custom header cannot be set
    /// (where `modify` may not be called).
    pub fn try_modify(self, request: RequestPlan, opts: &Opts, oauth2: &OAuth2Config) -> (r: Result<
        RequestPlan,
        AuthHeaderFault,
    >)
        ensures
            match r {
                Ok(res) => auth_header_ok(auth_template(*opts, *oauth2), self@) && authorized(
                    request,
                    res,
                    auth_template(*opts, *oauth2),
                    self@,
                ),
                Err(f) => !auth_header_ok(auth_template(*opts, *oauth2), self@) && auth_fault_of(
                    f,
                    auth_template(*opts, *oauth2),
                    self@,
                ),
            },
    {
        let template = template_for(opts, oauth2);
        match auth_fault(template.as_str(), self.token.access_token.as_str()) {
            Some(f) => Err(f),
            None => Ok(self.attach(request, opts, oauth2)),
        }
    }
}

impl RequestModifier for CustomAuthHeader {
    /// The token can be attached unless the custom header cannot be set
    /// (see `try_modify`).
    open spec fn can_modify(&self, request: RequestPlan, opts: Opts, oauth2: OAuth2Config) -> bool {
        auth_header_ok(auth_template(opts, oauth2), self@)
    }

    /// The request with the token attached.
    open spec fn modified(
        &self,
        request: RequestPlan,
        opts: Opts,
        oauth2: OAuth2Config,
        r: Result<RequestPlan, RequestError>,
    ) -> bool {
        r matches Ok(res) && authorized(request, res, auth_template(opts, oauth2), self@)
    }

    /// Attaches the token: as a bearer token when no template is in force,
    /// otherwise in the header the template gives.
    fn modify(self, request: RequestPlan, opts: &Opts, oauth2: &OAuth2Config) -> (r: Result<
        RequestPlan,
        RequestError,
    >) {
        Ok(self.attach(request, opts, oauth2))
    }
}

} // verus!
