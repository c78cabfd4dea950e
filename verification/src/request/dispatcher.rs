//! The decisions of request dispatch, as a state machine. The caller
//! performs each action (reading or writing the token cache, asking the
//! authorization server for a token, sending the request) and reports what
//! came of it as the next event.
//!
//! One round: the cached token is restored, or a new one is requested (for
//! the authorization-code grant, after the user has authorized the client
//! in a browser and the code has come back to the local redirect address); the
//! token is saved to the cache; the request is built with the extra
//! headers, the token, the timeout and the body; then it is either printed
//! as a curl command or sent. A request that is refused as unauthorized
//! clears the cache and starts a new round.
use vstd::prelude::*;

use crate::oauth2::{
    authorization_step_of, code_token_request_of, missing_authorization_setting,
    missing_code_token_setting, missing_setting, opt_view, token_request_of, url_port_path,
    AccessToken, AccessTokenError, AuthorizationStep, GrantType, OAuth2Config, TokenRequest,
};
use crate::options::Opts;
use crate::output::Type;
use crate::request::auth_header::{
    auth_fault, auth_header, auth_header_ok, auth_template, authorized, template_for,
    AuthHeaderFault,
};
use crate::request::body::body;
use crate::request::custom_headers::{custom_headers, headers_for, valid_custom_headers};
use crate::request::error::RequestError;
use crate::request::modifier::RequestModifier;
use crate::request::plan::RequestPlan;
use crate::request::timeout::timeout;

verus! {

/// Where dispatch stands.
pub enum DispatchPhase {
    /// Nothing done yet.
    Start,
    /// Waiting for the cached token.
    RestoringCache,
    /// Waiting for the authorization code to come back.
    AwaitingAuthCode,
    /// Waiting for the authorization server.
    FetchingToken,
    /// Waiting for the token to be saved; the token to use.
    SavingCache(AccessToken),
    /// Waiting for the response.
    Sending,
    /// Waiting for the cached token to be removed.
    RemovingCache,
    /// Done.
    Finished,
}

/// How sending the request ended.
pub enum SendOutcome {
    /// A response arrived.
    Delivered,
    /// The request failed with status 401.
    Unauthorized,
    /// The request failed otherwise.
    Failed(reqwest::Error),
}

/// What came of the last action.
pub enum DispatchEvent {
    /// Dispatch is asked for.
    Begin,
    /// The token cache was read: the token it held, if any.
    CacheRestored(Option<AccessToken>),
    /// The redirect with the authorization code arrived (the code), or
    /// none did (the reason).
    AuthCodeReceived(Result<String, String>),
    /// The authorization server answered.
    TokenIssued(Result<AccessToken, AccessTokenError>),
    /// The token was written to the cache (or writing it failed, which is
    /// only worth a warning).
    CacheSaved,
    /// The request was sent.
    Sent(SendOutcome),
    /// The cached token was removed.
    CacheRemoved,
}

/// What to do next.
pub enum DispatchAction {
    /// Read the cached token of the profile.
    RestoreCache,
    /// Send the user to the authorization endpoint and wait on the local
    /// port for the redirect with the code.
    Authorize(AuthorizationStep),
    /// Ask the authorization server for a token.
    FetchToken(TokenRequest),
    /// Write the token to the cache.
    SaveCache(AccessToken),
    /// Print the request as a curl command; dispatch is over.
    EmitSnippet(RequestPlan),
    /// Send the request.
    Send(RequestPlan),
    /// Remove the cached token.
    RemoveCache,
    /// Hand the response over; dispatch is over.
    Deliver,
    /// Dispatch failed.
    Fail(RequestError),
}

/// A step on which dispatch cannot go on: the program stops with a panic.
#[derive(Debug)]
pub enum DispatchFault {
    /// The custom authorization header cannot be set.
    AuthHeader(AuthHeaderFault),
}

/// The event is one that the phase waits for.
pub open spec fn event_fits(phase: DispatchPhase, event: DispatchEvent) -> bool {
    match (phase, event) {
        (DispatchPhase::Start, DispatchEvent::Begin) => true,
        (DispatchPhase::RestoringCache, DispatchEvent::CacheRestored(_)) => true,
        (DispatchPhase::AwaitingAuthCode, DispatchEvent::AuthCodeReceived(_)) => true,
        (DispatchPhase::FetchingToken, DispatchEvent::TokenIssued(_)) => true,
        (DispatchPhase::SavingCache(_), DispatchEvent::CacheSaved) => true,
        (DispatchPhase::Sending, DispatchEvent::Sent(_)) => true,
        (DispatchPhase::RemovingCache, DispatchEvent::CacheRemoved) => true,
        _ => false,
    }
}

/// The step does not need an authorization header that cannot be set.
pub open spec fn step_defined(
    phase: DispatchPhase,
    event: DispatchEvent,
    opts: Opts,
    oauth2: OAuth2Config,
) -> bool {
    match phase {
        DispatchPhase::SavingCache(t) => valid_custom_headers(opts, oauth2) ==> auth_header_ok(
            auth_template(opts, oauth2),
            t.access_token@,
        ),
        _ => true,
    }
}

/// What follows when no token is cached: the authorization step for the
/// authorization-code grant, otherwise the grant's token request; or a
/// failure naming the missing setting.
pub open spec fn token_acquisition(
    opts: Opts,
    oauth2: OAuth2Config,
    next: DispatchPhase,
    action: DispatchAction,
) -> bool {
    if oauth2.grant_type == GrantType::AuthorizationCode {
        match missing_authorization_setting(oauth2) {
            Some(name) => next is Finished && (action matches DispatchAction::Fail(
                RequestError::OAuth(AccessTokenError::InvalidConfig(m)),
            ) && m@ == name),
            None => match url_port_path(oauth2.redirect.unwrap()@) {
                None => next is Finished && (action matches DispatchAction::Fail(
                    RequestError::OAuth(AccessTokenError::InvalidConfig(m)),
                ) && m@ == "redirect"@),
                Some(_) => next is AwaitingAuthCode && (action matches DispatchAction::Authorize(
                    step,
                ) && authorization_step_of(oauth2, step)),
            },
        }
    } else {
        match missing_setting(oauth2.grant_type, oauth2) {
            Some(name) => next is Finished && (action matches DispatchAction::Fail(
                RequestError::OAuth(AccessTokenError::InvalidConfig(m)),
            ) && m@ == name),
            None => next is FetchingToken && (action matches DispatchAction::FetchToken(req) && req@
                == token_request_of(oauth2.grant_type, oauth2, opts.timeout)),
        }
    }
}

/// `p` is the request built for `token`: method and URL from the command
/// line, the extra headers, the token, the timeout and the body.
pub open spec fn planned(p: RequestPlan, opts: Opts, oauth2: OAuth2Config, token: AccessToken) -> bool {
    &&& p.method == opts.request
    &&& p.url == opts.url
    &&& p.headers@ == headers_for(opts, oauth2)
    &&& authorized(p, p, auth_template(opts, oauth2), token.access_token@)
    &&& p.timeout_secs == Some(opts.timeout)
    &&& opt_view(p.body) == opt_view(opts.data)
}

/// The step from `phase` on `event`, taken when it is defined.
pub open spec fn step_taken(
    phase: DispatchPhase,
    event: DispatchEvent,
    opts: Opts,
    oauth2: OAuth2Config,
    next: DispatchPhase,
    action: DispatchAction,
) -> bool {
    match (phase, event) {
        (DispatchPhase::Start, DispatchEvent::Begin) => next is RestoringCache
            && action is RestoreCache,
        (DispatchPhase::RestoringCache, DispatchEvent::CacheRestored(Some(t))) => next
            == DispatchPhase::SavingCache(t) && action == DispatchAction::SaveCache(t),
        (DispatchPhase::RestoringCache, DispatchEvent::CacheRestored(None)) => token_acquisition(
            opts,
            oauth2,
            next,
            action,
        ),
        (DispatchPhase::AwaitingAuthCode, DispatchEvent::AuthCodeReceived(Ok(code))) => match missing_code_token_setting(oauth2) {
            Some(name) => next is Finished && (action matches DispatchAction::Fail(
                RequestError::OAuth(AccessTokenError::InvalidConfig(m)),
            ) && m@ == name),
            None => next is FetchingToken && (action matches DispatchAction::FetchToken(req) && req@
                == code_token_request_of(oauth2, code@, opts.timeout)),
        },
        (DispatchPhase::AwaitingAuthCode, DispatchEvent::AuthCodeReceived(Err(reason))) => next
            is Finished && (action matches DispatchAction::Fail(
            RequestError::OAuth(AccessTokenError::AuthorizationFailed(m)),
        ) && m@ == reason@),
        (DispatchPhase::FetchingToken, DispatchEvent::TokenIssued(Ok(t))) => next
            == DispatchPhase::SavingCache(t) && action == DispatchAction::SaveCache(t),
        (DispatchPhase::FetchingToken, DispatchEvent::TokenIssued(Err(e))) => next is Finished
            && action == DispatchAction::Fail(RequestError::OAuth(e)),
        (DispatchPhase::SavingCache(t), DispatchEvent::CacheSaved) => if !valid_custom_headers(
            opts,
            oauth2,
        ) {
            next is Finished && (action matches DispatchAction::Fail(e) && e is InvalidHeader)
        } else if opts.output == Type::Curl {
            next is Finished && (action matches DispatchAction::EmitSnippet(p) && planned(
                p,
                opts,
                oauth2,
                t,
            ))
        } else {
            next is Sending && (action matches DispatchAction::Send(p) && planned(p, opts, oauth2, t))
        },
        (DispatchPhase::Sending, DispatchEvent::Sent(SendOutcome::Delivered)) => next is Finished
            && action is Deliver,
        (DispatchPhase::Sending, DispatchEvent::Sent(SendOutcome::Unauthorized)) => next
            is RemovingCache && action is RemoveCache,
        (DispatchPhase::Sending, DispatchEvent::Sent(SendOutcome::Failed(e))) => next is Finished
            && action == DispatchAction::Fail(RequestError::Http(e)),
        (DispatchPhase::RemovingCache, DispatchEvent::CacheRemoved) => next is RestoringCache
            && action is RestoreCache,
        _ => false,
    }
}

/// Builds the request for a token; fails on an invalid extra header.
fn build_request(opts: &Opts, oauth2: &OAuth2Config, token: AccessToken) -> (r: Result<
    RequestPlan,
    RequestError,
>)
    requires
        valid_custom_headers(*opts, *oauth2) ==> auth_header_ok(
            auth_template(*opts, *oauth2),
            token.access_token@,
        ),
    ensures
        match r {
            Ok(p) => valid_custom_headers(*opts, *oauth2) && planned(p, *opts, *oauth2, token),
            Err(e) => !valid_custom_headers(*opts, *oauth2) && e is InvalidHeader,
        },
{
    let plan = RequestPlan::new(opts.request.clone(), opts.url.clone());
    let plan = match custom_headers().modify(plan, opts, oauth2) {
        Ok(p) => p,
        Err(e) => return Err(e),
    };
    assert(plan.headers@ =~= headers_for(*opts, *oauth2));
    let plan = match auth_header(token).modify(plan, opts, oauth2) {
        Ok(p) => p,
        Err(e) => return Err(e),
    };
    let plan = match timeout().modify(plan, opts, oauth2) {
        Ok(p) => p,
        Err(e) => return Err(e),
    };
    body().modify(plan, opts, oauth2)
}

/// Takes one step of dispatch.
pub fn next(phase: DispatchPhase, event: DispatchEvent, opts: &Opts, oauth2: &OAuth2Config) -> (r: (
    DispatchPhase,
    DispatchAction,
))
    requires
        event_fits(phase, event),
        step_defined(phase, event, *opts, *oauth2),
    ensures
        step_taken(phase, event, *opts, *oauth2, r.0, r.1),
{
    match phase {
        DispatchPhase::Start => (DispatchPhase::RestoringCache, DispatchAction::RestoreCache),
        DispatchPhase::RestoringCache => match event {
            DispatchEvent::CacheRestored(Some(t)) => {
                let copy = t.duplicate();
                (DispatchPhase::SavingCache(t), DispatchAction::SaveCache(copy))
            },
            _ => if oauth2.grant_type == GrantType::AuthorizationCode {
                match oauth2.authorization_step() {
                    Ok(step) => (DispatchPhase::AwaitingAuthCode, DispatchAction::Authorize(step)),
                    Err(e) => (DispatchPhase::Finished, DispatchAction::Fail(RequestError::OAuth(e))),
                }
            } else {
                match oauth2.grant_type.token_request(oauth2, opts.timeout) {
                    Ok(req) => (DispatchPhase::FetchingToken, DispatchAction::FetchToken(req)),
                    Err(e) => (DispatchPhase::Finished, DispatchAction::Fail(RequestError::OAuth(e))),
                }
            },
        },
        DispatchPhase::AwaitingAuthCode => match event {
            DispatchEvent::AuthCodeReceived(Ok(code)) => match oauth2.code_token_request(
                code.as_str(),
                opts.timeout,
            ) {
                Ok(req) => (DispatchPhase::FetchingToken, DispatchAction::FetchToken(req)),
                Err(e) => (DispatchPhase::Finished, DispatchAction::Fail(RequestError::OAuth(e))),
            },
            DispatchEvent::AuthCodeReceived(Err(reason)) => (
                DispatchPhase::Finished,
                DispatchAction::Fail(RequestError::OAuth(AccessTokenError::AuthorizationFailed(reason))),
            ),
            _ => (DispatchPhase::Finished, DispatchAction::Deliver),
        },
        DispatchPhase::FetchingToken => match event {
            DispatchEvent::TokenIssued(Ok(t)) => {
                let copy = t.duplicate();
                (DispatchPhase::SavingCache(t), DispatchAction::SaveCache(copy))
            },
            DispatchEvent::TokenIssued(Err(e)) => (
                DispatchPhase::Finished,
                DispatchAction::Fail(RequestError::OAuth(e)),
            ),
            _ => (DispatchPhase::Finished, DispatchAction::Deliver),
        },
        DispatchPhase::SavingCache(t) => match build_request(opts, oauth2, t) {
            Ok(p) => match opts.output {
                Type::Curl => (DispatchPhase::Finished, DispatchAction::EmitSnippet(p)),
                Type::NoOutput => (DispatchPhase::Sending, DispatchAction::Send(p)),
            },
            Err(e) => (DispatchPhase::Finished, DispatchAction::Fail(e)),
        },
        DispatchPhase::Sending => match event {
            DispatchEvent::Sent(SendOutcome::Delivered) => (
                DispatchPhase::Finished,
                DispatchAction::Deliver,
            ),
            DispatchEvent::Sent(SendOutcome::Unauthorized) => (
                DispatchPhase::RemovingCache,
                DispatchAction::RemoveCache,
            ),
            DispatchEvent::Sent(SendOutcome::Failed(e)) => (
                DispatchPhase::Finished,
                DispatchAction::Fail(RequestError::Http(e)),
            ),
            _ => (DispatchPhase::Finished, DispatchAction::Deliver),
        },
        DispatchPhase::RemovingCache => (DispatchPhase::RestoringCache, DispatchAction::RestoreCache),
        DispatchPhase::Finished => (DispatchPhase::Finished, DispatchAction::Deliver),
    }
}

/// Takes one step, or reports why dispatch cannot go on (the steps on
/// which `next` may not be called).
pub fn try_next(phase: DispatchPhase, event: DispatchEvent, opts: &Opts, oauth2: &OAuth2Config) -> (r: Result<
    (DispatchPhase, DispatchAction),
    DispatchFault,
>)
    requires
        event_fits(phase, event),
    ensures
        match r {
            Ok((next, action)) => step_defined(phase, event, *opts, *oauth2) && step_taken(
                phase,
                event,
                *opts,
                *oauth2,
                next,
                action,
            ),
            Err(_) => !step_defined(phase, event, *opts, *oauth2),
        },
{
    match &phase {
        DispatchPhase::SavingCache(t) => {
            let extra = custom_headers().headers(opts, oauth2);
            if extra.validate().is_ok() {
                let template = template_for(opts, oauth2);
                if let Some(f) = auth_fault(template.as_str(), t.access_token.as_str()) {
                    return Err(DispatchFault::AuthHeader(f));
                }
            }
        },
        _ => {},
    }
    Ok(next(phase, event, opts, oauth2))
}

/// How a failed send ends, given the HTTP status the error carries: a 401
/// is `Unauthorized`, anything else a failure.
pub fn outcome_for_status(status: Option<u16>, error: reqwest::Error) -> (o: SendOutcome)
    ensures
        status == Some(401u16) ==> o is Unauthorized,
        status != Some(401u16) ==> o == SendOutcome::Failed(error),
{
    match status {
        Some(s) => if s == 401 {
            SendOutcome::Unauthorized
        } else {
            SendOutcome::Failed(error)
        },
        None => SendOutcome::Failed(error),
    }
}

/// The outcome of a send that got a reply with the given HTTP status.
pub open spec fn reply_outcome(status: u16) -> SendOutcome {
    if status == 401 {
        SendOutcome::Unauthorized
    } else {
        SendOutcome::Delivered
    }
}

/// How a send that got a reply ends, given the reply's HTTP status: a 401
/// means the token was refused (`Unauthorized`: the cached token is dropped
/// and the request is tried again with a new one); any other status is a
/// delivered response.
pub fn outcome_for_reply(status: u16) -> (o: SendOutcome)
    ensures
        o == reply_outcome(status),
{
    if status == 401 {
        SendOutcome::Unauthorized
    } else {
        SendOutcome::Delivered
    }
}

/// The HTTP status that a `reqwest` error carries, as a number (`None` when
/// the error did not come from a response status): what
/// `reqwest::Error::status` reads from the error.
pub uninterp spec fn error_status_of(error: reqwest::Error) -> Option<u16>;

/// Calls `reqwest::Error::status` and gives the status code as a number.
/// The contract names the result, a function of the error alone.
#[verifier::external_body]
fn error_status(error: &reqwest::Error) -> (r: Option<u16>)
    ensures
        r == error_status_of(*error),
{
    match error.status() {
        Some(s) => Some(s.as_u16()),
        None => None,
    }
}

/// How a failed send ends: `Unauthorized` when the error carries status
/// 401, otherwise a failure with the error.
pub fn failed_send(error: reqwest::Error) -> (o: SendOutcome)
    ensures
        error_status_of(error) == Some(401u16) ==> o is Unauthorized,
        error_status_of(error) != Some(401u16) ==> o == SendOutcome::Failed(error),
{
    let status = error_status(&error);
    outcome_for_status(status, error)
}

/// Printing a curl command never sends the request.
pub proof fn lemma_curl_never_sends(
    phase: DispatchPhase,
    event: DispatchEvent,
    opts: Opts,
    oauth2: OAuth2Config,
    next: DispatchPhase,
    action: DispatchAction,
)
    requires
        opts.output == Type::Curl,
        step_taken(phase, event, opts, oauth2, next, action),
    ensures
        !(action is Send),
        !(next is Sending),
{
}

/// A request is built only once a token is in hand and being saved, and it
/// carries that token.
pub proof fn lemma_request_carries_saved_token(
    phase: DispatchPhase,
    event: DispatchEvent,
    opts: Opts,
    oauth2: OAuth2Config,
    next: DispatchPhase,
    action: DispatchAction,
)
    requires
        step_taken(phase, event, opts, oauth2, next, action),
        action is Send || action is EmitSnippet,
    ensures
        phase matches DispatchPhase::SavingCache(t) && match action {
            DispatchAction::Send(p) => planned(p, opts, oauth2, t),
            DispatchAction::EmitSnippet(p) => planned(p, opts, oauth2, t),
            _ => false,
        },
{
}

/// A token, however obtained, is saved before anything else is done with
/// it.
pub proof fn lemma_token_saved_first(
    phase: DispatchPhase,
    event: DispatchEvent,
    opts: Opts,
    oauth2: OAuth2Config,
    next: DispatchPhase,
    action: DispatchAction,
)
    requires
        step_taken(phase, event, opts, oauth2, next, action),
        event matches DispatchEvent::CacheRestored(Some(_)) || event matches DispatchEvent::TokenIssued(
            Ok(_),
        ),
    ensures
        next matches DispatchPhase::SavingCache(t) && action == DispatchAction::SaveCache(t),
{
}

/// A request refused as unauthorized clears the cache, and the next round
/// starts again from the cache.
pub proof fn lemma_unauthorized_retries(
    opts: Opts,
    oauth2: OAuth2Config,
    next: DispatchPhase,
    action: DispatchAction,
    next2: DispatchPhase,
    action2: DispatchAction,
)
    requires
        step_taken(
            DispatchPhase::Sending,
            DispatchEvent::Sent(SendOutcome::Unauthorized),
            opts,
            oauth2,
            next,
            action,
        ),
        step_taken(next, DispatchEvent::CacheRemoved, opts, oauth2, next2, action2),
    ensures
        action is RemoveCache,
        next2 is RestoringCache,
        action2 is RestoreCache,
{
}

/// A reply with status 401 drops the cached token so that the request is
/// tried again with a new one; a reply with any other status is handed
/// over and ends dispatch.
pub proof fn lemma_reply_status_decides(
    status: u16,
    opts: Opts,
    oauth2: OAuth2Config,
    next: DispatchPhase,
    action: DispatchAction,
)
    requires
        step_taken(
            DispatchPhase::Sending,
            DispatchEvent::Sent(reply_outcome(status)),
            opts,
            oauth2,
            next,
            action,
        ),
    ensures
        status == 401 ==> next is RemovingCache && action is RemoveCache,
        status != 401 ==> next is Finished && action is Deliver,
{
}

/// With no token cached, a password or client-credentials profile that has
/// the settings its grant needs asks the token endpoint for a token by its
/// own grant: the form names that grant and carries the profile's values,
/// and the request authenticates with the profile's client id and secret.
pub proof fn lemma_token_fetched_by_own_grant(
    opts: Opts,
    oauth2: OAuth2Config,
    next: DispatchPhase,
    action: DispatchAction,
)
    requires
        step_taken(
            DispatchPhase::RestoringCache,
            DispatchEvent::CacheRestored(None),
            opts,
            oauth2,
            next,
            action,
        ),
        oauth2.grant_type != GrantType::AuthorizationCode,
        oauth2.auth_server_token_endpoint is Some,
        oauth2.client_id is Some,
        oauth2.scopes is Some,
        oauth2.grant_type == GrantType::Password ==> oauth2.username is Some
            && oauth2.password is Some,
    ensures
        next is FetchingToken,
        action matches DispatchAction::FetchToken(req) && {
            &&& req@.endpoint == oauth2.auth_server_token_endpoint.unwrap()@
            &&& req@.client_id == oauth2.client_id.unwrap()@
            &&& req@.client_secret == match oauth2.client_secret {
                Some(s) => Some(s@),
                None => None::<Seq<char>>,
            }
            &&& req@.timeout_secs == opts.timeout
            &&& oauth2.grant_type == GrantType::Password ==> req@.form == seq![
                ("grant_type"@, "password"@),
                ("scope"@, oauth2.scopes.unwrap()@),
                ("username"@, oauth2.username.unwrap()@),
                ("password"@, oauth2.password.unwrap()@),
            ]
            &&& oauth2.grant_type == GrantType::ClientCredentials ==> req@.form == seq![
                ("grant_type"@, "client_credentials"@),
                ("scope"@, oauth2.scopes.unwrap()@),
            ]
        },
{
    crate::oauth2::lemma_required_settings(oauth2.grant_type, oauth2);
    crate::oauth2::lemma_token_request_forms(oauth2, Seq::empty(), opts.timeout);
}

/// Dispatch ends exactly with a delivered response, a printed command, or
/// a failure.
pub proof fn lemma_finish_actions(
    phase: DispatchPhase,
    event: DispatchEvent,
    opts: Opts,
    oauth2: OAuth2Config,
    next: DispatchPhase,
    action: DispatchAction,
)
    requires
        step_taken(phase, event, opts, oauth2, next, action),
    ensures
        next is Finished <==> (action is Deliver || action is EmitSnippet || action is Fail),
{
}

/// The authorization-code grant first sends the user to the authorization
/// endpoint and waits for the code at the redirect address, then asks for
/// the token with the code received.
pub proof fn lemma_authorization_code_flow(
    opts: Opts,
    oauth2: OAuth2Config,
    code: String,
    next: DispatchPhase,
    action: DispatchAction,
    next2: DispatchPhase,
    action2: DispatchAction,
)
    requires
        oauth2.grant_type == GrantType::AuthorizationCode,
        missing_authorization_setting(oauth2) is None,
        url_port_path(oauth2.redirect.unwrap()@) is Some,
        step_taken(
            DispatchPhase::RestoringCache,
            DispatchEvent::CacheRestored(None),
            opts,
            oauth2,
            next,
            action,
        ),
        step_taken(next, DispatchEvent::AuthCodeReceived(Ok(code)), opts, oauth2, next2, action2),
    ensures
        action matches DispatchAction::Authorize(step) && authorization_step_of(oauth2, step),
        next2 is FetchingToken,
        action2 matches DispatchAction::FetchToken(req) && req@.form[1] == ("code"@, code@),
{
}

} // verus!
