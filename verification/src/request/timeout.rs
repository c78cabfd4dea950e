//! The request timeout given on the command line.
use vstd::prelude::*;

use crate::oauth2::OAuth2Config;
use crate::options::Opts;
use crate::request::error::RequestError;
use crate::request::modifier::RequestModifier;
use crate::request::plan::RequestPlan;

verus! {

/// Sets the request timeout.
pub struct Timeout {}

/// The modifier that sets the request timeout.
pub fn timeout() -> Timeout {
    Timeout::new()
}

impl Timeout {
    pub fn new() -> Timeout {
        Timeout {}
    }
}

impl RequestModifier for Timeout {
    /// A timeout can be set on any request.
    open spec fn can_modify(&self, request: RequestPlan, opts: Opts, oauth2: OAuth2Config) -> bool {
        true
    }

    /// The request with the timeout of the command line, and nothing else
    /// changed.
    open spec fn modified(
        &self,
        request: RequestPlan,
        opts: Opts,
        oauth2: OAuth2Config,
        r: Result<RequestPlan, RequestError>,
    ) -> bool {
        r matches Ok(res) && request.same_but_timeout_body(res) && res.body == request.body
            && res.timeout_secs == Some(opts.timeout)
    }

    /// Sets the timeout, in seconds, given on the command line.
    fn modify(self, request: RequestPlan, opts: &Opts, _oauth2: &OAuth2Config) -> (r: Result<
        RequestPlan,
        RequestError,
    >) {
        let mut request = request;
        request.timeout_secs = Some(opts.timeout);
        Ok(request)
    }
}

} // verus!
