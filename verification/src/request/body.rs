//! The raw request body given on the command line.
use vstd::prelude::*;

use crate::oauth2::{opt_view, OAuth2Config};
use crate::options::Opts;
use crate::request::error::RequestError;
use crate::request::modifier::RequestModifier;
use crate::request::plan::RequestPlan;

verus! {

/// Sets the request body.
pub struct Body {}

/// The modifier that sets the request body.
pub fn body() -> Body {
    Body::new()
}

impl Body {
    pub fn new() -> Body {
        Body {}
    }
}

impl RequestModifier for Body {
    /// A body can be set on any request.
    open spec fn can_modify(&self, request: RequestPlan, opts: Opts, oauth2: OAuth2Config) -> bool {
        true
    }

    /// The request with the body of the command line, if one is given, and
    /// nothing else changed.
    open spec fn modified(
        &self,
        request: RequestPlan,
        opts: Opts,
        oauth2: OAuth2Config,
        r: Result<RequestPlan, RequestError>,
    ) -> bool {
        r matches Ok(res) && request.same_but_timeout_body(res) && res.timeout_secs
            == request.timeout_secs && opt_view(res.body) == match opts.data {
            Some(d) => Some(d@),
            None => opt_view(request.body),
        }
    }

    /// Sets the body given on the command line, if any.
    fn modify(self, request: RequestPlan, opts: &Opts, _oauth2: &OAuth2Config) -> (r: Result<
        RequestPlan,
        RequestError,
    >) {
        let mut request = request;
        if let Some(b) = &opts.data {
            request.body = Some(b.clone());
        }
        Ok(request)
    }
}

} // verus!
