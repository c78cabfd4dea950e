//! What the steps that shape a request have in common.
use vstd::prelude::*;

use crate::oauth2::OAuth2Config;
use crate::options::Opts;
use crate::request::error::RequestError;
use crate::request::plan::RequestPlan;

verus! {

/// A step that shapes the request from the command-line options and the
/// profile's settings.
pub trait RequestModifier: Sized {
    /// The inputs on which the step can be taken.
    spec fn can_modify(&self, request: RequestPlan, opts: Opts, oauth2: OAuth2Config) -> bool;

    /// Whether `r` is what the step gives on these inputs.
    spec fn modified(
        &self,
        request: RequestPlan,
        opts: Opts,
        oauth2: OAuth2Config,
        r: Result<RequestPlan, RequestError>,
    ) -> bool;

    /// Shapes the request, or says why it cannot be sent.
    fn modify(self, request: RequestPlan, opts: &Opts, oauth2: &OAuth2Config) -> (r: Result<
        RequestPlan,
        RequestError,
    >)
        requires
            self.can_modify(request, *opts, *oauth2),
        ensures
            self.modified(request, *opts, *oauth2, r),
    ;
}

} // verus!
