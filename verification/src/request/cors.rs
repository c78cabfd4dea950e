//! Which redirects are followed: only to the origin of the first request,
//! and at most five times; a longer chain is an error.
use vstd::prelude::*;

verus! {

/// What to do with a redirect.
#[derive(Debug, Clone, Copy, PartialEq, Eq, Structural)]
pub enum RedirectVerdict {
    /// Follow it.
    Follow,
    /// Do not follow it; the redirect response is the answer.
    Stop,
    /// The chain is too long: the request fails.
    TooMany,
}

/// The most requests that may precede a followed redirect.
pub open spec fn redirect_limit() -> usize {
    5
}

/// A redirect is followed when at least one and at most five requests came
/// before it and it leads to the origin of the first request.
pub open spec fn follows(previous: usize, same_origin_as_first: bool) -> bool {
    0 < previous <= redirect_limit() && same_origin_as_first
}

/// What is done with a redirect: with no request before it, it is not
/// followed; after more than five requests the chain fails; a redirect to
/// another origin is not followed; any other is followed.
pub open spec fn verdict(previous: usize, same_origin_as_first: bool) -> RedirectVerdict {
    if previous == 0 {
        RedirectVerdict::Stop
    } else if previous > redirect_limit() {
        RedirectVerdict::TooMany
    } else if !same_origin_as_first {
        RedirectVerdict::Stop
    } else {
        RedirectVerdict::Follow
    }
}

/// Decides a redirect from the number of requests made so far (the first
/// one included) and whether the target has the origin of the first
/// request.
pub fn redirect_verdict(previous: usize, same_origin_as_first: bool) -> (v: RedirectVerdict)
    ensures
        v == verdict(previous, same_origin_as_first),
        (v == RedirectVerdict::Follow) == follows(previous, same_origin_as_first),
{
    if previous == 0 {
        RedirectVerdict::Stop
    } else if previous > 5 {
        RedirectVerdict::TooMany
    } else if !same_origin_as_first {
        RedirectVerdict::Stop
    } else {
        RedirectVerdict::Follow
    }
}

/// Whether two URLs have the same origin as the `url` crate decides it
/// (scheme, host and port for http(s), ws(s) and ftp); false when either
/// does not parse, and for URLs whose origin is opaque.
pub uninterp spec fn urls_same_origin(first: Seq<char>, target: Seq<char>) -> bool;

/// Calls `reqwest::Url::parse` on both URLs and compares their `origin()`.
/// The contract names the result, a function of the two URLs (an opaque
/// origin is made anew on each call and equals no other); the origin rules
/// are not restated.
#[verifier::external_body]
fn same_origin(first: &str, target: &str) -> (b: bool)
    ensures
        b == urls_same_origin(first@, target@),
{
    match (reqwest::Url::parse(first), reqwest::Url::parse(target)) {
        (Ok(a), Ok(b)) => a.origin() == b.origin(),
        _ => false,
    }
}

/// Whether a redirect target has the origin of the first request; with no
/// first request it has not.
pub open spec fn target_same_origin(first_url: Option<&str>, target_url: &str) -> bool {
    match first_url {
        Some(f) => urls_same_origin(f@, target_url@),
        None => false,
    }
}

/// Decides a redirect from the number of requests made so far, the URL of
/// the first of them (none when none was made) and the redirect's target.
pub fn redirect_decision(previous: usize, first_url: Option<&str>, target_url: &str) -> (v:
    RedirectVerdict)
    ensures
        v == verdict(previous, target_same_origin(first_url, target_url)),
{
    let same = match first_url {
        Some(f) => same_origin(f, target_url),
        None => false,
    };
    redirect_verdict(previous, same)
}

/// A chain of more than five requests fails, wherever it leads.
pub proof fn lemma_redirect_limit(previous: usize, same_origin_as_first: bool)
    requires
        previous > redirect_limit(),
    ensures
        !follows(previous, same_origin_as_first),
        verdict(previous, same_origin_as_first) == RedirectVerdict::TooMany,
{
}

/// A redirect to another origin is never followed; within the limit it is
/// ignored rather than failing the request.
pub proof fn lemma_no_cross_origin(previous: usize)
    ensures
        !follows(previous, false),
        previous <= redirect_limit() ==> verdict(previous, false) == RedirectVerdict::Stop,
{
}

} // verus!
