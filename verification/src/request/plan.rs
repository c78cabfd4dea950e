//! The request to be made, as plain values: what the request modifiers
//! build up before it is handed to the HTTP client.
use vstd::prelude::*;

use crate::request::headers::Headers;

verus! {

/// How the access token is presented.
pub enum AuthHeader {
    /// `Authorization: Bearer <token>`.
    Bearer(String),
    /// A header of the given name and value.
    Custom(String, String),
}

/// A request under construction.
pub struct RequestPlan {
    pub method: String,
    pub url: String,
    pub headers: Headers,
    pub auth: Option<AuthHeader>,
    pub timeout_secs: Option<u64>,
    pub body: Option<String>,
}

impl RequestPlan {
    /// A request with the given method and URL and nothing else set.
    pub fn new(method: String, url: String) -> (p: RequestPlan)
        ensures
            p.method == method,
            p.url == url,
            p.headers@ == Map::<Seq<char>, Seq<char>>::empty(),
            p.auth is None,
            p.timeout_secs is None,
            p.body is None,
    {
        RequestPlan {
            method,
            url,
            headers: Headers::with_capacity(0),
            auth: None,
            timeout_secs: None,
            body: None,
        }
    }

    /// `other` is this request with possibly other headers.
    pub open spec fn same_but_headers(self, other: RequestPlan) -> bool {
        &&& other.method == self.method
        &&& other.url == self.url
        &&& other.auth == self.auth
        &&& other.timeout_secs == self.timeout_secs
        &&& other.body == self.body
    }

    /// `other` is this request with possibly other authorization.
    pub open spec fn same_but_auth(self, other: RequestPlan) -> bool {
        &&& other.method == self.method
        &&& other.url == self.url
        &&& other.headers@ == self.headers@
        &&& other.timeout_secs == self.timeout_secs
        &&& other.body == self.body
    }

    /// `other` is this request with possibly another timeout and body.
    pub open spec fn same_but_timeout_body(self, other: RequestPlan) -> bool {
        &&& other.method == self.method
        &&& other.url == self.url
        &&& other.headers@ == self.headers@
        &&& other.auth == self.auth
    }
}

} // verus!
