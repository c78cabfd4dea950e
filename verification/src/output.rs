//! Rendering a request as a curl command line.
use vstd::prelude::*;

use crate::oauth2::pairs_view;
use crate::text::{concat, join, joined, lowercase, str_eq, to_lowercase, views};

verus! {

/// What to do with the prepared request.
#[derive(Debug, Clone, Copy, PartialEq, Eq, Structural)]
pub enum Type {
    /// Print it as a curl command instead of sending it.
    Curl,
    /// Send it.
    NoOutput,
}

/// The output type that a (lower-cased) name selects.
pub open spec fn type_named(lower: Seq<char>) -> Option<Type> {
    if lower == "curl"@ {
        Some(Type::Curl)
    } else if lower == "none"@ {
        Some(Type::NoOutput)
    } else {
        None
    }
}

impl Type {
    /// Reads an output type, ignoring case: `curl` or `none`.
    pub fn parse(s: &str) -> (r: Result<Type, String>)
        ensures
            match r {
                Ok(t) => type_named(lowercase(s@)) == Some(t),
                Err(m) => type_named(lowercase(s@)) is None && m@ == "UnknownType"@,
            },
    {
        let lower = to_lowercase(s);
        if str_eq(lower.as_str(), "curl") {
            Ok(Type::Curl)
        } else if str_eq(lower.as_str(), "none") {
            Ok(Type::NoOutput)
        } else {
            Err(crate::text::owned("UnknownType"))
        }
    }
}

impl core::str::FromStr for Type {
    type Err = String;

    fn from_str(s: &str) -> (r: Result<Type, String>)
        ensures
            match r {
                Ok(t) => type_named(lowercase(s@)) == Some(t),
                Err(m) => type_named(lowercase(s@)) is None && m@ == "UnknownType"@,
            },
    {
        Type::parse(s)
    }
}

/// What a curl command is made from: the method, the headers in the order
/// the request holds them, and the URL.
pub struct RequestSnapshot {
    pub method: String,
    pub headers: Vec<(String, String)>,
    pub url: String,
}

/// The `-H "NAME: VALUE"` argument of one header.
pub open spec fn header_flag(h: (Seq<char>, Seq<char>)) -> Seq<char> {
    "-H \""@ + h.0 + ": "@ + h.1 + "\""@
}

/// `curl -X METHOD -H "NAME: VALUE" ... URL`, header arguments separated by
/// single spaces.
pub open spec fn curl_command(
    method: Seq<char>,
    headers: Seq<(Seq<char>, Seq<char>)>,
    url: Seq<char>,
) -> Seq<char> {
    "curl "@ + ("-X "@ + method) + " "@ + joined(headers.map_values(|h| header_flag(h)), " "@)
        + " "@ + url
}

/// A way of rendering a request as text.
pub trait Output {
    /// The text for a request.
    spec fn rendered(req: &RequestSnapshot) -> Seq<char>;

    fn output(req: &RequestSnapshot) -> (s: String)
        ensures
            s@ == Self::rendered(req),
    ;
}

/// Renders a request as a curl command.
pub struct Curl {}

impl Output for Curl {
    open spec fn rendered(req: &RequestSnapshot) -> Seq<char> {
        curl_command(req.method@, pairs_view(req.headers@), req.url@)
    }

    fn output(req: &RequestSnapshot) -> (s: String) {
        let ghost hv = pairs_view(req.headers@);
        let mut flags: Vec<String> = Vec::new();
        let mut i: usize = 0;
        while i < req.headers.len()
            invariant
                i <= req.headers.len(),
                hv == pairs_view(req.headers@),
                views(flags@) == hv.take(i as int).map_values(|h| header_flag(h)),
            decreases req.headers.len() - i,
        {
            let a = concat("-H \"", req.headers[i].0.as_str());
            let b = concat(a.as_str(), ": ");
            let c = concat(b.as_str(), req.headers[i].1.as_str());
            let d = concat(c.as_str(), "\"");
            proof {
                assert(hv[i as int] == (req.headers@[i as int].0@, req.headers@[i as int].1@));
                assert(views(flags@.push(d)) =~= views(flags@).push(d@));
                assert(hv.take(i + 1).map_values(|h| header_flag(h)) =~= hv.take(
                    i as int,
                ).map_values(|h| header_flag(h)).push(header_flag(hv[i as int])));
            }
            flags.push(d);
            i += 1;
        }
        assert(hv.take(i as int) =~= hv);
        let method = concat("-X ", req.method.as_str());
        let head = concat("curl ", method.as_str());
        let head = concat(head.as_str(), " ");
        let hs = join(&flags, " ");
        let s = concat(head.as_str(), hs.as_str());
        let s = concat(s.as_str(), " ");
        concat(s.as_str(), req.url.as_str())
    }
}

} // verus!
