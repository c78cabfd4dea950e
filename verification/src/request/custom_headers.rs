//! The extra headers of a request: those given on the command line, and the
//! profile's defaults for `user-agent` and `content-type`.
use vstd::prelude::*;

use crate::oauth2::{clone_opt, opt_view, OAuth2Config};
use crate::options::Opts;
use crate::request::error::RequestError;
use crate::request::headers::{map_valid, with_default, Headers};
use crate::request::modifier::RequestModifier;
use crate::request::plan::RequestPlan;
use crate::text::{owned, split_once, split_once_at, views};
use crate::version::{agent_name, name};

verus! {

/// The headers written `NAME:VALUE` on the command line, set in order: each
/// entry is split at its first `:`; an entry without one is skipped.
pub open spec fn option_headers(hs: Seq<Seq<char>>) -> Map<Seq<char>, Seq<char>>
    decreases hs.len(),
{
    if hs.len() == 0 {
        Map::empty()
    } else {
        let m = option_headers(hs.drop_last());
        match split_once_at(hs.last(), ':') {
            Some((name, value)) => m.insert(name, value),
            None => m,
        }
    }
}

/// The extra headers: those from the command line, then `user-agent` (the
/// profile's default or the program name) and `content-type` (the
/// profile's default, if any) where the command line set none.
pub open spec fn custom_header_map(
    hs: Seq<Seq<char>>,
    user_agent: Option<Seq<char>>,
    content_type: Option<Seq<char>>,
) -> Map<Seq<char>, Seq<char>> {
    let with_agent = with_default(
        option_headers(hs),
        "user-agent"@,
        match user_agent {
            Some(a) => a,
            None => agent_name(),
        },
    );
    match content_type {
        Some(c) => with_default(with_agent, "content-type"@, c),
        None => with_agent,
    }
}

/// The extra headers of a request as `opts` and the profile give them.
pub open spec fn headers_for(opts: Opts, oauth2: OAuth2Config) -> Map<Seq<char>, Seq<char>> {
    custom_header_map(
        views(opts.header@),
        opt_view(oauth2.default_user_agent),
        opt_view(oauth2.default_content_type),
    )
}

/// Sets the extra headers of a request.
pub struct CustomHeaders {}

/// The modifier that sets the extra headers.
pub fn custom_headers() -> CustomHeaders {
    CustomHeaders {}
}

impl CustomHeaders {
    /// The headers written `NAME:VALUE` on the command line.
    pub fn from_options(header: &Vec<String>) -> (h: Headers)
        ensures
            h@ == option_headers(views(header@)),
    {
        let mut h = Headers::with_capacity(header.len());
        let ghost hv = views(header@);
        let mut i: usize = 0;
        assert(hv.take(0) =~= Seq::<Seq<char>>::empty());
        while i < header.len()
            invariant
                i <= header.len(),
                hv == views(header@),
                h@ == option_headers(hv.take(i as int)),
            decreases header.len() - i,
        {
            assert(hv.take(i + 1).drop_last() =~= hv.take(i as int));
            assert(hv[i as int] == header@[i as int]@);
            if let Some((name, value)) = split_once(header[i].as_str(), ':') {
                h.add(name, value);
            }
            i += 1;
        }
        assert(hv.take(header.len() as int) =~= hv);
        h
    }

    /// The extra headers of a request.
    pub fn headers(&self, opts: &Opts, oauth2: &OAuth2Config) -> (h: Headers)
        ensures
            h@ == headers_for(*opts, *oauth2),
    {
        let mut h = CustomHeaders::from_options(&opts.header);
        let agent = match &oauth2.default_user_agent {
            Some(a) => a.clone(),
            None => name(),
        };
        h.add_if_absent(owned("user-agent"), agent);
        h.add_if_absent_opt(owned("content-type"), clone_opt(&oauth2.default_content_type));
        h
    }
}

impl RequestModifier for CustomHeaders {
    /// The extra headers can be set on any request.
    open spec fn can_modify(&self, request: RequestPlan, opts: Opts, oauth2: OAuth2Config) -> bool {
        true
    }

    /// The extra headers are set over those of the request, or, when one of
    /// them is not a valid header, the request is refused.
    open spec fn modified(
        &self,
        request: RequestPlan,
        opts: Opts,
        oauth2: OAuth2Config,
        r: Result<RequestPlan, RequestError>,
    ) -> bool {
        &&& valid_custom_headers(opts, oauth2) ==> (r matches Ok(req) && request.same_but_headers(req)
            && req.headers@ == request.headers@.union_prefer_right(headers_for(opts, oauth2)))
        &&& !valid_custom_headers(opts, oauth2) ==> (r matches Err(e) && e is InvalidHeader)
    }

    /// Sets the extra headers on the request; fails when one of them is not
    /// a valid header.
    fn modify(self, request: RequestPlan, opts: &Opts, oauth2: &OAuth2Config) -> (r: Result<
        RequestPlan,
        RequestError,
    >) {
        let h = self.headers(opts, oauth2);
        h.modify(request)
    }
}

/// Every extra header has a valid name and value.
pub open spec fn valid_custom_headers(opts: Opts, oauth2: OAuth2Config) -> bool {
    map_valid(headers_for(opts, oauth2))
}

/// A header given on the command line is never replaced by a profile
/// default.
pub proof fn lemma_command_line_header_wins(
    hs: Seq<Seq<char>>,
    user_agent: Option<Seq<char>>,
    content_type: Option<Seq<char>>,
    name: Seq<char>,
)
    requires
        option_headers(hs).contains_key(name),
    ensures
        custom_header_map(hs, user_agent, content_type).contains_key(name),
        custom_header_map(hs, user_agent, content_type)[name] == option_headers(hs)[name],
{
}

/// The entry `hs[i]` names header `name`: it splits at its first `:` into
/// `name` and some value.
pub open spec fn names_header(hs: Seq<Seq<char>>, i: int, name: Seq<char>) -> bool {
    split_once_at(hs[i], ':') matches Some(p) && p.0 == name
}

/// The header given last on the command line wins: when the last entry
/// that names `name` splits into `name` and `value`, the headers map `name`
/// to `value`, whatever the earlier entries for `name` said; and a name
/// that no entry gives is not set.
pub proof fn lemma_last_header_wins(hs: Seq<Seq<char>>, name: Seq<char>, value: Seq<char>, i: int)
    requires
        0 <= i < hs.len(),
        split_once_at(hs[i], ':') == Some((name, value)),
        forall|j: int| i < j < hs.len() ==> !names_header(hs, j, name),
    ensures
        option_headers(hs).contains_key(name),
        option_headers(hs)[name] == value,
    decreases hs.len(),
{
    let d = hs.drop_last();
    if i < hs.len() - 1 {
        assert(!names_header(hs, hs.len() - 1, name));
        assert forall|j: int| i < j < d.len() implies !names_header(d, j, name) by {
            assert(d[j] == hs[j]);
            assert(!names_header(hs, j, name));
        }
        lemma_last_header_wins(d, name, value, i);
    }
}

/// A header that no command-line entry names is not among them.
pub proof fn lemma_unnamed_header_absent(hs: Seq<Seq<char>>, name: Seq<char>)
    requires
        forall|j: int| 0 <= j < hs.len() ==> !names_header(hs, j, name),
    ensures
        !option_headers(hs).contains_key(name),
    decreases hs.len(),
{
    if hs.len() > 0 {
        let d = hs.drop_last();
        assert(!names_header(hs, hs.len() - 1, name));
        assert forall|j: int| 0 <= j < d.len() implies !names_header(d, j, name) by {
            assert(d[j] == hs[j]);
            assert(!names_header(hs, j, name));
        }
        lemma_unnamed_header_absent(d, name);
    }
}

/// So the request's extra headers carry, for every header named on the
/// command line, the value of the last entry that names it.
pub proof fn lemma_request_header_from_last_entry(
    opts: Opts,
    oauth2: OAuth2Config,
    name: Seq<char>,
    value: Seq<char>,
    i: int,
)
    requires
        0 <= i < opts.header.len(),
        split_once_at(opts.header@[i]@, ':') == Some((name, value)),
        forall|j: int| i < j < opts.header.len() ==> !names_header(views(opts.header@), j, name),
    ensures
        headers_for(opts, oauth2).contains_key(name),
        headers_for(opts, oauth2)[name] == value,
{
    let hs = views(opts.header@);
    assert(hs[i] == opts.header@[i]@);
    lemma_last_header_wins(hs, name, value, i);
}

/// Every request carries a user agent: the one given on the command line,
/// else the profile's default, else the program's name.
pub proof fn lemma_user_agent_always_set(
    hs: Seq<Seq<char>>,
    user_agent: Option<Seq<char>>,
    content_type: Option<Seq<char>>,
)
    ensures
        custom_header_map(hs, user_agent, content_type).contains_key("user-agent"@),
        !option_headers(hs).contains_key("user-agent"@) ==> custom_header_map(
            hs,
            user_agent,
            content_type,
        )["user-agent"@] == match user_agent {
            Some(a) => a,
            None => agent_name(),
        },
{
    reveal_strlit("user-agent");
    reveal_strlit("content-type");
    assert("user-agent"@ != "content-type"@) by {
        assert("user-agent"@[0] != "content-type"@[0]);
    }
}

/// A `content-type` is set exactly when the command line or the profile
/// gives one.
pub proof fn lemma_content_type_only_when_given(
    hs: Seq<Seq<char>>,
    user_agent: Option<Seq<char>>,
    content_type: Option<Seq<char>>,
)
    ensures
        custom_header_map(hs, user_agent, content_type).contains_key("content-type"@) <==> (
        option_headers(hs).contains_key("content-type"@) || content_type is Some),
{
    reveal_strlit("user-agent");
    reveal_strlit("content-type");
    assert("user-agent"@ != "content-type"@) by {
        assert("user-agent"@[0] != "content-type"@[0]);
    }
}

} // verus!
