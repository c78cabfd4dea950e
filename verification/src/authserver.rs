//! The local redirect endpoint of the authorization-code flow: reading the
//! authorization code out of the first line of the HTTP request that the
//! browser sends back, and the reply that acknowledges it.
use vstd::prelude::*;

use crate::text::{concat, split_char, split_whitespace, str_eq, split_on, views, ws_tokens};

verus! {

/// What the `regex` crate captures as group `group` when `pattern` is
/// compiled and run on `haystack`: `None` when the pattern does not compile,
/// `Some(None)` when there is no match or the group did not take part in it.
pub uninterp spec fn regex_group(
    pattern: Seq<char>,
    haystack: Seq<char>,
    group: Seq<char>,
) -> Option<Option<Seq<char>>>;

/// The view of a doubly optional string.
pub open spec fn option2_view(o: Option<Option<String>>) -> Option<Option<Seq<char>>> {
    match o {
        None => None,
        Some(None) => Some(None),
        Some(Some(s)) => Some(Some(s@)),
    }
}

/// Calls `regex::Regex::new(pattern)`, then `captures(haystack)` and
/// `name(group)` on the result, and copies the matched text. The contract
/// only names the result (a function of the three arguments alone); the
/// regular-expression semantics are not restated.
#[verifier::external_body]
fn regex_capture(pattern: &str, haystack: &str, group: &str) -> (res: Option<Option<String>>)
    ensures
        option2_view(res) == regex_group(pattern@, haystack@, group@),
{
    match regex::Regex::new(pattern) {
        Ok(re) => match re.captures(haystack) {
            Some(caps) => match caps.name(group) {
                Some(m) => Some(Some(m.as_str().to_string())),
                None => Some(None),
            },
            None => Some(None),
        },
        Err(_) => None,
    }
}

/// The pattern that finds the authorization code in a callback path: the
/// text after the first `code=` up to the last `&`.
pub open spec fn auth_code_pattern() -> Seq<char> {
    ".*?code=(?P<code>.+)&"@
}

/// The code that the callback pattern captures in `path`, if any.
pub open spec fn captured_code(path: Seq<char>) -> Option<Seq<char>> {
    match regex_group(auth_code_pattern(), path, "code"@) {
        Some(Some(code)) => Some(code),
        _ => None,
    }
}

/// The authorization code that the callback pattern captures in `path`.
pub fn capture_auth_code(path: &str) -> (code: Option<String>)
    ensures
        match code {
            Some(c) => captured_code(path@) == Some(c@),
            None => captured_code(path@) is None,
        },
{
    match regex_capture(".*?code=(?P<code>.+)&", path, "code") {
        Some(Some(c)) => Some(c),
        _ => None,
    }
}

/// What the first line of a callback request yields: the authorization
/// code, or the reason it was refused.
pub open spec fn auth_code_outcome(line: Seq<char>, expected_path: Seq<char>) -> Result<
    Seq<char>,
    Seq<char>,
> {
    let tokens = ws_tokens(line);
    if tokens.len() >= 2 && tokens[0] == "GET"@ {
        let path = tokens[1];
        if split_on(path, '?')[0] != expected_path {
            Err("Unexpected callback path"@)
        } else {
            match captured_code(path) {
                Some(code) => Ok(code),
                None => Err("failed capture auth_code"@),
            }
        }
    } else {
        Err("Unknown Http Method."@)
    }
}

/// The request target `target` asks for the callback path `expected`: it
/// is `expected` itself, or `expected` followed by a query after `?`
/// (`expected` holding no `?`).
pub open spec fn targets_path(target: Seq<char>, expected: Seq<char>) -> bool {
    &&& expected.len() <= target.len()
    &&& target.take(expected.len() as int) == expected
    &&& forall|j: int| 0 <= j < expected.len() ==> expected[j] != '?'
    &&& (target.len() == expected.len() || target[expected.len() as int] == '?')
}

/// A callback is accepted only on the exact callback path: a `GET` request
/// whose target is not the expected path (with or without a query) is
/// refused as `Unexpected callback path`, and an accepted one always has
/// the expected path.
pub proof fn lemma_callback_path_exact(line: Seq<char>, expected: Seq<char>)
    ensures
        auth_code_outcome(line, expected) is Ok ==> ws_tokens(line).len() >= 2 && ws_tokens(line)[0]
            == "GET"@ && targets_path(ws_tokens(line)[1], expected),
        ws_tokens(line).len() >= 2 && ws_tokens(line)[0] == "GET"@ && !targets_path(
            ws_tokens(line)[1],
            expected,
        ) ==> auth_code_outcome(line, expected) == Err::<Seq<char>, Seq<char>>(
            "Unexpected callback path"@,
        ),
{
    lemma_callback_path_cases(line, expected);
}

/// The outcome of a callback line, case by case: a line that is not a
/// `GET` with a target is refused as `Unknown Http Method.`; a `GET` of the
/// callback path gives the code captured in its target, or
/// `failed capture auth_code` when none is.
pub proof fn lemma_callback_outcomes(line: Seq<char>, expected: Seq<char>)
    ensures
        !(ws_tokens(line).len() >= 2 && ws_tokens(line)[0] == "GET"@) ==> auth_code_outcome(
            line,
            expected,
        ) == Err::<Seq<char>, Seq<char>>("Unknown Http Method."@),
        ws_tokens(line).len() >= 2 && ws_tokens(line)[0] == "GET"@ && targets_path(
            ws_tokens(line)[1],
            expected,
        ) ==> auth_code_outcome(line, expected) == match captured_code(ws_tokens(line)[1]) {
            Some(code) => Ok::<Seq<char>, Seq<char>>(code),
            None => Err::<Seq<char>, Seq<char>>("failed capture auth_code"@),
        },
{
    lemma_callback_path_cases(line, expected);
}

/// The first piece of the target before `?` is the callback path exactly
/// when the target asks for it.
proof fn lemma_callback_path_cases(line: Seq<char>, expected: Seq<char>)
    ensures
        ws_tokens(line).len() >= 2 ==> ((split_on(ws_tokens(line)[1], '?')[0] == expected)
            == targets_path(ws_tokens(line)[1], expected)),
{
    let tokens = ws_tokens(line);
    if tokens.len() >= 2 {
        let p = tokens[1];
        crate::text::lemma_split_on_first(p, '?');
        let f = split_on(p, '?')[0];
        if f == expected {
            assert(targets_path(p, expected));
        }
        if targets_path(p, expected) {
            if f.len() < expected.len() {
                assert(expected[f.len() as int] == p[f.len() as int]);
            } else if f.len() > expected.len() {
                assert(f[expected.len() as int] == p[expected.len() as int]);
            }
            assert(f =~= expected);
        }
    }
}

/// Reads the authorization code out of a request line such as
/// `GET /callback?code=XXXX&state=YYYY HTTP/1.1`. The method must be `GET`
/// and the path before `?` must be `expected_path`.
pub fn split_auth_code(first_line: &str, expected_path: &str) -> (res: Result<String, &'static str>)
    ensures
        match res {
            Ok(code) => auth_code_outcome(first_line@, expected_path@) == Ok::<Seq<char>, Seq<char>>(code@),
            Err(msg) => auth_code_outcome(first_line@, expected_path@) == Err::<Seq<char>, Seq<char>>(msg@),
        },
{
    let tokens = split_whitespace(first_line);
    proof {
        assert(views(tokens@).len() == tokens@.len());
    }
    if tokens.len() >= 2 && str_eq(tokens[0].as_str(), "GET") {
        assert(views(tokens@)[0] == tokens@[0]@);
        assert(views(tokens@)[1] == tokens@[1]@);
        let path = tokens[1].as_str();
        let pieces = split_char(path, '?');
        proof {
            crate::text::lemma_split_on_len(path@, '?');
            assert(views(pieces@)[0] == pieces@[0]@);
        }
        if !str_eq(pieces[0].as_str(), expected_path) {
            return Err("Unexpected callback path");
        }
        match capture_auth_code(path) {
            Some(code) => Ok(code),
            None => Err("failed capture auth_code"),
        }
    } else {
        if tokens.len() >= 1 {
            assert(views(tokens@)[0] == tokens@[0]@);
        }
        Err("Unknown Http Method.")
    }
}

/// The reply sent to the browser once the code has been received.
pub open spec fn auth_code_response(code: Seq<char>) -> Seq<char> {
    "HTTP/1.1 200 OK\nContent-Type: text/plain; charset=UTF-8\r\n\nauth_code="@ + code + "\n"@
}

/// An accepted callback: the authorization code and the reply to send.
pub struct AuthCodeReply {
    pub code: String,
    pub response: String,
}

/// The local server that receives the authorization code: the port it
/// listens on and the callback path it accepts.
pub struct AuthCodeServer {
    port: u16,
    path: String,
}

impl View for AuthCodeServer {
    type V = (u16, Seq<char>);

    closed spec fn view(&self) -> (u16, Seq<char>) {
        (self.port, self.path@)
    }
}

impl AuthCodeServer {
    pub fn new(port: u16, path: String) -> (s: AuthCodeServer)
        ensures
            s@ == (port, path@),
    {
        AuthCodeServer { port, path }
    }

    /// The port to listen on.
    pub fn port(&self) -> (p: u16)
        ensures
            p == self@.0,
    {
        self.port
    }

    /// The callback path that is accepted.
    pub fn path(&self) -> (p: &str)
        ensures
            p@ == self@.1,
    {
        self.path.as_str()
    }

    /// Handles the first line of the one request the server receives: on
    /// success the code and the reply to write back, otherwise the reason
    /// the request was refused.
    pub fn answer(&self, first_line: &str) -> (res: Result<AuthCodeReply, &'static str>)
        ensures
            match res {
                Ok(reply) => auth_code_outcome(first_line@, self@.1) == Ok::<Seq<char>, Seq<char>>(
                    reply.code@,
                ) && reply.response@ == auth_code_response(reply.code@),
                Err(msg) => auth_code_outcome(first_line@, self@.1) == Err::<Seq<char>, Seq<char>>(
                    msg@,
                ),
            },
    {
        match split_auth_code(first_line, self.path.as_str()) {
            Ok(code) => {
                let head = concat(
                    "HTTP/1.1 200 OK\nContent-Type: text/plain; charset=UTF-8\r\n\nauth_code=",
                    code.as_str(),
                );
                let response = concat(head.as_str(), "\n");
                Ok(AuthCodeReply { code, response })
            },
            Err(msg) => Err(msg),
        }
    }
}

} // verus!
