//! A set of request headers: each name at most once, in the order the names
//! were first added.
use vstd::prelude::*;

use crate::oauth2::pairs_view;
use crate::request::error::RequestError;
use crate::request::plan::RequestPlan;
use crate::text::str_eq;

verus! {

/// No name occurs twice.
pub open spec fn names_unique(s: Seq<(Seq<char>, Seq<char>)>) -> bool {
    forall|i: int, j: int| 0 <= i < j < s.len() ==> s[i].0 != s[j].0
}

/// The map from names to values that a list of headers holds (a later
/// entry for a name replaces an earlier one).
pub open spec fn as_map(s: Seq<(Seq<char>, Seq<char>)>) -> Map<Seq<char>, Seq<char>>
    decreases s.len(),
{
    if s.len() == 0 {
        Map::empty()
    } else {
        as_map(s.drop_last()).insert(s.last().0, s.last().1)
    }
}

/// `m` with `value` for `name`, unless `name` is already there.
pub open spec fn with_default(m: Map<Seq<char>, Seq<char>>, name: Seq<char>, value: Seq<char>) -> Map<
    Seq<char>,
    Seq<char>,
> {
    if m.contains_key(name) {
        m
    } else {
        m.insert(name, value)
    }
}

proof fn lemma_as_map_dom(s: Seq<(Seq<char>, Seq<char>)>, k: Seq<char>)
    ensures
        as_map(s).contains_key(k) <==> exists|i: int| 0 <= i < s.len() && s[i].0 == k,
    decreases s.len(),
{
    if s.len() > 0 {
        lemma_as_map_dom(s.drop_last(), k);
        if as_map(s).contains_key(k) && s.last().0 != k {
            let i = choose|i: int| 0 <= i < s.drop_last().len() && s.drop_last()[i].0 == k;
            assert(s[i].0 == k);
        }
        if exists|i: int| 0 <= i < s.len() && s[i].0 == k {
            let i = choose|i: int| 0 <= i < s.len() && s[i].0 == k;
            if i < s.len() - 1 {
                assert(s.drop_last()[i].0 == k);
            }
        }
    }
}

proof fn lemma_as_map_value(s: Seq<(Seq<char>, Seq<char>)>, i: int)
    requires
        names_unique(s),
        0 <= i < s.len(),
    ensures
        as_map(s).contains_key(s[i].0),
        as_map(s)[s[i].0] == s[i].1,
    decreases s.len(),
{
    if i < s.len() - 1 {
        assert(s.drop_last()[i] == s[i]);
        lemma_as_map_value(s.drop_last(), i);
    }
}

proof fn lemma_as_map_update(s: Seq<(Seq<char>, Seq<char>)>, i: int, v: Seq<char>)
    requires
        names_unique(s),
        0 <= i < s.len(),
    ensures
        names_unique(s.update(i, (s[i].0, v))),
        as_map(s.update(i, (s[i].0, v))) == as_map(s).insert(s[i].0, v),
{
    let t = s.update(i, (s[i].0, v));
    assert(names_unique(t));
    assert forall|k: Seq<char>| as_map(t).contains_key(k) <==> as_map(s).insert(
        s[i].0,
        v,
    ).contains_key(k) by {
        lemma_as_map_dom(s, k);
        lemma_as_map_dom(t, k);
        if exists|j: int| 0 <= j < s.len() && s[j].0 == k {
            let j = choose|j: int| 0 <= j < s.len() && s[j].0 == k;
            assert(t[j].0 == k);
        }
        if exists|j: int| 0 <= j < t.len() && t[j].0 == k {
            let j = choose|j: int| 0 <= j < t.len() && t[j].0 == k;
            assert(s[j].0 == k);
        }
    }
    assert forall|k: Seq<char>| #[trigger] as_map(t).contains_key(k) implies as_map(t)[k] == as_map(
        s,
    ).insert(s[i].0, v)[k] by {
        lemma_as_map_dom(t, k);
        let j = choose|j: int| 0 <= j < t.len() && t[j].0 == k;
        lemma_as_map_value(t, j);
        if j != i {
            lemma_as_map_value(s, j);
        }
    }
    assert(as_map(t) =~= as_map(s).insert(s[i].0, v));
}

proof fn lemma_as_map_push(s: Seq<(Seq<char>, Seq<char>)>, k: Seq<char>, v: Seq<char>)
    requires
        names_unique(s),
        !as_map(s).contains_key(k),
    ensures
        names_unique(s.push((k, v))),
        as_map(s.push((k, v))) == as_map(s).insert(k, v),
{
    assert(s.push((k, v)).drop_last() =~= s);
    assert forall|i: int, j: int| 0 <= i < j < s.push((k, v)).len() implies s.push((k, v))[i].0
        != s.push((k, v))[j].0 by {
        if j == s.len() {
            lemma_as_map_dom(s, k);
            assert(s[i].0 != k);
        }
    }
}

/// The value of the header `name` (`HashMap::get`).
pub open spec fn header_value(m: Map<Seq<char>, Seq<char>>, name: Seq<char>) -> Option<Seq<char>> {
    if m.contains_key(name) {
        Some(m[name])
    } else {
        None
    }
}

/// Request headers: each name at most once.
pub struct Headers {
    entries: Vec<(String, String)>,
}

impl View for Headers {
    type V = Map<Seq<char>, Seq<char>>;

    closed spec fn view(&self) -> Map<Seq<char>, Seq<char>> {
        as_map(pairs_view(self.entries@))
    }
}

impl Headers {
    #[verifier::type_invariant]
    spec fn unique(self) -> bool {
        names_unique(pairs_view(self.entries@))
    }

    /// The headers as a list of pairs, in the order their names were first
    /// added.
    pub closed spec fn pairs(self) -> Seq<(Seq<char>, Seq<char>)> {
        pairs_view(self.entries@)
    }

    /// An empty set of headers with room for `cap` of them.
    pub fn with_capacity(cap: usize) -> (h: Headers)
        ensures
            h@ == Map::<Seq<char>, Seq<char>>::empty(),
    {
        let h = Headers { entries: Vec::with_capacity(cap) };
        assert(pairs_view(h.entries@) =~= Seq::<(Seq<char>, Seq<char>)>::empty());
        h
    }

    /// The headers as name/value pairs, each name once.
    pub fn entries(&self) -> (e: &Vec<(String, String)>)
        ensures
            pairs_view(e@) == self.pairs(),
            names_unique(self.pairs()),
            as_map(self.pairs()) == self@,
    {
        proof {
            use_type_invariant(self);
        }
        &self.entries
    }

    /// The number of distinct names.
    pub fn len(&self) -> (n: usize)
        ensures
            n == self.pairs().len(),
    {
        self.entries.len()
    }

    /// Where `name` stands in the list, if it is there.
    fn position(&self, name: &str) -> (r: Option<usize>)
        ensures
            match r {
                Some(i) => i < self.pairs().len() && self.pairs()[i as int].0 == name@,
                None => !self@.contains_key(name@),
            },
    {
        proof {
            use_type_invariant(self);
        }
        let ghost pv = pairs_view(self.entries@);
        let mut i: usize = 0;
        while i < self.entries.len()
            invariant
                i <= self.entries.len(),
                pv == pairs_view(self.entries@),
                forall|j: int| 0 <= j < i ==> pv[j].0 != name@,
            decreases self.entries.len() - i,
        {
            assert(pv[i as int].0 == self.entries@[i as int].0@);
            if str_eq(self.entries[i].0.as_str(), name) {
                return Some(i);
            }
            i += 1;
        }
        proof {
            lemma_as_map_dom(pv, name@);
        }
        None
    }

    /// Whether a header named `name` is present.
    pub fn contains_key(&self, name: &str) -> (r: bool)
        ensures
            r == self@.contains_key(name@),
    {
        proof {
            use_type_invariant(self);
        }
        match self.position(name) {
            Some(i) => {
                proof {
                    lemma_as_map_value(self.pairs(), i as int);
                }
                true
            },
            None => false,
        }
    }

    /// The value of the header named `name`.
    pub fn get(&self, name: &str) -> (r: Option<&String>)
        ensures
            match r {
                Some(v) => header_value(self@, name@) == Some(v@),
                None => header_value(self@, name@) is None,
            },
    {
        proof {
            use_type_invariant(self);
        }
        match self.position(name) {
            Some(i) => {
                proof {
                    lemma_as_map_value(self.pairs(), i as int);
                }
                Some(&self.entries[i].1)
            },
            None => None,
        }
    }

    /// Sets the header `name` to `value`, replacing its value if present
    /// (`HashMap::insert`).
    pub fn add(&mut self, name: String, value: String)
        ensures
            final(self)@ == old(self)@.insert(name@, value@),
    {
        proof {
            use_type_invariant(&*self);
        }
        let ghost pv = pairs_view(self.entries@);
        let pos = self.position(name.as_str());
        let mut entries: Vec<(String, String)> = Vec::new();
        std::mem::swap(&mut entries, &mut self.entries);
        match pos {
            Some(i) => {
                proof {
                    lemma_as_map_update(pv, i as int, value@);
                    assert(pairs_view(entries@.update(i as int, (entries@[i as int].0, value)))
                        =~= pv.update(i as int, (pv[i as int].0, value@)));
                }
                let key = entries[i].0.clone();
                entries.set(i, (key, value));
            },
            None => {
                proof {
                    lemma_as_map_push(pv, name@, value@);
                    assert(pairs_view(entries@.push((name, value))) =~= pv.push(
                        (name@, value@),
                    ));
                }
                entries.push((name, value));
            },
        }
        self.entries = entries;
    }

    /// Sets the header `name` to `default_value` unless it is present.
    pub fn add_if_absent(&mut self, name: String, default_value: String)
        ensures
            final(self)@ == with_default(old(self)@, name@, default_value@),
    {
        if !self.contains_key(name.as_str()) {
            self.add(name, default_value);
        }
    }

    /// Sets the header `name` to the given default unless it is present or
    /// there is no default.
    pub fn add_if_absent_opt(&mut self, name: String, default_value: Option<String>)
        ensures
            match default_value {
                Some(v) => final(self)@ == with_default(old(self)@, name@, v@),
                None => final(self)@ == old(self)@,
            },
    {
        if let Some(val) = default_value {
            self.add_if_absent(name, val);
        }
    }

    /// Every header of `other` set here, replacing values of names present
    /// in both (`RequestBuilder::headers`).
    pub fn extend(&mut self, other: Headers)
        ensures
            final(self)@ == old(self)@.union_prefer_right(other@),
    {
        proof {
            use_type_invariant(&other);
        }
        let ghost start = self@;
        let ghost op = other.pairs();
        let mut i: usize = 0;
        assert(op.take(0) =~= Seq::<(Seq<char>, Seq<char>)>::empty());
        assert(start.union_prefer_right(as_map(op.take(0))) =~= start);
        while i < other.entries.len()
            invariant
                i <= other.entries.len(),
                op == other.pairs(),
                op == pairs_view(other.entries@),
                self@ == start.union_prefer_right(as_map(op.take(i as int))),
            decreases other.entries.len() - i,
        {
            assert(op.take(i + 1).drop_last() =~= op.take(i as int));
            assert(op[i as int] == (other.entries@[i as int].0@, other.entries@[i as int].1@));
            let name = other.entries[i].0.clone();
            let value = other.entries[i].1.clone();
            self.add(name, value);
            assert(self@ =~= start.union_prefer_right(as_map(op.take(i + 1))));
            i += 1;
        }
        assert(op.take(i as int) =~= op);
    }

    /// Checks every name and value as `HeaderMap::try_from` does: each name
    /// must be a valid header name and each value a valid header value.
    pub fn validate(&self) -> (r: Result<(), RequestError>)
        ensures
            r is Ok <==> map_valid(self@),
            r matches Err(e) ==> e is InvalidHeader,
    {
        proof {
            use_type_invariant(self);
            lemma_all_valid_map(self.pairs());
        }
        let ghost pv = self.pairs();
        let mut i: usize = 0;
        while i < self.entries.len()
            invariant
                i <= self.entries.len(),
                pv == self.pairs(),
                pv == pairs_view(self.entries@),
                forall|j: int| 0 <= j < i ==> header_ok(#[trigger] pv[j]),
                all_valid(pv) <==> map_valid(self@),
            decreases self.entries.len() - i,
        {
            assert(pv[i as int] == (self.entries@[i as int].0@, self.entries@[i as int].1@));
            if let Some(msg) = header_pair_error(&self.entries[i].0, &self.entries[i].1) {
                assert(!header_ok(pv[i as int]));
                return Err(RequestError::InvalidHeader(msg));
            }
            i += 1;
        }
        Ok(())
    }

    /// Validates the headers and sets them on the request.
    pub fn modify(self, request: RequestPlan) -> (r: Result<RequestPlan, RequestError>)
        ensures
            map_valid(self@) ==> (r matches Ok(req) && request.same_but_headers(req)
                && req.headers@ == request.headers@.union_prefer_right(self@)),
            !map_valid(self@) ==> (r matches Err(e) && e is InvalidHeader),
    {
        match self.validate() {
            Ok(()) => {
                let mut request = request;
                request.headers.extend(self);
                Ok(request)
            },
            Err(e) => Err(e),
        }
    }
}

/// A character that may stand in a header name: an ASCII letter or digit,
/// or one of ``!"#$%&'*+-.^_`|~`` (the non-zero entries of http's
/// `HEADER_CHARS` table; upper-case letters are accepted and lower-cased).
pub open spec fn header_name_char(c: char) -> bool {
    ('0' <= c && c <= '9') || ('A' <= c && c <= 'Z') || ('a' <= c && c <= 'z') || c == '!'
        || c == '"' || c == '#' || c == '$' || c == '%' || c == '&' || c == '\'' || c == '*'
        || c == '+' || c == '-' || c == '.' || c == '^' || c == '_' || c == '`' || c == '|'
        || c == '~'
}

/// Whether `http::HeaderName::from_bytes` (which `from_str` calls on the
/// bytes of a string) accepts a name: 1 to 65535 bytes, each one mapped to a
/// non-zero entry of `HEADER_CHARS`. Every such byte is ASCII, so the test
/// can be made per character (a non-ASCII character is refused either way).
pub open spec fn valid_header_name(name: Seq<char>) -> bool {
    1 <= name.len() <= 65535 && forall|i: int| 0 <= i < name.len() ==> header_name_char(
        #[trigger] name[i],
    )
}

/// Whether `http::HeaderValue::from_str` accepts a value: every byte is a
/// tab, or at least 32 and not 127. (A character at or above 128 is encoded
/// in bytes at or above 128, so the test can be made per character.)
pub open spec fn valid_header_value(v: Seq<char>) -> bool {
    forall|i: int| 0 <= i < v.len() ==> ((v[i] as u32 >= 32 && v[i] as u32 != 127) || v[i] == '\t')
}

/// One header has a valid name and a valid value.
pub open spec fn header_ok(h: (Seq<char>, Seq<char>)) -> bool {
    valid_header_name(h.0) && valid_header_value(h.1)
}

/// Every header has a valid name and a valid value.
pub open spec fn all_valid(s: Seq<(Seq<char>, Seq<char>)>) -> bool {
    forall|i: int| 0 <= i < s.len() ==> header_ok(#[trigger] s[i])
}

/// Every header of a map has a valid name and a valid value.
pub open spec fn map_valid(m: Map<Seq<char>, Seq<char>>) -> bool {
    forall|k: Seq<char>| #[trigger] m.contains_key(k) ==> header_ok((k, m[k]))
}

proof fn lemma_all_valid_map(s: Seq<(Seq<char>, Seq<char>)>)
    requires
        names_unique(s),
    ensures
        all_valid(s) <==> map_valid(as_map(s)),
{
    if all_valid(s) {
        assert forall|k: Seq<char>| #[trigger] as_map(s).contains_key(k) implies header_ok(
            (k, as_map(s)[k]),
        ) by {
            lemma_as_map_dom(s, k);
            let i = choose|i: int| 0 <= i < s.len() && s[i].0 == k;
            lemma_as_map_value(s, i);
            assert(header_ok(s[i]));
        }
    }
    if map_valid(as_map(s)) {
        assert forall|i: int| 0 <= i < s.len() implies header_ok(#[trigger] s[i]) by {
            lemma_as_map_value(s, i);
            assert(as_map(s).contains_key(s[i].0));
            assert(s[i] == (s[i].0, as_map(s)[s[i].0]));
        }
    }
}

/// Converts a one-entry `HashMap` holding the header into a `HeaderMap`
/// (`HeaderMap::try_from`, which checks the name, then the value). `None`
/// exactly when both are accepted; otherwise the `Debug` text of the
/// `http::Error`, which the contract does not state.
#[verifier::external_body]
fn header_pair_error(name: &String, value: &String) -> (r: Option<String>)
    ensures
        r is None <==> (valid_header_name(name@) && valid_header_value(value@)),
{
    let mut map: std::collections::HashMap<String, String> = std::collections::HashMap::new();
    map.insert(name.clone(), value.clone());
    match reqwest::header::HeaderMap::<reqwest::header::HeaderValue>::try_from(&map) {
        Ok(_) => None,
        Err(e) => Some(format!("{:?}", e)),
    }
}

/// Calls `HeaderName::from_str` on the name. `None` exactly when the
/// name is accepted; otherwise the `Debug` text of the error, which the
/// contract does not state.
#[verifier::external_body]
pub(crate) fn header_name_error(name: &str) -> (r: Option<String>)
    ensures
        r is None <==> valid_header_name(name@),
{
    match <reqwest::header::HeaderName as std::str::FromStr>::from_str(name) {
        Ok(_) => None,
        Err(e) => Some(format!("{:?}", e)),
    }
}

/// Calls `HeaderValue::from_str` on the value. `None` exactly when every
/// byte is a tab or at least 32 and not 127, as its source checks;
/// otherwise the `Debug` text of the error, which the contract does not
/// state.
#[verifier::external_body]
pub(crate) fn header_value_error(value: &str) -> (r: Option<String>)
    ensures
        r is None <==> valid_header_value(value@),
{
    match reqwest::header::HeaderValue::from_str(value) {
        Ok(_) => None,
        Err(e) => Some(format!("{:?}", e)),
    }
}

/// A default never replaces a value that is already set.
pub proof fn lemma_default_keeps_value(
    m: Map<Seq<char>, Seq<char>>,
    name: Seq<char>,
    value: Seq<char>,
    default_value: Seq<char>,
)
    ensures
        with_default(m.insert(name, value), name, default_value) == m.insert(name, value),
{
}

/// Setting a default twice is the same as setting it once.
pub proof fn lemma_default_idempotent(
    m: Map<Seq<char>, Seq<char>>,
    name: Seq<char>,
    first: Seq<char>,
    second: Seq<char>,
)
    ensures
        with_default(with_default(m, name, first), name, second) == with_default(m, name, first),
{
}

/// After setting a header, looking it up gives the value set.
pub proof fn lemma_get_after_add(m: Map<Seq<char>, Seq<char>>, name: Seq<char>, value: Seq<char>)
    ensures
        header_value(m.insert(name, value), name) == Some(value),
{
}

} // verus!
