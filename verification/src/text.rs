//! Character-level string operations with exact specifications.
//!
//! Strings are modelled by their `Seq<char>` views. The splitting, trimming,
//! searching and replacing used by the rest of the crate are written here as
//! verified loops against short recursive definitions; only the Unicode
//! lower-case mapping comes from std.
use vstd::prelude::*;

verus! {

// ---------------------------------------------------------------------------
// Unicode properties
// ---------------------------------------------------------------------------

/// Whether `char::is_whitespace` holds of `c`: the Unicode `White_Space`
/// property, which these code points have.
pub open spec fn white_space(c: char) -> bool {
    ('\u{9}' <= c && c <= '\u{d}') || c == ' ' || c == '\u{85}' || c == '\u{a0}'
        || c == '\u{1680}' || ('\u{2000}' <= c && c <= '\u{200a}') || c == '\u{2028}'
        || c == '\u{2029}' || c == '\u{202f}' || c == '\u{205f}' || c == '\u{3000}'
}

/// What `str::to_lowercase` returns for a string (Unicode lower-case mapping,
/// including its context-sensitive rules).
pub uninterp spec fn lowercase(s: Seq<char>) -> Seq<char>;

/// Whether `c` has the Unicode `White_Space` property (`char::is_whitespace`).
fn is_whitespace(c: char) -> (b: bool)
    ensures
        b == white_space(c),
{
    ('\u{9}' <= c && c <= '\u{d}') || c == ' ' || c == '\u{85}' || c == '\u{a0}'
        || c == '\u{1680}' || ('\u{2000}' <= c && c <= '\u{200a}') || c == '\u{2028}'
        || c == '\u{2029}' || c == '\u{202f}' || c == '\u{205f}' || c == '\u{3000}'
}

/// Calls `str::to_lowercase`. The contract only names the result, a function
/// of the argument alone; the Unicode mapping itself is not restated.
#[verifier::external_body]
pub(crate) fn to_lowercase(s: &str) -> (r: String)
    ensures
        r@ == lowercase(s@),
{
    s.to_lowercase()
}

/// Calls `String::push`: the character is appended at the end.
#[verifier::external_body]
fn push_char(s: &mut String, c: char)
    ensures
        final(s)@ == old(s)@.push(c),
{
    s.push(c);
}

// ---------------------------------------------------------------------------
// Specifications
// ---------------------------------------------------------------------------

/// The views of a sequence of strings.
pub open spec fn views(v: Seq<String>) -> Seq<Seq<char>> {
    v.map_values(|s: String| s@)
}

/// The pieces of `s` between occurrences of `sep`, as `str::split` with a
/// `char` pattern yields them: `n` separators give `n + 1` pieces, empty ones
/// included.
pub open spec fn split_on(s: Seq<char>, sep: char) -> Seq<Seq<char>>
    decreases s.len(),
{
    if s.len() == 0 {
        seq![Seq::<char>::empty()]
    } else {
        let prev = split_on(s.drop_last(), sep);
        if s.last() == sep {
            prev.push(Seq::<char>::empty())
        } else {
            prev.update(prev.len() - 1, prev.last().push(s.last()))
        }
    }
}

/// The maximal runs of non-white-space characters of `s`, in order
/// (`str::split_whitespace`).
pub open spec fn ws_tokens(s: Seq<char>) -> Seq<Seq<char>>
    decreases s.len(),
{
    if s.len() == 0 {
        Seq::<Seq<char>>::empty()
    } else {
        let prev = ws_tokens(s.drop_last());
        if white_space(s.last()) {
            prev
        } else if s.len() >= 2 && !white_space(s[s.len() - 2]) {
            prev.update(prev.len() - 1, prev.last().push(s.last()))
        } else {
            prev.push(seq![s.last()])
        }
    }
}

/// The index of the first occurrence of `c` in `s`.
pub open spec fn first_index(s: Seq<char>, c: char) -> Option<int>
    decreases s.len(),
{
    if s.len() == 0 {
        None
    } else if s[0] == c {
        Some(0)
    } else {
        match first_index(s.skip(1), c) {
            Some(i) => Some(i + 1),
            None => None,
        }
    }
}

/// `s` split at the first occurrence of `c` into what comes before and
/// after it (`str::split_once`); `None` when `c` does not occur.
pub open spec fn split_once_at(s: Seq<char>, c: char) -> Option<(Seq<char>, Seq<char>)> {
    match first_index(s, c) {
        Some(i) => Some((s.take(i), s.skip(i + 1))),
        None => None,
    }
}

/// `s` without its leading white space.
pub open spec fn trim_start(s: Seq<char>) -> Seq<char>
    decreases s.len(),
{
    if s.len() > 0 && white_space(s[0]) {
        trim_start(s.skip(1))
    } else {
        s
    }
}

/// `s` without its trailing white space.
pub open spec fn trim_end(s: Seq<char>) -> Seq<char>
    decreases s.len(),
{
    if s.len() > 0 && white_space(s.last()) {
        trim_end(s.drop_last())
    } else {
        s
    }
}

/// `s` without leading and trailing white space (`str::trim`).
pub open spec fn trimmed(s: Seq<char>) -> Seq<char> {
    trim_end(trim_start(s))
}

/// `pat` occurs in `s` starting at index `i`.
pub open spec fn occurs_at(s: Seq<char>, pat: Seq<char>, i: int) -> bool {
    0 <= i && i + pat.len() <= s.len() && s.subrange(i, i + pat.len()) == pat
}

/// `pat` occurs somewhere in `s`.
pub open spec fn contains_seq(s: Seq<char>, pat: Seq<char>) -> bool {
    exists|i: int| occurs_at(s, pat, i)
}

/// `rep` before, between and after the characters of `s`: what replacing
/// the empty pattern gives.
pub open spec fn interleaved(s: Seq<char>, rep: Seq<char>) -> Seq<char>
    decreases s.len(),
{
    if s.len() == 0 {
        rep
    } else {
        rep + seq![s[0]] + interleaved(s.skip(1), rep)
    }
}

/// `s` with every non-overlapping occurrence of `pat`, taken from left to
/// right, replaced by `rep` (`str::replace`); the empty pattern occurs
/// before, between and after the characters.
pub open spec fn replaced(s: Seq<char>, pat: Seq<char>, rep: Seq<char>) -> Seq<char>
    decreases s.len(),
{
    if pat.len() == 0 {
        interleaved(s, rep)
    } else if s.len() < pat.len() {
        s
    } else if s.take(pat.len() as int) == pat {
        rep + replaced(s.skip(pat.len() as int), pat, rep)
    } else {
        seq![s[0]] + replaced(s.skip(1), pat, rep)
    }
}

/// The elements of `parts` with `sep` between each two neighbours.
pub open spec fn joined(parts: Seq<Seq<char>>, sep: Seq<char>) -> Seq<char>
    decreases parts.len(),
{
    if parts.len() == 0 {
        Seq::<char>::empty()
    } else if parts.len() == 1 {
        parts[0]
    } else {
        joined(parts.drop_last(), sep) + sep + parts.last()
    }
}

// ---------------------------------------------------------------------------
// Lemmas
// ---------------------------------------------------------------------------

/// Splitting yields at least one piece.
pub proof fn lemma_split_on_len(s: Seq<char>, sep: char)
    ensures
        split_on(s, sep).len() >= 1,
    decreases s.len(),
{
    if s.len() > 0 {
        lemma_split_on_len(s.drop_last(), sep);
    }
}

proof fn lemma_first_index(s: Seq<char>, c: char, i: int)
    requires
        0 <= i <= s.len(),
        forall|j: int| 0 <= j < i ==> s[j] != c,
    ensures
        i < s.len() && s[i] == c ==> first_index(s, c) == Some(i),
        i == s.len() ==> first_index(s, c) is None,
    decreases i,
{
    if i > 0 {
        lemma_first_index(s.skip(1), c, i - 1);
    }
}

/// Where the first occurrence of `c` is: at an index holding `c` with no
/// `c` before it; `None` when `c` does not occur.
proof fn lemma_first_index_spec(s: Seq<char>, c: char)
    ensures
        match first_index(s, c) {
            Some(i) => 0 <= i < s.len() && s[i] == c && forall|j: int| 0 <= j < i ==> s[j] != c,
            None => forall|j: int| 0 <= j < s.len() ==> s[j] != c,
        },
    decreases s.len(),
{
    if s.len() > 0 {
        lemma_first_index_spec(s.skip(1), c);
        match first_index(s.skip(1), c) {
            Some(i) => {
                assert forall|j: int| 0 <= j < i + 1 && s[0] != c implies #[trigger] s[j] != c by {
                    if j > 0 {
                        assert(s[j] == s.skip(1)[j - 1]);
                    }
                }
            },
            None => {
                assert forall|j: int| 0 <= j < s.len() && s[0] != c implies #[trigger] s[j] != c by {
                    if j > 0 {
                        assert(s[j] == s.skip(1)[j - 1]);
                    }
                }
            },
        }
    }
}

/// Splitting once at `c` cuts `s` at its first `c`: the two parts with
/// `c` between them make up `s`, and the first part holds no `c`; when no
/// split is made, `c` does not occur in `s`.
pub proof fn lemma_split_once_at_parts(s: Seq<char>, c: char)
    ensures
        match split_once_at(s, c) {
            Some((a, b)) => s == a + seq![c] + b && forall|j: int| 0 <= j < a.len() ==> a[j] != c,
            None => forall|j: int| 0 <= j < s.len() ==> s[j] != c,
        },
{
    lemma_first_index_spec(s, c);
    match first_index(s, c) {
        Some(i) => {
            assert(s =~= s.take(i) + seq![c] + s.skip(i + 1));
        },
        None => {},
    }
}

/// The first piece of `s` split at `sep` is the longest prefix of `s`
/// without `sep`: it ends where `s` ends or just before the first `sep`;
/// it is the only piece exactly when `sep` does not occur.
pub proof fn lemma_split_on_first(s: Seq<char>, sep: char)
    ensures
        split_on(s, sep).len() >= 1,
        split_on(s, sep)[0].len() <= s.len(),
        split_on(s, sep)[0] == s.take(split_on(s, sep)[0].len() as int),
        forall|j: int| 0 <= j < split_on(s, sep)[0].len() ==> split_on(s, sep)[0][j] != sep,
        split_on(s, sep)[0].len() < s.len() ==> s[split_on(s, sep)[0].len() as int] == sep,
        (split_on(s, sep).len() == 1) == (split_on(s, sep)[0].len() == s.len()),
    decreases s.len(),
{
    if s.len() > 0 {
        let d = s.drop_last();
        lemma_split_on_first(d, sep);
        let prev = split_on(d, sep);
        let f = prev[0];
        assert(d.take(f.len() as int) =~= s.take(f.len() as int));
        if s.last() == sep {
            assert(split_on(s, sep)[0] == f);
            if f.len() < d.len() {
                assert(s[f.len() as int] == d[f.len() as int]);
            }
        } else if prev.len() == 1 {
            assert(split_on(s, sep)[0] == f.push(s.last()));
            assert(f.push(s.last()) =~= s.take(s.len() as int));
        } else {
            assert(split_on(s, sep)[0] == f);
            assert(s[f.len() as int] == d[f.len() as int]);
        }
    }
}

proof fn lemma_views_push(v: Seq<String>, s: String)
    ensures
        views(v.push(s)) == views(v).push(s@),
{
    assert(views(v.push(s)) =~= views(v).push(s@));
}

/// A string in which the pattern does not occur is left as it is by a
/// replacement.
pub proof fn lemma_replace_absent(s: Seq<char>, pat: Seq<char>, rep: Seq<char>)
    requires
        !contains_seq(s, pat),
    ensures
        replaced(s, pat, rep) == s,
    decreases s.len(),
{
    if pat.len() == 0 {
        assert(occurs_at(s, pat, 0)) by {
            assert(s.subrange(0, 0) =~= pat);
        }
    } else if s.len() < pat.len() {
    } else {
        if s.take(pat.len() as int) == pat {
            assert(occurs_at(s, pat, 0)) by {
                assert(s.subrange(0, pat.len() as int) =~= s.take(pat.len() as int));
            }
        }
        let t = s.skip(1);
        assert forall|i: int| !occurs_at(t, pat, i) by {
            if occurs_at(t, pat, i) {
                assert(t.subrange(i, i + pat.len()) =~= s.subrange(i + 1, i + 1 + pat.len()));
                assert(occurs_at(s, pat, i + 1));
            }
        }
        lemma_replace_absent(t, pat, rep);
        assert(seq![s[0]] + t =~= s);
    }
}

/// Trimming is idempotent.
pub proof fn lemma_trim_idempotent(s: Seq<char>)
    ensures
        trimmed(trimmed(s)) == trimmed(s),
{
    lemma_trim_start_shape(s);
    lemma_trim_end_shape(trim_start(s));
    let t = trimmed(s);
    if t.len() > 0 {
        assert(trim_start(t) == t);
        assert(trim_end(t) == t);
    } else {
        assert(trim_start(t) == t);
    }
}

proof fn lemma_trim_start_shape(s: Seq<char>)
    ensures
        trim_start(s).len() == 0 || !white_space(trim_start(s)[0]),
        trim_start(s).len() <= s.len(),
        trim_start(s) == s.skip(s.len() - trim_start(s).len()),
    decreases s.len(),
{
    if s.len() > 0 && white_space(s[0]) {
        lemma_trim_start_shape(s.skip(1));
        assert(s.skip(1).skip(s.skip(1).len() - trim_start(s.skip(1)).len()) =~= s.skip(
            s.len() - trim_start(s).len(),
        ));
    } else {
        assert(s.skip(0) =~= s);
    }
}

proof fn lemma_trim_end_shape(s: Seq<char>)
    requires
        s.len() == 0 || !white_space(s[0]),
    ensures
        trim_end(s).len() == 0 || (!white_space(trim_end(s).last()) && !white_space(
            trim_end(s)[0],
        )),
        trim_end(s).len() <= s.len(),
        trim_end(s) == s.take(trim_end(s).len() as int),
    decreases s.len(),
{
    if s.len() > 0 && white_space(s.last()) {
        if s.len() > 1 {
            assert(s.drop_last()[0] == s[0]);
        }
        lemma_trim_end_shape(s.drop_last());
        assert(s.drop_last().take(trim_end(s).len() as int) =~= s.take(
            trim_end(s).len() as int,
        ));
    } else {
        assert(s.take(s.len() as int) =~= s);
    }
}

// ---------------------------------------------------------------------------
// Executable operations
// ---------------------------------------------------------------------------

/// The characters of a string slice, in order.
pub fn chars_of(s: &str) -> (v: Vec<char>)
    ensures
        v@ == s@,
{
    let mut v: Vec<char> = Vec::new();
    for c in it: s.chars()
        invariant
            v@ == it.seq().take(it.index() as int),
            it.seq() == s@,
    {
        v.push(c);
    }
    v
}

/// The string made of `v[lo..hi]`.
pub fn string_of(v: &Vec<char>, lo: usize, hi: usize) -> (s: String)
    requires
        lo <= hi <= v.len(),
    ensures
        s@ == v@.subrange(lo as int, hi as int),
{
    let mut s = String::new();
    let mut i = lo;
    while i < hi
        invariant
            lo <= i <= hi,
            hi <= v.len(),
            s@ == v@.subrange(lo as int, i as int),
        decreases hi - i,
    {
        push_char(&mut s, v[i]);
        i += 1;
        assert(s@ =~= v@.subrange(lo as int, i as int));
    }
    s
}

/// Whether two string slices hold the same characters.
pub fn str_eq(a: &str, b: &str) -> (r: bool)
    ensures
        r == (a@ == b@),
{
    let x = a.to_owned();
    let y = b.to_owned();
    x == y
}

/// A new `String` with the characters of `s`.
pub fn owned(s: &str) -> (r: String)
    ensures
        r@ == s@,
{
    s.to_owned()
}

/// `a` followed by `b`.
pub fn concat(a: &str, b: &str) -> (r: String)
    ensures
        r@ == a@ + b@,
{
    let mut r = a.to_owned();
    r.append(b);
    r
}

/// The pieces of `s` between occurrences of `sep` (`str::split`).
pub fn split_char(s: &str, sep: char) -> (parts: Vec<String>)
    ensures
        views(parts@) == split_on(s@, sep),
{
    let v = chars_of(s);
    let mut parts: Vec<String> = Vec::new();
    let mut cur = String::new();
    let mut i: usize = 0;
    assert(v@.take(0) =~= Seq::<char>::empty());
    assert(views(parts@).push(cur@) =~= split_on(v@.take(0), sep));
    while i < v.len()
        invariant
            i <= v.len(),
            v@ == s@,
            views(parts@).push(cur@) == split_on(v@.take(i as int), sep),
        decreases v.len() - i,
    {
        let c = v[i];
        let ghost before = v@.take(i as int);
        let ghost after = v@.take(i + 1);
        assert(after.drop_last() =~= before);
        proof {
            lemma_split_on_len(before, sep);
        }
        if c == sep {
            let done = cur;
            proof {
                lemma_views_push(parts@, done);
            }
            parts.push(done);
            cur = String::new();
            assert(views(parts@).push(cur@) =~= split_on(after, sep));
        } else {
            let ghost old_cur = cur@;
            push_char(&mut cur, c);
            assert(views(parts@).push(cur@) =~= split_on(after, sep));
        }
        i += 1;
    }
    assert(v@.take(v.len() as int) =~= v@);
    proof {
        lemma_views_push(parts@, cur);
    }
    parts.push(cur);
    parts
}

/// `s` split at the first occurrence of `sep` (`str::split_once`).
pub fn split_once(s: &str, sep: char) -> (r: Option<(String, String)>)
    ensures
        match r {
            Some((a, b)) => split_once_at(s@, sep) == Some((a@, b@)),
            None => split_once_at(s@, sep) is None,
        },
{
    let v = chars_of(s);
    let mut i: usize = 0;
    while i < v.len()
        invariant
            i <= v.len(),
            v@ == s@,
            forall|j: int| 0 <= j < i ==> v@[j] != sep,
        decreases v.len() - i,
    {
        if v[i] == sep {
            proof {
                lemma_first_index(v@, sep, i as int);
            }
            let before = string_of(&v, 0, i);
            let after = string_of(&v, i + 1, v.len());
            assert(v@.subrange(0, i as int) =~= v@.take(i as int));
            assert(v@.subrange(i + 1, v.len() as int) =~= v@.skip(i + 1));
            return Some((before, after));
        }
        i += 1;
    }
    proof {
        lemma_first_index(v@, sep, i as int);
    }
    None
}

/// The white-space separated tokens of `s` (`str::split_whitespace`).
pub fn split_whitespace(s: &str) -> (tokens: Vec<String>)
    ensures
        views(tokens@) == ws_tokens(s@),
{
    let v = chars_of(s);
    let mut tokens: Vec<String> = Vec::new();
    let mut cur = String::new();
    let mut open = false;
    let mut i: usize = 0;
    assert(v@.take(0) =~= Seq::<char>::empty());
    while i < v.len()
        invariant
            i <= v.len(),
            v@ == s@,
            open ==> i > 0 && !white_space(v@[i - 1]) && views(tokens@).push(cur@) == ws_tokens(
                v@.take(i as int),
            ),
            !open ==> (i == 0 || white_space(v@[i - 1])) && views(tokens@) == ws_tokens(
                v@.take(i as int),
            ),
        decreases v.len() - i,
    {
        let c = v[i];
        let ghost before = v@.take(i as int);
        let ghost after = v@.take(i + 1);
        assert(after.drop_last() =~= before);
        assert(after.last() == c);
        if is_whitespace(c) {
            if open {
                let done = cur;
                proof {
                    lemma_views_push(tokens@, done);
                }
                tokens.push(done);
                cur = String::new();
                open = false;
            }
        } else {
            if open {
                assert(after[after.len() - 2] == v@[i - 1]);
                push_char(&mut cur, c);
                assert(views(tokens@).push(cur@) =~= ws_tokens(after));
            } else {
                cur = String::new();
                push_char(&mut cur, c);
                if i > 0 {
                    assert(after[after.len() - 2] == v@[i - 1]);
                }
                assert(cur@ =~= seq![c]);
                open = true;
            }
        }
        i += 1;
    }
    assert(v@.take(v.len() as int) =~= v@);
    if open {
        proof {
            lemma_views_push(tokens@, cur);
        }
        tokens.push(cur);
    }
    tokens
}

/// `s` without leading and trailing white space (`str::trim`).
pub fn trim(s: &str) -> (r: String)
    ensures
        r@ == trimmed(s@),
{
    let v = chars_of(s);
    let n = v.len();
    let mut a: usize = 0;
    assert(v@.skip(0) =~= v@);
    while a < n && is_whitespace(v[a])
        invariant
            a <= n,
            n == v.len(),
            trim_start(v@) == trim_start(v@.skip(a as int)),
        decreases n - a,
    {
        assert(v@.skip(a as int).skip(1) =~= v@.skip(a + 1));
        a += 1;
    }
    assert(trim_start(v@) == v@.skip(a as int));
    let mut b: usize = n;
    assert(v@.skip(a as int) =~= v@.subrange(a as int, n as int));
    while b > a && is_whitespace(v[b - 1])
        invariant
            a <= b <= n,
            n == v.len(),
            trimmed(v@) == trim_end(v@.subrange(a as int, b as int)),
        decreases b - a,
    {
        assert(v@.subrange(a as int, b as int).drop_last() =~= v@.subrange(
            a as int,
            b - 1,
        ));
        b -= 1;
    }
    string_of(&v, a, b)
}

/// Whether `p` occurs in `v` at index `i`.
fn occurs_at_exec(v: &Vec<char>, p: &Vec<char>, i: usize) -> (r: bool)
    requires
        i <= v.len(),
    ensures
        r == occurs_at(v@, p@, i as int),
{
    if p.len() > v.len() - i {
        return false;
    }
    let mut k: usize = 0;
    while k < p.len()
        invariant
            k <= p.len(),
            i + p.len() <= v.len(),
            forall|j: int| 0 <= j < k ==> v@[i + j] == p@[j],
        decreases p.len() - k,
    {
        if v[i + k] != p[k] {
            assert(v@.subrange(i as int, i + p.len())[k as int] != p@[k as int]);
            return false;
        }
        k += 1;
    }
    assert(v@.subrange(i as int, i + p.len()) =~= p@);
    true
}

/// Whether `pat` occurs in `s` (`str::contains`).
pub fn contains(s: &str, pat: &str) -> (r: bool)
    ensures
        r == contains_seq(s@, pat@),
{
    let v = chars_of(s);
    let p = chars_of(pat);
    let mut i: usize = 0;
    while i < v.len()
        invariant
            i <= v.len(),
            v@ == s@,
            p@ == pat@,
            forall|j: int| 0 <= j < i ==> !occurs_at(v@, p@, j),
        decreases v.len() - i,
    {
        if occurs_at_exec(&v, &p, i) {
            return true;
        }
        i += 1;
    }
    if occurs_at_exec(&v, &p, i) {
        return true;
    }
    assert forall|j: int| !occurs_at(v@, p@, j) by {
        if j > v.len() {
            assert(!(0 <= j && j + p@.len() <= v@.len()));
        }
    }
    false
}

/// `s` with every occurrence of `pat` replaced by `rep` (`str::replace`).
pub fn replace(s: &str, pat: &str, rep: &str) -> (r: String)
    ensures
        r@ == replaced(s@, pat@, rep@),
{
    let v = chars_of(s);
    let p = chars_of(pat);
    let m = p.len();
    let mut out = String::new();
    let mut i: usize = 0;
    if m == 0 {
        assert(v@.skip(0) =~= v@);
        assert(out@ + interleaved(v@.skip(0), rep@) =~= interleaved(v@, rep@));
        while i < v.len()
            invariant
                i <= v.len(),
                v@ == s@,
                out@ + interleaved(v@.skip(i as int), rep@) == interleaved(v@, rep@),
            decreases v.len() - i,
        {
            let ghost t = v@.skip(i as int);
            let ghost old_out = out@;
            out.append(rep);
            push_char(&mut out, v[i]);
            assert(t.skip(1) =~= v@.skip(i + 1));
            assert(out@ + interleaved(v@.skip(i + 1), rep@) =~= old_out + interleaved(t, rep@));
            i += 1;
        }
        assert(v@.skip(i as int) =~= Seq::<char>::empty());
        out.append(rep);
        return out;
    }
    assert(v@.skip(0) =~= v@);
    assert(out@ + replaced(v@.skip(0), p@, rep@) =~= replaced(v@, p@, rep@));
    while i < v.len()
        invariant
            i <= v.len(),
            v@ == s@,
            p@ == pat@,
            m == p.len(),
            m > 0,
            out@ + replaced(v@.skip(i as int), p@, rep@) == replaced(v@, p@, rep@),
        decreases v.len() - i,
    {
        let ghost t = v@.skip(i as int);
        if occurs_at_exec(&v, &p, i) {
            assert(t.take(m as int) =~= v@.subrange(i as int, i + m));
            assert(t.skip(m as int) =~= v@.skip(i + m));
            let ghost old_out = out@;
            out.append(rep);
            assert(out@ + replaced(v@.skip(i + m), p@, rep@) =~= old_out + replaced(t, p@, rep@));
            i += m;
        } else {
            let ghost old_out = out@;
            push_char(&mut out, v[i]);
            assert(t.skip(1) =~= v@.skip(i + 1));
            if m <= v.len() - i {
                assert(t.take(m as int) =~= v@.subrange(i as int, i + m));
                assert(out@ + replaced(v@.skip(i + 1), p@, rep@) =~= old_out + replaced(
                    t,
                    p@,
                    rep@,
                ));
            } else {
                assert(t.skip(1).len() < m);
                assert(out@ + replaced(v@.skip(i + 1), p@, rep@) =~= old_out + replaced(
                    t,
                    p@,
                    rep@,
                ));
            }
            i += 1;
        }
    }
    assert(replaced(v@.skip(i as int), p@, rep@) =~= Seq::<char>::empty());
    assert(out@ =~= out@ + Seq::<char>::empty());
    out
}

/// The elements of `parts` with `sep` between each two neighbours
/// (`[String]::join`).
pub fn join(parts: &Vec<String>, sep: &str) -> (r: String)
    ensures
        r@ == joined(views(parts@), sep@),
{
    let mut r = String::new();
    let mut i: usize = 0;
    assert(views(parts@).take(0) =~= Seq::<Seq<char>>::empty());
    while i < parts.len()
        invariant
            i <= parts.len(),
            r@ == joined(views(parts@).take(i as int), sep@),
        decreases parts.len() - i,
    {
        let ghost pre = views(parts@).take(i as int);
        let ghost post = views(parts@).take(i + 1);
        assert(post.drop_last() =~= pre);
        if i > 0 {
            r.append(sep);
        }
        r.append(parts[i].as_str());
        if i == 0 {
            assert(r@ =~= joined(post, sep@));
        }
        i += 1;
    }
    assert(views(parts@).take(parts.len() as int) =~= views(parts@));
    r
}

} // verus!
