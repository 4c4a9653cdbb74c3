//! The route-registration target: how many fuzzed routes it registers, how
//! it normalises fuzzed patterns and paths, and the length limits on them.

use vstd::prelude::*;

use crate::method::HttpMethodKind;
use crate::text::{starts_with_char, utf8_len};

verus! {

/// At most this many fuzzed routes are registered.
pub const MAX_ROUTES: usize = 100;

/// Normalised patterns longer than this many bytes are not registered.
pub const MAX_PATTERN_BYTES: usize = 1_000;

/// Normalised paths longer than this many bytes are not matched.
pub const MAX_MATCH_PATH_BYTES: usize = 10_000;

/// The method a fuzzed route or lookup uses.
#[derive(Clone, Copy, Debug, PartialEq, Eq, Structural)]
pub enum FuzzMethod {
    Get,
    Post,
    Put,
    Delete,
    Patch,
    Query,
}

/// The framework method each fuzzed method stands for.
pub open spec fn method_kind(m: FuzzMethod) -> HttpMethodKind {
    match m {
        FuzzMethod::Get => HttpMethodKind::Get,
        FuzzMethod::Post => HttpMethodKind::Post,
        FuzzMethod::Put => HttpMethodKind::Put,
        FuzzMethod::Delete => HttpMethodKind::Delete,
        FuzzMethod::Patch => HttpMethodKind::Patch,
        FuzzMethod::Query => HttpMethodKind::Query,
    }
}

impl FuzzMethod {
    /// The framework method this fuzzed method stands for.
    pub fn as_http_method(self) -> (kind: HttpMethodKind)
        ensures
            kind == method_kind(self),
            self is Get ==> kind == HttpMethodKind::Get,
            self is Post ==> kind == HttpMethodKind::Post,
            self is Put ==> kind == HttpMethodKind::Put,
            self is Delete ==> kind == HttpMethodKind::Delete,
            self is Patch ==> kind == HttpMethodKind::Patch,
            self is Query ==> kind == HttpMethodKind::Query,
    {
        match self {
            FuzzMethod::Get => HttpMethodKind::Get,
            FuzzMethod::Post => HttpMethodKind::Post,
            FuzzMethod::Put => HttpMethodKind::Put,
            FuzzMethod::Delete => HttpMethodKind::Delete,
            FuzzMethod::Patch => HttpMethodKind::Patch,
            FuzzMethod::Query => HttpMethodKind::Query,
        }
    }
}

/// Distinct fuzzed methods stand for distinct framework methods.
pub proof fn lemma_method_kind_injective(a: FuzzMethod, b: FuzzMethod)
    ensures
        method_kind(a) == method_kind(b) ==> a == b,
{
}

/// Keep the first [`MAX_ROUTES`] routes, in order, and drop the rest.
pub fn limit_routes<T>(routes: Vec<T>) -> (kept: Vec<T>)
    ensures
        routes@.len() <= MAX_ROUTES ==> kept@ == routes@,
        routes@.len() > MAX_ROUTES ==> kept@ == routes@.take(MAX_ROUTES as int),
{
    let mut kept = routes;
    kept.truncate(MAX_ROUTES);
    kept
}

/// `s` with a `'/'` put in front unless it already starts with one.
pub open spec fn with_leading_slash(s: Seq<char>) -> Seq<char> {
    if s.len() > 0 && s[0] == '/' {
        s
    } else {
        seq!['/'] + s
    }
}

/// Make a fuzzed pattern or path start with `'/'`, as routes and request
/// paths do.
pub fn normalize_leading_slash(s: &str) -> (normalized: String)
    ensures
        normalized@ == with_leading_slash(s@),
        normalized@.len() > 0 && normalized@[0] == '/',
        s@.len() > 0 && s@[0] == '/' ==> normalized@ == s@,
        !(s@.len() > 0 && s@[0] == '/') ==> normalized@ == seq!['/'] + s@,
{
    if starts_with_char(s, '/') {
        s.to_owned()
    } else {
        let mut normalized = "/".to_owned();
        normalized.append(s);
        proof {
            reveal_strlit("/");
        }
        normalized
    }
}

/// `s` with a leading `'/'`, when that is at most `limit` bytes long in
/// UTF-8; `None` when it is longer.
pub open spec fn bounded_with_slash(s: Seq<char>, limit: usize) -> Option<Seq<char>> {
    if utf8_len(with_leading_slash(s)) <= limit {
        Some(with_leading_slash(s))
    } else {
        None
    }
}

/// The normalised text when its UTF-8 length is at most `limit` bytes.
fn bounded_with_leading_slash(s: &str, limit: usize) -> (res: Option<String>)
    ensures
        match res {
            Some(t) => bounded_with_slash(s@, limit) == Some(t@),
            None => bounded_with_slash(s@, limit) is None,
        },
{
    let normalized = normalize_leading_slash(s);
    if normalized.as_str().len() > limit {
        None
    } else {
        Some(normalized)
    }
}

/// A text is dropped only when it is too long. A text that starts with
/// `'/'` and fits within `limit` bytes comes back unchanged; any other text
/// whose `'/'`-prefixed form fits comes back as that form; and whatever
/// comes back starts with `'/'`, fits within `limit` bytes and ends with
/// the original text.
pub proof fn lemma_bounded_with_slash(s: Seq<char>, limit: usize)
    ensures
        s.len() > 0 && s[0] == '/' && utf8_len(s) <= limit ==> bounded_with_slash(s, limit)
            == Some(s),
        !(s.len() > 0 && s[0] == '/') && utf8_len(seq!['/'] + s) <= limit ==> bounded_with_slash(
            s,
            limit,
        ) == Some(seq!['/'] + s),
        bounded_with_slash(s, limit) is None ==> (s.len() > 0 && s[0] == '/' && utf8_len(s) > limit)
            || (!(s.len() > 0 && s[0] == '/') && utf8_len(seq!['/'] + s) > limit),
        bounded_with_slash(s, limit) matches Some(t) ==> {
            &&& t.len() > 0
            &&& t[0] == '/'
            &&& utf8_len(t) <= limit
            &&& t.subrange(t.len() - s.len(), t.len() as int) == s
        },
{
    if let Some(t) = bounded_with_slash(s, limit) {
        assert(t.subrange(t.len() - s.len(), t.len() as int) =~= s);
    }
}

/// The pattern a fuzzed route is registered under: the fuzzed pattern with a
/// leading `'/'`, or `None` when that is longer than [`MAX_PATTERN_BYTES`]
/// bytes and the route is skipped.
pub fn route_pattern(pattern: &str) -> (res: Option<String>)
    ensures
        match res {
            Some(p) => bounded_with_slash(pattern@, MAX_PATTERN_BYTES) == Some(p@),
            None => bounded_with_slash(pattern@, MAX_PATTERN_BYTES) is None,
        },
        pattern@.len() > 0 && pattern@[0] == '/' && utf8_len(pattern@) <= MAX_PATTERN_BYTES ==> res is Some && res->0@ == pattern@,
        !(pattern@.len() > 0 && pattern@[0] == '/') && utf8_len(seq!['/'] + pattern@) <= MAX_PATTERN_BYTES
            ==> res is Some && res->0@ == seq!['/'] + pattern@,
        res is None ==> utf8_len(with_leading_slash(pattern@)) > MAX_PATTERN_BYTES,
{
    proof {
        lemma_bounded_with_slash(pattern@, MAX_PATTERN_BYTES);
    }
    bounded_with_leading_slash(pattern, MAX_PATTERN_BYTES)
}

/// The path a fuzzed lookup matches: the fuzzed path with a leading `'/'`,
/// or `None` when that is longer than [`MAX_MATCH_PATH_BYTES`] bytes and the
/// lookup is skipped.
pub fn match_path(path: &str) -> (res: Option<String>)
    ensures
        match res {
            Some(p) => bounded_with_slash(path@, MAX_MATCH_PATH_BYTES) == Some(p@),
            None => bounded_with_slash(path@, MAX_MATCH_PATH_BYTES) is None,
        },
        path@.len() > 0 && path@[0] == '/' && utf8_len(path@) <= MAX_MATCH_PATH_BYTES ==> res is Some && res->0@ == path@,
        !(path@.len() > 0 && path@[0] == '/') && utf8_len(seq!['/'] + path@) <= MAX_MATCH_PATH_BYTES
            ==> res is Some && res->0@ == seq!['/'] + path@,
        res is None ==> utf8_len(with_leading_slash(path@)) > MAX_MATCH_PATH_BYTES,
{
    proof {
        lemma_bounded_with_slash(path@, MAX_MATCH_PATH_BYTES);
    }
    bounded_with_leading_slash(path, MAX_MATCH_PATH_BYTES)
}

/// A normalised text always starts with `'/'`, normalising it again changes
/// nothing, and a text that already starts with `'/'` is left as it is.
pub proof fn lemma_leading_slash(s: Seq<char>)
    ensures
        with_leading_slash(s).len() > 0,
        with_leading_slash(s)[0] == '/',
        with_leading_slash(with_leading_slash(s)) == with_leading_slash(s),
        s.len() > 0 && s[0] == '/' ==> with_leading_slash(s) == s,
        !(s.len() > 0 && s[0] == '/') ==> with_leading_slash(s).len() == s.len() + 1,
{
}

} // verus!
