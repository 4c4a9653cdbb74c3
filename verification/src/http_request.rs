//! The request target: the method names it builds requests with, the raw
//! request target it forms from path and query, and its size limits.

use vstd::prelude::*;

use crate::method::HttpMethodKind;

verus! {

/// Request paths longer than this many bytes are not used.
pub const MAX_REQUEST_PATH_BYTES: usize = 10_000;

/// Request bodies longer than this many bytes are not used.
pub const MAX_REQUEST_BODY_BYTES: usize = 1_000_000;

/// The method a fuzzed request uses: one of the framework's named methods,
/// one of two methods the framework has no constant for, or any other
/// token.
#[derive(Clone, Debug)]
pub enum FuzzMethod {
    Get,
    Post,
    Put,
    Delete,
    Patch,
    Head,
    Options,
    Connect,
    Trace,
    Query,
    /// An unrecognized token, carried as a method of its own rather than
    /// rejected.
    Custom(String),
}

/// How a request's method is named: by one of the framework's method
/// constants, whose name the framework supplies, or by a literal token.
#[derive(Clone, Copy, Debug)]
pub enum MethodName<'a> {
    Standard(HttpMethodKind),
    Token(&'a str),
}

/// The framework method constant a fuzzed method stands for, if it has one.
pub open spec fn standard_kind(m: FuzzMethod) -> Option<HttpMethodKind> {
    match m {
        FuzzMethod::Get => Some(HttpMethodKind::Get),
        FuzzMethod::Post => Some(HttpMethodKind::Post),
        FuzzMethod::Put => Some(HttpMethodKind::Put),
        FuzzMethod::Delete => Some(HttpMethodKind::Delete),
        FuzzMethod::Patch => Some(HttpMethodKind::Patch),
        FuzzMethod::Head => Some(HttpMethodKind::Head),
        FuzzMethod::Options => Some(HttpMethodKind::Options),
        FuzzMethod::Query => Some(HttpMethodKind::Query),
        _ => None,
    }
}

/// The literal token of a fuzzed method that has no framework constant.
pub open spec fn token_text(m: FuzzMethod) -> Seq<char> {
    match m {
        FuzzMethod::Connect => "CONNECT"@,
        FuzzMethod::Trace => "TRACE"@,
        FuzzMethod::Custom(s) => s@,
        _ => Seq::empty(),
    }
}

impl FuzzMethod {
    /// The name of the method this fuzzed method stands for: the framework
    /// constant for the methods it names, `"CONNECT"` and `"TRACE"` for the
    /// two it does not, and a custom token as it is.
    pub fn method_name(&self) -> (name: MethodName<'_>)
        ensures
            standard_kind(*self) matches Some(k) ==> name == MethodName::Standard(k),
            standard_kind(*self) is None ==> name is Token,
            name matches MethodName::Token(t) ==> t@ == token_text(*self),
            *self is Get ==> name == MethodName::Standard(HttpMethodKind::Get),
            *self is Post ==> name == MethodName::Standard(HttpMethodKind::Post),
            *self is Put ==> name == MethodName::Standard(HttpMethodKind::Put),
            *self is Delete ==> name == MethodName::Standard(HttpMethodKind::Delete),
            *self is Patch ==> name == MethodName::Standard(HttpMethodKind::Patch),
            *self is Head ==> name == MethodName::Standard(HttpMethodKind::Head),
            *self is Options ==> name == MethodName::Standard(HttpMethodKind::Options),
            *self is Query ==> name == MethodName::Standard(HttpMethodKind::Query),
            *self is Connect ==> name is Token && name->Token_0@ == "CONNECT"@,
            *self is Trace ==> name is Token && name->Token_0@ == "TRACE"@,
            *self is Custom ==> name is Token && name->Token_0@ == self->Custom_0@,
    {
        match self {
            FuzzMethod::Get => MethodName::Standard(HttpMethodKind::Get),
            FuzzMethod::Post => MethodName::Standard(HttpMethodKind::Post),
            FuzzMethod::Put => MethodName::Standard(HttpMethodKind::Put),
            FuzzMethod::Delete => MethodName::Standard(HttpMethodKind::Delete),
            FuzzMethod::Patch => MethodName::Standard(HttpMethodKind::Patch),
            FuzzMethod::Head => MethodName::Standard(HttpMethodKind::Head),
            FuzzMethod::Options => MethodName::Standard(HttpMethodKind::Options),
            FuzzMethod::Connect => MethodName::Token("CONNECT"),
            FuzzMethod::Trace => MethodName::Token("TRACE"),
            FuzzMethod::Query => MethodName::Standard(HttpMethodKind::Query),
            FuzzMethod::Custom(s) => MethodName::Token(s.as_str()),
        }
    }
}

/// The raw request target: the path, then `'?'` and the query when there
/// is one.
pub open spec fn target_text(path: Seq<char>, query: Option<Seq<char>>) -> Seq<char> {
    match query {
        Some(q) => path + seq!['?'] + q,
        None => path,
    }
}

/// Form the raw request target, query string included, in the shape the
/// HTTP/1 parser hands to the request type.
pub fn request_target(path: &str, query: Option<&str>) -> (target: String)
    ensures
        target@ == target_text(
            path@,
            match query {
                Some(q) => Some(q@),
                None => None,
            },
        ),
        query is None ==> target@ == path@,
        query is Some ==> target@ == path@ + seq!['?'] + query->0@,
{
    match query {
        Some(q) => {
            let mut target = path.to_owned();
            target.append("?");
            target.append(q);
            proof {
                reveal_strlit("?");
            }
            target
        },
        None => path.to_owned(),
    }
}

/// A target with a query is the path, unchanged, then one `'?'`, then the
/// query, unchanged: both can be read back from it at fixed positions.
/// Without a query the target is the path itself.
pub proof fn lemma_target_layout(path: Seq<char>, query: Option<Seq<char>>)
    ensures
        query is None ==> target_text(path, query) == path,
        query matches Some(q) ==> {
            let t = target_text(path, query);
            &&& t.len() == path.len() + 1 + q.len()
            &&& t.subrange(0, path.len() as int) == path
            &&& t[path.len() as int] == '?'
            &&& t.subrange(path.len() as int + 1, t.len() as int) == q
        },
{
    if let Some(q) = query {
        let t = target_text(path, query);
        assert(t.subrange(0, path.len() as int) =~= path);
        assert(t.subrange(path.len() as int + 1, t.len() as int) =~= q);
    }
}

/// Whether a fuzzed request is small enough to be built: a path of at most
/// [`MAX_REQUEST_PATH_BYTES`] bytes and a body of at most
/// [`MAX_REQUEST_BODY_BYTES`] bytes.
pub fn request_within_limits(path: &str, body: &[u8]) -> (ok: bool)
    ensures
        ok == (path.len() <= MAX_REQUEST_PATH_BYTES && body@.len() <= MAX_REQUEST_BODY_BYTES),
{
    !(path.len() > MAX_REQUEST_PATH_BYTES || body.len() > MAX_REQUEST_BODY_BYTES)
}

} // verus!
