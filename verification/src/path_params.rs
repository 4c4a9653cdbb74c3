//! The path-matching target: the methods it picks, the routes it registers,
//! the edge cases it tries, and the length limit on fuzzed paths.

use vstd::prelude::*;

use crate::method::HttpMethodKind;

verus! {

/// Paths longer than this many bytes are not matched.
pub const MAX_PATH_BYTES: usize = 10_000;

/// The method a path-matching input uses.
#[derive(Clone, Copy, Debug, PartialEq, Eq, Structural)]
pub enum FuzzMethod {
    Get,
    Post,
    Put,
    Delete,
    Patch,
    Head,
    Options,
    Query,
}

/// The framework method each fuzzed method stands for.
pub open spec fn method_kind(m: FuzzMethod) -> HttpMethodKind {
    match m {
        FuzzMethod::Get => HttpMethodKind::Get,
        FuzzMethod::Post => HttpMethodKind::Post,
        FuzzMethod::Put => HttpMethodKind::Put,
        FuzzMethod::Delete => HttpMethodKind::Delete,
        FuzzMethod::Patch => HttpMethodKind::Patch,
        FuzzMethod::Head => HttpMethodKind::Head,
        FuzzMethod::Options => HttpMethodKind::Options,
        FuzzMethod::Query => HttpMethodKind::Query,
    }
}

impl FuzzMethod {
    /// The framework method this fuzzed method stands for.
    pub fn as_http_method(self) -> (kind: HttpMethodKind)
        ensures
            kind == method_kind(self),
            self is Get ==> kind == HttpMethodKind::Get,
            self is Post ==> kind == HttpMethodKind::Post,
            self is Put ==> kind == HttpMethodKind::Put,
            self is Delete ==> kind == HttpMethodKind::Delete,
            self is Patch ==> kind == HttpMethodKind::Patch,
            self is Head ==> kind == HttpMethodKind::Head,
            self is Options ==> kind == HttpMethodKind::Options,
            self is Query ==> kind == HttpMethodKind::Query,
    {
        match self {
            FuzzMethod::Get => HttpMethodKind::Get,
            FuzzMethod::Post => HttpMethodKind::Post,
            FuzzMethod::Put => HttpMethodKind::Put,
            FuzzMethod::Delete => HttpMethodKind::Delete,
            FuzzMethod::Patch => HttpMethodKind::Patch,
            FuzzMethod::Head => HttpMethodKind::Head,
            FuzzMethod::Options => HttpMethodKind::Options,
            FuzzMethod::Query => HttpMethodKind::Query,
        }
    }
}

/// Distinct fuzzed methods stand for distinct framework methods, so every
/// method the target can pick reaches the router as itself.
pub proof fn lemma_method_kind_injective(a: FuzzMethod, b: FuzzMethod)
    ensures
        method_kind(a) == method_kind(b) ==> a == b,
{
}

/// The routes the target registers, in registration order: single
/// parameters, several parameters, catch-alls, and one pattern under four
/// methods, so that method mismatches are exercised too.
pub open spec fn route_table() -> Seq<(HttpMethodKind, Seq<char>)> {
    seq![
        (HttpMethodKind::Get, "/users/:id"@),
        (HttpMethodKind::Get, "/users/:user_id/posts/:post_id"@),
        (HttpMethodKind::Get, "/api/v1/*path"@),
        (HttpMethodKind::Get, "/files/*path"@),
        (HttpMethodKind::Get, "/:org/:repo/tree/:branch/*path"@),
        (HttpMethodKind::Get, "/**"@),
        (HttpMethodKind::Post, "/users/:id"@),
        (HttpMethodKind::Put, "/api/v1/:resource/:id"@),
        (HttpMethodKind::Delete, "/api/v1/:resource/:id"@),
        (HttpMethodKind::Patch, "/api/v1/:resource/:id"@),
    ]
}

/// The method and pattern of every route the target's router holds.
pub fn router_routes() -> (routes: Vec<(HttpMethodKind, &'static str)>)
    ensures
        routes@.map_values(|r: (HttpMethodKind, &'static str)| (r.0, r.1@)) == route_table(),
{
    let routes = vec![
        (HttpMethodKind::Get, "/users/:id"),
        (HttpMethodKind::Get, "/users/:user_id/posts/:post_id"),
        (HttpMethodKind::Get, "/api/v1/*path"),
        (HttpMethodKind::Get, "/files/*path"),
        (HttpMethodKind::Get, "/:org/:repo/tree/:branch/*path"),
        (HttpMethodKind::Get, "/**"),
        (HttpMethodKind::Post, "/users/:id"),
        (HttpMethodKind::Put, "/api/v1/:resource/:id"),
        (HttpMethodKind::Delete, "/api/v1/:resource/:id"),
        (HttpMethodKind::Patch, "/api/v1/:resource/:id"),
    ];
    assert(routes@.map_values(|r: (HttpMethodKind, &'static str)| (r.0, r.1@)) =~= route_table());
    routes
}

/// The fixed paths matched under the fuzzed method.
pub open spec fn edge_path_table() -> Seq<Seq<char>> {
    seq![""@, "/"@, "/*"@, "//users//123//"@, "/**"@]
}

/// The fixed method names the fuzzed path is matched under.
pub open spec fn edge_method_table() -> Seq<Seq<char>> {
    seq![""@, "GET"@, "get"@, "TRACE"@]
}

/// The edge-case paths: empty, root, a literal star, doubled slashes, and a
/// double-star catch-all.
pub fn edge_paths() -> (paths: Vec<&'static str>)
    ensures
        paths@.map_values(|p: &'static str| p@) == edge_path_table(),
{
    let paths = vec!["", "/", "/*", "//users//123//", "/**"];
    assert(paths@.map_values(|p: &'static str| p@) =~= edge_path_table());
    paths
}

/// The edge-case method names: empty, upper- and lower-case `GET`, and a
/// method no route is registered under.
pub fn edge_methods() -> (methods: Vec<&'static str>)
    ensures
        methods@.map_values(|m: &'static str| m@) == edge_method_table(),
{
    let methods = vec!["", "GET", "get", "TRACE"];
    assert(methods@.map_values(|m: &'static str| m@) =~= edge_method_table());
    methods
}

/// Whether a fuzzed path is short enough to be matched.
pub fn path_within_limit(path: &str) -> (ok: bool)
    ensures
        ok == (path.len() <= MAX_PATH_BYTES),
{
    path.len() <= MAX_PATH_BYTES
}

} // verus!
