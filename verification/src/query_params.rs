//! The query-string target: the query it builds from fuzzed key/value
//! pairs, and the parameter names it looks up.

use vstd::prelude::*;

verus! {

/// One `key=value` entry of a query string.
pub open spec fn pair_text(key: Seq<char>, value: Seq<char>) -> Seq<char> {
    key + seq!['='] + value
}

/// The `key=value` entries joined with `'&'`, in order.
pub open spec fn query_string(params: Seq<(Seq<char>, Seq<char>)>) -> Seq<char>
    decreases params.len(),
{
    if params.len() == 0 {
        Seq::empty()
    } else if params.len() == 1 {
        pair_text(params[0].0, params[0].1)
    } else {
        query_string(params.drop_last()) + seq!['&'] + pair_text(params.last().0, params.last().1)
    }
}

/// The text of each key/value pair.
pub open spec fn pair_views(params: Seq<(String, String)>) -> Seq<(Seq<char>, Seq<char>)> {
    params.map_values(|p: (String, String)| (p.0@, p.1@))
}

/// Build `key1=value1&key2=value2&...` from the pairs, as they are, with no
/// escaping: the raw text is what the parsers are fed.
pub fn build_query_string(params: &Vec<(String, String)>) -> (query: String)
    ensures
        query@ == query_string(pair_views(params@)),
        params@.len() == 0 ==> query@.len() == 0,
        params@.len() == 1 ==> query@ == params@[0].0@ + seq!['='] + params@[0].1@,
        params@.len() > 1 ==> query@ == query_string(pair_views(params@).drop_last()) + seq!['&']
            + params@.last().0@ + seq!['='] + params@.last().1@,
{
    let mut built = String::new();
    let n = params.len();
    let ghost views = pair_views(params@);
    assert(views.take(0) =~= Seq::<(Seq<char>, Seq<char>)>::empty());
    for i in 0..n
        invariant
            n == params@.len(),
            views == pair_views(params@),
            built@ == query_string(views.take(i as int)),
    {
        proof {
            reveal_strlit("&");
            reveal_strlit("=");
        }
        if i > 0 {
            built.append("&");
        }
        built.append(params[i].0.as_str());
        built.append("=");
        built.append(params[i].1.as_str());
        assert(views.take(i + 1).drop_last() =~= views.take(i as int));
        assert(built@ =~= query_string(views.take(i + 1)));
    }
    assert(views.take(n as int) =~= views);
    proof {
        lemma_query_string_entries(views);
    }
    built
}

/// Keys and values go into the query string as they are: no pairs give
/// the empty text, one pair gives the key, `'='` and the value, and each
/// further pair adds `'&'`, its key, `'='` and its value at the end. When
/// the key of a single pair holds no `'='`, the text before the first
/// `'='` is that key.
pub proof fn lemma_query_string_entries(params: Seq<(Seq<char>, Seq<char>)>)
    ensures
        params.len() == 0 ==> query_string(params).len() == 0,
        params.len() == 1 ==> query_string(params) == params[0].0 + seq!['='] + params[0].1,
        params.len() > 1 ==> query_string(params) == query_string(params.drop_last()) + seq!['&']
            + params.last().0 + seq!['='] + params.last().1,
        params.len() == 1 && !params[0].0.contains('=') ==> {
            let q = query_string(params);
            let k = params[0].0;
            &&& q[k.len() as int] == '='
            &&& q.subrange(0, k.len() as int) == k
            &&& forall|i: int| 0 <= i < k.len() ==> #[trigger] q[i] != '='
        },
{
    if params.len() == 1 {
        let q = query_string(params);
        let k = params[0].0;
        assert(q.subrange(0, k.len() as int) =~= k);
        if !k.contains('=') {
            assert forall|i: int| 0 <= i < k.len() implies #[trigger] q[i] != '=' by {
                assert(q[i] == k[i]);
            }
        }
    }
}

/// Concatenating two non-empty parameter lists joins their query strings
/// with a single `'&'`.
pub proof fn lemma_query_string_concat(
    a: Seq<(Seq<char>, Seq<char>)>,
    b: Seq<(Seq<char>, Seq<char>)>,
)
    requires
        a.len() > 0,
        b.len() > 0,
    ensures
        query_string(a + b) == query_string(a) + seq!['&'] + query_string(b),
    decreases b.len(),
{
    if b.len() == 1 {
        assert((a + b).drop_last() =~= a);
        assert(query_string(a + b) =~= query_string(a) + seq!['&'] + query_string(b));
    } else {
        let b0 = b.drop_last();
        lemma_query_string_concat(a, b0);
        assert((a + b).drop_last() =~= a + b0);
        assert(query_string(a + b) =~= query_string(a) + seq!['&'] + query_string(b));
    }
}

/// The parameter names looked up in the decoded query.
pub open spec fn common_param_table() -> Seq<Seq<char>> {
    seq!["page"@, "limit"@, "offset"@, "sort"@, "order"@, "filter"@, "q"@, "search"@]
}

/// Names that real applications commonly read from a query string:
/// pagination, sorting, filtering and search.
pub fn common_query_params() -> (names: Vec<&'static str>)
    ensures
        names@.map_values(|n: &'static str| n@) == common_param_table(),
{
    let names = vec!["page", "limit", "offset", "sort", "order", "filter", "q", "search"];
    assert(names@.map_values(|n: &'static str| n@) =~= common_param_table());
    names
}

} // verus!
