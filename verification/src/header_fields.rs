//! The fuzzed header fields that the request and response targets set:
//! every pair in order, except those with an empty name.

use vstd::prelude::*;

verus! {

/// The text of each name/value pair.
pub open spec fn field_views(fields: Seq<(String, String)>) -> Seq<(Seq<char>, Seq<char>)> {
    fields.map_values(|f: (String, String)| (f.0@, f.1@))
}

/// The pairs whose name is non-empty, in their original order.
pub open spec fn named_fields(fields: Seq<(Seq<char>, Seq<char>)>) -> Seq<(Seq<char>, Seq<char>)>
    decreases fields.len(),
{
    if fields.len() == 0 {
        Seq::empty()
    } else {
        let kept = named_fields(fields.drop_last());
        if fields.last().0.len() > 0 {
            kept.push(fields.last())
        } else {
            kept
        }
    }
}

/// The header fields to set on a request or response: each fuzzed pair in
/// order, skipping the ones whose name is empty.
pub fn named_header_fields(fields: &Vec<(String, String)>) -> (kept: Vec<(String, String)>)
    ensures
        field_views(kept@) == named_fields(field_views(fields@)),
        forall|i: int| 0 <= i < kept@.len() ==> #[trigger] kept@[i].0@.len() > 0,
        forall|f: (Seq<char>, Seq<char>)|
            #[trigger] field_views(kept@).contains(f) <==> (field_views(fields@).contains(f)
                && f.0.len() > 0),
{
    let mut kept: Vec<(String, String)> = Vec::new();
    let n = fields.len();
    let ghost views = field_views(fields@);
    assert(views.take(0) =~= Seq::<(Seq<char>, Seq<char>)>::empty());
    for i in 0..n
        invariant
            n == fields@.len(),
            views == field_views(fields@),
            field_views(kept@) == named_fields(views.take(i as int)),
    {
        assert(views.take(i + 1).drop_last() =~= views.take(i as int));
        if !fields[i].0.as_str().is_empty() {
            let ghost before = kept@;
            let name = fields[i].0.clone();
            let value = fields[i].1.clone();
            kept.push((name, value));
            assert(field_views(kept@) =~= field_views(before).push(views[i as int]));
        }
    }
    assert(views.take(n as int) =~= views);
    proof {
        lemma_named_fields_membership(views);
        assert forall|i: int| 0 <= i < kept@.len() implies #[trigger] kept@[i].0@.len() > 0 by {
            assert(field_views(kept@)[i].0 == kept@[i].0@);
        }
    }
    kept
}

/// No kept pair has an empty name, and a pair is kept exactly when it
/// occurs among the fuzzed pairs with a non-empty name.
pub proof fn lemma_named_fields_membership(fields: Seq<(Seq<char>, Seq<char>)>)
    ensures
        forall|i: int|
            0 <= i < named_fields(fields).len() ==> #[trigger] named_fields(fields)[i].0.len() > 0,
        forall|f: (Seq<char>, Seq<char>)|
            #[trigger] named_fields(fields).contains(f) <==> (fields.contains(f) && f.0.len() > 0),
    decreases fields.len(),
{
    if fields.len() > 0 {
        let init = fields.drop_last();
        let last = fields.last();
        let kept = named_fields(init);
        let all = named_fields(fields);
        lemma_named_fields_membership(init);
        assert forall|f: (Seq<char>, Seq<char>)|
            #[trigger] all.contains(f) <==> (fields.contains(f) && f.0.len() > 0) by {
            if fields.contains(f) && f.0.len() > 0 {
                let j = choose|j: int| 0 <= j < fields.len() && fields[j] == f;
                if j < init.len() {
                    assert(init[j] == f);
                    assert(kept.contains(f));
                    let k = choose|k: int| 0 <= k < kept.len() && kept[k] == f;
                    assert(all[k] == f);
                } else {
                    assert(all[all.len() - 1] == f);
                }
            }
            if all.contains(f) {
                let j = choose|j: int| 0 <= j < all.len() && all[j] == f;
                if j < kept.len() {
                    assert(kept[j] == f);
                    assert(kept.contains(f));
                    let k = choose|k: int| 0 <= k < init.len() && init[k] == f;
                    assert(fields[k] == f);
                } else {
                    assert(f == last);
                    assert(fields[fields.len() - 1] == f);
                }
            }
        }
    }
}

} // verus!
