//! Response bodies: the filter values of a request joined by commas.

use vstd::prelude::*;
use crate::laws::{all_plain, lemma_query_of_values, query_of};
use crate::params::{strings_view, BuggyParams, Params};

verus! {

/// The values joined by single commas: no separator before the first or
/// after the last, and the empty string for no values.
pub open spec fn joined(vs: Seq<Seq<char>>) -> Seq<char>
    decreases vs.len(),
{
    if vs.len() == 0 {
        Seq::empty()
    } else if vs.len() == 1 {
        vs[0]
    } else {
        joined(vs.drop_last()) + seq![','] + vs.last()
    }
}

/// The body that `/` answers to query `q`.
pub open spec fn root_body(q: Seq<char>) -> Seq<char> {
    joined(Params::spec_from_query(q))
}

/// The body that `/buggy` answers to query `q`.
pub open spec fn buggy_body(q: Seq<char>) -> Seq<char> {
    joined(BuggyParams::spec_from_query(q))
}

/// Joins the values with `,` between each two of them.
pub fn join_with_commas(values: &Vec<String>) -> (r: String)
    ensures
        r@ == joined(strings_view(values@)),
{
    let mut out = String::new();
    let mut i: usize = 0;
    while i < values.len()
        invariant
            i <= values.len(),
            out@ == joined(strings_view(values@).take(i as int)),
        decreases values.len() - i,
    {
        let ghost before = out@;
        if i > 0 {
            out.append(",");
        }
        out.append(values[i].as_str());
        proof {
            let vs = strings_view(values@).take(i + 1);
            assert(vs.drop_last() =~= strings_view(values@).take(i as int));
            assert(vs.last() == values@[i as int]@);
            if i > 0 {
                reveal_strlit(",");
                assert(","@ =~= seq![',']);
                assert(out@ =~= before + seq![','] + vs.last());
            }
            if i == 0 {
                assert(before =~= Seq::<char>::empty());
                assert(out@ =~= vs[0]);
            }
        }
        i += 1;
    }
    assert(strings_view(values@).take(values.len() as int) =~= strings_view(values@));
    out
}

/// The body for parameters read directly: their filters joined by commas.
pub fn handler(params: Params) -> (r: String)
    ensures
        r@ == joined(params@),
{
    join_with_commas(&params.filters)
}

/// The body for parameters read through the merged field: its children
/// joined by commas.
pub fn buggy_handler(params: BuggyParams) -> (r: String)
    ensures
        r@ == joined(params@),
{
    join_with_commas(&params.parent.children)
}

/// Answers a request to `/` with raw query `query`. For the query
/// `filter=v1&...&filter=vN` of plain values the body is `v1,...,vN`.
pub fn root_response(query: &str) -> (r: String)
    ensures
        r@ == root_body(query@),
        forall|vs: Seq<Seq<char>>|
            all_plain(vs) && #[trigger] query_of(vs) == query@ ==> r@ == joined(vs),
{
    let params = Params::from_query(query);
    proof {
        assert forall|vs: Seq<Seq<char>>| all_plain(vs) && #[trigger] query_of(vs) == query@ implies params@ == vs by {
            lemma_query_of_values(vs);
        }
    }
    handler(params)
}

/// Answers a request to `/buggy` with raw query `query`, through the merged
/// field. For the query `filter=v1&...&filter=vN` of plain values the body
/// is `v1,...,vN`.
pub fn buggy_response(query: &str) -> (r: String)
    ensures
        r@ == buggy_body(query@),
        forall|vs: Seq<Seq<char>>|
            all_plain(vs) && #[trigger] query_of(vs) == query@ ==> r@ == joined(vs),
{
    let params = BuggyParams::from_query(query);
    proof {
        assert forall|vs: Seq<Seq<char>>| all_plain(vs) && #[trigger] query_of(vs) == query@ implies params@ == vs by {
            lemma_query_of_values(vs);
        }
    }
    buggy_handler(params)
}

} // verus!
