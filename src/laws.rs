//! What a query built from filter values decodes to, and the laws that
//! relate the two endpoints.

use vstd::prelude::*;
use crate::form::{first_index_of, is_plain_query, plain_pairs, split_pair};
use crate::handler::{buggy_body, root_body};
use crate::params::{filter_key, values_for, BuggyParams, Params};

verus! {

/// The text `filter=v` of one query pair.
pub open spec fn filter_pair_text(v: Seq<char>) -> Seq<char> {
    filter_key() + seq!['='] + v
}

/// The query `filter=v1&filter=v2&...&filter=vN`; empty for no values.
pub open spec fn query_of(vs: Seq<Seq<char>>) -> Seq<char>
    decreases vs.len(),
{
    if vs.len() == 0 {
        Seq::empty()
    } else if vs.len() == 1 {
        filter_pair_text(vs[0])
    } else {
        query_of(vs.drop_last()) + seq!['&'] + filter_pair_text(vs.last())
    }
}

/// A value that can be written into a query as it is: no `&` to end its
/// pair early and nothing that the decoder would unescape.
pub open spec fn is_plain_value(v: Seq<char>) -> bool {
    forall|i: int| 0 <= i < v.len() ==> v[i] != '&' && v[i] != '%' && v[i] != '+'
}

/// Every value is plain.
pub open spec fn all_plain(vs: Seq<Seq<char>>) -> bool {
    forall|k: int| 0 <= k < vs.len() ==> is_plain_value(#[trigger] vs[k])
}

proof fn lemma_first_index_bound(s: Seq<char>, c: char)
    ensures
        first_index_of(s, c) <= s.len(),
        first_index_of(s, c) < s.len() ==> s[first_index_of(s, c) as int] == c,
    decreases s.len(),
{
    if s.len() > 0 && s[0] != c {
        lemma_first_index_bound(s.drop_first(), c);
    }
}

proof fn lemma_first_index_absent(s: Seq<char>, c: char)
    requires
        forall|i: int| 0 <= i < s.len() ==> s[i] != c,
    ensures
        first_index_of(s, c) == s.len(),
    decreases s.len(),
{
    if s.len() > 0 {
        lemma_first_index_absent(s.drop_first(), c);
    }
}

proof fn lemma_first_index_concat(a: Seq<char>, b: Seq<char>, c: char)
    ensures
        first_index_of(a + b, c) == if first_index_of(a, c) < a.len() {
            first_index_of(a, c)
        } else {
            a.len() + first_index_of(b, c)
        },
    decreases a.len(),
{
    lemma_first_index_bound(a, c);
    if a.len() == 0 {
        assert(a + b =~= b);
    } else if a[0] != c {
        assert((a + b).drop_first() =~= a.drop_first() + b);
        lemma_first_index_concat(a.drop_first(), b, c);
    }
}

proof fn lemma_plain_pairs_concat(a: Seq<char>, b: Seq<char>)
    ensures
        plain_pairs(a + seq!['&'] + b) == plain_pairs(a) + plain_pairs(b),
    decreases a.len(),
{
    let q = a + seq!['&'] + b;
    assert(q =~= a + (seq!['&'] + b));
    lemma_first_index_concat(a, seq!['&'] + b, '&');
    lemma_first_index_bound(a, '&');
    let j = first_index_of(a, '&') as int;
    assert(first_index_of(seq!['&'] + b, '&') == 0);
    if j < a.len() {
        assert(q.take(j) =~= a.take(j));
        let rest = a.skip(j + 1);
        assert(q.skip(j + 1) =~= rest + seq!['&'] + b);
        lemma_plain_pairs_concat(rest, b);
        if j == 0 {
            assert(plain_pairs(a) == plain_pairs(rest));
        } else {
            assert(plain_pairs(a) == seq![split_pair(a.take(j))] + plain_pairs(rest));
            assert(seq![split_pair(a.take(j))] + (plain_pairs(rest) + plain_pairs(b)) =~= seq![
                split_pair(a.take(j)),
            ] + plain_pairs(rest) + plain_pairs(b));
        }
    } else {
        assert(q.take(a.len() as int) =~= a);
        assert(q.skip(a.len() as int + 1) =~= b);
        if a.len() == 0 {
            assert(plain_pairs(a) =~= Seq::<(Seq<char>, Seq<char>)>::empty());
            assert(plain_pairs(a) + plain_pairs(b) =~= plain_pairs(b));
        } else {
            assert(a.take(a.len() as int) =~= a);
            assert(plain_pairs(Seq::<char>::empty()) =~= Seq::<(Seq<char>, Seq<char>)>::empty());
            assert(plain_pairs(a) =~= seq![split_pair(a)]);
        }
    }
}

proof fn lemma_single_pair(v: Seq<char>)
    requires
        is_plain_value(v),
    ensures
        is_plain_query(filter_pair_text(v)),
        plain_pairs(filter_pair_text(v)) == seq![(filter_key(), v)],
{
    let q = filter_pair_text(v);
    let key = filter_key();
    assert(q =~= key + (seq!['='] + v));
    assert forall|i: int| 0 <= i < q.len() implies q[i] != '&' && q[i] != '%' && q[i] != '+' by {
        if i >= 7 {
            assert(q[i] == v[i - 7]);
        }
    }
    lemma_first_index_absent(q, '&');
    lemma_first_index_absent(key, '=');
    lemma_first_index_concat(key, seq!['='] + v, '=');
    assert(first_index_of(seq!['='] + v, '=') == 0);
    assert(q.take(6) =~= key);
    assert(q.skip(7) =~= v);
    assert(q.take(q.len() as int) =~= q);
    assert(plain_pairs(Seq::<char>::empty()) =~= Seq::<(Seq<char>, Seq<char>)>::empty());
    assert(plain_pairs(q) =~= seq![split_pair(q)]);
}

/// A query built from plain values decodes, without unescaping, to exactly
/// those values under the `filter` key, in order.
pub proof fn lemma_query_of_values(vs: Seq<Seq<char>>)
    requires
        all_plain(vs),
    ensures
        is_plain_query(query_of(vs)),
        values_for(plain_pairs(query_of(vs)), filter_key()) == vs,
    decreases vs.len(),
{
    if vs.len() == 0 {
        assert(values_for(plain_pairs(query_of(vs)), filter_key()) =~= vs);
    } else if vs.len() == 1 {
        lemma_single_pair(vs[0]);
        let p = seq![(filter_key(), vs[0])];
        assert(p.drop_last() =~= Seq::<(Seq<char>, Seq<char>)>::empty());
        assert(values_for(p.drop_last(), filter_key()) =~= Seq::<Seq<char>>::empty());
        assert(values_for(p, filter_key()) =~= vs);
    } else {
        let init = vs.drop_last();
        assert forall|k: int| 0 <= k < init.len() implies is_plain_value(#[trigger] init[k]) by {
            assert(init[k] == vs[k]);
        }
        assert(is_plain_value(vs[vs.len() - 1]));
        lemma_query_of_values(init);
        lemma_single_pair(vs.last());
        let a = query_of(init);
        let t = filter_pair_text(vs.last());
        let q = query_of(vs);
        assert(q == a + seq!['&'] + t);
        lemma_plain_pairs_concat(a, t);
        assert forall|i: int| 0 <= i < q.len() implies q[i] != '%' && q[i] != '+' by {
            if i < a.len() {
                assert(q[i] == a[i]);
            } else if i > a.len() {
                assert(q[i] == t[i - a.len() - 1]);
            }
        }
        let p = plain_pairs(a);
        let all = p + seq![(filter_key(), vs.last())];
        assert(all.drop_last() =~= p);
        assert(values_for(all, filter_key()) =~= vs);
    }
}

/// Both endpoints read the same values from every query, decoded or not,
/// and so answer it with the same body: merging the nested field into the
/// enclosing namespace collects repeated `filter` keys exactly as reading
/// them directly does.
pub proof fn lemma_endpoints_agree(q: Seq<char>)
    ensures
        Params::spec_from_query(q) == BuggyParams::spec_from_query(q),
        root_body(q) == buggy_body(q),
{
}

/// Repeating a request gives the same body as the first time: each body
/// depends on the query alone, and nothing is kept between requests.
pub proof fn lemma_repeat_request(q1: Seq<char>, q2: Seq<char>)
    requires
        q1 == q2,
    ensures
        root_body(q1) == root_body(q2),
        buggy_body(q1) == buggy_body(q2),
{
}

} // verus!
