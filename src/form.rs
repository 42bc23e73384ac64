//! Decoding of `application/x-www-form-urlencoded` query strings into
//! ordered `(name, value)` pairs.

use vstd::prelude::*;

verus! {

/// A decoded `(name, value)` pair, as sequences of characters.
pub type PairView = (Seq<char>, Seq<char>);

/// The pairs that the form decoder yields for query `q`, or `None` when it
/// reports a failure.
pub uninterp spec fn form_decoded(q: Seq<char>) -> Option<Seq<PairView>>;

/// The view of a vector of owned pairs.
pub open spec fn pairs_view(pairs: Seq<(String, String)>) -> Seq<PairView> {
    pairs.map_values(|p: (String, String)| (p.0@, p.1@))
}

/// Index of the first `c` in `s`, or `s.len()` when there is none.
pub open spec fn first_index_of(s: Seq<char>, c: char) -> nat
    decreases s.len(),
{
    if s.len() == 0 {
        0
    } else if s[0] == c {
        0
    } else {
        1 + first_index_of(s.drop_first(), c)
    }
}

/// Splits one non-empty segment at its first `=`; a segment without `=` is a
/// name with an empty value.
pub open spec fn split_pair(seg: Seq<char>) -> PairView {
    let i = first_index_of(seg, '=') as int;
    if i < seg.len() {
        (seg.take(i), seg.skip(i + 1))
    } else {
        (seg, Seq::empty())
    }
}

/// The pairs of a query read without any unescaping: segments separated by
/// `&`, empty segments skipped, each segment split at its first `=`.
pub open spec fn plain_pairs(q: Seq<char>) -> Seq<PairView>
    decreases q.len(),
{
    if q.len() == 0 {
        Seq::empty()
    } else {
        let i = first_index_of(q, '&') as int;
        let seg = q.take(i);
        let rest = if i < q.len() {
            q.skip(i + 1)
        } else {
            Seq::empty()
        };
        if seg.len() == 0 {
            plain_pairs(rest)
        } else {
            seq![split_pair(seg)] + plain_pairs(rest)
        }
    }
}

/// A query with nothing to unescape: no `%` escape and no `+` for a space.
pub open spec fn is_plain_query(q: Seq<char>) -> bool {
    forall|i: int| 0 <= i < q.len() ==> q[i] != '%' && q[i] != '+'
}

#[verifier::external_type_specification]
#[verifier::external_body]
pub struct ExFormError(serde_html_form::de::Error);

/// Relies on serde_html_form::from_str, read into `Vec<(String, String)>`:
/// it yields the query's pairs in order of appearance, duplicates kept.
/// Unescaping (`+` and `%XX`) is done by form_urlencoded::parse; on a query
/// with neither, each name and value is its text as written, split at `&`
/// and at the first `=`, empty segments skipped.
#[verifier::external_body]
pub(crate) fn decode_pairs(q: &str) -> (r: Result<Vec<(String, String)>, serde_html_form::de::Error>)
    ensures
        r is Ok <==> form_decoded(q@) is Some,
        r is Ok ==> pairs_view(r->Ok_0@) == form_decoded(q@)->Some_0,
        is_plain_query(q@) ==> r is Ok && pairs_view(r->Ok_0@) == plain_pairs(q@),
{
    serde_html_form::from_str::<Vec<(String, String)>>(q)
}

} // verus!
