//! The two parameter shapes and how each is read from decoded pairs.
//!
//! `Params` reads its `filters` field from the `filter` key directly.
//! `BuggyParams` holds a `Filter`-shaped `parent` whose fields are
//! merged into the enclosing key namespace: `parent.children` also reads
//! the `filter` key of the query itself, not a sub-key of `parent`.

use vstd::prelude::*;
use crate::form::{decode_pairs, form_decoded, is_plain_query, pairs_view, plain_pairs, PairView};

verus! {

/// The key that every filter value is read from.
pub open spec fn filter_key() -> Seq<char> {
    seq!['f', 'i', 'l', 't', 'e', 'r']
}

/// The values of all pairs named `key`, in order of appearance.
pub open spec fn values_for(pairs: Seq<PairView>, key: Seq<char>) -> Seq<Seq<char>>
    decreases pairs.len(),
{
    if pairs.len() == 0 {
        Seq::empty()
    } else {
        let rest = values_for(pairs.drop_last(), key);
        if pairs.last().0 == key {
            rest.push(pairs.last().1)
        } else {
            rest
        }
    }
}

/// The view of a vector of owned strings.
pub open spec fn strings_view(v: Seq<String>) -> Seq<Seq<char>> {
    v.map_values(|s: String| s@)
}

/// Collects, in order, the values of the pairs whose name is `key`.
fn collect_values(pairs: &Vec<(String, String)>, key: &String) -> (r: Vec<String>)
    ensures
        strings_view(r@) == values_for(pairs_view(pairs@), key@),
{
    let mut out: Vec<String> = Vec::new();
    let mut i: usize = 0;
    while i < pairs.len()
        invariant
            i <= pairs.len(),
            strings_view(out@) == values_for(pairs_view(pairs@.take(i as int)), key@),
        decreases pairs.len() - i,
    {
        let ghost before = out@;
        let matched = pairs[i].0 == *key;
        if matched {
            out.push(pairs[i].1.clone());
            assert(strings_view(out@) =~= strings_view(before).push(pairs[i as int].1@));
        }
        proof {
            let pv = pairs_view(pairs@.take(i + 1));
            assert(pv.drop_last() =~= pairs_view(pairs@.take(i as int)));
            assert(pv.last() == (pairs[i as int].0@, pairs[i as int].1@));
        }
        i += 1;
    }
    assert(pairs@.take(pairs.len() as int) =~= pairs@);
    out
}

/// The key `filter` as an owned string.
fn filter_key_string() -> (r: String)
    ensures
        r@ == filter_key(),
{
    proof {
        reveal_strlit("filter");
    }
    let r = String::from_str("filter");
    assert(r@ =~= filter_key());
    r
}

/// Parameters whose `filters` field collects every `filter` value.
#[derive(Debug)]
pub struct Params {
    pub filters: Vec<String>,
}

/// Parameters whose single field is merged into the enclosing namespace.
#[derive(Debug)]
pub struct BuggyParams {
    pub parent: Filter,
}

/// The nested shape: `children` collects every `filter` value.
#[derive(Debug)]
pub struct Filter {
    pub children: Vec<String>,
}

impl View for Params {
    type V = Seq<Seq<char>>;

    open spec fn view(&self) -> Seq<Seq<char>> {
        strings_view(self.filters@)
    }
}

impl View for Filter {
    type V = Seq<Seq<char>>;

    open spec fn view(&self) -> Seq<Seq<char>> {
        strings_view(self.children@)
    }
}

impl View for BuggyParams {
    type V = Seq<Seq<char>>;

    open spec fn view(&self) -> Seq<Seq<char>> {
        self.parent@
    }
}

impl Default for Params {
    fn default() -> (r: Self)
        ensures
            r@ == Seq::<Seq<char>>::empty(),
    {
        let r = Params { filters: Vec::new() };
        assert(r@ =~= Seq::<Seq<char>>::empty());
        r
    }
}

impl Default for BuggyParams {
    fn default() -> (r: Self)
        ensures
            r@ == Seq::<Seq<char>>::empty(),
    {
        let r = BuggyParams { parent: Filter { children: Vec::new() } };
        assert(r@ =~= Seq::<Seq<char>>::empty());
        r
    }
}

impl Filter {
    /// What `children` holds for the given pairs: the `filter` values.
    pub open spec fn spec_from_pairs(pairs: Seq<PairView>) -> Seq<Seq<char>> {
        values_for(pairs, filter_key())
    }

    /// Reads `children` from the `filter` key of `pairs`.
    pub fn from_pairs(pairs: &Vec<(String, String)>) -> (r: Filter)
        ensures
            r@ == Self::spec_from_pairs(pairs_view(pairs@)),
    {
        let key = filter_key_string();
        Filter { children: collect_values(pairs, &key) }
    }
}

impl Params {
    /// What `filters` holds for the given pairs: the `filter` values.
    pub open spec fn spec_from_pairs(pairs: Seq<PairView>) -> Seq<Seq<char>> {
        values_for(pairs, filter_key())
    }

    /// What a query decodes to, the empty default when decoding fails.
    pub open spec fn spec_from_query(q: Seq<char>) -> Seq<Seq<char>> {
        match form_decoded(q) {
            Some(pairs) => Self::spec_from_pairs(pairs),
            None => Seq::empty(),
        }
    }

    /// Reads `filters` from the `filter` key of `pairs`.
    pub fn from_pairs(pairs: &Vec<(String, String)>) -> (r: Params)
        ensures
            r@ == Self::spec_from_pairs(pairs_view(pairs@)),
    {
        let key = filter_key_string();
        Params { filters: collect_values(pairs, &key) }
    }

    /// Decodes a raw query string; a decoding failure gives the default.
    pub fn from_query(query: &str) -> (r: Params)
        ensures
            r@ == Self::spec_from_query(query@),
            is_plain_query(query@) ==> r@ == values_for(plain_pairs(query@), filter_key()),
    {
        match decode_pairs(query) {
            Ok(pairs) => Self::from_pairs(&pairs),
            Err(_) => Self::default(),
        }
    }
}

impl BuggyParams {
    /// What the merged `parent` holds for the given pairs: its fields read
    /// the same pairs as the enclosing shape.
    pub open spec fn spec_from_pairs(pairs: Seq<PairView>) -> Seq<Seq<char>> {
        Filter::spec_from_pairs(pairs)
    }

    /// What a query decodes to, the empty default when decoding fails.
    pub open spec fn spec_from_query(q: Seq<char>) -> Seq<Seq<char>> {
        match form_decoded(q) {
            Some(pairs) => Self::spec_from_pairs(pairs),
            None => Seq::empty(),
        }
    }

    /// Reads `parent` by merging its fields into the enclosing namespace.
    pub fn from_pairs(pairs: &Vec<(String, String)>) -> (r: BuggyParams)
        ensures
            r@ == Self::spec_from_pairs(pairs_view(pairs@)),
    {
        BuggyParams { parent: Filter::from_pairs(pairs) }
    }

    /// Decodes a raw query string; a decoding failure gives the default.
    pub fn from_query(query: &str) -> (r: BuggyParams)
        ensures
            r@ == Self::spec_from_query(query@),
            is_plain_query(query@) ==> r@ == values_for(plain_pairs(query@), filter_key()),
    {
        match decode_pairs(query) {
            Ok(pairs) => Self::from_pairs(&pairs),
            Err(_) => Self::default(),
        }
    }
}

} // verus!
