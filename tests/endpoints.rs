use query_filters::handler::{buggy_handler, buggy_response, handler, join_with_commas, root_response};
use query_filters::params::{BuggyParams, Filter, Params};

fn pairs(items: &[(&str, &str)]) -> Vec<(String, String)> {
    items.iter().map(|(k, v)| (k.to_string(), v.to_string())).collect()
}

fn strings(items: &[&str]) -> Vec<String> {
    items.iter().map(|s| s.to_string()).collect()
}

#[test]
fn test_working() {
    assert_eq!(root_response("filter=1&filter=2"), "1,2");
    assert_eq!(root_response("filter=1"), "1");
}

#[test]
fn test_buggy() {
    assert_eq!(buggy_response("filter=1&filter=2"), "1,2");
    assert_eq!(buggy_response("filter=1"), "1");
}

#[test]
fn no_query_gives_empty_body() {
    assert_eq!(root_response(""), "");
    assert_eq!(buggy_response(""), "");
}

#[test]
fn no_filter_key_gives_empty_body() {
    assert_eq!(root_response("other=1&x=y"), "");
    assert_eq!(buggy_response("other=1&x=y"), "");
}

#[test]
fn single_value_has_no_separator() {
    assert_eq!(root_response("filter=abc"), "abc");
    assert_eq!(buggy_response("filter=abc"), "abc");
}

#[test]
fn many_values_keep_their_order() {
    let q = "filter=c&filter=a&filter=b&filter=a";
    assert_eq!(root_response(q), "c,a,b,a");
    assert_eq!(buggy_response(q), "c,a,b,a");
}

#[test]
fn other_keys_are_skipped() {
    let q = "a=1&filter=x&b=2&filter=y&filters=z";
    assert_eq!(root_response(q), "x,y");
    assert_eq!(buggy_response(q), "x,y");
}

#[test]
fn escapes_are_decoded() {
    let q = "filter=a%2Cb&filter=c+d&fil%74er=e";
    assert_eq!(root_response(q), "a,b,c d,e");
    assert_eq!(buggy_response(q), "a,b,c d,e");
}

#[test]
fn empty_and_odd_segments() {
    assert_eq!(root_response("filter="), "");
    assert_eq!(root_response("filter=&filter="), ",");
    assert_eq!(root_response("&&filter=1&&filter=2&"), "1,2");
    assert_eq!(root_response("filter=a=b"), "a=b");
    assert_eq!(root_response("filter"), "");
    assert_eq!(buggy_response("filter=&filter="), ",");
    assert_eq!(buggy_response("&&filter=1&&filter=2&"), "1,2");
    assert_eq!(buggy_response("filter=a=b"), "a=b");
}

#[test]
fn repeated_request_gives_same_body() {
    let q = "filter=1&filter=2&filter=3";
    let first = root_response(q);
    let second = root_response(q);
    let third = root_response(q);
    assert_eq!(first, "1,2,3");
    assert_eq!(first, second);
    assert_eq!(second, third);
    let b1 = buggy_response(q);
    let b2 = buggy_response(q);
    assert_eq!(b1, b2);
    assert_eq!(b1, first);
}

#[test]
fn endpoints_agree_on_assorted_queries() {
    for q in ["", "filter=1", "x=1&filter=%41&filter=b+c", "filter=%zz", "=&=&filter=q"] {
        assert_eq!(root_response(q), buggy_response(q));
    }
}

#[test]
fn join_with_commas_edges() {
    assert_eq!(join_with_commas(&strings(&[])), "");
    assert_eq!(join_with_commas(&strings(&["one"])), "one");
    assert_eq!(join_with_commas(&strings(&["", ""])), ",");
    assert_eq!(join_with_commas(&strings(&["a", "bc", "d"])), "a,bc,d");
}

#[test]
fn handlers_join_their_fields() {
    let p = Params { filters: strings(&["1", "2"]) };
    assert_eq!(handler(p), "1,2");
    let b = BuggyParams { parent: Filter { children: strings(&["x"]) } };
    assert_eq!(buggy_handler(b), "x");
}

#[test]
fn shapes_read_filter_pairs() {
    let ps = pairs(&[("filter", "1"), ("other", "2"), ("filter", "3")]);
    assert_eq!(Params::from_pairs(&ps).filters, strings(&["1", "3"]));
    assert_eq!(Filter::from_pairs(&ps).children, strings(&["1", "3"]));
    assert_eq!(BuggyParams::from_pairs(&ps).parent.children, strings(&["1", "3"]));
}

#[test]
fn from_query_decodes_values() {
    let p = Params::from_query("filter=a%20b&filter=c");
    assert_eq!(p.filters, strings(&["a b", "c"]));
    let b = BuggyParams::from_query("filter=a%20b&filter=c");
    assert_eq!(b.parent.children, strings(&["a b", "c"]));
}

#[test]
fn defaults_are_empty() {
    assert!(Params::default().filters.is_empty());
    assert!(BuggyParams::default().parent.children.is_empty());
}
