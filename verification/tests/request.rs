use ponoma::domain::quote_pairs;
use ponoma::request::{encode_path_segment, request_target};

fn strings(xs: &[&str]) -> Vec<String> {
    xs.iter().map(|x| x.to_string()).collect()
}

#[test]
fn target_renders_path_and_query() {
    // Path segments as `append_path` encodes them; query items as servant renders them.
    let segments = vec![encode_path_segment("users"), encode_path_segment("a b")];
    let target = request_target(&segments, None, &strings(&["q=x%20y", "flag"]));
    assert_eq!(target, "/users/a%20b?q=x%20y&flag");
}

#[test]
fn path_segments_are_percent_encoded() {
    assert_eq!(encode_path_segment("users"), "users");
    assert_eq!(encode_path_segment("a-b_c.d~e"), "a-b_c.d~e");
    assert_eq!(encode_path_segment("a/b?c"), "a%2Fb%3Fc");
    assert_eq!(encode_path_segment("é"), "%C3%A9");
    assert_eq!(encode_path_segment(""), "");
}

#[test]
fn targets_with_raw_queries() {
    let segs = strings(&["a", "b"]);
    assert_eq!(request_target(&segs, None, &Vec::new()), "/a/b");
    assert_eq!(request_target(&Vec::new(), None, &Vec::new()), "/");
    assert_eq!(request_target(&segs, Some("x=1"), &Vec::new()), "/a/b?x=1");
    assert_eq!(request_target(&segs, Some("x=1"), &strings(&["y=2"])), "/a/b?x=1&y=2");
    assert_eq!(request_target(&segs, Some(""), &strings(&["y=2"])), "/a/b?y=2");
    assert_eq!(request_target(&segs, Some(""), &Vec::new()), "/a/b?");
}

#[test]
fn quote_parameter_pairs() {
    assert_eq!(
        quote_pairs("aapl:200,MSFT:400"),
        vec![("AAPL".to_string(), "200".to_string()), ("MSFT".to_string(), "400".to_string())]
    );
    assert_eq!(quote_pairs("x,vti:1:2,"), vec![("VTI".to_string(), "1:2".to_string())]);
    assert!(quote_pairs("").is_empty());
}
