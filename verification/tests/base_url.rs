use ponoma::base_url::{BaseUrl, Scheme};

#[test]
fn base_url_builds_absolute() {
    let base = BaseUrl::http("localhost", 8080);
    assert_eq!(base.url_for("/a/b?x=1"), "http://localhost:8080/a/b?x=1");
}

#[test]
fn https_base_url_with_prefix() {
    let base = BaseUrl { scheme: Scheme::Https, host: "api.example.com".to_string(), port: 443, path: "/v1".to_string() };
    assert_eq!(base.scheme_str(), "https");
    assert_eq!(base.url_for("/users/7"), "https://api.example.com:443/v1/users/7");
    let zero = BaseUrl::http("h", 0);
    assert_eq!(zero.url_for("/"), "http://h:0/");
}
