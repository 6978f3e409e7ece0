use hyper_proxy::uri::{proxy_dst, Dst, InvalidParts, Uri};
use hyper_proxy::IoErrorKind;

fn absolute(scheme: &str, authority: &str, path: &str) -> Uri {
    Uri::from_parts(Some(scheme), Some(authority), Some(path)).unwrap()
}

#[test]
fn parts_are_read_back() {
    let uri = absolute("http", "user@Example.com:8080", "/a?b=c");
    assert_eq!(uri.scheme(), Some("http"));
    assert_eq!(uri.authority(), Some("user@Example.com:8080"));
    assert_eq!(uri.host(), Some("Example.com"));
    assert_eq!(uri.port(), Some(8080));
    assert_eq!(uri.path_and_query(), Some("/a?b=c"));
    assert_eq!(uri.to_text(), "http://user@Example.com:8080/a?b=c");
}

#[test]
fn host_of_an_ip_literal_keeps_its_brackets() {
    let uri = absolute("https", "[::1]:444", "/");
    assert_eq!(uri.host(), Some("[::1]"));
    assert_eq!(uri.port(), Some(444));
}

#[test]
fn port_may_be_missing() {
    assert_eq!(absolute("http", "example.com", "/").port(), None);
    assert_eq!(absolute("http", "example.com:", "/").port(), None);
}

#[test]
fn port_is_a_number_behind_the_last_colon() {
    let port = |authority| absolute("http", authority, "/").port();
    assert_eq!(port("h:080"), Some(80));
    assert_eq!(port("h:+80"), Some(80));
    assert_eq!(port("h:+"), None);
    assert_eq!(port("h:-1"), None);
    assert_eq!(port("h:65535"), Some(65535));
    assert_eq!(port("h:65536"), None);
    assert_eq!(port("h:80a"), None);
    assert_eq!(port("u:81@h"), None);
    assert_eq!(port("[::1]"), None);
    assert_eq!(port("u:p@[::1]:82"), Some(82));
}

#[test]
fn host_stands_behind_the_user_and_before_the_port() {
    let host = |authority| absolute("http", authority, "/").host().unwrap().to_string();
    assert_eq!(host("h"), "h");
    assert_eq!(host("h:"), "h");
    assert_eq!(host(":80"), "");
    assert_eq!(host("u:p@h:80"), "h");
    assert_eq!(host("a@b@h"), "h");
    assert_eq!(host("u@[::1]:80"), "[::1]");
    assert_eq!(host("[::1]x:80"), "[::1]");
    assert_eq!(host("[@]"), "]");
    assert_eq!(host("x[y]"), "x[y]");
}

#[test]
fn fragment_is_dropped() {
    let uri = absolute("http", "example.com", "/a?b#c");
    assert_eq!(uri.path_and_query(), Some("/a?b"));
    assert_eq!(absolute("http", "example.com", "").path_and_query(), Some("/"));
    assert_eq!(absolute("http", "example.com", "?q").to_text(), "http://example.com/?q");
}

#[test]
fn each_invalid_part_is_named() {
    let long = "x".repeat(65);
    let make = |s, a, p| Uri::from_parts(s, a, p).err();
    assert_eq!(make(Some("my_scheme"), Some("a"), Some("/")), Some(InvalidParts::Scheme));
    assert_eq!(make(Some(long.as_str()), Some("a"), Some("/")), Some(InvalidParts::Scheme));
    assert_eq!(make(Some("http"), Some("a:1:2"), Some("/")), Some(InvalidParts::Authority));
    assert_eq!(make(Some("http"), Some(""), Some("/")), Some(InvalidParts::Authority));
    assert_eq!(make(Some("http"), Some("a"), Some("/ ")), Some(InvalidParts::PathAndQuery));
    assert_eq!(make(Some("http"), None, Some("/")), Some(InvalidParts::AuthorityMissing));
    assert_eq!(make(Some("http"), Some("a"), None), Some(InvalidParts::PathAndQueryMissing));
    assert_eq!(make(None, Some("a"), Some("/")), Some(InvalidParts::SchemeMissing));
}

#[test]
fn the_other_forms_of_a_uri() {
    let authority = Uri::from_parts(None, Some("example.com:80"), None).unwrap();
    assert_eq!(authority.path_and_query(), None);
    assert_eq!(authority.host(), Some("example.com"));
    assert_eq!(authority.to_text(), "example.com:80");

    let path = Uri::from_parts(None, None, Some("/a")).unwrap();
    assert_eq!(path.host(), None);
    assert_eq!(path.port(), None);
    assert_eq!(path.path_and_query(), Some("/a"));
    assert_eq!(path.to_text(), "/a");

    let nothing = Uri::from_parts(None, None, None).unwrap();
    assert_eq!(nothing.path_and_query(), Some("/"));
    assert_eq!(nothing.to_text(), "");
}

#[test]
fn longest_scheme_is_taken() {
    let scheme = "x".repeat(64);
    assert_eq!(absolute(&scheme, "a", "/").scheme(), Some(scheme.as_str()));
    assert_eq!(absolute("a+b-c.d~E9", "a", "/").scheme(), Some("a+b-c.d~E9"));
}

#[test]
fn parts_agree_with_the_http_crate() {
    let texts = ["http://my-proxy:8080", "https://u:p@h.org:1/x?y", "foo://a?b", "*", "/p?q", "h:9"];
    for text in texts {
        let theirs: http::Uri = text.parse().unwrap();
        let parts = theirs.clone().into_parts();
        let ours = Uri::from_parts(
            parts.scheme.as_ref().map(|s| s.as_str()),
            parts.authority.as_ref().map(|a| a.as_str()),
            parts.path_and_query.as_ref().map(|p| p.as_str()),
        ).unwrap();
        assert_eq!(ours.scheme(), theirs.scheme_str());
        assert_eq!(ours.host(), theirs.host());
        assert_eq!(ours.port(), theirs.port_u16());
        assert_eq!(ours.authority(), theirs.authority().map(|a| a.as_str()));
        assert_eq!(ours.path_and_query(), theirs.path_and_query().map(|p| p.as_str()));
        assert_eq!(ours.to_text(), theirs.to_string());
    }
}

#[test]
fn proxied_uri_mixes_both() {
    let dst = absolute("https", "example.com:444", "/a?b");
    let proxy = absolute("http", "my-proxy:8080", "/ignored");
    let uri = proxy_dst(&dst, &proxy).unwrap();
    assert_eq!(uri.to_text(), "http://my-proxy:8080/a?b");
    assert_eq!(uri.host(), Some("my-proxy"));
    assert_eq!(uri.port(), Some(8080));
}

#[test]
fn last_proxy_counts() {
    let dst = absolute("http", "example.com", "/a");
    let first = absolute("http", "first:1", "/");
    let last = absolute("https", "last:2", "/");
    let once = proxy_dst(&dst, &last).unwrap();
    let twice = proxy_dst(&proxy_dst(&dst, &first).unwrap(), &last).unwrap();
    assert_eq!(once.to_text(), twice.to_text());
    assert_eq!(proxy_dst(&once, &last).unwrap().to_text(), "https://last:2/a");
}

#[test]
fn proxy_without_scheme_is_reported() {
    let dst = absolute("http", "example.com", "/a");
    let proxy = Uri::from_parts(None, Some("my-proxy:8080"), None).unwrap();
    let e = proxy_dst(&dst, &proxy).err().unwrap();
    assert_eq!(e.kind, IoErrorKind::Other);
    assert_eq!(e.error, "proxy uri missing scheme: my-proxy:8080");

    let authority = Uri::from_parts(None, Some("example.com:80"), None).unwrap();
    let e = proxy_dst(&authority, &proxy).err().unwrap();
    assert_eq!(e.error, "proxy uri missing scheme: my-proxy:8080");

    let path = Uri::from_parts(None, None, Some("/p?q")).unwrap();
    assert_eq!(proxy_dst(&dst, &path).err().unwrap().error, "proxy uri missing scheme: /p?q");
}

#[test]
fn copy_of_a_uri_is_the_same() {
    let uri = absolute("http", "example.com:81", "/a?b");
    let copy = uri.clone();
    assert_eq!(copy.to_text(), uri.to_text());
    assert_eq!(copy.host(), uri.host());
    assert_eq!(copy.port(), uri.port());
}
