use hyper_proxy::headers::FIELD_ROOM;
use hyper_proxy::{Credentials, Dst, FieldName, FieldValue, Intercept, Proxy, Uri};

fn place() -> Uri {
    Uri::from_parts(Some("http"), Some("my-proxy:8080"), Some("/")).unwrap()
}

fn value<'a>(proxy: &'a Proxy, name: &str) -> Option<&'a str> {
    proxy.headers().get(name).map(|v| v.to_str().unwrap())
}

#[test]
fn new_proxy_is_sent_nothing() {
    let proxy = Proxy::new(Intercept::All, place());
    assert!(proxy.headers().is_empty());
    assert_eq!(proxy.uri().host(), Some("my-proxy"));
    assert!(matches!(proxy.intercept(), Intercept::All));
}

#[test]
fn proxy_takes_a_function_as_rule() {
    let proxy = Proxy::new(
        |_: Option<&str>, host: Option<&str>, _: Option<u16>| host == Some("my-proxy"),
        place(),
    );
    assert!(proxy.intercept().matches(&place()));
    assert!(matches!(proxy.intercept(), Intercept::Custom(_)));
}

#[test]
fn credentials_of_an_http_proxy_go_to_the_server() {
    let mut proxy = Proxy::new(Intercept::Http, place());
    proxy.set_authorization(Credentials::parse("Basic QWxhZGRpbjpvcGVuIHNlc2FtZQ==").unwrap());
    assert_eq!(value(&proxy, "authorization"), Some("Basic QWxhZGRpbjpvcGVuIHNlc2FtZQ=="));
    assert_eq!(value(&proxy, "proxy-authorization"), None);
    assert_eq!(proxy.headers().len(), 1);
    assert!(!proxy.headers().get("authorization").unwrap().is_sensitive());
}

#[test]
fn credentials_of_an_https_proxy_go_to_the_proxy() {
    let mut proxy = Proxy::new(Intercept::Https, place());
    proxy.set_authorization(Credentials::parse("bearer abc").unwrap());
    assert_eq!(value(&proxy, "authorization"), None);
    assert_eq!(value(&proxy, "proxy-authorization"), Some("Bearer abc"));
    assert_eq!(proxy.headers().len(), 1);
}

#[test]
fn credentials_of_other_proxies_go_to_both() {
    let custom = Intercept::from(|_: Option<&str>, _: Option<&str>, _: Option<u16>| true);
    for rule in vec![Intercept::All, Intercept::Nothing, custom] {
        let mut proxy = Proxy::new(rule, place());
        proxy.set_authorization(Credentials::parse("Basic YTpi").unwrap());
        assert_eq!(value(&proxy, "authorization"), Some("Basic YTpi"));
        assert_eq!(value(&proxy, "proxy-authorization"), Some("Basic YTpi"));
        assert_eq!(proxy.headers().len(), 2);
    }
}

#[test]
fn last_credentials_count() {
    let mut proxy = Proxy::new(Intercept::All, place());
    proxy.set_authorization(Credentials::parse("Basic YTpi").unwrap());
    proxy.set_authorization(Credentials::parse("Digest").unwrap());
    assert_eq!(value(&proxy, "authorization"), Some("digest"));
    assert_eq!(value(&proxy, "proxy-authorization"), Some("digest"));
    assert_eq!(proxy.headers().get_all("authorization").iter().count(), 1);
}

#[test]
fn credentials_are_normalised_or_refused() {
    assert_eq!(Credentials::parse("bAsIc   YTpi").unwrap().as_str(), "Basic YTpi");
    assert_eq!(Credentials::parse("Custom").unwrap().as_str(), "custom");
    assert!(Credentials::parse("").is_none());
    assert!(Credentials::parse("Basic not a token").is_none());
}

#[test]
fn credentials_carry_over_from_typed_headers() {
    let theirs = typed_headers::Credentials::basic("John Doe", "Agent1234").unwrap();
    let ours = Credentials::parse(&theirs.to_string()).unwrap();
    assert_eq!(ours.as_str(), "Basic Sm9obiBEb2U6QWdlbnQxMjM0");
}

#[test]
fn header_is_set_and_replaced() {
    let mut proxy = Proxy::new(Intercept::All, place());
    let name = FieldName::parse("X-Via").unwrap();
    assert_eq!(name.as_str(), "x-via");
    proxy.set_header(name.clone(), FieldValue::from_bytes(b"one".to_vec(), false).unwrap());
    proxy.set_header(
        FieldName::parse("x-other").unwrap(),
        FieldValue::from_bytes(b"two".to_vec(), false).unwrap(),
    );
    proxy.set_header(name, FieldValue::from_bytes(b"three".to_vec(), true).unwrap());
    assert_eq!(value(&proxy, "x-via"), Some("three"));
    assert!(proxy.headers().get("x-via").unwrap().is_sensitive());
    assert_eq!(value(&proxy, "x-other"), Some("two"));
    assert!(!proxy.headers().get("x-other").unwrap().is_sensitive());
    assert_eq!(proxy.headers().len(), 2);
}

#[test]
fn parsed_text_parses_as_itself() {
    let name = FieldName::parse("X-Via").unwrap();
    assert_eq!(FieldName::parse(name.as_str()).unwrap().as_str(), name.as_str());
    let credentials = Credentials::parse("bEaReR  a.b").unwrap();
    assert_eq!(Credentials::parse(credentials.as_str()).unwrap().as_str(), credentials.as_str());
}

#[test]
fn proxy_and_its_copy_agree_on_the_last_credentials() {
    for rule in [Intercept::All, Intercept::Http, Intercept::Https, Intercept::Nothing] {
        let mut proxy = Proxy::new(rule, place());
        let mut copy = proxy.clone();
        proxy.set_authorization(Credentials::parse("Basic YTpi").unwrap());
        proxy.set_authorization(Credentials::parse("Basic Yzpk").unwrap());
        copy.set_authorization(Credentials::parse("Basic Yzpk").unwrap());
        assert_eq!(proxy.headers(), copy.headers());
        copy.set_authorization(Credentials::parse("Basic Yzpk").unwrap());
        assert_eq!(proxy.headers(), copy.headers());
    }
}

#[test]
fn names_and_values_may_be_refused() {
    assert!(FieldName::parse("").is_none());
    assert!(FieldName::parse("a b").is_none());
    for b in 0u8..=255 {
        let theirs = http::header::HeaderValue::from_bytes(&[b]).is_ok();
        assert_eq!(FieldValue::from_bytes(vec![b], false).is_some(), theirs);
    }
    assert!(FieldValue::from_bytes(vec![], false).is_some());
    assert!(FieldValue::from_bytes(vec![b'a', 10], false).is_none());
}

#[test]
fn header_map_takes_as_many_fields_as_promised() {
    let mut proxy = Proxy::new(Intercept::All, place());
    for i in 0..FIELD_ROOM {
        let name = FieldName::parse(&format!("x-{}", i)).unwrap();
        proxy.set_header(name, FieldValue::from_bytes(vec![b'v'], false).unwrap());
    }
    assert_eq!(proxy.headers().keys_len(), 6554);
}

#[test]
fn copy_of_a_proxy_stands_alone() {
    let mut proxy = Proxy::new(Intercept::Http, place());
    let copy = proxy.clone();
    proxy.set_authorization(Credentials::parse("Basic YTpi").unwrap());
    assert!(copy.headers().is_empty());
    assert_eq!(proxy.clone().headers(), proxy.headers());
    assert_eq!(copy.uri().to_text(), "http://my-proxy:8080/");
}

#[test]
fn proxy_as_text() {
    let proxy = Proxy::new(Intercept::Http, place());
    assert_eq!(
        proxy.debug_text(),
        "Proxy { intercept: Http, headers: {}, uri: http://my-proxy:8080/ }",
    );
    let mut custom = Proxy::new(|_: Option<&str>, _: Option<&str>, _: Option<u16>| true, place());
    custom.set_header(
        FieldName::parse("X-A").unwrap(),
        FieldValue::from_bytes(b"b".to_vec(), false).unwrap(),
    );
    assert_eq!(
        custom.debug_text(),
        "Proxy { intercept: Custom(_), headers: {\"x-a\": \"b\"}, uri: http://my-proxy:8080/ }",
    );
    assert_eq!(custom.clone().debug_text(), custom.debug_text());
}

fn field(i: usize) -> (FieldName, FieldValue) {
    let name = FieldName::parse(&format!("x-{}", i)).unwrap();
    (name, FieldValue::from_bytes(b"v".to_vec(), false).unwrap())
}

#[test]
fn room_is_counted_by_names() {
    let mut proxy = Proxy::new(Intercept::All, place());
    assert_eq!(proxy.room(), 6554);
    for i in 0..6553 {
        let (name, value) = field(i);
        assert!(proxy.checked_set_header(name, value));
    }
    assert_eq!(proxy.room(), 1);
    let again = FieldName::parse("X-0").unwrap();
    assert!(proxy.checked_set_header(again, FieldValue::from_bytes(b"w".to_vec(), false).unwrap()));
    assert_eq!(value(&proxy, "x-0"), Some("w"));
    assert_eq!(proxy.room(), 1);
    let (name, v) = field(6553);
    assert!(proxy.checked_set_header(name, v));
    assert_eq!(proxy.room(), 0);
}

#[test]
fn fields_beyond_the_room_are_set_as_the_map_sets_them() {
    let mut proxy = Proxy::new(Intercept::All, place());
    let mut theirs = http::HeaderMap::new();
    for i in 0..6600 {
        let (name, v) = field(i);
        let key: http::header::HeaderName = name.as_str().parse().unwrap();
        let taken = theirs.try_insert(key, "v".parse().unwrap()).is_ok();
        assert_eq!(proxy.checked_set_header(name, v), taken);
    }
    assert_eq!(proxy.room(), 0);
    assert_eq!(proxy.headers(), &theirs);
    assert!(proxy.checked_set_authorization(Credentials::parse("Basic YTpi").unwrap()));
    assert_eq!(value(&proxy, "authorization"), Some("Basic YTpi"));
    assert_eq!(value(&proxy, "proxy-authorization"), Some("Basic YTpi"));
    assert!(proxy.checked_set_authorization(Credentials::parse("Basic Yzpk").unwrap()));
    assert_eq!(value(&proxy, "authorization"), Some("Basic Yzpk"));
    assert_eq!(proxy.headers().len(), theirs.len() + 2);
    assert_eq!(value(&proxy, "x-6599"), Some("v"));
}

#[test]
fn full_map_takes_no_field() {
    let mut proxy = Proxy::new(Intercept::All, place());
    for i in 0..24575 {
        let (name, v) = field(i);
        proxy.set_header(name, v);
    }
    assert!(!proxy.checked_set_authorization(Credentials::parse("Basic YTpi").unwrap()));
    assert_eq!(value(&proxy, "authorization"), None);
    let (name, v) = field(24575);
    assert!(proxy.checked_set_header(name, v));
    let (name, v) = field(24576);
    assert!(!proxy.checked_set_header(name, v));
    assert_eq!(proxy.headers().keys_len(), 24576);
    let (name, v) = field(0);
    assert!(!proxy.checked_set_header(name, v));
}

#[test]
fn credentials_that_are_there_are_replaced_in_the_last_room() {
    let mut proxy = Proxy::new(Intercept::All, place());
    proxy.set_authorization(Credentials::parse("Basic YTpi").unwrap());
    for i in 0..6551 {
        let (name, v) = field(i);
        proxy.set_header(name, v);
    }
    assert_eq!(proxy.room(), 1);
    proxy.set_authorization(Credentials::parse("Basic Yzpk").unwrap());
    assert_eq!(value(&proxy, "authorization"), Some("Basic Yzpk"));
    assert_eq!(value(&proxy, "proxy-authorization"), Some("Basic Yzpk"));
    assert_eq!(proxy.room(), 1);
}
