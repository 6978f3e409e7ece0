use hyper_proxy::{Custom, Dst, Intercept, Uri};
use std::sync::atomic::{AtomicUsize, Ordering};
use std::sync::Arc;

struct Place(Option<&'static str>, Option<&'static str>, Option<u16>);

impl Dst for Place {
    fn scheme(&self) -> Option<&str> {
        self.0
    }

    fn host(&self) -> Option<&str> {
        self.1
    }

    fn port(&self) -> Option<u16> {
        self.2
    }
}

fn uri(scheme: &str) -> Uri {
    Uri::from_parts(Some(scheme), Some("example.com:81"), Some("/")).unwrap()
}

#[test]
fn all_takes_everything() {
    assert!(Intercept::All.matches(&uri("http")));
    assert!(Intercept::All.matches(&uri("https")));
    assert!(Intercept::All.matches(&Place(None, None, None)));
}

#[test]
fn http_takes_http_alone() {
    assert!(Intercept::Http.matches(&uri("http")));
    assert!(!Intercept::Http.matches(&uri("https")));
    assert!(!Intercept::Http.matches(&uri("HTTP")));
    assert!(!Intercept::Http.matches(&Place(None, Some("http"), None)));
}

#[test]
fn https_takes_https_alone() {
    assert!(Intercept::Https.matches(&uri("https")));
    assert!(!Intercept::Https.matches(&uri("http")));
    assert!(!Intercept::Https.matches(&uri("httpss")));
    assert!(!Intercept::Https.matches(&Place(None, None, None)));
}

#[test]
fn nothing_takes_nothing() {
    assert!(!Intercept::Nothing.matches(&uri("http")));
    assert!(!Intercept::Nothing.matches(&Place(None, None, None)));
}

#[test]
fn custom_is_asked_with_scheme_host_and_port() {
    let rule = Intercept::from(|scheme: Option<&str>, host: Option<&str>, port: Option<u16>| {
        scheme == Some("ftp") && host == Some("example.com") && port == Some(81)
    });
    assert!(rule.matches(&uri("ftp")));
    assert!(!rule.matches(&uri("http")));
    assert!(rule.matches(&Place(Some("ftp"), Some("example.com"), Some(81))));
    assert!(!rule.matches(&Place(Some("ftp"), Some("example.com"), Some(82))));
    assert!(!rule.matches(&Place(Some("ftp"), None, Some(81))));
}

#[test]
fn copies_of_a_custom_rule_share_it() {
    let calls = Arc::new(AtomicUsize::new(0));
    let counter = calls.clone();
    let rule = Custom::from(move |_: Option<&str>, _: Option<&str>, _: Option<u16>| {
        counter.fetch_add(1, Ordering::SeqCst) == 0
    });
    let first = Intercept::Custom(rule.clone());
    let second = Intercept::Custom(rule);
    assert!(first.matches(&uri("http")));
    assert!(!second.matches(&uri("http")));
    assert!(!first.clone().matches(&uri("http")));
    assert_eq!(calls.load(Ordering::SeqCst), 3);
}

#[test]
fn intercepts_as_text() {
    let custom = Custom::from(|_: Option<&str>, _: Option<&str>, _: Option<u16>| true);
    assert_eq!(custom.debug_text(), "_");
    assert_eq!(Intercept::Custom(custom).debug_text(), "Custom(_)");
    assert_eq!(Intercept::All.debug_text(), "All");
    assert_eq!(Intercept::Http.debug_text(), "Http");
    assert_eq!(Intercept::Https.debug_text(), "Https");
    assert_eq!(Intercept::Nothing.debug_text(), "None");
}
