//! The connector: a list of proxies, and the route that a connection takes through
//! them.

use crate::error::{io_err, IoError, IoErrorKind};
use crate::headers::header_fields;
use crate::intercept::is_text;
use crate::outcomes::law_way_planned;
use crate::proxy::Proxy;
use crate::route::{chosen, has_route, route, route_to, Route, RouteView};
use crate::tls::{
    native_roots, native_tls_connector, rustls_connector, store_roots, trusted_roots,
};
use crate::uri::{authority_host, authority_port, Dst, Uri};
use http::header::HeaderMap;
use vstd::prelude::*;
use vstd::std_specs::iter::IteratorSpec;

verus! {

/// A wrapper around `Proxy`s with a connector.
///
/// `T` is the TLS connector that secures tunnels.
pub struct ProxyConnector<C, T = native_tls::TlsConnector> {
    proxies: Vec<Proxy>,
    connector: C,
    tls: Option<T>,
}

impl<C: Clone, T: Clone> Clone for ProxyConnector<C, T> {
    fn clone(&self) -> (r: Self)
        ensures
            r.list().len() == self.list().len(),
            forall|i: int|
                0 <= i < self.list().len() ==> self.list()[i].same(#[trigger] r.list()[i]),
            cloned(self.inner(), r.inner()),
            r.security() is Some <==> self.security() is Some,
            self.security() is Some ==> cloned(self.security()->0, r.security()->0),
    {
        let r = ProxyConnector {
            proxies: self.proxies.clone(),
            connector: self.connector.clone(),
            tls: match &self.tls {
                Some(tls) => Some(tls.clone()),
                None => None,
            },
        };
        assert forall|i: int| 0 <= i < self.list().len() implies self.list()[i].same(
            #[trigger] r.list()[i],
        ) by {
            assert(cloned(self.proxies@[i], r.proxies@[i]));
        }
        r
    }
}

/// Proxy `i` is the one that may be chosen for `dst`: it may say yes, and all before it
/// may say no.
pub open spec fn may_choose<D: Dst>(proxies: Seq<Proxy>, dst: D, i: int) -> bool {
    &&& 0 <= i < proxies.len()
    &&& proxies[i].rule().may_answer_for(dst, true)
    &&& forall|j: int|
        0 <= j < i ==> (#[trigger] proxies[j]).rule().may_answer_for(dst, false)
}

/// It may be that no proxy is chosen for `dst`.
pub open spec fn may_choose_none<D: Dst>(proxies: Seq<Proxy>, dst: D) -> bool {
    forall|j: int|
        0 <= j < proxies.len() ==> (#[trigger] proxies[j]).rule().may_answer_for(dst, false)
}

/// `chosen` may be the proxy for `dst`.
pub open spec fn may_be_proxy<D: Dst>(proxies: Seq<Proxy>, dst: D, chosen: Option<Proxy>) -> bool {
    match chosen {
        Some(p) => exists|i: int| #[trigger] may_choose(proxies, dst, i) && proxies[i] == p,
        None => may_choose_none(proxies, dst),
    }
}

/// `headers` may be the headers for a plain http request to `uri`: those of the proxy that
/// is chosen for it. There are none where no proxy is chosen, nor for any other scheme.
pub open spec fn may_be_http_headers(
    proxies: Seq<Proxy>,
    uri: Uri,
    headers: Option<HeaderMap>,
) -> bool {
    if uri@.scheme != Some("http"@) {
        headers is None
    } else {
        match headers {
            Some(h) => exists|i: int| #[trigger]
                may_choose(proxies, uri, i) && h == proxies[i].header_map(),
            None => may_choose_none(proxies, uri),
        }
    }
}

/// The texts of proxies, with a comma between each two.
pub open spec fn joined(proxies: Seq<Proxy>) -> Seq<char>
    decreases proxies.len(),
{
    if proxies.len() == 0 {
        Seq::empty()
    } else if proxies.len() == 1 {
        proxies[0].text()
    } else {
        joined(proxies.drop_last()) + ", "@ + proxies.last().text()
    }
}

/// A list of proxies as characters.
pub open spec fn list_text(proxies: Seq<Proxy>) -> Seq<char> {
    "["@ + joined(proxies) + "]"@
}

impl<C, T> ProxyConnector<C, T> {
    /// The proxies, in the order in which they are asked.
    pub closed spec fn list(self) -> Seq<Proxy> {
        self.proxies@
    }

    /// The connector that opens connections.
    pub closed spec fn inner(self) -> C {
        self.connector
    }

    /// What secures tunnels.
    pub closed spec fn security(self) -> Option<T> {
        self.tls
    }

    /// Every proxy may be asked about any connection.
    pub open spec fn callable(self) -> bool {
        forall|i: int| 0 <= i < self.list().len() ==> (#[trigger] self.list()[i]).rule().callable()
    }

    /// Create a new Proxies secured by `tls`, where that could be made
    pub fn secured_by<E>(connector: C, tls: Result<T, E>) -> (r: Result<Self, E>)
        ensures
            match r {
                Ok(c) => tls is Ok && c.list() == Seq::<Proxy>::empty() && c.inner() == connector
                    && c.security() == Some(tls->Ok_0),
                Err(e) => tls == Err::<T, E>(e),
            },
    {
        match tls {
            Ok(tls) => Ok(ProxyConnector { proxies: Vec::new(), connector, tls: Some(tls) }),
            Err(e) => Err(e),
        }
    }

    /// Create a new Proxies secured by `tls`, where that could be made, and wrap the
    /// failure where it could not
    pub fn secured<E>(connector: C, tls: Result<T, E>) -> (r: Result<Self, IoError<E>>)
        ensures
            match r {
                Ok(c) => tls is Ok && c.list() == Seq::<Proxy>::empty() && c.inner() == connector
                    && c.security() == Some(tls->Ok_0),
                Err(e) => e.kind == IoErrorKind::Other && tls == Err::<T, E>(e.error),
            },
    {
        match Self::secured_by(connector, tls) {
            Ok(c) => Ok(c),
            Err(e) => Err(io_err(e)),
        }
    }

    /// Create a new unsecured Proxy
    pub fn unsecured(connector: C) -> (r: Self)
        ensures
            r.list() == Seq::<Proxy>::empty(),
            r.inner() == connector,
            r.security() is None,
    {
        ProxyConnector { proxies: Vec::new(), connector, tls: None }
    }

    /// Create a proxy connector and attach a particular proxy
    pub fn from_proxy_unsecured(connector: C, proxy: Proxy) -> (r: Self)
        ensures
            r.list() == seq![proxy],
            r.inner() == connector,
            r.security() is None,
    {
        Self::unsecured(connector).and_proxy(proxy)
    }

    /// Change proxy connector
    pub fn with_connector<CC>(self, connector: CC) -> (r: ProxyConnector<CC, T>)
        ensures
            r.list() == self.list(),
            r.inner() == connector,
            r.security() == self.security(),
    {
        ProxyConnector { connector, proxies: self.proxies, tls: self.tls }
    }

    /// Set or unset tls when tunneling
    pub fn set_tls(&mut self, tls: Option<T>)
        ensures
            final(self).list() == old(self).list(),
            final(self).inner() == old(self).inner(),
            final(self).security() == tls,
    {
        self.tls = tls;
    }

    /// Get the current proxies
    pub fn proxies(&self) -> (r: &[Proxy])
        ensures
            r@ == self.list(),
    {
        self.proxies.as_slice()
    }

    /// Add a new additional proxy
    pub fn add_proxy(&mut self, proxy: Proxy)
        ensures
            final(self).list() == old(self).list().push(proxy),
            final(self).inner() == old(self).inner(),
            final(self).security() == old(self).security(),
    {
        self.proxies.push(proxy);
    }

    /// The connector with one more proxy.
    fn and_proxy(self, proxy: Proxy) -> (r: Self)
        ensures
            r.list() == self.list().push(proxy),
            r.inner() == self.inner(),
            r.security() == self.security(),
    {
        let mut c = self;
        c.add_proxy(proxy);
        c
    }

    /// Attach a particular proxy to a proxy connector, where that could be made
    pub fn attached<E>(made: Result<Self, E>, proxy: Proxy) -> (r: Result<Self, E>)
        ensures
            match r {
                Ok(c) => made is Ok && c.list() == made->Ok_0.list().push(proxy) && c.inner()
                    == made->Ok_0.inner() && c.security() == made->Ok_0.security(),
                Err(e) => made is Err && made->Err_0 == e,
            },
    {
        match made {
            Ok(c) => Ok(c.and_proxy(proxy)),
            Err(e) => Err(e),
        }
    }

    /// Extend the list of proxies
    pub fn extend_proxies<I: Iterator<Item = Proxy>>(&mut self, proxies: I)
        requires
            proxies.obeys_prophetic_iter_laws(),
            proxies.decrease() is Some,
        ensures
            final(self).list() == old(self).list() + proxies.remaining(),
            final(self).inner() == old(self).inner(),
            final(self).security() == old(self).security(),
    {
        let mut rest = proxies;
        loop
            invariant
                rest.obeys_prophetic_iter_laws(),
                rest.decrease() is Some,
                self.list() + rest.remaining() == old(self).list() + proxies.remaining(),
                self.inner() == old(self).inner(),
                self.security() == old(self).security(),
            ensures
                self.list() == old(self).list() + proxies.remaining(),
            decreases rest.decrease()->0,
        {
            let ghost before = self.list();
            let ghost left = rest.remaining();
            match rest.next() {
                Some(proxy) => {
                    self.proxies.push(proxy);
                    assert(self.list() + rest.remaining() =~= before + left);
                },
                None => {
                    assert(before + left =~= before);
                    break;
                },
            }
        }
    }

    /// The first proxy that says that `uri` is for it
    pub fn match_proxy<D: Dst>(&self, uri: &D) -> (r: Option<&Proxy>)
        requires
            self.callable(),
        ensures
            may_be_proxy(self.list(), *uri, chosen(r)),
    {
        let mut i: usize = 0;
        while i < self.proxies.len()
            invariant
                self.callable(),
                i <= self.proxies.len(),
                forall|j: int|
                    0 <= j < i ==> (#[trigger] self.list()[j]).rule().may_answer_for(*uri, false),
            decreases self.proxies.len() - i,
        {
            let proxy = &self.proxies[i];
            assert(*proxy == self.list()[i as int]);
            if proxy.intercept().matches(uri) {
                assert(may_choose(self.list(), *uri, i as int));
                return Some(proxy);
            }
            i += 1;
        }
        None
    }

    /// Get http headers for a matching uri
    ///
    /// These headers must be appended to the hyper Request for the proxy to work properly.
    /// This is needed only for http requests.
    pub fn http_headers(&self, uri: &Uri) -> (r: Option<&HeaderMap>)
        requires
            uri@.scheme == Some("http"@) ==> self.callable(),
        ensures
            may_be_http_headers(
                self.list(),
                *uri,
                match r {
                    Some(headers) => Some(*headers),
                    None => None,
                },
            ),
    {
        if !is_text(uri.scheme(), "http") {
            return None;
        }
        match self.match_proxy(uri) {
            Some(p) => Some(p.headers()),
            None => None,
        }
    }

    /// The proxy connector as text, given the text of the connector in it
    pub fn debug_text(&self, connector: &str) -> (r: String)
        ensures
            r@ == "ProxyConnector "@ + (if self.security() is Some {
                ""@
            } else {
                "(unsecured)"@
            }) + "{ proxies: "@ + list_text(self.list()) + ", connector: "@ + connector@ + " }"@,
    {
        let mut proxies = String::new();
        let mut i: usize = 0;
        while i < self.proxies.len()
            invariant
                i <= self.proxies.len(),
                proxies@ == joined(self.list().take(i as int)),
            decreases self.proxies.len() - i,
        {
            assert(self.list().take(i + 1).drop_last() =~= self.list().take(i as int));
            if i > 0 {
                proxies.append(", ");
            }
            proxies.append(self.proxies[i].debug_text().as_str());
            i += 1;
        }
        assert(self.list().take(i as int) =~= self.list());
        let mut text = "ProxyConnector ".to_string();
        text.append(if self.tls.is_some() { "" } else { "(unsecured)" });
        text.append("{ proxies: ");
        text.append("[");
        text.append(proxies.as_str());
        text.append("]");
        text.append(", connector: ");
        text.append(connector);
        text.append(" }");
        text
    }

    /// `r` may be the route to `uri`.
    pub open spec fn may_route(self, uri: Uri, r: RouteView<T>) -> bool {
        exists|proxy: Option<Proxy>| #[trigger]
            may_be_proxy(self.list(), uri, proxy) && r == route_to(proxy, uri@, self.security())
    }

    /// The connector that opens connections
    pub fn connector(&self) -> (r: &C)
        ensures
            *r == self.inner(),
    {
        &self.connector
    }

    /// The connector that opens connections, to use it
    pub fn connector_mut(&mut self) -> (r: &mut C)
        ensures
            *r == old(self).inner(),
            final(self).inner() == *final(r),
            final(self).list() == old(self).list(),
            final(self).security() == old(self).security(),
    {
        &mut self.connector
    }
}

impl<C, T: Clone> ProxyConnector<C, T> {
    /// Works out the route to `uri` through the proxy that was chosen for it, if one was
    pub fn route(&self, proxy: Option<&Proxy>, uri: Uri) -> (r: Route<T>)
        requires
            has_route(chosen(proxy), uri@),
        ensures
            r@.follows(route_to(chosen(proxy), uri@, self.security())),
    {
        route(proxy, uri, &self.tls)
    }

    /// Works out the route to `uri`
    pub fn call(&mut self, uri: Uri) -> (r: Route<T>)
        requires
            old(self).callable(),
            forall|proxy: Option<Proxy>| #[trigger]
                may_be_proxy(old(self).list(), uri, proxy) ==> has_route(proxy, uri@),
        ensures
            exists|planned: RouteView<T>| #[trigger]
                old(self).may_route(uri, planned) && r@.follows(planned),
            r matches Route::Direct { uri: to } ==> to@ == uri@,
            r is Tunnel ==> {
                &&& uri@.scheme == Some("https"@)
                &&& uri@.authority is Some
                &&& r->host@ == authority_host(uri@.authority->0)
                &&& r->port == (if authority_port(uri@.authority->0) is Some {
                    authority_port(uri@.authority->0)->0
                } else {
                    443
                })
                &&& r->tls is Some <==> old(self).security() is Some
                &&& exists|i: int| #[trigger]
                    may_choose(old(self).list(), uri, i) && header_fields(r->headers)
                        == header_fields(old(self).list()[i].header_map()) && (
                    r->connection matches Ok(to) ==> to@.scheme
                        == old(self).list()[i].place().scheme && to@.authority
                        == old(self).list()[i].place().authority && (uri@.path_and_query is Some
                        ==> to@.path_and_query == uri@.path_and_query))
            },
            r matches Route::Forward { uri: to } ==> {
                &&& uri@.scheme != Some("https"@)
                &&& uri@.authority is Some
                &&& exists|i: int| #[trigger]
                    may_choose(old(self).list(), uri, i) && to@.scheme
                        == old(self).list()[i].place().scheme && to@.authority
                        == old(self).list()[i].place().authority
                &&& uri@.path_and_query is Some ==> to@.path_and_query == uri@.path_and_query
            },
            final(self).list() == old(self).list(),
            final(self).inner() == old(self).inner(),
            final(self).security() == old(self).security(),
    {
        let proxy = self.match_proxy(&uri);
        let ghost by = chosen(proxy);
        assert(may_be_proxy(self.list(), uri, by));
        assert(self.may_route(uri, route_to(by, uri@, self.security())));
        let ghost asked = uri;
        let r = self.route(proxy, uri);
        proof {
            law_way_planned(r, by, asked@, self.security());
            if by is Some {
                let i = choose|i: int| #[trigger]
                    may_choose(self.list(), asked, i) && self.list()[i] == by->0;
                assert(may_choose(self.list(), asked, i));
            }
        }
        r
    }

    /// Works out the route to `uri`, or says that the proxy that was chosen for it leaves
    /// it without one
    pub fn checked_call(&mut self, uri: Uri) -> (r: Option<Route<T>>)
        requires
            old(self).callable(),
        ensures
            exists|proxy: Option<Proxy>| #[trigger]
                may_be_proxy(old(self).list(), uri, proxy) && match r {
                    Some(route) => has_route(proxy, uri@) && route@.follows(
                        route_to(proxy, uri@, old(self).security()),
                    ),
                    None => !has_route(proxy, uri@),
                },
            r matches Some(route) ==> (route matches Route::Direct { uri: to } ==> to@ == uri@),
            r matches Some(route) ==> (route is Tunnel ==> {
                &&& uri@.scheme == Some("https"@)
                &&& uri@.authority is Some
                &&& route->host@ == authority_host(uri@.authority->0)
                &&& route->port == (if authority_port(uri@.authority->0) is Some {
                    authority_port(uri@.authority->0)->0
                } else {
                    443
                })
                &&& route->tls is Some <==> old(self).security() is Some
                &&& exists|i: int| #[trigger]
                    may_choose(old(self).list(), uri, i) && header_fields(route->headers)
                        == header_fields(old(self).list()[i].header_map()) && (
                    route->connection matches Ok(to) ==> to@.scheme
                        == old(self).list()[i].place().scheme && to@.authority
                        == old(self).list()[i].place().authority && (uri@.path_and_query is Some
                        ==> to@.path_and_query == uri@.path_and_query))
            }),
            r matches Some(route) ==> (route matches Route::Forward { uri: to } ==> {
                &&& uri@.scheme != Some("https"@)
                &&& uri@.authority is Some
                &&& exists|i: int| #[trigger]
                    may_choose(old(self).list(), uri, i) && to@.scheme
                        == old(self).list()[i].place().scheme && to@.authority
                        == old(self).list()[i].place().authority
                &&& uri@.path_and_query is Some ==> to@.path_and_query == uri@.path_and_query
            }),
            final(self).list() == old(self).list(),
            final(self).inner() == old(self).inner(),
            final(self).security() == old(self).security(),
    {
        let proxy = self.match_proxy(&uri);
        let ghost by = chosen(proxy);
        assert(may_be_proxy(self.list(), uri, by));
        if let Some(p) = proxy {
            let forwarded = uri.authority().is_some() && !is_text(uri.scheme(), "https");
            if forwarded && (p.uri().scheme().is_none() || uri.path_and_query().is_none()) {
                return None;
            }
        }
        let ghost asked = uri;
        let r = self.route(proxy, uri);
        proof {
            law_way_planned(r, by, asked@, self.security());
            if by is Some {
                let i = choose|i: int| #[trigger]
                    may_choose(self.list(), asked, i) && self.list()[i] == by->0;
                assert(may_choose(self.list(), asked, i));
            }
        }
        Some(r)
    }
}

impl<C> ProxyConnector<C, native_tls::TlsConnector> {
    /// Create a new secured Proxies
    ///
    /// Whether there is a TLS connector is up to the machine: `secured` says what comes of
    /// either.
    pub fn new(connector: C) -> (r: Result<Self, IoError<native_tls::Error>>)
        ensures
            match r {
                Ok(c) => c.list() == Seq::<Proxy>::empty() && c.inner() == connector
                    && c.security() is Some,
                Err(e) => e.kind == IoErrorKind::Other,
            },
    {
        Self::secured(connector, native_tls_connector())
    }

    /// Create a proxy connector and attach a particular proxy
    ///
    /// It is made as by `new`, and `attached` says what comes of it.
    pub fn from_proxy(connector: C, proxy: Proxy) -> (r: Result<Self, IoError<native_tls::Error>>)
        ensures
            match r {
                Ok(c) => c.list() == seq![proxy] && c.inner() == connector && c.security() is Some,
                Err(e) => e.kind == IoErrorKind::Other,
            },
    {
        Self::attached(Self::new(connector), proxy)
    }
}

impl<C> ProxyConnector<C, tokio_rustls::TlsConnector> {
    /// Create a new Proxies that trusts `roots`, where those could be read
    pub fn with_roots(
        connector: C,
        roots: Result<tokio_rustls::rustls::RootCertStore, std::io::Error>,
    ) -> (r: Result<Self, std::io::Error>)
        ensures
            match r {
                Ok(c) => roots is Ok && c.list() == Seq::<Proxy>::empty() && c.inner() == connector
                    && c.security() is Some && trusted_roots(c.security()->0) == store_roots(
                    roots->Ok_0,
                ),
                Err(e) => roots is Err && roots->Err_0 == e,
            },
    {
        let tls = match roots {
            Ok(roots) => Ok(rustls_connector(roots)),
            Err(e) => Err(e),
        };
        Self::secured_by(connector, tls)
    }

    /// Create a new secured Proxies
    ///
    /// Whether the roots can be read is up to the machine: `with_roots` says what comes of
    /// either.
    pub fn new(connector: C) -> (r: Result<Self, std::io::Error>)
        ensures
            r matches Ok(c) ==> c.list() == Seq::<Proxy>::empty() && c.inner() == connector
                && c.security() is Some,
    {
        Self::with_roots(connector, native_roots())
    }

    /// Create a proxy connector and attach a particular proxy
    ///
    /// It is made as by `new`, and `attached` says what comes of it.
    pub fn from_proxy(connector: C, proxy: Proxy) -> (r: Result<Self, std::io::Error>)
        ensures
            r matches Ok(c) ==> c.list() == seq![proxy] && c.inner() == connector
                && c.security() is Some,
    {
        Self::attached(Self::new(connector), proxy)
    }
}

} // verus!
