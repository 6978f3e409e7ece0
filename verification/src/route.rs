//! How a connection is opened: where to connect to, and what is done on the open
//! connection before it is handed out.

use crate::error::{io_err, IoError, IoErrorKind};
use crate::headers::{copy_headers, header_fields, headers_text, Fields};
use crate::intercept::is_text;
use crate::proxy::Proxy;
use crate::uri::{proxied, proxy_dst, Dst, Uri, UriView};
use http::header::HeaderMap;
use vstd::prelude::*;

verus! {

/// The port of an https server, where the URI names none.
pub const HTTPS_PORT: u16 = 443;

/// The way to a destination.
///
/// It holds copies of what it takes from a proxy and from a connector: what becomes of
/// those later does not change it.
pub enum Route<T> {
    /// Straight to the destination.
    Direct {
        /// Where to connect to.
        uri: Uri,
    },
    /// To a proxy, which passes requests on.
    Forward {
        /// Where to connect to.
        uri: Uri,
    },
    /// Through a proxy, which is asked for a tunnel.
    Tunnel {
        /// Where to connect to, or why there is no way to the proxy.
        connection: Result<Uri, IoError<String>>,
        /// The host at the far end of the tunnel.
        host: String,
        /// The port at the far end of the tunnel.
        port: u16,
        /// The header fields that the proxy is sent.
        headers: HeaderMap,
        /// What secures the tunnel.
        tls: Option<T>,
    },
}

/// A route, with its parts as they are in specifications.
pub enum RouteView<T> {
    /// Straight to the destination.
    Direct(UriView),
    /// To a proxy, which passes requests on.
    Forward(UriView),
    /// Through a proxy, which is asked for a tunnel.
    Tunnel {
        /// Where to connect to, or the error, with its message, that says why there is no way.
        connection: Result<UriView, IoError<Seq<char>>>,
        /// The host at the far end of the tunnel.
        host: Seq<char>,
        /// The port at the far end of the tunnel.
        port: u16,
        /// The header fields that the proxy is sent.
        fields: Fields,
        /// Those fields as they are printed.
        fields_text: Seq<char>,
        /// What secures the tunnel.
        tls: Option<T>,
    },
}

impl<T> View for Route<T> {
    type V = RouteView<T>;

    open spec fn view(&self) -> RouteView<T> {
        match *self {
            Route::Direct { uri } => RouteView::Direct(uri@),
            Route::Forward { uri } => RouteView::Forward(uri@),
            Route::Tunnel { connection, host, port, headers, tls } => RouteView::Tunnel {
                connection: match connection {
                    Ok(uri) => Ok(uri@),
                    Err(e) => Err(IoError { kind: e.kind, error: e.error@ }),
                },
                host: host@,
                port,
                fields: header_fields(headers),
                fields_text: headers_text(headers),
                tls,
            },
        }
    }
}

/// Requests for `uri` are passed on by `proxy`.
pub open spec fn forwards(proxy: Option<Proxy>, uri: UriView) -> bool {
    proxy is Some && uri.authority is Some && uri.scheme != Some("https"@)
}

/// There is a route: a proxy that is to pass requests on has a scheme, and there is a
/// path to ask it for.
pub open spec fn has_route(proxy: Option<Proxy>, uri: UriView) -> bool {
    forwards(proxy, uri) ==> proxy->0.place().scheme is Some && uri.target() is Some
}

/// The route to `uri` through the proxy that was chosen for it, if one was.
pub open spec fn route_to<T>(proxy: Option<Proxy>, uri: UriView, tls: Option<T>) -> RouteView<T> {
    if proxy is None || uri.host() is None {
        RouteView::Direct(uri)
    } else if uri.scheme == Some("https"@) {
        RouteView::Tunnel {
            connection: if proxy->0.place().scheme is Some {
                Ok(proxied(uri, proxy->0.place()))
            } else {
                Err(
                    IoError {
                        kind: IoErrorKind::Other,
                        error: "proxy uri missing scheme: "@ + proxy->0.place().text(),
                    },
                )
            },
            host: uri.host()->0,
            port: match uri.port() {
                Some(port) => port,
                None => HTTPS_PORT,
            },
            fields: proxy->0.fields(),
            fields_text: proxy->0.fields_text(),
            tls,
        }
    } else {
        RouteView::Forward(proxied(uri, proxy->0.place()))
    }
}

/// The one is a copy of the other, as far as its type copies.
pub open spec fn copied<T: Clone>(of: Option<T>, copy: Option<T>) -> bool {
    &&& copy is Some <==> of is Some
    &&& of is Some ==> cloned(of->0, copy->0)
}

impl<T: Clone> RouteView<T> {
    /// This is the other route, with a copy of what secures it.
    pub open spec fn follows(self, other: RouteView<T>) -> bool {
        match other {
            RouteView::Tunnel { connection, host, port, fields, fields_text, tls } => {
                &&& self matches RouteView::Tunnel {
                    connection: c,
                    host: h,
                    port: p,
                    fields: f,
                    fields_text: x,
                    tls: t,
                }
                &&& c == connection
                &&& h == host
                &&& p == port
                &&& f == fields
                &&& x == fields_text
                &&& copied(tls, t)
            },
            _ => self == other,
        }
    }
}

/// Works out the route to `uri` through the proxy that was chosen for it, if one was.
pub(crate) fn route<T: Clone>(proxy: Option<&Proxy>, uri: Uri, tls: &Option<T>) -> (r: Route<T>)
    requires
        has_route(chosen(proxy), uri@),
    ensures
        r@.follows(route_to(chosen(proxy), uri@, *tls)),
{
    let p = match proxy {
        Some(p) => p,
        None => return Route::Direct { uri },
    };
    let host = match uri.host() {
        Some(host) => host.to_string(),
        None => return Route::Direct { uri },
    };
    if is_text(uri.scheme(), "https") {
        let port: u16 = match uri.port() {
            Some(port) => port,
            None => HTTPS_PORT,
        };
        let connection = proxy_dst(&uri, p.uri());
        Route::Tunnel {
            connection,
            host,
            port,
            headers: copy_headers(p.headers()),
            tls: match tls {
                Some(tls) => Some(tls.clone()),
                None => None,
            },
        }
    } else {
        Route::Forward { uri: proxy_dst(&uri, p.uri()).unwrap() }
    }
}

/// The proxy behind an optional reference.
pub open spec fn chosen(proxy: Option<&Proxy>) -> Option<Proxy> {
    match proxy {
        Some(p) => Some(*p),
        None => None,
    }
}

/// What is made of an open connection before it is handed out.
#[derive(Debug, Clone, Copy, PartialEq, Eq, Structural)]
pub enum Plan {
    /// Nothing: it is handed out as it is.
    Plain,
    /// A tunnel.
    Tunnel,
    /// A tunnel that is secured.
    SecureTunnel,
}

impl<T> RouteView<T> {
    /// What is made of the connection on this route.
    pub open spec fn plan(self) -> Plan {
        match self {
            RouteView::Tunnel { tls: Some(_), .. } => Plan::SecureTunnel,
            RouteView::Tunnel { tls: None, .. } => Plan::Tunnel,
            _ => Plan::Plain,
        }
    }
}

impl<T> Route<T> {
    /// What is made of the connection on this route.
    pub fn plan(&self) -> (r: Plan)
        ensures
            r == self@.plan(),
    {
        match self {
            Route::Direct { .. } => Plan::Plain,
            Route::Forward { .. } => Plan::Plain,
            Route::Tunnel { tls, .. } => match tls {
                Some(_) => Plan::SecureTunnel,
                None => Plan::Tunnel,
            },
        }
    }
}

/// What is being waited for.
#[derive(Debug, Clone, Copy, PartialEq, Eq, Structural)]
pub enum Stage {
    /// The connection is being opened.
    Connecting,
    /// The proxy is being asked for a tunnel.
    Tunneling,
    /// The tunnel is being secured.
    Securing,
}

/// How what was waited for ended.
#[derive(Debug)]
pub enum Outcome<E> {
    /// It is done.
    Done,
    /// It failed.
    Failed(E),
}

/// The sort of stream that is handed out.
#[derive(Debug, Clone, Copy, PartialEq, Eq, Structural)]
pub enum StreamKind {
    /// The bytes go over the connection, or through the tunnel, as they are.
    Regular,
    /// The bytes are secured.
    Secured,
}

/// The failure that is reported.
#[derive(Debug)]
pub enum Failure<E> {
    /// An error of the connector or of the security layer, wrapped.
    Wrapped(IoError<E>),
    /// An error of the tunnel, as it is.
    Tunnel(E),
}

/// What is done next.
#[derive(Debug)]
pub enum Step<E> {
    /// Start on the next stage.
    Continue(Stage),
    /// Hand the stream out.
    Finish(StreamKind),
    /// Give up.
    Fail(Failure<E>),
}

impl Plan {
    /// The plan has this stage in it.
    pub open spec fn has(self, stage: Stage) -> bool {
        match stage {
            Stage::Connecting => true,
            Stage::Tunneling => self != Plan::Plain,
            Stage::Securing => self == Plan::SecureTunnel,
        }
    }

    /// The last stage of the plan.
    pub open spec fn last(self) -> Stage {
        match self {
            Plan::Plain => Stage::Connecting,
            Plan::Tunnel => Stage::Tunneling,
            Plan::SecureTunnel => Stage::Securing,
        }
    }

    /// The stream that comes of the plan.
    pub open spec fn stream(self) -> StreamKind {
        if self == Plan::SecureTunnel {
            StreamKind::Secured
        } else {
            StreamKind::Regular
        }
    }

    /// What follows when `stage` has ended.
    pub open spec fn step<E>(self, stage: Stage, outcome: Outcome<E>) -> Step<E> {
        match outcome {
            Outcome::Failed(e) => if stage == Stage::Tunneling {
                Step::Fail(Failure::Tunnel(e))
            } else {
                Step::Fail(Failure::Wrapped(IoError { kind: IoErrorKind::Other, error: e }))
            },
            Outcome::Done => if stage == self.last() {
                Step::Finish(self.stream())
            } else if stage == Stage::Connecting {
                Step::Continue(Stage::Tunneling)
            } else {
                Step::Continue(Stage::Securing)
            },
        }
    }

    /// Decides what follows when `stage` has ended.
    pub fn next<E>(self, stage: Stage, outcome: Outcome<E>) -> (r: Step<E>)
        requires
            self.has(stage),
        ensures
            r == self.step(stage, outcome),
    {
        match (stage, outcome) {
            (Stage::Connecting, Outcome::Failed(e)) => Step::Fail(Failure::Wrapped(io_err(e))),
            (Stage::Tunneling, Outcome::Failed(e)) => Step::Fail(Failure::Tunnel(e)),
            (Stage::Securing, Outcome::Failed(e)) => Step::Fail(Failure::Wrapped(io_err(e))),
            (Stage::Connecting, Outcome::Done) => match self {
                Plan::Plain => Step::Finish(StreamKind::Regular),
                _ => Step::Continue(Stage::Tunneling),
            },
            (Stage::Tunneling, Outcome::Done) => match self {
                Plan::SecureTunnel => Step::Continue(Stage::Securing),
                _ => Step::Finish(StreamKind::Regular),
            },
            (Stage::Securing, Outcome::Done) => Step::Finish(StreamKind::Secured),
        }
    }
}

/// Whether a connector can take another connection.
#[derive(Debug)]
pub enum Readiness<E> {
    /// It can.
    Ready,
    /// It never will.
    Failed(E),
    /// Not yet.
    Pending,
}

/// The readiness of a proxy connector, given that of the connector inside it.
pub fn poll_ready<E>(inner: Readiness<E>) -> (r: Readiness<IoError<E>>)
    ensures
        r == (match inner {
            Readiness::Ready => Readiness::Ready,
            Readiness::Failed(e) => Readiness::Failed(
                IoError { kind: IoErrorKind::Other, error: e },
            ),
            Readiness::Pending => Readiness::Pending,
        }),
{
    match inner {
        Readiness::Ready => Readiness::Ready,
        Readiness::Failed(e) => Readiness::Failed(io_err(e)),
        Readiness::Pending => Readiness::Pending,
    }
}

} // verus!
