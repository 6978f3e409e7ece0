//! Rules for sending the connections of an HTTP client through proxies.
//!
//! A [`Proxy`] stands at a [`Uri`], is for the connections that its [`Intercept`] picks
//! out, and is sent header fields of its own. A [`ProxyConnector`] holds a list of
//! proxies and works out the [`route::Route`] to each destination: straight to it, to a
//! proxy that passes requests on, or through a tunnel that is secured where there is a
//! TLS connector.

pub mod connector;
pub mod error;
pub mod headers;
pub mod intercept;
pub mod laws;
pub mod outcomes;
pub mod proxy;
pub mod route;
pub mod tls;
pub mod uri;

pub use connector::ProxyConnector;
pub use error::{io_err, IoError, IoErrorKind};
pub use headers::{Credentials, FieldName, FieldValue};
pub use intercept::{Custom, Intercept};
pub use proxy::Proxy;
pub use route::Route;
pub use uri::{Dst, Uri};
