//! Securing a connection: where a TLS connector comes from, and which hosts it can
//! name.

use crate::error::{io_err, IoError, IoErrorKind};
use vstd::prelude::*;

verus! {

/// The TLS connector of the `native_tls` crate.
#[verifier::external_type_specification]
#[verifier::external_body]
pub struct ExNativeTlsConnector(native_tls::TlsConnector);

/// The error of the `native_tls` crate.
#[verifier::external_type_specification]
#[verifier::external_body]
pub struct ExNativeTlsError(native_tls::Error);

/// The TLS connector of the `tokio_rustls` crate.
#[verifier::external_type_specification]
#[verifier::external_body]
pub struct ExRustlsConnector(tokio_rustls::TlsConnector);

/// The trusted roots of the `rustls` crate.
#[verifier::external_type_specification]
#[verifier::external_body]
pub struct ExRootCertStore(tokio_rustls::rustls::RootCertStore);

/// The input and output error of std.
#[verifier::external_type_specification]
#[verifier::external_body]
pub struct ExIoError(std::io::Error);

/// The error of the `webpki` crate for what is no DNS name.
#[verifier::external_type_specification]
#[verifier::external_body]
pub struct ExInvalidDnsName(webpki::InvalidDNSNameError);

/// The roots that a store holds, in order: of each its subject, its public key and its name
/// constraints.
pub uninterp spec fn store_roots(roots: tokio_rustls::rustls::RootCertStore) -> Seq<
    (Seq<u8>, Seq<u8>, Option<Seq<u8>>),
>;

/// The roots that a connector trusts, told as those of a store are.
pub uninterp spec fn trusted_roots(tls: tokio_rustls::TlsConnector) -> Seq<
    (Seq<u8>, Seq<u8>, Option<Seq<u8>>),
>;

/// Whether `webpki::DNSNameRef` takes `text` as a DNS name.
pub uninterp spec fn is_dns_name(text: Seq<char>) -> bool;

/// Makes a connector with the settings of `native_tls::TlsConnector::builder`.
///
/// Trusted: nothing. What comes back depends on the machine.
#[verifier::external_body]
pub(crate) fn native_tls_connector() -> (r: Result<native_tls::TlsConnector, native_tls::Error>) {
    native_tls::TlsConnector::builder().build()
}

/// Reads the roots that the machine trusts with
/// `rustls_native_certs::load_native_certs`.
///
/// Trusted: nothing. What comes back depends on the machine.
#[verifier::external_body]
pub(crate) fn native_roots() -> (r: Result<tokio_rustls::rustls::RootCertStore, std::io::Error>) {
    rustls_native_certs::load_native_certs()
}

/// Makes a `tokio_rustls::TlsConnector` out of `rustls::ClientConfig::new` and `roots`.
///
/// Trusted: the connector trusts the roots that the store holds, and no others. Nothing
/// is said of its other settings, which are the defaults of `ClientConfig`.
#[verifier::external_body]
pub(crate) fn rustls_connector(roots: tokio_rustls::rustls::RootCertStore) -> (r:
    tokio_rustls::TlsConnector)
    ensures
        trusted_roots(r) == store_roots(roots),
{
    let mut config = tokio_rustls::rustls::ClientConfig::new();
    config.root_store = roots;
    tokio_rustls::TlsConnector::from(std::sync::Arc::new(config))
}

/// Checks a DNS name with `webpki::DNSNameRef::try_from_ascii_str`.
///
/// Trusted: the outcome depends on the text alone.
#[verifier::external_body]
fn dns_name(text: &str) -> (r: Result<(), webpki::InvalidDNSNameError>)
    ensures
        r is Ok <==> is_dns_name(text@),
{
    webpki::DNSNameRef::try_from_ascii_str(text).map(|_| ())
}

/// Checks that a server of the name `host` can be asked for its certificate.
pub fn server_name(host: &str) -> (r: Result<(), IoError<webpki::InvalidDNSNameError>>)
    ensures
        r is Ok <==> is_dns_name(host@),
        r matches Err(e) ==> e.kind == IoErrorKind::Other,
{
    match dns_name(host) {
        Ok(()) => Ok(()),
        Err(e) => Err(io_err(e)),
    }
}

} // verus!
