//! Request targets: the parts of a URI that decide where a connection goes.

use crate::error::{io_err, IoError, IoErrorKind};
use vstd::prelude::*;

verus! {

/// The characters that an optional string holds.
pub open spec fn text_of(s: Option<&str>) -> Option<Seq<char>> {
    match s {
        Some(s) => Some(s@),
        None => None,
    }
}

/// The characters that an optional owned string holds.
pub open spec fn string_text(s: Option<String>) -> Option<Seq<char>> {
    match s {
        Some(s) => Some(s@),
        None => None,
    }
}

/// A character that may stand in a scheme.
pub open spec fn is_scheme_char(c: char) -> bool {
    ||| 'a' <= c <= 'z'
    ||| 'A' <= c <= 'Z'
    ||| '0' <= c <= '9'
    ||| c == '+'
    ||| c == '-'
    ||| c == '.'
    ||| c == '~'
}

/// A scheme is at most 64 characters long and made of scheme characters alone.
pub open spec fn is_scheme(text: Seq<char>) -> bool {
    &&& text.len() <= 64
    &&& forall|i: int| 0 <= i < text.len() ==> is_scheme_char(#[trigger] text[i])
}

/// Whether `http::uri::Authority` takes `text` as an authority.
pub uninterp spec fn is_authority(text: Seq<char>) -> bool;

/// What stands before the first `c` in `text`: all of it where there is none.
pub open spec fn before_first(text: Seq<char>, c: char) -> Seq<char> {
    match text.index_of_first(c) {
        Some(i) => text.take(i),
        None => text,
    }
}

/// What stands behind the last `c` in `text`, where there is one.
pub open spec fn behind_last(text: Seq<char>, c: char) -> Option<Seq<char>> {
    match text.index_of_last(c) {
        Some(i) => Some(text.skip(i + 1)),
        None => None,
    }
}

/// The host in an authority: what follows the user information, up to the closing bracket
/// where it is an address in brackets, and else up to the port.
pub open spec fn authority_host(text: Seq<char>) -> Seq<char> {
    let place = match behind_last(text, '@') {
        Some(place) => place,
        None => text,
    };
    if place.len() > 0 && place[0] == '[' {
        before_first(place, ']').push(']')
    } else {
        before_first(place, ':')
    }
}

/// The number that decimal digits write.
pub open spec fn decimal(digits: Seq<char>) -> nat
    decreases digits.len(),
{
    if digits.len() == 0 {
        0
    } else {
        decimal(digits.drop_last()) * 10 + (digits.last() as nat - '0' as nat) as nat
    }
}

/// The text is decimal digits, one at least.
pub open spec fn is_decimal(text: Seq<char>) -> bool {
    text.len() > 0 && forall|i: int| 0 <= i < text.len() ==> '0' <= #[trigger] text[i] <= '9'
}

/// The port in an authority: what follows the last colon, where that is a decimal number
/// that fits, with or without a plus sign in front.
pub open spec fn authority_port(text: Seq<char>) -> Option<u16> {
    match behind_last(text, ':') {
        Some(port) => {
            let digits = if port.len() > 0 && port[0] == '+' {
                port.skip(1)
            } else {
                port
            };
            if is_decimal(digits) && decimal(digits) <= u16::MAX {
                Some(decimal(digits) as u16)
            } else {
                None
            }
        },
        None => None,
    }
}

/// What `http::uri::PathAndQuery` keeps of `text`, or `None` where it rejects it.
pub uninterp spec fn path_and_query_text(text: Seq<char>) -> Option<Seq<char>>;

/// How `http::Uri` prints a URI of these parts.
pub uninterp spec fn uri_text(
    scheme: Option<Seq<char>>,
    authority: Option<Seq<char>>,
    path_and_query: Option<Seq<char>>,
) -> Seq<char>;

/// Parses a scheme with `http::uri::Scheme::try_from`, and gives its text.
///
/// Trusted: the parse succeeds on the texts that `is_scheme` describes and on no
/// others, and a scheme's text is the text it was parsed from.
#[verifier::external_body]
fn parse_scheme(text: &str) -> (r: Option<String>)
    ensures
        r is Some <==> is_scheme(text@),
        r matches Some(s) ==> s@ == text@,
{
    http::uri::Scheme::try_from(text).ok().map(|s| s.as_str().to_string())
}

/// Parses an authority with `http::uri::Authority::try_from`, and gives its text.
///
/// Trusted: whether the parse succeeds depends on the text alone, and an
/// authority's text is the text it was parsed from.
#[verifier::external_body]
fn parse_authority(text: &str) -> (r: Option<String>)
    ensures
        r is Some <==> is_authority(text@),
        r matches Some(a) ==> a@ == text@,
{
    http::uri::Authority::try_from(text).ok().map(|a| a.as_str().to_string())
}

/// The host of an authority, by `http::uri::Authority::host`.
///
/// Trusted: the host is the part of the authority's text that `authority_host` describes.
#[verifier::external_body]
fn host_of_authority(text: &str) -> (r: String)
    requires
        is_authority(text@),
    ensures
        r@ == authority_host(text@),
{
    http::uri::Authority::try_from(text).unwrap().host().to_string()
}

/// The port of an authority, by `http::uri::Authority::port_u16`.
///
/// Trusted: the port is the number in the authority's text that `authority_port`
/// describes.
#[verifier::external_body]
fn port_of_authority(text: &str) -> (r: Option<u16>)
    requires
        is_authority(text@),
    ensures
        r == authority_port(text@),
{
    http::uri::Authority::try_from(text).unwrap().port_u16()
}

/// Parses a path and query with `http::uri::PathAndQuery::try_from`, and gives
/// the text that it keeps.
///
/// Trusted: the outcome depends on the text alone, what is kept is kept whole when
/// it is parsed again, and `/` is kept as it is.
#[verifier::external_body]
fn parse_path_and_query(text: &str) -> (r: Option<String>)
    ensures
        string_text(r) == path_and_query_text(text@),
        r matches Some(p) ==> path_and_query_text(p@) == Some(p@),
        text@ == seq!['/'] ==> r is Some && r->0@ == text@,
{
    http::uri::PathAndQuery::try_from(text).ok().map(|p| p.as_str().to_string())
}

/// Puts a URI together with `http::Uri::builder`, and gives the text of its parts,
/// or the text of the builder's error.
///
/// Trusted: with all three parts given the builder fails only where one of them
/// does not parse by itself, and the URI has the three parts as they parsed.
#[verifier::external_body]
fn build_uri(scheme: &str, authority: &str, path_and_query: &str) -> (r: Result<
    (String, String, String),
    String,
>)
    ensures
        r is Ok <==> parts_build(scheme@, authority@, path_and_query@),
        r matches Ok(parts) ==> parts.0@ == scheme@ && parts.1@ == authority@,
        r matches Ok(parts) ==> kept_path_and_query(path_and_query@) == Some(parts.2@),
{
    let uri = http::Uri::builder().scheme(scheme).authority(authority)
        .path_and_query(path_and_query).build().map_err(|e| e.to_string())?;
    let parts = uri.into_parts();
    Ok((
        parts.scheme.unwrap().as_str().to_string(),
        parts.authority.unwrap().as_str().to_string(),
        parts.path_and_query.unwrap().as_str().to_string(),
    ))
}

/// Prints the URI of these parts as `http::Uri` does.
///
/// Trusted: what is printed depends on the text of the parts alone.
#[verifier::external_body]
fn print_uri(scheme: Option<&str>, authority: Option<&str>, path_and_query: Option<&str>) -> (r:
    String)
    requires
        (UriView {
            scheme: text_of(scheme),
            authority: text_of(authority),
            path_and_query: text_of(path_and_query),
        }).valid(),
    ensures
        r@ == uri_text(text_of(scheme), text_of(authority), text_of(path_and_query)),
{
    let mut parts = http::uri::Parts::default();
    parts.scheme = scheme.map(|s| s.parse().unwrap());
    parts.authority = authority.map(|a| a.parse().unwrap());
    parts.path_and_query = path_and_query.map(|p| p.parse().unwrap());
    http::Uri::from_parts(parts).unwrap().to_string()
}

/// What a path and query is as part of a URI: `/` is itself, and any other text is
/// what the parser keeps of it.
pub open spec fn kept_path_and_query(text: Seq<char>) -> Option<Seq<char>> {
    if text == seq!['/'] {
        Some(text)
    } else {
        path_and_query_text(text)
    }
}

/// The three texts are a scheme, an authority and a path and query.
pub open spec fn parts_build(
    scheme: Seq<char>,
    authority: Seq<char>,
    path_and_query: Seq<char>,
) -> bool {
    &&& is_scheme(scheme)
    &&& is_authority(authority)
    &&& kept_path_and_query(path_and_query) is Some
}

/// The parts of a URI, as text.
#[verifier::ext_equal]
pub struct UriView {
    /// The scheme, without `://`.
    pub scheme: Option<Seq<char>>,
    /// The user information, host and port.
    pub authority: Option<Seq<char>>,
    /// The path and query.
    pub path_and_query: Option<Seq<char>>,
}

impl UriView {
    /// Each part parses as itself.
    pub open spec fn parts_valid(self) -> bool {
        &&& self.scheme matches Some(s) ==> is_scheme(s)
        &&& self.authority matches Some(a) ==> is_authority(a)
        &&& self.path_and_query matches Some(p) ==> kept_path_and_query(p) == Some(p)
    }

    /// The parts make one of the forms of a URI: absolute, authority alone, path
    /// alone, or nothing at all.
    pub open spec fn form_valid(self) -> bool {
        &&& self.scheme is Some ==> self.authority is Some && self.path_and_query is Some
        &&& self.scheme is None ==> self.authority is None || self.path_and_query is None
    }

    /// These are the parts of a URI.
    pub open spec fn valid(self) -> bool {
        self.parts_valid() && self.form_valid()
    }

    /// The host in the authority.
    pub open spec fn host(self) -> Option<Seq<char>> {
        match self.authority {
            Some(a) => Some(authority_host(a)),
            None => None,
        }
    }

    /// The port in the authority.
    pub open spec fn port(self) -> Option<u16> {
        match self.authority {
            Some(a) => authority_port(a),
            None => None,
        }
    }

    /// The path and query that a request to this URI asks for: none where the URI is
    /// an authority alone, and `/` where nothing is given.
    pub open spec fn target(self) -> Option<Seq<char>> {
        if self.scheme is None && self.authority is Some {
            None
        } else {
            match self.path_and_query {
                Some(p) => Some(p),
                None => Some(seq!['/']),
            }
        }
    }

    /// The URI as it is printed.
    pub open spec fn text(self) -> Seq<char> {
        uri_text(self.scheme, self.authority, self.path_and_query)
    }
}

/// A valid authority, with the host and port in it.
#[derive(Debug)]
struct Authority {
    text: String,
    host: String,
    port: Option<u16>,
}

impl Authority {
    spec fn well_formed(self) -> bool {
        &&& is_authority(self.text@)
        &&& self.host@ == authority_host(self.text@)
        &&& self.port == authority_port(self.text@)
    }

    /// Looks up the host and port of a valid authority.
    fn new(text: String) -> (r: Authority)
        requires
            is_authority(text@),
        ensures
            r.well_formed(),
            r.text@ == text@,
    {
        let host = host_of_authority(text.as_str());
        let port: Option<u16> = port_of_authority(text.as_str());
        Authority { text, host, port }
    }
}

/// The text that an optional string holds.
fn as_text(s: &Option<String>) -> (r: Option<&str>)
    ensures
        text_of(r) == string_text(*s),
{
    match s {
        Some(s) => Some(s.as_str()),
        None => None,
    }
}

/// A copy of an optional string.
fn copy_text(s: &Option<String>) -> (r: Option<String>)
    ensures
        string_text(r) == string_text(*s),
{
    match s {
        Some(s) => Some(s.clone()),
        None => None,
    }
}

/// Why parts do not make a URI.
#[derive(Debug, Clone, Copy, PartialEq, Eq, Structural)]
pub enum InvalidParts {
    /// The scheme is not a scheme.
    Scheme,
    /// The authority is not an authority.
    Authority,
    /// The path and query is not a path and query.
    PathAndQuery,
    /// There is a scheme and no authority.
    AuthorityMissing,
    /// There is a scheme and no path and query.
    PathAndQueryMissing,
    /// There are an authority and a path and query, and no scheme.
    SchemeMissing,
}

/// What is wrong with the given parts, if anything is: a part that is invalid by
/// itself counts before a part that is missing.
pub open spec fn parts_error(parts: UriView) -> Option<InvalidParts> {
    if parts.scheme is Some && !is_scheme(parts.scheme->0) {
        Some(InvalidParts::Scheme)
    } else if parts.authority is Some && !is_authority(parts.authority->0) {
        Some(InvalidParts::Authority)
    } else if parts.path_and_query is Some && kept_path_and_query(parts.path_and_query->0) is None {
        Some(InvalidParts::PathAndQuery)
    } else if parts.scheme is Some && parts.authority is None {
        Some(InvalidParts::AuthorityMissing)
    } else if parts.scheme is Some && parts.path_and_query is None {
        Some(InvalidParts::PathAndQueryMissing)
    } else if parts.scheme is None && parts.authority is Some && parts.path_and_query is Some {
        Some(InvalidParts::SchemeMissing)
    } else {
        None
    }
}

/// A URI: where a connection goes, or where a proxy stands.
#[derive(Debug)]
pub struct Uri {
    scheme: Option<String>,
    authority: Option<Authority>,
    path_and_query: Option<String>,
}

impl View for Uri {
    type V = UriView;

    closed spec fn view(&self) -> UriView {
        UriView {
            scheme: string_text(self.scheme),
            authority: match self.authority {
                Some(a) => Some(a.text@),
                None => None,
            },
            path_and_query: string_text(self.path_and_query),
        }
    }
}

impl Clone for Uri {
    fn clone(&self) -> (r: Uri)
        ensures
            r@ == self@,
            r@.valid(),
    {
        proof {
            use_type_invariant(self);
        }
        Uri {
            scheme: copy_text(&self.scheme),
            authority: match &self.authority {
                Some(a) => Some(
                    Authority { text: a.text.clone(), host: a.host.clone(), port: a.port },
                ),
                None => None,
            },
            path_and_query: copy_text(&self.path_and_query),
        }
    }
}

impl Uri {
    /// The parts are those of a URI.
    #[verifier::type_invariant]
    pub closed spec fn well_formed(self) -> bool {
        &&& self@.valid()
        &&& self.authority matches Some(a) ==> a.well_formed()
    }

    /// What the invariant gives of the parts.
    pub proof fn lemma_valid(self)
        requires
            self.well_formed(),
        ensures
            self@.valid(),
    {
    }

    /// Puts a URI together from the text of its parts.
    pub fn from_parts(
        scheme: Option<&str>,
        authority: Option<&str>,
        path_and_query: Option<&str>,
    ) -> (r: Result<Uri, InvalidParts>)
        ensures
            ({
                let parts = UriView {
                    scheme: text_of(scheme),
                    authority: text_of(authority),
                    path_and_query: text_of(path_and_query),
                };
                match r {
                    Ok(uri) => parts_error(parts) is None && uri@.valid() && uri@ == (UriView {
                        path_and_query: match parts.path_and_query {
                            Some(p) => kept_path_and_query(p),
                            None => None,
                        },
                        ..parts
                    }),
                    Err(e) => parts_error(parts) == Some(e),
                }
            }),
    {
        let scheme = match scheme {
            Some(s) => match parse_scheme(s) {
                Some(s) => Some(s),
                None => return Err(InvalidParts::Scheme),
            },
            None => None,
        };
        let authority = match authority {
            Some(a) => match parse_authority(a) {
                Some(a) => Some(Authority::new(a)),
                None => return Err(InvalidParts::Authority),
            },
            None => None,
        };
        let path_and_query = match path_and_query {
            Some(p) => match parse_path_and_query(p) {
                Some(p) => Some(p),
                None => return Err(InvalidParts::PathAndQuery),
            },
            None => None,
        };
        if scheme.is_some() {
            if authority.is_none() {
                return Err(InvalidParts::AuthorityMissing);
            }
            if path_and_query.is_none() {
                return Err(InvalidParts::PathAndQueryMissing);
            }
        } else if authority.is_some() && path_and_query.is_some() {
            return Err(InvalidParts::SchemeMissing);
        }
        Ok(Uri { scheme, authority, path_and_query })
    }

    /// The authority: the user information, host and port.
    pub fn authority(&self) -> (r: Option<&str>)
        ensures
            text_of(r) == self@.authority,
    {
        match &self.authority {
            Some(a) => Some(a.text.as_str()),
            None => None,
        }
    }

    /// The path and query, `/` where there is no part at all, and nothing where the URI
    /// is an authority alone.
    pub fn path_and_query(&self) -> (r: Option<&str>)
        ensures
            text_of(r) == self@.target(),
    {
        if self.scheme.is_none() && self.authority.is_some() {
            return None;
        }
        match &self.path_and_query {
            Some(p) => Some(p.as_str()),
            None => {
                proof {
                    reveal_strlit("/");
                    assert("/"@ =~= seq!['/']);
                }
                Some("/")
            },
        }
    }

    /// The URI as text.
    pub fn to_text(&self) -> (r: String)
        ensures
            r@ == self@.text(),
    {
        proof {
            use_type_invariant(self);
        }
        print_uri(as_text(&self.scheme), self.authority(), as_text(&self.path_and_query))
    }
}

/// A destination of a connection, as far as choosing a proxy for it needs to know.
///
/// The three spec functions have defaults so that ordinary code can implement the trait
/// by the three methods alone; a verified implementation says what they are.
pub trait Dst {
    /// The connection scheme, as characters.
    open spec fn scheme_text(&self) -> Option<Seq<char>> {
        arbitrary()
    }

    /// The host, as characters.
    open spec fn host_text(&self) -> Option<Seq<char>> {
        arbitrary()
    }

    /// The port.
    open spec fn port_number(&self) -> Option<u16> {
        arbitrary()
    }

    /// Returns the connection scheme, e.g. "http" or "https"
    fn scheme(&self) -> (r: Option<&str>)
        ensures
            text_of(r) == self.scheme_text(),
    ;

    /// Returns the host of the connection
    fn host(&self) -> (r: Option<&str>)
        ensures
            text_of(r) == self.host_text(),
    ;

    /// Returns the port for the connection
    fn port(&self) -> (r: Option<u16>)
        ensures
            r == self.port_number(),
    ;
}

impl Dst for Uri {
    open spec fn scheme_text(&self) -> Option<Seq<char>> {
        self@.scheme
    }

    open spec fn host_text(&self) -> Option<Seq<char>> {
        self@.host()
    }

    open spec fn port_number(&self) -> Option<u16> {
        self@.port()
    }

    fn scheme(&self) -> (r: Option<&str>) {
        as_text(&self.scheme)
    }

    fn host(&self) -> (r: Option<&str>) {
        proof {
            use_type_invariant(self);
        }
        match &self.authority {
            Some(a) => Some(a.host.as_str()),
            None => None,
        }
    }

    fn port(&self) -> (r: Option<u16>) {
        proof {
            use_type_invariant(self);
        }
        match &self.authority {
            Some(a) => a.port,
            None => None,
        }
    }
}

/// The URI by which a proxy at `proxy` is asked for `dst`: the proxy's scheme and
/// authority, with the path and query of the destination.
pub open spec fn proxied(dst: UriView, proxy: UriView) -> UriView {
    UriView { scheme: proxy.scheme, authority: proxy.authority, path_and_query: dst.target() }
}

/// Where to connect, and what to ask for there, to reach `dst` through `proxy`.
///
/// A destination that is an authority alone has nothing to ask a proxy for, but a proxy
/// without a scheme is reported before that matters.
pub fn proxy_dst(dst: &Uri, proxy: &Uri) -> (r: Result<Uri, IoError<String>>)
    requires
        dst@.target() is Some || proxy@.scheme is None,
    ensures
        r is Ok <==> proxy@.scheme is Some,
        r matches Ok(uri) ==> uri@ == proxied(dst@, proxy@) && uri@.valid(),
        r matches Err(e) ==> e.kind == IoErrorKind::Other && e.error@
            == "proxy uri missing scheme: "@ + proxy@.text(),
{
    proof {
        use_type_invariant(dst);
        use_type_invariant(proxy);
    }
    let scheme = match proxy.scheme() {
        Some(s) => s,
        None => {
            return Err(io_err(message("proxy uri missing scheme: ", proxy.to_text().as_str())));
        },
    };
    // A URI with a scheme has an authority too, and the parts of URIs build a URI: neither
    // of the failures below comes up.
    let authority = match proxy.authority() {
        Some(a) => a,
        None => {
            return Err(io_err(message("proxy uri missing host: ", proxy.to_text().as_str())));
        },
    };
    match build_uri(scheme, authority, dst.path_and_query().unwrap()) {
        Ok((s, a, p)) => Ok(
            Uri { scheme: Some(s), authority: Some(Authority::new(a)), path_and_query: Some(p) },
        ),
        Err(e) => Err(io_err(message("other error: ", e.as_str()))),
    }
}

/// The text `before`, followed by `after`.
fn message(before: &str, after: &str) -> (r: String)
    ensures
        r@ == before@ + after@,
{
    let mut m = before.to_string();
    m.append(after);
    m
}

} // verus!
