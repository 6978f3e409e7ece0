//! Which connections go through a proxy.

use crate::uri::{text_of, Dst};
use std::sync::Arc;
use vstd::prelude::*;
use vstd::std_specs::convert::FromSpecImpl;

verus! {

/// A function of scheme, host and port may be called with any of them.
pub open spec fn callable<F: Fn(Option<&str>, Option<&str>, Option<u16>) -> bool>(f: F) -> bool {
    forall|scheme: Option<&str>, host: Option<&str>, port: Option<u16>| #[trigger]
        call_requires(f, (scheme, host, port))
}

/// A function of scheme, host and port may be called with some of them.
pub open spec fn may_be_asked<F: Fn(Option<&str>, Option<&str>, Option<u16>) -> bool>(
    f: F,
) -> bool {
    exists|scheme: Option<&str>, host: Option<&str>, port: Option<u16>| #[trigger]
        call_requires(f, (scheme, host, port))
}

/// `answer` may come of calling `f` with this scheme, host and port.
pub open spec fn may_return<F: Fn(Option<&str>, Option<&str>, Option<u16>) -> bool>(
    f: F,
    scheme: Option<Seq<char>>,
    host: Option<Seq<char>>,
    port: Option<u16>,
    answer: bool,
) -> bool {
    exists|s: Option<&str>, h: Option<&str>|
        text_of(s) == scheme && text_of(h) == host && #[trigger] call_ensures(
            f,
            (s, h, port),
            answer,
        )
}

/// A rule of the caller's own, asked for each connection.
trait Filter: Send + Sync {
    /// The rule may be asked about any connection.
    spec fn callable(&self) -> bool;

    /// `answer` is an answer that the rule may give about a connection with this
    /// scheme, host and port.
    spec fn may_answer(
        &self,
        scheme: Option<Seq<char>>,
        host: Option<Seq<char>>,
        port: Option<u16>,
        answer: bool,
    ) -> bool;

    /// Asks whether a connection goes through the proxy.
    fn answer(&self, scheme: Option<&str>, host: Option<&str>, port: Option<u16>) -> (r: bool)
        requires
            self.callable(),
        ensures
            self.may_answer(text_of(scheme), text_of(host), port, r),
    ;
}

/// The rule that a function of scheme, host and port makes.
struct Rule<F>(F);

impl<F: Fn(Option<&str>, Option<&str>, Option<u16>) -> bool + Send + Sync> Filter for Rule<F> {
    spec fn callable(&self) -> bool {
        callable(self.0)
    }

    spec fn may_answer(
        &self,
        scheme: Option<Seq<char>>,
        host: Option<Seq<char>>,
        port: Option<u16>,
        answer: bool,
    ) -> bool {
        may_return(self.0, scheme, host, port, answer)
    }

    fn answer(&self, scheme: Option<&str>, host: Option<&str>, port: Option<u16>) -> (r: bool) {
        (self.0)(scheme, host, port)
    }
}

/// A Custom struct to proxy custom uris
pub struct Custom(Arc<Box<dyn Filter>>);

impl Clone for Custom {
    fn clone(&self) -> (r: Custom)
        ensures
            r == *self,
    {
        Custom(self.0.clone())
    }
}

impl Custom {
    /// The rule may be asked about any connection.
    pub closed spec fn callable(self) -> bool {
        self.0.callable()
    }

    /// `answer` is an answer that the rule may give.
    pub closed spec fn may_answer(
        self,
        scheme: Option<Seq<char>>,
        host: Option<Seq<char>>,
        port: Option<u16>,
        answer: bool,
    ) -> bool {
        self.0.may_answer(scheme, host, port, answer)
    }

    /// This is the rule that `f` decides.
    pub open spec fn decided_by<F: Fn(Option<&str>, Option<&str>, Option<u16>) -> bool>(
        self,
        f: F,
    ) -> bool {
        &&& self.callable() == callable(f)
        &&& forall|
            scheme: Option<Seq<char>>,
            host: Option<Seq<char>>,
            port: Option<u16>,
            answer: bool,
        | #[trigger]
            self.may_answer(scheme, host, port, answer) == may_return(f, scheme, host, port, answer)
    }

    /// The rule as text: what decides it cannot be shown.
    pub fn debug_text(&self) -> (r: String)
        ensures
            r@ == "_"@,
    {
        "_".to_string()
    }
}

impl<F: Fn(Option<&str>, Option<&str>, Option<u16>) -> bool + Send + Sync + 'static> From<
    F,
> for Custom {
    fn from(f: F) -> (r: Custom)
        ensures
            r.decided_by(f),
    {
        let rule: Box<dyn Filter> = Box::new(Rule(f));
        let ghost asked = rule;
        let shared = Arc::new(rule);
        assert(*shared == asked);
        Custom(shared)
    }
}

impl<F: Fn(Option<&str>, Option<&str>, Option<u16>) -> bool + Send + Sync + 'static> FromSpecImpl<
    F,
> for Custom {
    open spec fn obeys_from_spec() -> bool {
        false
    }

    open spec fn from_spec(f: F) -> Custom {
        arbitrary()
    }
}

/// The Intercept enum to filter connections
pub enum Intercept {
    /// All incoming connection will go through proxy
    All,
    /// Only http connections will go through proxy
    Http,
    /// Only https connections will go through proxy
    Https,
    /// No connection will go through this proxy
    Nothing,
    /// A custom intercept
    Custom(Custom),
}

impl Clone for Intercept {
    fn clone(&self) -> (r: Intercept)
        ensures
            r == *self,
    {
        match self {
            Intercept::All => Intercept::All,
            Intercept::Http => Intercept::Http,
            Intercept::Https => Intercept::Https,
            Intercept::Nothing => Intercept::Nothing,
            Intercept::Custom(c) => Intercept::Custom(c.clone()),
        }
    }
}

impl Intercept {
    /// Any connection may be asked about.
    pub open spec fn callable(self) -> bool {
        self matches Intercept::Custom(c) ==> c.callable()
    }

    /// `answer` may come of asking whether a connection with this scheme, host and
    /// port goes through the proxy.
    pub open spec fn may_answer(
        self,
        scheme: Option<Seq<char>>,
        host: Option<Seq<char>>,
        port: Option<u16>,
        answer: bool,
    ) -> bool {
        match self {
            Intercept::All => answer,
            Intercept::Http => answer == (scheme == Some("http"@)),
            Intercept::Https => answer == (scheme == Some("https"@)),
            Intercept::Nothing => !answer,
            Intercept::Custom(c) => c.may_answer(scheme, host, port, answer),
        }
    }

    /// `answer` may come of asking about `dst`.
    pub open spec fn may_answer_for<D: Dst>(self, dst: D, answer: bool) -> bool {
        self.may_answer(dst.scheme_text(), dst.host_text(), dst.port_number(), answer)
    }

    /// The intercept as characters.
    pub open spec fn text(self) -> Seq<char> {
        match self {
            Intercept::All => "All"@,
            Intercept::Http => "Http"@,
            Intercept::Https => "Https"@,
            Intercept::Nothing => "None"@,
            Intercept::Custom(_) => "Custom("@ + "_"@ + ")"@,
        }
    }

    /// The intercept as text
    pub fn debug_text(&self) -> (r: String)
        ensures
            r@ == self.text(),
    {
        match self {
            Intercept::All => "All".to_string(),
            Intercept::Http => "Http".to_string(),
            Intercept::Https => "Https".to_string(),
            Intercept::Nothing => "None".to_string(),
            Intercept::Custom(c) => {
                let mut text = "Custom(".to_string();
                text.append(c.debug_text().as_str());
                text.append(")");
                text
            },
        }
    }

    /// A function to check if given `Uri` is proxied
    pub fn matches<D: Dst>(&self, uri: &D) -> (r: bool)
        requires
            self.callable(),
        ensures
            self.may_answer_for(*uri, r),
    {
        match self {
            Intercept::All => true,
            Intercept::Http => is_text(uri.scheme(), "http"),
            Intercept::Https => is_text(uri.scheme(), "https"),
            Intercept::Nothing => false,
            Intercept::Custom(c) => c.0.answer(uri.scheme(), uri.host(), uri.port()),
        }
    }
}

/// Whether an optional string is there and is `text`.
pub(crate) fn is_text(s: Option<&str>, text: &str) -> (r: bool)
    ensures
        r == (text_of(s) == Some(text@)),
{
    match s {
        Some(s) => s.to_string() == text.to_string(),
        None => false,
    }
}

impl<F: Fn(Option<&str>, Option<&str>, Option<u16>) -> bool + Send + Sync + 'static> From<
    F,
> for Intercept {
    /// A custom intercept.
    ///
    /// That it is one is said of a function that can be asked about some connection: said
    /// of every value, it would be claimed of an intercept that is converted into itself.
    fn from(f: F) -> (r: Intercept)
        ensures
            may_be_asked(f) ==> r is Custom,
            r matches Intercept::Custom(c) ==> c.decided_by(f),
    {
        Intercept::Custom(Custom::from(f))
    }
}

impl<F: Fn(Option<&str>, Option<&str>, Option<u16>) -> bool + Send + Sync + 'static> FromSpecImpl<
    F,
> for Intercept {
    open spec fn obeys_from_spec() -> bool {
        false
    }

    open spec fn from_spec(f: F) -> Intercept {
        arbitrary()
    }
}

} // verus!
