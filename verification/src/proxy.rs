//! A proxy: where it stands, which connections it is for, and what it is sent.

use crate::headers::{
    can_take_field, copy_headers, count_fields, has_room, header_fields, headers_text, new_headers,
    no_fields, print_headers, set_field, set_proxy_credentials, set_server_credentials,
    takes_after_authorization, takes_field, with_field, Credentials, FieldName, FieldValue, Fields,
    ValueView, FIELD_ROOM,
};
use crate::intercept::Intercept;
use crate::outcomes::law_credentials_placed;
use crate::uri::{Uri, UriView};
use http::header::HeaderMap;
use vstd::prelude::*;
use vstd::utf8::encode_utf8;

verus! {

/// The conversion of a value into its own type, `<T as From<T>>::from` of std.
///
/// Trusted: it gives the value back.
pub assume_specification<A>[ <A as std::convert::From<A>>::from ](a: A) -> (r: A)
    ensures
        r == a,
;

/// Credentials are sent in one field: the proxy is for http alone or for https alone.
pub open spec fn in_one_field(rule: Intercept) -> bool {
    rule == Intercept::Http || rule == Intercept::Https
}

/// The fields after credentials were set: those of a plain request go to the server's
/// field, those of a tunnel to the proxy's field.
pub open spec fn with_credentials(fields: Fields, rule: Intercept, value: ValueView) -> Fields {
    match rule {
        Intercept::Http => with_field(fields, "authorization"@, value),
        Intercept::Https => with_field(fields, "proxy-authorization"@, value),
        _ => with_field(
            with_field(fields, "authorization"@, value),
            "proxy-authorization"@,
            value,
        ),
    }
}

/// A Proxy struct
pub struct Proxy {
    intercept: Intercept,
    headers: HeaderMap,
    uri: Uri,
}

impl Clone for Proxy {
    fn clone(&self) -> (r: Proxy)
        ensures
            self.same(r),
            r.takes_field() == self.takes_field(),
            forall|value: ValueView|
                #[trigger] r.takes_credentials(value) == self.takes_credentials(value),
    {
        Proxy {
            intercept: self.intercept.clone(),
            headers: copy_headers(&self.headers),
            uri: self.uri.clone(),
        }
    }
}

impl Proxy {
    /// Which connections go through the proxy.
    pub closed spec fn rule(self) -> Intercept {
        self.intercept
    }

    /// The header map of the proxy.
    pub closed spec fn header_map(self) -> HeaderMap {
        self.headers
    }

    /// The header fields that are sent to the proxy.
    pub open spec fn fields(self) -> Fields {
        header_fields(self.header_map())
    }

    /// Where the proxy stands.
    pub closed spec fn place(self) -> UriView {
        self.uri@
    }

    /// Another field can be set.
    pub open spec fn takes_field(self) -> bool {
        takes_field(self.header_map())
    }

    /// Credentials can be set: there is a place for each of the fields when its turn comes.
    pub open spec fn takes_credentials(self, value: ValueView) -> bool {
        &&& self.takes_field()
        &&& in_one_field(self.rule()) || has_room(
            with_field(self.fields(), "authorization"@, value),
            1,
        ) || takes_after_authorization(self.header_map())
    }

    /// The header fields as they are printed.
    pub open spec fn fields_text(self) -> Seq<char> {
        headers_text(self.header_map())
    }

    /// The proxy as characters.
    pub open spec fn text(self) -> Seq<char> {
        "Proxy { intercept: "@ + self.rule().text() + ", headers: "@ + self.fields_text()
            + ", uri: "@ + self.place().text() + " }"@
    }

    /// The other proxy has the same rule, is sent the same fields and stands in the same
    /// place, and so prints the same.
    pub open spec fn same(self, other: Proxy) -> bool {
        &&& other.rule() == self.rule()
        &&& other.fields() == self.fields()
        &&& other.place() == self.place()
        &&& other.fields_text() == self.fields_text()
    }

    /// Create a new `Proxy`
    pub fn new<I: Into<Intercept>>(intercept: I, uri: Uri) -> (r: Proxy)
        ensures
            call_ensures(I::into, (intercept,), r.rule()),
            r.fields() == no_fields(),
            r.fields_text() == "{}"@,
            r.place() == uri@,
    {
        Proxy { intercept: intercept.into(), uri, headers: new_headers() }
    }

    /// Set `Proxy` authorization
    pub fn set_authorization(&mut self, credentials: Credentials)
        requires
            old(self).takes_credentials(credentials.value()),
        ensures
            final(self).rule() == old(self).rule(),
            final(self).place() == old(self).place(),
            final(self).fields() == with_credentials(
                old(self).fields(),
                old(self).rule(),
                credentials.value(),
            ),
            ({
                let value = (encode_utf8(credentials@), false);
                let server = "authorization"@;
                let proxy = "proxy-authorization"@;
                let before = old(self).fields();
                let after = final(self).fields();
                let set = true;
                &&& set && !(old(self).rule() is Https) ==> after.contains_key(server)
                    && after[server] == seq![value]
                &&& set && !(old(self).rule() is Http) ==> after.contains_key(proxy)
                    && after[proxy] == seq![value]
                &&& forall|name: Seq<char>|
                    (name != server || old(self).rule() is Https) && (name != proxy || old(
                        self,
                    ).rule() is Http) ==> #[trigger] after.contains_key(name)
                        == before.contains_key(name) && after[name] == before[name]
            }),
    {
        proof {
            law_credentials_placed(self.fields(), self.rule(), credentials.value());
        }
        match self.intercept {
            Intercept::Http => {
                set_server_credentials(&mut self.headers, &credentials);
            },
            Intercept::Https => {
                set_proxy_credentials(&mut self.headers, &credentials);
            },
            _ => {
                set_server_credentials(&mut self.headers, &credentials);
                set_proxy_credentials(&mut self.headers, &credentials);
            },
        }
    }

    /// Set a custom header
    pub fn set_header(&mut self, name: FieldName, value: FieldValue)
        requires
            old(self).takes_field(),
        ensures
            final(self).rule() == old(self).rule(),
            final(self).place() == old(self).place(),
            final(self).fields() == with_field(old(self).fields(), name@, value@),
            final(self).fields() == old(self).fields().insert(name@, seq![value@]),
    {
        set_field(&mut self.headers, &name, &value);
    }

    /// How many more fields there is room for, whatever they are
    pub fn room(&self) -> (r: usize)
        ensures
            forall|n: nat| n > 0 ==> (#[trigger] has_room(self.fields(), n) <==> n <= r),
            r <= FIELD_ROOM,
    {
        let count: usize = count_fields(&self.headers);
        if count < FIELD_ROOM {
            FIELD_ROOM - count
        } else {
            0
        }
    }

    /// Set `Proxy` authorization where the header map takes it, and say whether it does
    ///
    /// Of two fields, it has to take the second when the first has been set.
    pub fn checked_set_authorization(&mut self, credentials: Credentials) -> (r: bool)
        ensures
            r == old(self).takes_credentials(credentials.value()),
            final(self).rule() == old(self).rule(),
            final(self).place() == old(self).place(),
            final(self).fields() == (if r {
                with_credentials(old(self).fields(), old(self).rule(), credentials.value())
            } else {
                old(self).fields()
            }),
            ({
                let value = (encode_utf8(credentials@), false);
                let server = "authorization"@;
                let proxy = "proxy-authorization"@;
                let before = old(self).fields();
                let after = final(self).fields();
                let set = r;
                &&& set && !(old(self).rule() is Https) ==> after.contains_key(server)
                    && after[server] == seq![value]
                &&& set && !(old(self).rule() is Http) ==> after.contains_key(proxy)
                    && after[proxy] == seq![value]
                &&& forall|name: Seq<char>|
                    (name != server || old(self).rule() is Https) && (name != proxy || old(
                        self,
                    ).rule() is Http) ==> #[trigger] after.contains_key(name)
                        == before.contains_key(name) && after[name] == before[name]
            }),
    {
        proof {
            law_credentials_placed(self.fields(), self.rule(), credentials.value());
        }
        if !can_take_field(&self.headers) {
            return false;
        }
        match self.intercept {
            Intercept::Http => {
                set_server_credentials(&mut self.headers, &credentials);
            },
            Intercept::Https => {
                set_proxy_credentials(&mut self.headers, &credentials);
            },
            _ => {
                let mut headers = copy_headers(&self.headers);
                set_server_credentials(&mut headers, &credentials);
                if !can_take_field(&headers) {
                    return false;
                }
                set_proxy_credentials(&mut headers, &credentials);
                self.headers = headers;
            },
        }
        true
    }

    /// Set a custom header where the header map takes it, and say whether it does
    pub fn checked_set_header(&mut self, name: FieldName, value: FieldValue) -> (r: bool)
        ensures
            r == old(self).takes_field(),
            final(self).rule() == old(self).rule(),
            final(self).place() == old(self).place(),
            final(self).fields() == (if r {
                with_field(old(self).fields(), name@, value@)
            } else {
                old(self).fields()
            }),
            r ==> final(self).fields() == old(self).fields().insert(name@, seq![value@]),
    {
        if !can_take_field(&self.headers) {
            return false;
        }
        self.set_header(name, value);
        true
    }

    /// Get current intercept
    pub fn intercept(&self) -> (r: &Intercept)
        ensures
            *r == self.rule(),
    {
        &self.intercept
    }

    /// Get current `Headers` which must be sent to proxy
    pub fn headers(&self) -> (r: &HeaderMap)
        ensures
            *r == self.header_map(),
    {
        &self.headers
    }

    /// Get proxy uri
    pub fn uri(&self) -> (r: &Uri)
        ensures
            r@ == self.place(),
            r@.valid(),
    {
        proof {
            use_type_invariant(&self.uri);
            self.uri.lemma_valid();
        }
        &self.uri
    }

    /// The proxy as text
    pub fn debug_text(&self) -> (r: String)
        ensures
            r@ == self.text(),
    {
        let mut text = "Proxy { intercept: ".to_string();
        text.append(self.intercept.debug_text().as_str());
        text.append(", headers: ");
        text.append(print_headers(&self.headers).as_str());
        text.append(", uri: ");
        text.append(self.uri.to_text().as_str());
        text.append(" }");
        text
    }
}

} // verus!
