//! The header fields that are sent to a proxy.

use crate::uri::string_text;
use http::header::HeaderMap;
use typed_headers::{Authorization, HeaderMapExt, ProxyAuthorization};
use vstd::prelude::*;
use vstd::utf8::encode_utf8;

verus! {

/// The header map of the `http` crate.
#[verifier::external_type_specification]
#[verifier::external_body]
#[verifier::reject_recursive_types(T)]
pub struct ExHeaderMap<T>(HeaderMap<T>);

/// The header value of the `http` crate, which its header map holds.
#[verifier::external_type_specification]
#[verifier::external_body]
pub struct ExHttpHeaderValue(http::header::HeaderValue);

/// One value of a header field: its bytes, and whether it is marked sensitive.
pub type ValueView = (Seq<u8>, bool);

/// Header fields: for each field name, the values of that field in order.
pub type Fields = Map<Seq<char>, Seq<ValueView>>;

/// What a header map holds.
pub uninterp spec fn header_fields(headers: HeaderMap) -> Map<Seq<char>, Seq<(Seq<u8>, bool)>>;

/// Whether `http::HeaderMap::insert` sets another field of the map, and does not panic for
/// want of room. It is the same for every field, one that is there already included.
pub uninterp spec fn takes_another(headers: HeaderMap) -> bool;

/// Whether the map, once its `authorization` field has been set, takes another field.
pub uninterp spec fn takes_after_authorization(headers: HeaderMap) -> bool;

/// How `http::HeaderMap` prints itself by `Debug`.
pub uninterp spec fn headers_text(headers: HeaderMap) -> Seq<char>;

/// What `http::header::HeaderName` makes of `text`, or `None` where it rejects it.
pub uninterp spec fn header_name_text(text: Seq<char>) -> Option<Seq<char>>;

/// What `typed_headers::Credentials` makes of `text`, or `None` where it rejects it.
pub uninterp spec fn credentials_text(text: Seq<char>) -> Option<Seq<char>>;

/// No field at all.
pub open spec fn no_fields() -> Fields {
    Map::empty()
}

/// There are `n` fields.
pub open spec fn has_count(fields: Fields, n: nat) -> bool {
    fields.dom().finite() && fields.dom().len() == n
}

/// A header map that holds fewer fields than this takes any further field.
pub const FIELD_ROOM: usize = 6554;

/// There is room for `n` more fields.
pub open spec fn has_room(fields: Fields, n: nat) -> bool {
    fields.dom().finite() && fields.dom().len() + n <= FIELD_ROOM
}

/// Another field of the map can be set.
pub open spec fn takes_field(headers: HeaderMap) -> bool {
    has_room(header_fields(headers), 1) || takes_another(headers)
}

/// The fields after field `name` was set to the one value `value`.
pub open spec fn with_field(fields: Fields, name: Seq<char>, value: ValueView) -> Fields {
    fields.insert(name, seq![value])
}

/// A byte that may stand in a header value.
pub open spec fn is_value_byte(b: u8) -> bool {
    b == 9 || b >= 32 && b != 127
}

/// A header value is made of value bytes.
pub open spec fn is_value(bytes: Seq<u8>) -> bool {
    forall|i: int| 0 <= i < bytes.len() ==> is_value_byte(#[trigger] bytes[i])
}

/// Creates an empty map with `http::HeaderMap::new`.
///
/// Trusted: the new map holds no field, and prints as empty braces.
#[verifier::external_body]
pub(crate) fn new_headers() -> (r: HeaderMap)
    ensures
        header_fields(r) == no_fields(),
        headers_text(r) == "{}"@,
{
    HeaderMap::new()
}

/// Copies a map with `http::HeaderMap::clone`.
///
/// Trusted: the copy holds the same fields, prints the same and has the same room, now
/// and after its `authorization` field is set.
#[verifier::external_body]
pub(crate) fn copy_headers(headers: &HeaderMap) -> (r: HeaderMap)
    ensures
        header_fields(r) == header_fields(*headers),
        headers_text(r) == headers_text(*headers),
        takes_another(r) == takes_another(*headers),
        takes_after_authorization(r) == takes_after_authorization(*headers),
{
    headers.clone()
}

/// Counts the fields of a map with `http::HeaderMap::keys_len`.
///
/// Trusted: a map holds finitely many fields, and each counts once, however many values
/// it has.
#[verifier::external_body]
pub(crate) fn count_fields(headers: &HeaderMap) -> (r: usize)
    ensures
        has_count(header_fields(*headers), r as nat),
{
    headers.keys_len()
}

/// Prints a map as its `Debug` does.
///
/// Trusted: what is printed depends on the map alone.
#[verifier::external_body]
pub(crate) fn print_headers(headers: &HeaderMap) -> (r: String)
    ensures
        r@ == headers_text(*headers),
{
    format!("{:?}", headers)
}

/// Tries with `http::HeaderMap::try_insert`, on a copy, whether a map takes another field.
///
/// Trusted: `try_insert` fails exactly where `insert` panics. Both look for room before
/// they look for the field, so that what holds of one field holds of all.
#[verifier::external_body]
fn try_field(headers: &HeaderMap) -> (r: bool)
    ensures
        r == takes_another(*headers),
{
    let value = http::header::HeaderValue::from_static("");
    headers.clone().try_insert(http::header::HOST, value).is_ok()
}

/// Whether another field of the map can be set.
pub(crate) fn can_take_field(headers: &HeaderMap) -> (r: bool)
    ensures
        r == takes_field(*headers),
{
    count_fields(headers) < FIELD_ROOM || try_field(headers)
}

/// Sets a field with `http::HeaderMap::insert`.
///
/// Trusted: the field has this one value afterwards, and no other field changes.
/// The map doubles its table when the table is three quarters full, or a fifth full
/// where names clash, and panics where the table would exceed 32768 slots: with
/// fewer than `FIELD_ROOM` fields it does not come to that, and with more it depends on
/// the table.
#[verifier::external_body]
pub(crate) fn insert_field(headers: &mut HeaderMap, name: &str, value: &[u8], sensitive: bool)
    requires
        takes_field(*old(headers)),
        header_name_text(name@) == Some(name@),
        is_value(value@),
    ensures
        header_fields(*final(headers)) == with_field(
            header_fields(*old(headers)),
            name@,
            (value@, sensitive),
        ),
{
    let name: http::header::HeaderName = name.parse().unwrap();
    let mut value = http::header::HeaderValue::from_bytes(value).unwrap();
    value.set_sensitive(sensitive);
    headers.insert(name, value);
}

/// Sets the `Authorization` field with `typed_headers::HeaderMapExt::typed_insert`.
///
/// Trusted: the field's one value is the text of the credentials, not marked
/// sensitive, and no other field changes. The limit is that of `insert_field`. Whether
/// the map takes another field afterwards depends on the map before, whatever the
/// credentials: on its table, and on where in it the name of the field falls. Where names
/// clash so much that the map turns to a seeded hash, clashes no longer make it grow.
#[verifier::external_body]
pub(crate) fn insert_authorization(headers: &mut HeaderMap, credentials: &str)
    requires
        takes_field(*old(headers)),
        credentials_text(credentials@) == Some(credentials@),
    ensures
        header_fields(*final(headers)) == with_field(
            header_fields(*old(headers)),
            "authorization"@,
            (encode_utf8(credentials@), false),
        ),
        takes_another(*final(headers)) == takes_after_authorization(*old(headers)),
{
    headers.typed_insert(&Authorization(credentials.parse().unwrap()));
}

/// Sets the `Proxy-Authorization` field with
/// `typed_headers::HeaderMapExt::typed_insert`.
///
/// Trusted: the field's one value is the text of the credentials, not marked
/// sensitive, and no other field changes. The limit is that of `insert_field`.
#[verifier::external_body]
pub(crate) fn insert_proxy_authorization(headers: &mut HeaderMap, credentials: &str)
    requires
        takes_field(*old(headers)),
        credentials_text(credentials@) == Some(credentials@),
    ensures
        header_fields(*final(headers)) == with_field(
            header_fields(*old(headers)),
            "proxy-authorization"@,
            (encode_utf8(credentials@), false),
        ),
{
    headers.typed_insert(&ProxyAuthorization(credentials.parse().unwrap()));
}

/// Parses a field name with `http::header::HeaderName::from_str`, and gives its text.
///
/// Trusted: the outcome depends on the text alone, and what a name is made into is
/// a name already.
#[verifier::external_body]
fn parse_header_name(text: &str) -> (r: Option<String>)
    ensures
        string_text(r) == header_name_text(text@),
        r matches Some(n) ==> header_name_text(n@) == Some(n@),
{
    text.parse::<http::header::HeaderName>().ok().map(|n| n.as_str().to_string())
}

/// Parses credentials with `typed_headers::Credentials::from_str`, and gives their
/// text.
///
/// Trusted: the outcome depends on the text alone, and the text of credentials is
/// parsed as those credentials.
#[verifier::external_body]
fn parse_credentials(text: &str) -> (r: Option<String>)
    ensures
        string_text(r) == credentials_text(text@),
        r matches Some(c) ==> credentials_text(c@) == Some(c@),
{
    text.parse::<typed_headers::Credentials>().ok().map(|c| c.to_string())
}

/// The name of a header field, in its normal form.
#[derive(Debug)]
pub struct FieldName {
    text: String,
}

impl View for FieldName {
    type V = Seq<char>;

    closed spec fn view(&self) -> Seq<char> {
        self.text@
    }
}

impl Clone for FieldName {
    fn clone(&self) -> (r: FieldName)
        ensures
            r@ == self@,
    {
        proof {
            use_type_invariant(self);
        }
        FieldName { text: self.text.clone() }
    }
}

impl FieldName {
    #[verifier::type_invariant]
    spec fn well_formed(self) -> bool {
        header_name_text(self@) == Some(self@)
    }

    /// Reads a field name, whatever its case.
    pub fn parse(text: &str) -> (r: Option<FieldName>)
        ensures
            r is Some <==> header_name_text(text@) is Some,
            r matches Some(name) ==> header_name_text(text@) == Some(name@),
            r matches Some(name) ==> header_name_text(name@) == Some(name@),
    {
        match parse_header_name(text) {
            Some(text) => Some(FieldName { text }),
            None => None,
        }
    }

    /// The name as text.
    pub fn as_str(&self) -> (r: &str)
        ensures
            r@ == self@,
    {
        self.text.as_str()
    }
}

/// A value of a header field.
#[derive(Debug)]
pub struct FieldValue {
    bytes: Vec<u8>,
    sensitive: bool,
}

impl View for FieldValue {
    type V = ValueView;

    closed spec fn view(&self) -> ValueView {
        (self.bytes@, self.sensitive)
    }
}

impl Clone for FieldValue {
    fn clone(&self) -> (r: FieldValue)
        ensures
            r@ == self@,
    {
        proof {
            use_type_invariant(self);
        }
        FieldValue { bytes: self.bytes.clone(), sensitive: self.sensitive }
    }
}

impl FieldValue {
    #[verifier::type_invariant]
    spec fn well_formed(self) -> bool {
        is_value(self.bytes@)
    }

    /// Takes bytes as a value, where a value may hold them.
    pub fn from_bytes(bytes: Vec<u8>, sensitive: bool) -> (r: Option<FieldValue>)
        ensures
            r is Some <==> is_value(bytes@),
            r matches Some(value) ==> value@ == (bytes@, sensitive),
    {
        let mut i: usize = 0;
        while i < bytes.len()
            invariant
                i <= bytes.len(),
                forall|j: int| 0 <= j < i ==> is_value_byte(#[trigger] bytes@[j]),
            decreases bytes.len() - i,
        {
            let b: u8 = bytes[i];
            if b != 9 && (b < 32 || b == 127) {
                assert(!is_value_byte(bytes@[i as int]));
                return None;
            }
            i += 1;
        }
        Some(FieldValue { bytes, sensitive })
    }
}

/// Credentials of a user, as they are sent in a header.
#[derive(Debug)]
pub struct Credentials {
    text: String,
}

impl View for Credentials {
    type V = Seq<char>;

    closed spec fn view(&self) -> Seq<char> {
        self.text@
    }
}

impl Clone for Credentials {
    fn clone(&self) -> (r: Credentials)
        ensures
            r@ == self@,
    {
        proof {
            use_type_invariant(self);
        }
        Credentials { text: self.text.clone() }
    }
}

impl Credentials {
    #[verifier::type_invariant]
    spec fn well_formed(self) -> bool {
        credentials_text(self@) == Some(self@)
    }

    /// The header value that carries the credentials.
    pub open spec fn value(self) -> ValueView {
        (encode_utf8(self@), false)
    }

    /// Reads credentials: a scheme, and the token of that scheme where it has one.
    pub fn parse(text: &str) -> (r: Option<Credentials>)
        ensures
            r is Some <==> credentials_text(text@) is Some,
            r matches Some(credentials) ==> credentials_text(text@) == Some(credentials@),
            r matches Some(credentials) ==> credentials_text(credentials@) == Some(credentials@),
    {
        match parse_credentials(text) {
            Some(text) => Some(Credentials { text }),
            None => None,
        }
    }

    /// The credentials as text.
    pub fn as_str(&self) -> (r: &str)
        ensures
            r@ == self@,
    {
        self.text.as_str()
    }
}

/// Sets field `name` of `headers` to the one value `value`.
pub(crate) fn set_field(headers: &mut HeaderMap, name: &FieldName, value: &FieldValue)
    requires
        takes_field(*old(headers)),
    ensures
        header_fields(*final(headers)) == with_field(header_fields(*old(headers)), name@, value@),
{
    proof {
        use_type_invariant(name);
        use_type_invariant(value);
    }
    insert_field(headers, name.text.as_str(), value.bytes.as_slice(), value.sensitive);
}

/// Sets the field that carries credentials to the server.
pub(crate) fn set_server_credentials(headers: &mut HeaderMap, credentials: &Credentials)
    requires
        takes_field(*old(headers)),
    ensures
        header_fields(*final(headers)) == with_field(
            header_fields(*old(headers)),
            "authorization"@,
            credentials.value(),
        ),
        takes_another(*final(headers)) == takes_after_authorization(*old(headers)),
{
    proof {
        use_type_invariant(credentials);
    }
    insert_authorization(headers, credentials.text.as_str());
}

/// Sets the field that carries credentials to the proxy.
pub(crate) fn set_proxy_credentials(headers: &mut HeaderMap, credentials: &Credentials)
    requires
        takes_field(*old(headers)),
    ensures
        header_fields(*final(headers)) == with_field(
            header_fields(*old(headers)),
            "proxy-authorization"@,
            credentials.value(),
        ),
{
    proof {
        use_type_invariant(credentials);
    }
    insert_proxy_authorization(headers, credentials.text.as_str());
}

} // verus!
