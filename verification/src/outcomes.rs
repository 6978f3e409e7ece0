//! What the operations give, told of their arguments and results.

use crate::connector::{
    joined, list_text, may_be_http_headers, may_be_proxy, may_choose, may_choose_none,
    ProxyConnector,
};
use crate::error::{IoError, IoErrorKind};
use crate::headers::{
    has_count, has_room, header_fields, headers_text, is_value, no_fields, takes_after_authorization,
    takes_another, takes_field, with_field, Credentials, FieldValue, Fields, ValueView,
};
use crate::intercept::{callable, may_be_asked, may_return, Custom, Intercept};
use crate::proxy::{in_one_field, with_credentials, Proxy};
use crate::route::{
    chosen, copied, forwards, has_route, route_to, Failure, Outcome, Plan, Route, RouteView, Stage,
    Step, StreamKind,
};
use crate::uri::{
    authority_host, authority_port, before_first, behind_last, decimal, is_authority, is_decimal,
    is_scheme, kept_path_and_query, parts_build, path_and_query_text, proxied, proxy_dst,
    string_text, text_of, uri_text, Dst, InvalidParts, Uri, UriView,
};
use http::header::HeaderMap;
use vstd::prelude::*;
use vstd::utf8::encode_utf8;

verus! {

// Text.

/// The characters of an optional string are those of the string that is there.
pub proof fn law_text_of(s: &str, owned: String)
    ensures
        text_of(Some(s)) == Some(s@),
        text_of(None) is None,
        string_text(Some(owned)) == Some(owned@),
        string_text(None) is None,
{
}

/// A scheme has at most 64 characters, each of them a letter, a digit or one of `+-.~`.
pub proof fn law_scheme_text(text: Seq<char>)
    ensures
        is_scheme(text) <==> text.len() <= 64 && forall|i: int|
            0 <= i < text.len() ==> {
                let c = #[trigger] text[i];
                'a' <= c <= 'z' || 'A' <= c <= 'Z' || '0' <= c <= '9' || seq![
                    '+',
                    '-',
                    '.',
                    '~',
                ].contains(c)
            },
{
    let marks = seq!['+', '-', '.', '~'];
    assert(marks[0] == '+' && marks[1] == '-' && marks[2] == '.' && marks[3] == '~');
    assert forall|c: char|
        #[trigger] marks.contains(c) <==> (c == '+' || c == '-' || c == '.' || c == '~') by {}
}

// Authorities.

/// What stands before the first mark, and behind the last one, is told by the marks.
pub proof fn law_cut(front: Seq<char>, c: char, back: Seq<char>)
    ensures
        !front.contains(c) ==> before_first(front, c) == front && behind_last(front, c) is None,
        !front.contains(c) ==> before_first(front + seq![c] + back, c) == front,
        !back.contains(c) ==> behind_last(front + seq![c] + back, c) == Some(back),
{
    front.index_of_first_ensures(c);
    front.index_of_last_ensures(c);
    let text = front + seq![c] + back;
    assert(text[front.len() as int] == c);
    assert(text.contains(c));
    text.index_of_first_ensures(c);
    text.index_of_last_ensures(c);
    if !front.contains(c) {
        let i = text.index_of_first(c)->0;
        if i < front.len() {
            assert(front[i] == c);
        }
        assert(text.take(front.len() as int) =~= front);
    }
    if !back.contains(c) {
        let i = text.index_of_last(c)->0;
        if i > front.len() {
            assert(back[i - front.len() - 1] == c);
        }
        assert(text.skip(front.len() as int + 1) =~= back);
    }
}

/// Where an authority has neither a user nor a port and is no address in brackets, it is the
/// host itself.
pub proof fn law_bare_host(name: Seq<char>)
    requires
        !name.contains('@'),
        !name.contains(':'),
        name.len() == 0 || name[0] != '[',
    ensures
        authority_host(name) == name,
        authority_port(name) is None,
{
    law_cut(name, '@', Seq::empty());
    law_cut(name, ':', Seq::empty());
}

/// User information changes neither the host nor, where a port is named, the port.
pub proof fn law_user_left_out(user: Seq<char>, place: Seq<char>)
    requires
        !place.contains('@'),
    ensures
        authority_host(user + seq!['@'] + place) == authority_host(place),
        place.contains(':') ==> authority_port(user + seq!['@'] + place) == authority_port(place),
{
    law_cut(user, '@', place);
    law_cut(place, '@', Seq::empty());
    if place.contains(':') {
        place.index_of_last_ensures(':');
        let i = place.index_of_last(':')->0;
        let front = place.take(i);
        let back = place.skip(i + 1);
        assert(place =~= front + seq![':'] + back);
        if back.contains(':') {
            let j = back.index_of(':');
            assert(place[i + 1 + j] == ':');
        }
        law_cut(front, ':', back);
        law_cut(user + seq!['@'] + front, ':', back);
        assert(user + seq!['@'] + place =~= user + seq!['@'] + front + seq![':'] + back);
    }
}

/// A host that is not in brackets ends before its port.
pub proof fn law_host_before_port(host: Seq<char>, port: Seq<char>)
    requires
        !host.contains('@'),
        !host.contains(':'),
        host.len() == 0 || host[0] != '[',
        !port.contains('@'),
    ensures
        authority_host(host + seq![':'] + port) == host,
{
    let text = host + seq![':'] + port;
    if text.contains('@') {
        let i = text.index_of('@');
        if i < host.len() {
            assert(host[i] == '@');
        } else if i > host.len() {
            assert(port[i - host.len() - 1] == '@');
        }
    }
    law_cut(text, '@', Seq::empty());
    law_cut(host, ':', port);
    if host.len() > 0 {
        assert(text[0] == host[0]);
    } else {
        assert(text[0] == ':');
    }
}

/// A host in brackets is what the brackets hold, with the brackets, whatever follows.
pub proof fn law_host_in_brackets(address: Seq<char>, rest: Seq<char>)
    requires
        !address.contains(']'),
        !address.contains('@'),
        !rest.contains('@'),
    ensures
        authority_host(seq!['['] + address + seq![']'] + rest) == seq!['['] + address + seq![']'],
{
    let front = seq!['['] + address;
    let text = front + seq![']'] + rest;
    if text.contains('@') {
        let i = text.index_of('@');
        if 0 < i < front.len() {
            assert(address[i - 1] == '@');
        } else if i > front.len() {
            assert(rest[i - front.len() - 1] == '@');
        }
    }
    if front.contains(']') {
        let i = front.index_of(']');
        assert(address[i - 1] == ']');
    }
    law_cut(text, '@', Seq::empty());
    law_cut(front, ']', rest);
    assert(text[0] == '[');
    assert(front.push(']') =~= front + seq![']']);
}

/// The port is the number behind the last colon, with or without a plus sign, where it
/// fits, and else there is none.
pub proof fn law_port_behind_colon(front: Seq<char>, port: Seq<char>)
    requires
        !port.contains(':'),
    ensures
        is_decimal(port) && decimal(port) <= 65535 ==> authority_port(front + seq![':'] + port)
            == Some(decimal(port) as u16),
        is_decimal(port) && decimal(port) <= 65535 ==> authority_port(
            front + seq![':'] + (seq!['+'] + port),
        ) == Some(decimal(port) as u16),
        decimal(port) > 65535 && is_decimal(port) ==> authority_port(front + seq![':'] + port)
            is None,
        !is_decimal(port) && (port.len() == 0 || port[0] != '+') ==> authority_port(
            front + seq![':'] + port,
        ) is None,
        !is_decimal(port) || decimal(port) > 65535 ==> authority_port(
            front + seq![':'] + (seq!['+'] + port),
        ) is None,
{
    law_cut(front, ':', port);
    let signed = seq!['+'] + port;
    if signed.contains(':') {
        let i = signed.index_of(':');
        assert(port[i - 1] == ':');
    }
    law_cut(front, ':', signed);
    assert(signed[0] == '+');
    assert(signed.skip(1) =~= port);
    if is_decimal(port) {
        assert('0' <= port[0] <= '9');
    }
}

/// Decimal digits are read from the left.
pub proof fn law_decimal(digits: Seq<char>, c: char)
    requires
        '0' <= c <= '9',
    ensures
        decimal(Seq::empty()) == 0,
        decimal(digits.push(c)) == 10 * decimal(digits) + (c as int - 48),
        is_decimal(seq![c]),
        is_decimal(digits) ==> is_decimal(digits.push(c)),
        !is_decimal(Seq::empty()),
        digits.len() > 0 && !is_decimal(digits) ==> exists|i: int|
            0 <= i < digits.len() && !('0' <= #[trigger] digits[i] <= '9'),
{
    assert(digits.push(c).drop_last() =~= digits);
}

/// Text with anything but digits in it is not decimal.
pub proof fn law_not_decimal(text: Seq<char>, i: int)
    requires
        0 <= i < text.len(),
        !('0' <= text[i] <= '9'),
    ensures
        !is_decimal(text),
{
}

// URIs.

/// A URI that was put together has the parts that it was put together from: scheme and
/// authority as they are, and of the path and query what the parser keeps.
pub proof fn law_parts_kept(
    scheme: Option<&str>,
    authority: Option<&str>,
    path_and_query: Option<&str>,
    uri: Uri,
)
    requires
        call_ensures(Uri::from_parts, (scheme, authority, path_and_query), Ok(uri)),
    ensures
        uri@.scheme is Some <==> scheme is Some,
        scheme is Some ==> uri@.scheme->0 == scheme->0@,
        uri@.authority is Some <==> authority is Some,
        authority is Some ==> uri@.authority->0 == authority->0@,
        uri@.path_and_query is Some <==> path_and_query is Some,
        path_and_query is Some && path_and_query->0@ == seq!['/'] ==> uri@.path_and_query->0
            == seq!['/'],
        path_and_query is Some && path_and_query->0@ != seq!['/'] ==> path_and_query_text(
            path_and_query->0@,
        ) == Some(uri@.path_and_query->0),
{
}

/// Parts are refused for one reason: a part that does not parse, the first of them, or
/// else a part that is missing.
pub proof fn law_parts_refused(
    scheme: Option<&str>,
    authority: Option<&str>,
    path_and_query: Option<&str>,
    r: Result<Uri, InvalidParts>,
)
    requires
        call_ensures(Uri::from_parts, (scheme, authority, path_and_query), r),
    ensures
        ({
            let s = scheme is Some && !is_scheme(scheme->0@);
            let a = authority is Some && !is_authority(authority->0@);
            let p = path_and_query is Some && path_and_query->0@ != seq!['/']
                && path_and_query_text(path_and_query->0@) is None;
            &&& (r is Err && r->Err_0 == InvalidParts::Scheme) <==> s
            &&& (r is Err && r->Err_0 == InvalidParts::Authority) <==> !s && a
            &&& (r is Err && r->Err_0 == InvalidParts::PathAndQuery) <==> !s && !a && p
            &&& (r is Err && r->Err_0 == InvalidParts::AuthorityMissing) <==> !s && !a && !p
                && scheme is Some && authority is None
            &&& (r is Err && r->Err_0 == InvalidParts::PathAndQueryMissing) <==> !s && !a && !p
                && scheme is Some && authority is Some && path_and_query is None
            &&& (r is Err && r->Err_0 == InvalidParts::SchemeMissing) <==> !s && !a && !p && scheme
                is None && authority is Some && path_and_query is Some
        }),
{
}

/// The parts of a URI parse as themselves, and make one of its forms.
pub proof fn law_valid(parts: UriView)
    ensures
        parts.valid() <==> {
            &&& parts.scheme is Some ==> is_scheme(parts.scheme->0)
            &&& parts.authority is Some ==> is_authority(parts.authority->0)
            &&& parts.path_and_query is Some ==> parts.path_and_query->0 == seq!['/']
                || path_and_query_text(parts.path_and_query->0) == parts.path_and_query
            &&& match (parts.scheme, parts.authority, parts.path_and_query) {
                (Some(_), Some(_), Some(_)) => true,
                (None, Some(_), None) => true,
                (None, None, _) => true,
                _ => false,
            }
        },
{
}

/// A path and query is kept as the parser keeps it, and `/` as it is.
pub proof fn law_path_kept(text: Seq<char>, scheme: Seq<char>, authority: Seq<char>)
    ensures
        kept_path_and_query(seq!['/']) == Some(seq!['/']),
        text != seq!['/'] ==> kept_path_and_query(text) == path_and_query_text(text),
        parts_build(scheme, authority, text) <==> is_scheme(scheme) && is_authority(authority) && (
        text == seq!['/'] || path_and_query_text(text) is Some),
{
}

/// The scheme, the authority, the host and the port that a URI gives are those of its
/// parts: the host and the port are the ones in the authority.
pub proof fn law_uri_read(
    uri: &Uri,
    scheme: Option<&str>,
    authority: Option<&str>,
    host: Option<&str>,
    port: Option<u16>,
)
    requires
        call_ensures(<Uri as Dst>::scheme, (uri,), scheme),
        call_ensures(Uri::authority, (uri,), authority),
        call_ensures(<Uri as Dst>::host, (uri,), host),
        call_ensures(<Uri as Dst>::port, (uri,), port),
    ensures
        scheme is Some <==> uri@.scheme is Some,
        scheme is Some ==> scheme->0@ == uri@.scheme->0,
        authority is Some <==> uri@.authority is Some,
        authority is Some ==> authority->0@ == uri@.authority->0,
        host is Some <==> authority is Some,
        authority is Some ==> host->0@ == authority_host(authority->0@),
        authority is Some ==> port == authority_port(authority->0@),
        authority is None ==> port is None,
{
}

/// A URI as a destination has the scheme, the host and the port of its parts, and in no
/// other way.
pub proof fn law_uri_as_destination(uri: Uri)
    ensures
        uri.scheme_text() == uri@.scheme,
        uri@.authority is Some ==> {
            &&& uri.host_text() == Some(authority_host(uri@.authority->0))
            &&& uri.port_number() == authority_port(uri@.authority->0)
            &&& uri@.host() == Some(authority_host(uri@.authority->0))
            &&& uri@.port() == authority_port(uri@.authority->0)
        },
        uri@.authority is None ==> {
            &&& uri.host_text() is None
            &&& uri.port_number() is None
            &&& uri@.host() is None
            &&& uri@.port() is None
        },
{
}

/// The parts of a URI give its host and port.
pub proof fn law_parts_read(parts: UriView, authority: Seq<char>)
    ensures
        parts.authority == Some(authority) ==> parts.host() == Some(authority_host(authority))
            && parts.port() == authority_port(authority),
        parts.authority is None ==> parts.host() is None && parts.port() is None,
        parts.text() == uri_text(parts.scheme, parts.authority, parts.path_and_query),
{
}

/// The path and query that is asked for is the one that the URI has; without any part it is
/// `/`, and an authority alone has none.
pub proof fn law_path_read(uri: &Uri, r: Option<&str>)
    requires
        uri@.valid(),
        call_ensures(Uri::path_and_query, (uri,), r),
    ensures
        uri@.path_and_query is Some ==> r is Some && r->0@ == uri@.path_and_query->0,
        uri@.path_and_query is None && uri@.authority is Some ==> r is None,
        uri@.path_and_query is None && uri@.authority is None ==> r is Some && r->0@ == seq!['/'],
{
    law_valid(uri@);
}

/// What a URI asks for is its own path and query, where it has one.
pub proof fn law_target(parts: UriView)
    requires
        parts.valid(),
    ensures
        parts.path_and_query is Some ==> parts.target() == parts.path_and_query,
        parts.path_and_query is None && parts.authority is Some ==> parts.target() is None,
        parts.path_and_query is None && parts.authority is None ==> parts.target() == Some(
            seq!['/'],
        ),
{
    law_valid(parts);
}

/// Where a destination has a scheme and a path and query, that is what is asked for, and
/// where it has no authority either; only an authority without a scheme is asked for
/// nothing.
pub proof fn law_target_of_any_parts(parts: UriView)
    ensures
        parts.scheme is Some && parts.path_and_query is Some ==> parts.target()
            == parts.path_and_query,
        parts.authority is None && parts.path_and_query is Some ==> parts.target()
            == parts.path_and_query,
        parts.scheme is Some && parts.path_and_query is None ==> parts.target() == Some(seq!['/']),
        parts.authority is None && parts.path_and_query is None ==> parts.target() == Some(
            seq!['/'],
        ),
        parts.scheme is None && parts.authority is Some ==> parts.target() is None,
{
}

/// A URI is printed as `http` prints its parts.
pub proof fn law_uri_printed(uri: &Uri, r: String)
    requires
        call_ensures(Uri::to_text, (uri,), r),
    ensures
        r@ == uri_text(uri@.scheme, uri@.authority, uri@.path_and_query),
{
}

/// Through a proxy the path and query of the destination is asked for, unchanged, at the
/// scheme and authority of the proxy.
pub proof fn law_path_carried_over(dst: UriView, proxy: UriView)
    ensures
        proxied(dst, proxy).scheme == proxy.scheme,
        proxied(dst, proxy).authority == proxy.authority,
        dst.scheme is Some && dst.path_and_query is Some ==> proxied(dst, proxy).path_and_query
            == dst.path_and_query,
        dst.authority is None && dst.path_and_query is Some ==> proxied(dst, proxy).path_and_query
            == dst.path_and_query,
        dst.authority is None && dst.path_and_query is None ==> proxied(dst, proxy).path_and_query
            == Some(seq!['/']),
{
}

/// What `proxy_dst` gives: the scheme and the authority of the proxy and the path and query
/// of the destination, or the message that the proxy has no scheme.
pub proof fn law_proxy_dst(dst: &Uri, proxy: &Uri, r: Result<Uri, IoError<String>>)
    requires
        dst@.valid(),
        call_ensures(proxy_dst, (dst, proxy), r),
    ensures
        r is Ok <==> proxy@.scheme is Some,
        r matches Ok(uri) ==> {
            &&& uri@.scheme == proxy@.scheme
            &&& uri@.authority == proxy@.authority
            &&& dst@.path_and_query is Some ==> uri@.path_and_query == dst@.path_and_query
            &&& dst@.path_and_query is None && dst@.authority is None ==> uri@.path_and_query
                == Some(seq!['/'])
        },
        r matches Err(e) ==> e.kind == IoErrorKind::Other && e.error@
            == "proxy uri missing scheme: "@ + uri_text(
            proxy@.scheme,
            proxy@.authority,
            proxy@.path_and_query,
        ),
{
    law_valid(dst@);
}

/// Two destinations with the same path and query are asked for in the same way through one
/// proxy, and two with different ones in different ways.
pub proof fn law_paths_told_apart(
    a: &Uri,
    b: &Uri,
    proxy: &Uri,
    by_a: Uri,
    by_b: Uri,
)
    requires
        a@.valid(),
        b@.valid(),
        a@.path_and_query is Some,
        b@.path_and_query is Some,
        call_ensures(proxy_dst, (a, proxy), Ok(by_a)),
        call_ensures(proxy_dst, (b, proxy), Ok(by_b)),
    ensures
        a@.path_and_query == b@.path_and_query <==> by_a@ == by_b@,
{
    law_valid(a@);
    law_valid(b@);
}

// Rules.

/// The rule for http goes by the scheme `http` alone, the rule for https by `https` alone,
/// and the other two by nothing.
pub proof fn law_fixed_rule_asked<D: Dst>(rule: &Intercept, dst: &D, r: bool)
    requires
        call_ensures(Intercept::matches::<D>, (rule, dst), r),
    ensures
        *rule is All ==> r,
        *rule is Nothing ==> !r,
        *rule is Http ==> (r <==> dst.scheme_text() == Some("http"@)),
        *rule is Https ==> (r <==> dst.scheme_text() == Some("https"@)),
{
}

/// The fixed rules of a destination: they go by its scheme, and give no answer but one.
pub proof fn law_fixed_rules_of_destination<D: Dst>(dst: D, answer: bool)
    ensures
        Intercept::All.may_answer_for(dst, answer) <==> answer,
        Intercept::Nothing.may_answer_for(dst, answer) <==> !answer,
        Intercept::Http.may_answer_for(dst, answer) <==> (answer <==> dst.scheme_text() == Some(
            "http"@,
        )),
        Intercept::Https.may_answer_for(dst, answer) <==> (answer <==> dst.scheme_text() == Some(
            "https"@,
        )),
{
}

/// A rule that a function decides answers what the function answers when it is asked with
/// the scheme, the host and the port of the destination.
pub proof fn law_function_decides<
    D: Dst,
    F: Fn(Option<&str>, Option<&str>, Option<u16>) -> bool,
>(rule: Custom, f: F, dst: D, answer: bool)
    requires
        rule.decided_by(f),
    ensures
        Intercept::Custom(rule).may_answer_for(dst, answer) <==> may_return(
            f,
            dst.scheme_text(),
            dst.host_text(),
            dst.port_number(),
            answer,
        ),
        Intercept::Custom(rule).may_answer_for(dst, answer) <==> exists|
            s: Option<&str>,
            h: Option<&str>,
        |
            text_of(s) == dst.scheme_text() && text_of(h) == dst.host_text()
                && #[trigger] call_ensures(f, (s, h, dst.port_number()), answer),
        rule.callable() <==> forall|s: Option<&str>, h: Option<&str>, p: Option<u16>| #[trigger]
            call_requires(f, (s, h, p)),
{
    assert(rule.may_answer(dst.scheme_text(), dst.host_text(), dst.port_number(), answer)
        == may_return(f, dst.scheme_text(), dst.host_text(), dst.port_number(), answer));
}

/// What a function may return about a scheme, a host and a port is what a call of it with
/// these may return.
pub proof fn law_function_asked<F: Fn(Option<&str>, Option<&str>, Option<u16>) -> bool>(
    f: F,
    scheme: Option<&str>,
    host: Option<&str>,
    port: Option<u16>,
    answer: bool,
)
    ensures
        call_ensures(f, (scheme, host, port), answer) ==> may_return(
            f,
            text_of(scheme),
            text_of(host),
            port,
            answer,
        ),
        may_return(f, text_of(scheme), text_of(host), port, answer) ==> exists|
            s: Option<&str>,
            h: Option<&str>,
        |
            text_of(s) == text_of(scheme) && text_of(h) == text_of(host)
                && #[trigger] call_ensures(f, (s, h, port), answer),
        callable(f) <==> forall|s: Option<&str>, h: Option<&str>, p: Option<u16>| #[trigger]
            call_requires(f, (s, h, p)),
        may_be_asked(f) <==> exists|s: Option<&str>, h: Option<&str>, p: Option<u16>| #[trigger]
            call_requires(f, (s, h, p)),
{
}

/// A rule that was made of a function matches a destination only as the function answers
/// about the scheme, the host and the port of that destination.
pub proof fn law_function_matches<
    D: Dst,
    F: Fn(Option<&str>, Option<&str>, Option<u16>) -> bool + Send + Sync + 'static,
>(f: F, rule: Custom, dst: &D, r: bool)
    requires
        call_ensures(<Custom as From<F>>::from, (f,), rule),
        call_ensures(Intercept::matches::<D>, (&Intercept::Custom(rule), dst), r),
    ensures
        exists|s: Option<&str>, h: Option<&str>|
            text_of(s) == dst.scheme_text() && text_of(h) == dst.host_text()
                && #[trigger] call_ensures(f, (s, h, dst.port_number()), r),
{
    law_function_decides(rule, f, *dst, r);
    let (s, h) = choose|s: Option<&str>, h: Option<&str>|
        text_of(s) == dst.scheme_text() && text_of(h) == dst.host_text()
            && #[trigger] call_ensures(f, (s, h, dst.port_number()), r);
    assert(call_ensures(f, (s, h, dst.port_number()), r));
}

/// An intercept that was made of a function is custom, and decided by that function.
pub proof fn law_function_intercepts<
    F: Fn(Option<&str>, Option<&str>, Option<u16>) -> bool + Send + Sync + 'static,
>(f: F, s: Option<&str>, h: Option<&str>, p: Option<u16>, rule: Intercept)
    requires
        call_requires(f, (s, h, p)),
        call_ensures(<Intercept as From<F>>::from, (f,), rule),
    ensures
        rule is Custom,
        rule->Custom_0.decided_by(f),
{
    assert(may_be_asked(f));
}

/// An answer about a destination is an answer about its scheme, host and port: two
/// destinations that agree in these get the same answers.
pub proof fn law_destinations_agree<D: Dst, O: Dst>(rule: Intercept, a: D, b: O, answer: bool)
    ensures
        rule.may_answer_for(a, answer) <==> rule.may_answer(
            a.scheme_text(),
            a.host_text(),
            a.port_number(),
            answer,
        ),
        a.scheme_text() == b.scheme_text() && a.host_text() == b.host_text() && a.port_number()
            == b.port_number() ==> rule.may_answer_for(a, answer) == rule.may_answer_for(b, answer),
{
}

/// A custom intercept answers as its rule, and can be asked where its rule can; the others
/// can be asked about anything.
pub proof fn law_custom_rule(
    rule: Intercept,
    custom: Custom,
    scheme: Option<Seq<char>>,
    host: Option<Seq<char>>,
    port: Option<u16>,
    answer: bool,
)
    ensures
        Intercept::Custom(custom).may_answer(scheme, host, port, answer) <==> custom.may_answer(
            scheme,
            host,
            port,
            answer,
        ),
        Intercept::Custom(custom).callable() <==> custom.callable(),
        !(rule is Custom) ==> rule.callable(),
{
}

/// An intercept is shown by its name, a custom one with nothing of its rule.
pub proof fn law_intercept_shown(rule: &Intercept, r: String)
    requires
        call_ensures(Intercept::debug_text, (rule,), r),
    ensures
        *rule is All ==> r@ == "All"@,
        *rule is Http ==> r@ == "Http"@,
        *rule is Https ==> r@ == "Https"@,
        *rule is Nothing ==> r@ == "None"@,
        *rule is Custom ==> r@ == "Custom(_)"@,
        r@ == rule.text(),
{
    reveal_strlit("Custom(_)");
    reveal_strlit("Custom(");
    reveal_strlit("_");
    reveal_strlit(")");
    assert("Custom("@ + "_"@ + ")"@ =~= "Custom(_)"@);
}

// Header fields.

/// A value is taken where it holds tabs and what is printed alone, however long it is, and
/// it is taken whole.
pub proof fn law_value_taken(bytes: Vec<u8>, sensitive: bool, r: Option<FieldValue>)
    requires
        call_ensures(FieldValue::from_bytes, (bytes, sensitive), r),
    ensures
        r is Some <==> forall|i: int|
            0 <= i < bytes@.len() ==> (#[trigger] bytes@[i] == 9 || 32 <= bytes@[i] <= 126
                || bytes@[i] >= 128),
        r matches Some(value) ==> value@.0 == bytes@ && value@.1 == sensitive,
{
}

/// Values are told byte by byte.
pub proof fn law_value_bytes(a: Seq<u8>, b: Seq<u8>)
    ensures
        is_value(Seq::empty()),
        is_value(a + b) <==> is_value(a) && is_value(b),
        a.len() == 1 ==> (is_value(a) <==> a[0] == 9 || 32 <= a[0] <= 126 || a[0] >= 128),
{
    let both = a + b;
    assert forall|i: int| 0 <= i < a.len() implies both[i] == #[trigger] a[i] by {}
    assert forall|i: int| 0 <= i < b.len() implies both[a.len() + i] == #[trigger] b[i] by {}
    if is_value(both) {
        assert forall|i: int| 0 <= i < a.len() implies crate::headers::is_value_byte(
            #[trigger] a[i],
        ) by {
            assert(crate::headers::is_value_byte(both[i]));
        }
        assert forall|i: int| 0 <= i < b.len() implies crate::headers::is_value_byte(
            #[trigger] b[i],
        ) by {
            assert(crate::headers::is_value_byte(both[a.len() + i]));
        }
    }
}

/// Credentials are carried whole, as UTF-8, and not marked sensitive.
pub proof fn law_credentials_whole(credentials: Credentials)
    ensures
        credentials.value().0 == encode_utf8(credentials@),
        !credentials.value().1,
{
}

/// The text of credentials is what they are carried as.
pub proof fn law_credentials_shown(credentials: &Credentials, r: &str)
    requires
        call_ensures(Credentials::as_str, (credentials,), r),
    ensures
        credentials.value() == (encode_utf8(r@), false),
{
}

/// Setting a field gives it the one value and leaves the others as they are.
pub proof fn law_only_field_set(fields: Fields, name: Seq<char>, value: ValueView)
    ensures
        with_field(fields, name, value).dom() == fields.dom().insert(name),
        with_field(fields, name, value)[name].len() == 1,
        with_field(fields, name, value)[name][0] == value,
        forall|other: Seq<char>|
            other != name ==> #[trigger] with_field(fields, name, value)[other] == fields[other],
        no_fields().dom() == Set::<Seq<char>>::empty(),
{
    assert(with_field(fields, name, value).dom() =~= fields.dom().insert(name));
    assert(no_fields().dom() =~= Set::<Seq<char>>::empty());
}

/// There is room up to 6554 fields, and beyond it as far as the map takes them.
pub proof fn law_room_counted(fields: Fields, n: nat, headers: HeaderMap)
    ensures
        fields.dom().finite() ==> (has_room(fields, n) <==> fields.dom().len() + n <= 6554),
        !fields.dom().finite() ==> !has_room(fields, n),
        has_count(fields, n) <==> fields.dom().finite() && fields.dom().len() == n,
        header_fields(headers).dom().finite() && header_fields(headers).dom().len() < 6554
            ==> takes_field(headers),
        takes_another(headers) ==> takes_field(headers),
        takes_field(headers) ==> takes_another(headers) || header_fields(headers).dom().finite()
            && header_fields(headers).dom().len() < 6554,
{
}

// Proxies.

/// A new proxy has the rule and the place that it was given, and is sent nothing.
pub proof fn law_new_proxy(rule: Intercept, uri: Uri, p: Proxy)
    requires
        call_ensures(Proxy::new::<Intercept>, (rule, uri), p),
    ensures
        p.rule() == rule,
        p.place() == uri@,
        p.fields().dom() == Set::<Seq<char>>::empty(),
        p.fields_text() == "{}"@,
{
    assert(p.fields().dom() =~= Set::<Seq<char>>::empty());
}

/// What a proxy gives of itself: its rule, its place and its own header map.
pub proof fn law_proxy_read(proxy: &Proxy, rule: &Intercept, headers: &HeaderMap, uri: &Uri)
    requires
        call_ensures(Proxy::intercept, (proxy,), rule),
        call_ensures(Proxy::headers, (proxy,), headers),
        call_ensures(Proxy::uri, (proxy,), uri),
    ensures
        *rule == proxy.rule(),
        uri@ == proxy.place(),
        header_fields(*headers) == proxy.fields(),
        headers_text(*headers) == proxy.fields_text(),
        *headers == proxy.header_map(),
{
}

/// The fields of a proxy and their text are those of its header map, and room is that of
/// the map.
pub proof fn law_proxy_headers(proxy: Proxy, value: ValueView)
    ensures
        proxy.fields() == header_fields(proxy.header_map()),
        proxy.fields_text() == headers_text(proxy.header_map()),
        proxy.takes_field() <==> takes_field(proxy.header_map()),
        proxy.takes_credentials(value) ==> takes_field(proxy.header_map()),
        proxy.rule() is Http || proxy.rule() is Https ==> (proxy.takes_credentials(value)
            <==> takes_field(proxy.header_map())),
        !(proxy.rule() is Http || proxy.rule() is Https) && takes_field(proxy.header_map()) ==> (
        proxy.takes_credentials(value) <==> takes_after_authorization(proxy.header_map())
            || has_room(with_field(proxy.fields(), "authorization"@, value), 1)),
        in_one_field(proxy.rule()) <==> proxy.rule() is Http || proxy.rule() is Https,
{
}

/// Credentials go into the field for the server, the field for the proxy, or both, and
/// nowhere else, each time as the one value of the field.
pub proof fn law_credentials_placed(fields: Fields, rule: Intercept, value: ValueView)
    ensures
        ({
            let after = with_credentials(fields, rule, value);
            let server = "authorization"@;
            let proxy = "proxy-authorization"@;
            &&& !(rule is Https) ==> after.contains_key(server) && after[server] == seq![value]
            &&& !(rule is Http) ==> after.contains_key(proxy) && after[proxy] == seq![value]
            &&& rule is Https ==> after.contains_key(server) == fields.contains_key(server)
                && after[server] == fields[server]
            &&& rule is Http ==> after.contains_key(proxy) == fields.contains_key(proxy)
                && after[proxy] == fields[proxy]
            &&& forall|name: Seq<char>|
                name != server && name != proxy ==> #[trigger] after.contains_key(name)
                    == fields.contains_key(name) && after[name] == fields[name]
        }),
{
    reveal_strlit("authorization");
    reveal_strlit("proxy-authorization");
    assert("authorization"@.len() != "proxy-authorization"@.len());
}

/// Two proxies are the same where rule, fields, place and printed fields are.
pub proof fn law_same(a: Proxy, b: Proxy)
    ensures
        a.same(b) <==> a.rule() == b.rule() && a.fields() == b.fields() && a.place() == b.place()
            && a.fields_text() == b.fields_text(),
{
}

/// A proxy is shown with its rule, its headers and its place, each as it is shown by itself.
pub proof fn law_proxy_shown(proxy: &Proxy, rule: String, place: &Uri, uri: String, r: String)
    requires
        call_ensures(Intercept::debug_text, (&proxy.rule(),), rule),
        call_ensures(Proxy::uri, (proxy,), place),
        call_ensures(Uri::to_text, (place,), uri),
        call_ensures(Proxy::debug_text, (proxy,), r),
    ensures
        r@ == "Proxy { intercept: "@ + rule@ + ", headers: "@ + headers_text(proxy.header_map())
            + ", uri: "@ + uri@ + " }"@,
        r@ == proxy.text(),
{
}

// The choice of a proxy.

/// A proxy is chosen where it may say yes and every proxy before it may say no.
pub proof fn law_chosen<D: Dst>(proxies: Seq<Proxy>, dst: D, i: int)
    ensures
        may_choose(proxies, dst, i) <==> {
            &&& 0 <= i < proxies.len()
            &&& proxies[i].rule().may_answer(
                dst.scheme_text(),
                dst.host_text(),
                dst.port_number(),
                true,
            )
            &&& forall|j: int|
                0 <= j < i ==> (#[trigger] proxies[j]).rule().may_answer(
                    dst.scheme_text(),
                    dst.host_text(),
                    dst.port_number(),
                    false,
                )
        },
        may_choose_none(proxies, dst) <==> forall|j: int|
            0 <= j < proxies.len() ==> (#[trigger] proxies[j]).rule().may_answer(
                dst.scheme_text(),
                dst.host_text(),
                dst.port_number(),
                false,
            ),
{
    if may_choose(proxies, dst, i) {
        assert forall|j: int| 0 <= j < i implies (#[trigger] proxies[j]).rule().may_answer(
            dst.scheme_text(),
            dst.host_text(),
            dst.port_number(),
            false,
        ) by {
            assert(proxies[j].rule().may_answer_for(dst, false));
        }
    }
    if may_choose_none(proxies, dst) {
        assert forall|j: int| 0 <= j < proxies.len() implies (
        #[trigger] proxies[j]).rule().may_answer(
            dst.scheme_text(),
            dst.host_text(),
            dst.port_number(),
            false,
        ) by {
            assert(proxies[j].rule().may_answer_for(dst, false));
        }
    }
}

/// The proxy that is found is in the list, may say yes, and comes after proxies that may say
/// no; where none is found, all may say no.
pub proof fn law_proxy_found<C, T, D: Dst>(
    connector: &ProxyConnector<C, T>,
    dst: &D,
    r: Option<&Proxy>,
)
    requires
        call_ensures(ProxyConnector::<C, T>::match_proxy::<D>, (connector, dst), r),
    ensures
        r matches Some(p) ==> exists|i: int|
            0 <= i < connector.list().len() && #[trigger] connector.list()[i] == *p
                && p.rule().may_answer(
                dst.scheme_text(),
                dst.host_text(),
                dst.port_number(),
                true,
            ) && forall|j: int|
                0 <= j < i ==> (#[trigger] connector.list()[j]).rule().may_answer(
                    dst.scheme_text(),
                    dst.host_text(),
                    dst.port_number(),
                    false,
                ),
        r is None ==> forall|j: int|
            0 <= j < connector.list().len() ==> (#[trigger] connector.list()[j]).rule().may_answer(
                dst.scheme_text(),
                dst.host_text(),
                dst.port_number(),
                false,
            ),
{
    if r is Some {
        let i = choose|i: int| #[trigger]
            may_choose(connector.list(), *dst, i) && connector.list()[i] == *r->0;
        law_chosen(connector.list(), *dst, i);
        assert(connector.list()[i] == *r->0);
    } else {
        law_chosen(connector.list(), *dst, 0);
    }
}

/// An optional proxy may be the choice where it is a proxy that may be chosen, or where it
/// is none and none may be chosen.
pub proof fn law_choice<D: Dst>(proxies: Seq<Proxy>, dst: D, p: &Proxy)
    ensures
        may_be_proxy(proxies, dst, Some(*p)) <==> exists|i: int| #[trigger]
            may_choose(proxies, dst, i) && proxies[i] == *p,
        may_be_proxy(proxies, dst, None) <==> may_choose_none(proxies, dst),
        chosen(Some(p)) == Some(*p),
        chosen(None) is None,
{
}

/// A connector can be asked where every rule of its proxies can.
pub proof fn law_connector_callable<C, T>(connector: ProxyConnector<C, T>)
    ensures
        connector.callable() <==> forall|i: int|
            0 <= i < connector.list().len() ==> (#[trigger] connector.list()[i]).rule().callable(),
{
}

/// Headers are given for http alone; they are the header map of the proxy that is found for
/// the URI, and there are none where no proxy is found.
pub proof fn law_headers_for_http_alone<C, T>(
    connector: &ProxyConnector<C, T>,
    uri: &Uri,
    r: Option<&HeaderMap>,
)
    requires
        call_ensures(ProxyConnector::<C, T>::http_headers, (connector, uri), r),
    ensures
        uri@.scheme != Some("http"@) ==> r is None,
        r matches Some(headers) ==> exists|i: int| #[trigger]
            may_choose(connector.list(), *uri, i) && *headers == connector.list()[i].header_map(),
        uri@.scheme == Some("http"@) && r is None ==> may_choose_none(connector.list(), *uri),
{
}

/// What may be the headers for a request is nothing but for http, and for http it is what
/// the choice of a proxy says.
pub proof fn law_headers_may_be(proxies: Seq<Proxy>, uri: Uri, headers: Option<HeaderMap>)
    ensures
        may_be_http_headers(proxies, uri, headers) && uri@.scheme != Some("http"@) ==> headers
            is None,
        uri@.scheme != Some("http"@) ==> may_be_http_headers(proxies, uri, None),
        may_be_http_headers(proxies, uri, headers) && headers is Some ==> exists|p: Proxy| #[trigger]
            may_be_proxy(proxies, uri, Some(p)) && p.header_map() == headers->0,
        uri@.scheme == Some("http"@) ==> (may_be_http_headers(proxies, uri, None)
            <==> may_be_proxy(proxies, uri, None)),
        forall|p: Proxy| #[trigger]
            may_be_proxy(proxies, uri, Some(p)) && uri@.scheme == Some("http"@)
                ==> may_be_http_headers(proxies, uri, Some(p.header_map())),
{
    if may_be_http_headers(proxies, uri, headers) && headers is Some {
        let i = choose|i: int| #[trigger]
            may_choose(proxies, uri, i) && headers->0 == proxies[i].header_map();
        assert(may_be_proxy(proxies, uri, Some(proxies[i])));
    }
}

/// Proxies are listed with a comma between each two, in brackets.
pub proof fn law_list_shown(proxies: Seq<Proxy>, p: Proxy)
    ensures
        list_text(Seq::empty()) == "[]"@,
        list_text(seq![p]) == "["@ + p.text() + "]"@,
        proxies.len() > 0 ==> joined(proxies.push(p)) == joined(proxies) + ", "@ + p.text(),
        list_text(proxies) == "["@ + joined(proxies) + "]"@,
{
    reveal_strlit("[]");
    reveal_strlit("[");
    reveal_strlit("]");
    assert(list_text(Seq::empty()) =~= "[]"@);
    assert(proxies.push(p).drop_last() =~= proxies);
}

// Routes.

/// A connection without a proxy or without a host goes straight; else an https connection
/// is tunneled and any other one passed on.
pub proof fn law_way<C, T: Clone>(
    connector: &ProxyConnector<C, T>,
    proxy: Option<&Proxy>,
    uri: Uri,
    r: Route<T>,
)
    requires
        call_ensures(ProxyConnector::<C, T>::route, (connector, proxy, uri), r),
    ensures
        r is Direct <==> proxy is None || uri@.authority is None,
        r is Tunnel <==> proxy is Some && uri@.authority is Some && uri@.scheme == Some("https"@),
        r matches Route::Direct { uri: to } ==> to@ == uri@,
        r matches Route::Forward { uri: to } ==> {
            &&& to@.scheme == proxy->0.place().scheme
            &&& to@.authority == proxy->0.place().authority
            &&& uri@.scheme is Some && uri@.path_and_query is Some ==> to@.path_and_query
                == uri@.path_and_query
        },
        r matches Route::Tunnel { connection, host, port, headers, tls } ==> {
            &&& host@ == authority_host(uri@.authority->0)
            &&& authority_port(uri@.authority->0) is Some ==> port == authority_port(
                uri@.authority->0,
            )->0
            &&& authority_port(uri@.authority->0) is None ==> port == 443
            &&& header_fields(headers) == header_fields(proxy->0.header_map())
            &&& headers_text(headers) == headers_text(proxy->0.header_map())
            &&& tls is Some <==> connector.security() is Some
            &&& tls is Some ==> cloned(connector.security()->0, tls->0)
            &&& connection is Ok <==> proxy->0.place().scheme is Some
            &&& connection matches Ok(to) ==> {
                &&& to@.scheme == proxy->0.place().scheme
                &&& to@.authority == proxy->0.place().authority
                &&& uri@.path_and_query is Some ==> to@.path_and_query == uri@.path_and_query
            }
            &&& connection matches Err(e) ==> e.kind == IoErrorKind::Other && e.error@
                == "proxy uri missing scheme: "@ + uri_text(
                proxy->0.place().scheme,
                proxy->0.place().authority,
                proxy->0.place().path_and_query,
            )
        },
{
    let planned = route_to(chosen(proxy), uri@, connector.security());
    assert(r@.follows(planned));
}

/// The same of any route that follows the one that is planned.
pub proof fn law_way_planned<T: Clone>(
    route: Route<T>,
    proxy: Option<Proxy>,
    uri: UriView,
    security: Option<T>,
)
    requires
        route@.follows(route_to(proxy, uri, security)),
    ensures
        route is Direct <==> proxy is None || uri.authority is None,
        route is Tunnel <==> proxy is Some && uri.authority is Some && uri.scheme == Some(
            "https"@,
        ),
        route matches Route::Direct { uri: to } ==> to@ == uri,
        route matches Route::Forward { uri: to } ==> {
            &&& to@.scheme == proxy->0.place().scheme
            &&& to@.authority == proxy->0.place().authority
            &&& uri.scheme is Some && uri.path_and_query is Some ==> to@.path_and_query
                == uri.path_and_query
        },
        route matches Route::Tunnel { connection, host, port, headers, tls } ==> {
            &&& host@ == authority_host(uri.authority->0)
            &&& authority_port(uri.authority->0) is Some ==> port == authority_port(
                uri.authority->0,
            )->0
            &&& authority_port(uri.authority->0) is None ==> port == 443
            &&& header_fields(headers) == header_fields(proxy->0.header_map())
            &&& headers_text(headers) == headers_text(proxy->0.header_map())
            &&& tls is Some <==> security is Some
            &&& tls is Some ==> cloned(security->0, tls->0)
            &&& connection is Ok <==> proxy->0.place().scheme is Some
            &&& connection matches Ok(to) ==> {
                &&& to@.scheme == proxy->0.place().scheme
                &&& to@.authority == proxy->0.place().authority
                &&& uri.path_and_query is Some ==> to@.path_and_query == uri.path_and_query
            }
            &&& connection matches Err(e) ==> e.kind == IoErrorKind::Other && e.error@
                == "proxy uri missing scheme: "@ + uri_text(
                proxy->0.place().scheme,
                proxy->0.place().authority,
                proxy->0.place().path_and_query,
            )
        },
{
}

/// A tunnel to a bare host goes to that host.
pub proof fn law_tunnel_to_bare_host<T: Clone>(
    route: Route<T>,
    proxy: Option<Proxy>,
    uri: UriView,
    security: Option<T>,
)
    requires
        route@.follows(route_to(proxy, uri, security)),
        route is Tunnel,
        !uri.authority->0.contains('@'),
        !uri.authority->0.contains(':'),
        uri.authority->0.len() == 0 || uri.authority->0[0] != '[',
    ensures
        route->host@ == uri.authority->0,
        route->port == 443,
{
    law_way_planned(route, proxy, uri, security);
    law_bare_host(uri.authority->0);
}

/// The route that may be taken is the planned one through a proxy that may be the choice.
pub proof fn law_may_route<C, T>(connector: ProxyConnector<C, T>, uri: Uri, r: RouteView<T>)
    ensures
        connector.may_route(uri, r) <==> exists|p: Option<Proxy>| #[trigger]
            may_be_proxy(connector.list(), uri, p) && r == route_to(p, uri@, connector.security()),
{
}

/// There is a route but where a proxy that is to pass requests on has no scheme, or is to be
/// asked for nothing.
pub proof fn law_route_there(proxy: Option<Proxy>, uri: UriView)
    ensures
        forwards(proxy, uri) <==> proxy is Some && uri.authority is Some && uri.scheme != Some(
            "https"@,
        ),
        has_route(proxy, uri) <==> proxy is None || uri.authority is None || uri.scheme == Some(
            "https"@,
        ) || (proxy->0.place().scheme is Some && uri.scheme is Some),
{
}

/// A copy of what secures a tunnel is there where that is.
pub proof fn law_copied<T: Clone>(of: T, copy: T, any: Option<T>)
    ensures
        copied(Some(of), Some(copy)) <==> cloned(of, copy),
        copied(None, any) <==> any is None,
        !copied(Some(of), None),
{
}

/// A route that follows another is that one but for the copy of what secures it.
pub proof fn law_followed<T: Clone>(route: RouteView<T>, planned: RouteView<T>)
    requires
        route.follows(planned),
    ensures
        !(planned is Tunnel) ==> route == planned,
        planned is Tunnel ==> {
            &&& route is Tunnel
            &&& route->connection == planned->connection
            &&& route->host == planned->host
            &&& route->port == planned->port
            &&& route->fields == planned->fields
            &&& route->fields_text == planned->fields_text
            &&& copied(planned->tls, route->tls)
        },
{
}

/// A route shows all of what it holds.
pub proof fn law_route_shown<T>(route: Route<T>)
    ensures
        route matches Route::Direct { uri } ==> route@ == RouteView::<T>::Direct(uri@),
        route matches Route::Forward { uri } ==> route@ == RouteView::<T>::Forward(uri@),
        route matches Route::Tunnel { connection, host, port, headers, tls } ==> {
            &&& route@ is Tunnel
            &&& connection matches Ok(to) ==> route@->connection == Ok::<
                UriView,
                IoError<Seq<char>>,
            >(to@)
            &&& connection matches Err(e) ==> route@->connection is Err
                && route@->connection->Err_0.error == e.error@
            &&& route@->host == host@
            &&& route@->port == port
            &&& route@->fields == header_fields(headers)
            &&& route@->fields_text == headers_text(headers)
            &&& route@->tls == tls
        },
{
}

/// The plan of a route is to tunnel where it is a tunnel, and to secure that where it holds
/// what secures it.
pub proof fn law_plan_of_route<T>(route: &Route<T>, r: Plan)
    requires
        call_ensures(Route::<T>::plan, (route,), r),
    ensures
        r == Plan::Plain <==> !(*route is Tunnel),
        r == Plan::Tunnel <==> *route is Tunnel && route->tls is None,
        r == Plan::SecureTunnel <==> *route is Tunnel && route->tls is Some,
{
}

/// The plan that a route shows is told by what it shows.
pub proof fn law_plan_shown<T>(route: RouteView<T>)
    ensures
        route.plan() == Plan::Plain <==> !(route is Tunnel),
        route.plan() == Plan::Tunnel <==> route is Tunnel && route->tls is None,
        route.plan() == Plan::SecureTunnel <==> route is Tunnel && route->tls is Some,
{
}

/// What follows a stage: a failure is reported, the tunnel's as it is and the others
/// wrapped; else the next stage of the plan comes, or the stream is handed out.
pub proof fn law_next_step<E>(plan: Plan, stage: Stage, outcome: Outcome<E>, r: Step<E>)
    requires
        plan.has(stage),
        call_ensures(Plan::next::<E>, (plan, stage, outcome), r),
    ensures
        outcome matches Outcome::Failed(e) ==> r == Step::Fail(
            if stage == Stage::Tunneling {
                Failure::Tunnel(e)
            } else {
                Failure::Wrapped(IoError { kind: IoErrorKind::Other, error: e })
            },
        ),
        outcome is Done ==> (r is Continue || r is Finish),
        outcome is Done && stage == Stage::Connecting && plan != Plan::Plain ==> r == Step::<
            E,
        >::Continue(Stage::Tunneling),
        outcome is Done && stage == Stage::Tunneling && plan == Plan::SecureTunnel ==> r == Step::<
            E,
        >::Continue(Stage::Securing),
        outcome is Done && plan == Plan::Plain ==> r == Step::<E>::Finish(StreamKind::Regular),
        outcome is Done && stage == Stage::Tunneling && plan == Plan::Tunnel ==> r == Step::<
            E,
        >::Finish(StreamKind::Regular),
        outcome is Done && stage == Stage::Securing ==> r == Step::<E>::Finish(StreamKind::Secured),
{
}

/// The stages of the plans, and the stream that comes of each.
pub proof fn law_stages(plan: Plan)
    ensures
        plan.has(Stage::Connecting),
        plan.has(Stage::Tunneling) <==> plan == Plan::Tunnel || plan == Plan::SecureTunnel,
        plan.has(Stage::Securing) <==> plan == Plan::SecureTunnel,
        plan.last() == Stage::Connecting <==> plan == Plan::Plain,
        plan.last() == Stage::Tunneling <==> plan == Plan::Tunnel,
        plan.last() == Stage::Securing <==> plan == Plan::SecureTunnel,
        plan.stream() == StreamKind::Secured <==> plan == Plan::SecureTunnel,
{
}

} // verus!
