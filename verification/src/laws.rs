//! What holds of the library as a whole.

use crate::connector::{may_be_http_headers, may_be_proxy, may_choose, ProxyConnector};
use crate::headers::{has_room, no_fields, with_field, Fields, ValueView, FIELD_ROOM};
use crate::intercept::{may_return, Custom, Intercept};
use crate::proxy::{with_credentials, Proxy};
use crate::route::{copied, route_to, Failure, Outcome, Plan, RouteView, Stage, Step, StreamKind};
use crate::uri::{proxied, text_of, Dst, Uri, UriView};
use http::header::HeaderMap;
use vstd::prelude::*;

verus! {

/// The rule is one of those that the library decides by itself.
pub open spec fn is_fixed(rule: Intercept) -> bool {
    !(rule is Custom)
}

/// All connections go through a proxy for all, only http connections through one for
/// http, only https connections through one for https, and none through one for
/// nothing. Neither host nor port matters.
pub proof fn law_fixed_rules(
    scheme: Option<Seq<char>>,
    host: Option<Seq<char>>,
    port: Option<u16>,
    answer: bool,
)
    ensures
        Intercept::All.may_answer(scheme, host, port, answer) <==> answer,
        Intercept::Http.may_answer(scheme, host, port, answer) <==> answer == (scheme == Some(
            "http"@,
        )),
        Intercept::Https.may_answer(scheme, host, port, answer) <==> answer == (scheme == Some(
            "https"@,
        )),
        Intercept::Nothing.may_answer(scheme, host, port, answer) <==> !answer,
{
}

/// A fixed rule gives exactly one answer about a connection.
pub proof fn law_fixed_rule_decides(
    rule: Intercept,
    scheme: Option<Seq<char>>,
    host: Option<Seq<char>>,
    port: Option<u16>,
)
    requires
        is_fixed(rule),
    ensures
        rule.may_answer(scheme, host, port, true) != rule.may_answer(scheme, host, port, false),
{
}

/// No connection goes both through a proxy for http and through one for https.
pub proof fn law_http_and_https_apart<D: Dst>(dst: D)
    ensures
        !(Intercept::Http.may_answer_for(dst, true) && Intercept::Https.may_answer_for(dst, true)),
{
    reveal_strlit("http");
    reveal_strlit("https");
    assert("http"@.len() != "https"@.len());
}

/// A rule that a function decides does not give an answer that the function does not give.
pub proof fn law_function_rule<F: Fn(Option<&str>, Option<&str>, Option<u16>) -> bool>(
    rule: Custom,
    f: F,
    scheme: Option<Seq<char>>,
    host: Option<Seq<char>>,
    port: Option<u16>,
    answer: bool,
)
    requires
        rule.decided_by(f),
        forall|s: Option<&str>, h: Option<&str>|
            text_of(s) == scheme && text_of(h) == host ==> !#[trigger] call_ensures(
                f,
                (s, h, port),
                answer,
            ),
    ensures
        !rule.may_answer(scheme, host, port, answer),
        !Intercept::Custom(rule).may_answer(scheme, host, port, answer),
{
    assert(rule.may_answer(scheme, host, port, answer) == may_return(
        f,
        scheme,
        host,
        port,
        answer,
    ));
}

/// No rule of the proxies may both say yes and say no about `dst`.
pub open spec fn settled<D: Dst>(proxies: Seq<Proxy>, dst: D) -> bool {
    forall|i: int|
        0 <= i < proxies.len() ==> !((#[trigger] proxies[i]).rule().may_answer_for(dst, true)
            && proxies[i].rule().may_answer_for(dst, false))
}

/// Every rule of the proxies has an answer about `dst`.
pub open spec fn answered<D: Dst>(proxies: Seq<Proxy>, dst: D) -> bool {
    forall|i: int|
        0 <= i < proxies.len() ==> (#[trigger] proxies[i]).rule().may_answer_for(dst, true)
            || proxies[i].rule().may_answer_for(dst, false)
}

/// Fixed rules have one answer about each connection.
pub proof fn law_fixed_rules_settled<D: Dst>(proxies: Seq<Proxy>, dst: D)
    requires
        forall|i: int| 0 <= i < proxies.len() ==> is_fixed((#[trigger] proxies[i]).rule()),
    ensures
        settled(proxies, dst),
        answered(proxies, dst),
{
    assert forall|i: int| 0 <= i < proxies.len() implies (#[trigger] proxies[i]).rule().may_answer_for(
        dst,
        true,
    ) != proxies[i].rule().may_answer_for(dst, false) by {
        law_fixed_rule_decides(
            proxies[i].rule(),
            dst.scheme_text(),
            dst.host_text(),
            dst.port_number(),
        );
    }
}

/// Where every rule has an answer, there is a choice of a proxy, or of none, for a
/// connection.
pub proof fn law_some_choice<D: Dst>(proxies: Seq<Proxy>, dst: D)
    requires
        answered(proxies, dst),
    ensures
        exists|p: Option<Proxy>| may_be_proxy(proxies, dst, p),
{
    lemma_some_choice(proxies, dst, 0);
}

/// Where no rule may answer both ways, there is one choice at most.
pub proof fn law_one_choice<D: Dst>(
    proxies: Seq<Proxy>,
    dst: D,
    p: Option<Proxy>,
    q: Option<Proxy>,
)
    requires
        settled(proxies, dst),
        may_be_proxy(proxies, dst, p),
        may_be_proxy(proxies, dst, q),
    ensures
        p == q,
{
    lemma_same_choice(proxies, dst, p, q);
    lemma_same_choice(proxies, dst, q, p);
}

/// Where the first `from` proxies say no, someone after them says yes or all say no.
proof fn lemma_some_choice<D: Dst>(proxies: Seq<Proxy>, dst: D, from: int)
    requires
        0 <= from <= proxies.len(),
        answered(proxies, dst),
        forall|j: int|
            0 <= j < from ==> (#[trigger] proxies[j]).rule().may_answer_for(dst, false),
    ensures
        exists|p: Option<Proxy>| may_be_proxy(proxies, dst, p),
    decreases proxies.len() - from,
{
    if from == proxies.len() {
        assert(may_be_proxy(proxies, dst, None));
    } else if proxies[from].rule().may_answer_for(dst, true) {
        assert(may_choose(proxies, dst, from));
        assert(may_be_proxy(proxies, dst, Some(proxies[from])));
    } else {
        lemma_some_choice(proxies, dst, from + 1);
    }
}

/// Where one choice is a proxy, every choice is that proxy.
proof fn lemma_same_choice<D: Dst>(
    proxies: Seq<Proxy>,
    dst: D,
    p: Option<Proxy>,
    q: Option<Proxy>,
)
    requires
        settled(proxies, dst),
        may_be_proxy(proxies, dst, p),
        may_be_proxy(proxies, dst, q),
    ensures
        p is Some ==> p == q,
{
    if p is Some {
        let i = choose|i: int| #[trigger] may_choose(proxies, dst, i) && proxies[i] == p->0;
        if q is Some {
            let k = choose|k: int| #[trigger] may_choose(proxies, dst, k) && proxies[k] == q->0;
            if i < k {
                assert(proxies[i].rule().may_answer_for(dst, false));
            } else if k < i {
                assert(proxies[k].rule().may_answer_for(dst, false));
            }
        } else {
            assert(proxies[i].rule().may_answer_for(dst, false));
        }
    }
}

/// Where every rule has one answer about a destination, there is exactly one route to it.
pub proof fn law_one_route<C, T>(connector: ProxyConnector<C, T>, uri: Uri)
    requires
        settled(connector.list(), uri),
        answered(connector.list(), uri),
    ensures
        exists|r: RouteView<T>| connector.may_route(uri, r),
        forall|a: RouteView<T>, b: RouteView<T>| #[trigger]
            connector.may_route(uri, a) && #[trigger] connector.may_route(uri, b) ==> a == b,
{
    law_some_choice(connector.list(), uri);
    let p = choose|p: Option<Proxy>| may_be_proxy(connector.list(), uri, p);
    assert(connector.may_route(uri, route_to(p, uri@, connector.security())));
    assert forall|a: RouteView<T>, b: RouteView<T>| #[trigger]
        connector.may_route(uri, a) && #[trigger] connector.may_route(uri, b) implies a == b by {
        let q = choose|q: Option<Proxy>| #[trigger]
            may_be_proxy(connector.list(), uri, q) && a == route_to(q, uri@, connector.security());
        let s = choose|s: Option<Proxy>| #[trigger]
            may_be_proxy(connector.list(), uri, s) && b == route_to(s, uri@, connector.security());
        law_one_choice(connector.list(), uri, q, s);
    }
}

/// A route is of the time at which it was asked for: whatever becomes of the connector
/// afterwards, a tunnel has the header fields of a proxy that was in the list then, goes
/// by way of that proxy, and has a copy of what secured tunnels then.
pub proof fn law_route_of_its_time<C, T: Clone>(
    then: ProxyConnector<C, T>,
    uri: Uri,
    planned: RouteView<T>,
    route: RouteView<T>,
)
    requires
        then.may_route(uri, planned),
        route.follows(planned),
    ensures
        route matches RouteView::Tunnel { connection, fields, fields_text, tls, .. } ==> copied(
            then.security(),
            tls,
        ) && exists|i: int| #[trigger]
            may_choose(then.list(), uri, i) && fields == then.list()[i].fields() && fields_text
                == then.list()[i].fields_text() && (connection is Ok ==> connection->Ok_0 == proxied(uri@, then.list()[i].place())),
        route.plan() == planned.plan(),
{
    let p = choose|p: Option<Proxy>| #[trigger]
        may_be_proxy(then.list(), uri, p) && planned == route_to(p, uri@, then.security());
    if route is Tunnel {
        let i = choose|i: int| #[trigger]
            may_choose(then.list(), uri, i) && then.list()[i] == p->0;
        assert(may_choose(then.list(), uri, i));
    }
}

/// Proxies that are added come after those that are there: a proxy that may be chosen
/// still may be.
pub proof fn law_earlier_proxy_first<D: Dst>(
    proxies: Seq<Proxy>,
    more: Seq<Proxy>,
    dst: D,
    i: int,
)
    requires
        may_choose(proxies, dst, i),
    ensures
        may_choose(proxies + more, dst, i),
        (proxies + more)[i] == proxies[i],
{
    let all = proxies + more;
    assert forall|j: int| 0 <= j < i implies (#[trigger] all[j]).rule().may_answer_for(
        dst,
        false,
    ) by {
        assert(all[j] == proxies[j]);
    }
}

/// Without proxies no proxy is chosen.
pub proof fn law_no_proxies<D: Dst>(dst: D, p: Option<Proxy>)
    ensures
        may_be_proxy(Seq::<Proxy>::empty(), dst, p) <==> p is None,
{
}

/// A proxy for nothing is never chosen.
pub proof fn law_proxy_for_nothing<D: Dst>(proxies: Seq<Proxy>, dst: D, i: int)
    requires
        may_choose(proxies, dst, i),
    ensures
        proxies[i].rule() != Intercept::Nothing,
{
}

/// Without a proxy, and for a destination without a host, the connection goes straight
/// to the destination.
pub proof fn law_direct<T>(proxy: Option<Proxy>, uri: UriView, tls: Option<T>)
    requires
        proxy is None || uri.host() is None,
    ensures
        route_to(proxy, uri, tls) == RouteView::<T>::Direct(uri),
{
}

/// A proxied https connection goes through a tunnel to the host and port of the
/// destination, where the port is 443 if none is named; the proxy is sent its own
/// header fields.
pub proof fn law_https_tunnels<T>(proxy: Proxy, uri: UriView, tls: Option<T>)
    requires
        uri.scheme == Some("https"@),
        uri.host() is Some,
    ensures
        route_to(Some(proxy), uri, tls) matches RouteView::Tunnel {
            connection,
            host,
            port,
            fields,
            fields_text,
            tls: by,
        } && (connection is Ok <==> proxy.place().scheme is Some) && (connection is Ok ==>
            connection->Ok_0 == proxied(uri, proxy.place())) && host == uri.host()->0 && port == (if uri.port() is Some {
            uri.port()->0
        } else {
            443
        }) && fields == proxy.fields() && fields_text == proxy.fields_text() && by == tls,
{
}

/// A proxied connection that is not for https goes to the proxy, which is asked for
/// what the destination is asked for.
pub proof fn law_http_forwards<T>(proxy: Proxy, uri: UriView, tls: Option<T>)
    requires
        uri.scheme != Some("https"@),
        uri.host() is Some,
    ensures
        route_to(Some(proxy), uri, tls) == RouteView::<T>::Forward(proxied(uri, proxy.place())),
{
}

/// A tunnel is secured where the connector has a TLS connector, and only there; no
/// other connection is.
pub proof fn law_security<T>(proxy: Option<Proxy>, uri: UriView, tls: Option<T>)
    ensures
        route_to(proxy, uri, tls).plan() == Plan::SecureTunnel <==> route_to(
            proxy,
            uri,
            tls,
        ) is Tunnel && tls is Some,
        route_to(proxy, uri, tls).plan() == Plan::Plain <==> !(route_to(
            proxy,
            uri,
            tls,
        ) is Tunnel),
{
}

/// What a proxy is asked for is a URI: it has the scheme and authority of the proxy,
/// hence its host and port, and the path and query of the destination.
pub proof fn law_proxied(dst: UriView, proxy: UriView)
    requires
        dst.valid(),
        proxy.valid(),
        dst.target() is Some,
        proxy.scheme is Some,
    ensures
        proxied(dst, proxy).valid(),
        proxied(dst, proxy).scheme == proxy.scheme,
        proxied(dst, proxy).authority == proxy.authority,
        proxied(dst, proxy).host() == proxy.host(),
        proxied(dst, proxy).port() == proxy.port(),
        proxied(dst, proxy).target() == dst.target(),
{
}

/// Going through the same proxy once more changes nothing, and of two proxies the last
/// one counts.
pub proof fn law_last_proxy_counts(dst: UriView, first: UriView, last: UriView)
    requires
        dst.target() is Some,
        first.scheme is Some,
    ensures
        proxied(proxied(dst, first), last) == proxied(dst, last),
        proxied(proxied(dst, first), first) == proxied(dst, first),
{
}

/// The headers for a plain http request are those of the proxy that the request
/// goes to. Where no rule may answer both ways: if there are such headers, the request goes
/// to the proxy that they belong to, and if there are none, it goes straight to the
/// destination.
pub proof fn law_headers_go_with_route<T>(
    proxies: Seq<Proxy>,
    uri: Uri,
    headers: Option<HeaderMap>,
    proxy: Option<Proxy>,
    tls: Option<T>,
)
    requires
        settled(proxies, uri),
        uri@.scheme == Some("http"@),
        uri@.host() is Some,
        may_be_http_headers(proxies, uri, headers),
        may_be_proxy(proxies, uri, proxy),
    ensures
        headers is Some ==> proxy is Some && proxy->0.header_map() == headers->0 && route_to(
            proxy,
            uri@,
            tls,
        ) == RouteView::<T>::Forward(proxied(uri@, proxy->0.place())),
        headers is None ==> route_to(proxy, uri@, tls) == RouteView::<T>::Direct(uri@),
{
    reveal_strlit("http");
    reveal_strlit("https");
    assert("http"@.len() != "https"@.len());
    if headers is Some {
        let i = choose|i: int| #[trigger]
            may_choose(proxies, uri, i) && headers->0 == proxies[i].header_map();
        assert(may_be_proxy(proxies, uri, Some(proxies[i])));
        law_one_choice(proxies, uri, proxy, Some(proxies[i]));
    } else {
        assert(may_be_proxy(proxies, uri, None));
        law_one_choice(proxies, uri, proxy, None);
    }
}

/// A field that was set has the one value that it was set to, whatever it had before,
/// and every other field is as it was.
pub proof fn law_field_set(
    fields: Fields,
    name: Seq<char>,
    earlier: ValueView,
    value: ValueView,
    other: Seq<char>,
)
    ensures
        with_field(fields, name, value)[name] == seq![value],
        with_field(with_field(fields, name, earlier), name, value) == with_field(
            fields,
            name,
            value,
        ),
        other != name ==> with_field(fields, name, value).contains_key(other)
            == fields.contains_key(other) && with_field(fields, name, value)[other]
            == fields[other],
{
    assert(with_field(with_field(fields, name, earlier), name, value) =~= with_field(
        fields,
        name,
        value,
    ));
}

/// Credentials for a proxy with this rule do not go into field `name`.
pub open spec fn credentials_leave(rule: Intercept, name: Seq<char>) -> bool {
    &&& rule == Intercept::Https || name != "authorization"@
    &&& rule == Intercept::Http || name != "proxy-authorization"@
}

/// Credentials reach the server alone through a proxy for http, the proxy alone through
/// a proxy for https, and else both; no other field changes.
pub proof fn law_credentials(fields: Fields, rule: Intercept, value: ValueView, other: Seq<char>)
    ensures
        rule != Intercept::Https ==> with_credentials(fields, rule, value)["authorization"@]
            == seq![value],
        rule != Intercept::Http ==> with_credentials(fields, rule, value)["proxy-authorization"@]
            == seq![value],
        credentials_leave(rule, other) ==> with_credentials(fields, rule, value).contains_key(other)
            == fields.contains_key(other) && with_credentials(fields, rule, value)[other]
            == fields[other],
{
    reveal_strlit("authorization");
    reveal_strlit("proxy-authorization");
    assert("authorization"@.len() != "proxy-authorization"@.len());
}

/// The last credentials that were set count.
pub proof fn law_last_credentials_count(
    fields: Fields,
    rule: Intercept,
    earlier: ValueView,
    value: ValueView,
)
    ensures
        with_credentials(with_credentials(fields, rule, earlier), rule, value)
            == with_credentials(fields, rule, value),
{
    assert(with_credentials(with_credentials(fields, rule, earlier), rule, value)
        =~= with_credentials(fields, rule, value));
}

/// Of a proxy and its copy, the one that was given credentials before ends up with the same
/// fields as the other when both are given the same credentials, and giving it the same
/// credentials twice is giving them once.
pub proof fn law_copies_agree(proxy: Proxy, copy: Proxy, earlier: ValueView, value: ValueView)
    requires
        proxy.same(copy),
    ensures
        with_credentials(
            with_credentials(proxy.fields(), proxy.rule(), earlier),
            proxy.rule(),
            value,
        ) == with_credentials(copy.fields(), copy.rule(), value),
        with_credentials(
            with_credentials(proxy.fields(), proxy.rule(), value),
            proxy.rule(),
            value,
        ) == with_credentials(proxy.fields(), proxy.rule(), value),
{
    law_last_credentials_count(proxy.fields(), proxy.rule(), earlier, value);
    law_last_credentials_count(proxy.fields(), proxy.rule(), value, value);
}

/// A new proxy has room for `FIELD_ROOM` fields, and a field that is set takes room for
/// one at most.
pub proof fn law_room(fields: Fields, name: Seq<char>, value: ValueView, n: nat)
    requires
        has_room(fields, n + 1),
    ensures
        has_room(no_fields(), FIELD_ROOM as nat),
        has_room(with_field(fields, name, value), n),
{
}

/// A connection ends in what its plan says: when every stage is done, it goes through
/// the stages of the plan in order and hands out the stream of the plan.
pub proof fn law_plan_runs<E>(plan: Plan)
    ensures
        plan == Plan::Plain ==> plan.step(Stage::Connecting, Outcome::<E>::Done) == Step::<
            E,
        >::Finish(StreamKind::Regular),
        plan != Plan::Plain ==> plan.step(Stage::Connecting, Outcome::<E>::Done) == Step::<
            E,
        >::Continue(Stage::Tunneling),
        plan == Plan::Tunnel ==> plan.step(Stage::Tunneling, Outcome::<E>::Done) == Step::<
            E,
        >::Finish(StreamKind::Regular),
        plan == Plan::SecureTunnel ==> plan.step(Stage::Tunneling, Outcome::<E>::Done) == Step::<
            E,
        >::Continue(Stage::Securing),
        plan == Plan::SecureTunnel ==> plan.step(Stage::Securing, Outcome::<E>::Done) == Step::<
            E,
        >::Finish(StreamKind::Secured),
{
}

/// Whatever happens, a plan stays in its own stages, a stream is handed out only when
/// the last stage is done, and it is secured exactly where the plan says so.
pub proof fn law_plan_kept<E>(plan: Plan, stage: Stage, outcome: Outcome<E>)
    requires
        plan.has(stage),
    ensures
        plan.step(stage, outcome) matches Step::Continue(next) ==> plan.has(next) && outcome
            is Done,
        plan.step(stage, outcome) matches Step::Finish(kind) ==> stage == plan.last() && outcome
            is Done && (kind == StreamKind::Secured <==> plan == Plan::SecureTunnel),
        outcome is Failed <==> plan.step(stage, outcome) is Fail,
{
}

/// A failure is reported with the error that caused it: the tunnel's as it is, and any
/// other wrapped.
pub proof fn law_failure_reported<E>(plan: Plan, stage: Stage, e: E)
    ensures
        plan.step(stage, Outcome::Failed(e)) matches Step::Fail(f) && match f {
            Failure::Wrapped(w) => stage != Stage::Tunneling && w.error == e,
            Failure::Tunnel(t) => stage == Stage::Tunneling && t == e,
        },
{
}

} // verus!
