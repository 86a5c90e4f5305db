use vstd::prelude::*;

use crate::error::FetchError;
use crate::headers::{
    is_cors_non_wildcard_request_header_name, is_request_body_header_name,
    spec_is_cors_non_wildcard_request_header_name, spec_is_request_body_header_name,
};
use crate::error::FetchErrorView;
use crate::method::{
    lemma_method_name_round_trip, should_change_method, spec_method_name, spec_method_named,
    spec_should_change_method, HttpMethod,
};
use crate::text::{ascii_lowercase, lower_ascii_char, str_equals, to_ascii_lowercase};
use crate::uri::{
    ascii_folded, clone_uri, eq_ignore_ascii_case, is_same_origin, spec_same_origin, ParsedUri,
    UriView,
};

verus! {

/// `hyper::Method`, opaque here.
#[verifier::external_type_specification]
#[verifier::external_body]
pub struct ExMethod(hyper::Method);

/// `http::header::HeaderName` (re-exported by `hyper`), opaque here.
#[verifier::external_type_specification]
#[verifier::external_body]
pub struct ExHeaderName(hyper::header::HeaderName);

/// `http::header::HeaderValue` (re-exported by `hyper`), opaque here.
#[verifier::external_type_specification]
#[verifier::external_body]
pub struct ExHeaderValue(hyper::header::HeaderValue);

/// `hyper::Request`, opaque here.
#[verifier::external_type_specification]
#[verifier::external_body]
#[verifier::reject_recursive_types(T)]
pub struct ExRequest<T>(hyper::Request<T>);

/// `http_body_util::Full`, the single-chunk body of a request, opaque here.
#[verifier::external_type_specification]
#[verifier::external_body]
#[verifier::reject_recursive_types(D)]
pub struct ExFull<D>(http_body_util::Full<D>);

/// `bytes::Bytes`, opaque here.
#[verifier::external_type_specification]
#[verifier::external_body]
pub struct ExBytes(bytes::Bytes);

proof fn lemma_lower_char(c: char)
    ensures
        ascii_folded(c) == lower_ascii_char(c) as u32,
        lower_ascii_char(lower_ascii_char(c)) == lower_ascii_char(c),
        is_header_name_char(c) ==> is_header_name_char(lower_ascii_char(c)),
{
}

/// Two texts are equal up to the case of ASCII letters exactly when their
/// lower-case forms are equal; the lower-case form is its own lower-case
/// form, and a header name that the `http` crate accepts stays accepted.
pub proof fn lemma_ascii_lowercase(a: Seq<char>, b: Seq<char>)
    ensures
        eq_ignore_ascii_case(a, b) <==> ascii_lowercase(a) == ascii_lowercase(b),
        ascii_lowercase(ascii_lowercase(a)) == ascii_lowercase(a),
        header_name_accepted(a) ==> header_name_accepted(ascii_lowercase(a)),
{
    let la = ascii_lowercase(a);
    let lb = ascii_lowercase(b);
    assert forall|i: int| 0 <= i < a.len() implies #[trigger] la[i] == lower_ascii_char(a[i])
        && ascii_folded(a[i]) == la[i] as u32 by {
        lemma_lower_char(a[i]);
    }
    assert forall|i: int| 0 <= i < b.len() implies #[trigger] lb[i] == lower_ascii_char(b[i])
        && ascii_folded(b[i]) == lb[i] as u32 by {
        lemma_lower_char(b[i]);
    }
    if eq_ignore_ascii_case(a, b) {
        assert forall|i: int| 0 <= i < a.len() implies la[i] == lb[i] by {
            assert(ascii_folded(a[i]) == ascii_folded(b[i]));
        }
        assert(la =~= lb);
    }
    if la == lb {
        assert(a.len() == la.len() && b.len() == lb.len());
        assert forall|i: int| 0 <= i < a.len() implies ascii_folded(#[trigger] a[i]) == ascii_folded(
            b[i],
        ) by {
            assert(la[i] == lb[i]);
            assert(lb[i] == lower_ascii_char(b[i]));
        }
    }
    assert forall|i: int| 0 <= i < a.len() implies #[trigger] ascii_lowercase(la)[i] == la[i] by {
        lemma_lower_char(a[i]);
    }
    assert(ascii_lowercase(la) =~= la);
    if header_name_accepted(a) {
        assert forall|i: int| 0 <= i < la.len() implies is_header_name_char(#[trigger] la[i]) by {
            lemma_lower_char(a[i]);
        }
    }
}

/// A header as a name and a value.
pub type HeaderPair = (String, String);

/// The characters of each header's name and value.
pub open spec fn headers_view(hs: Seq<HeaderPair>) -> Seq<(Seq<char>, Seq<char>)> {
    hs.map_values(|h: HeaderPair| (h.0@, h.1@))
}

/// The headers with their names taken to lower case, the form in which
/// fetch reads a header's name.
pub open spec fn lowered_names(hs: Seq<(Seq<char>, Seq<char>)>) -> Seq<(Seq<char>, Seq<char>)> {
    hs.map_values(|h: (Seq<char>, Seq<char>)| (ascii_lowercase(h.0), h.1))
}

/// Whether some header has the given name.
pub open spec fn has_header(hs: Seq<(Seq<char>, Seq<char>)>, name: Seq<char>) -> bool {
    exists|i: int| 0 <= i < hs.len() && (#[trigger] hs[i]).0 == name
}

/// Whether a header given by the caller goes with the request: not a
/// body-describing header when the method turns into `GET`, and not
/// `authorization` when the request goes to another origin than the first.
pub open spec fn forwards_header(name: Seq<char>, change_method: bool, same_origin: bool) -> bool {
    &&& !(change_method && spec_is_request_body_header_name(name))
    &&& !(!same_origin && spec_is_cors_non_wildcard_request_header_name(name))
}

/// The caller's headers that go with the request, in their order.
pub open spec fn forwarded_headers(
    hs: Seq<(Seq<char>, Seq<char>)>,
    change_method: bool,
    same_origin: bool,
) -> Seq<(Seq<char>, Seq<char>)>
    decreases hs.len(),
{
    if hs.len() == 0 {
        seq![]
    } else {
        let rest = forwarded_headers(hs.drop_last(), change_method, same_origin);
        if forwards_header(hs.last().0, change_method, same_origin) {
            rest.push(hs.last())
        } else {
            rest
        }
    }
}

/// The value of the `user-agent` header that fetch adds.
pub open spec fn user_agent_value(version: Seq<char>) -> Seq<char> {
    "llrt "@ + version
}

/// The `user-agent` header that fetch adds: none when the caller gave one.
pub open spec fn default_user_agent(hs: Seq<(Seq<char>, Seq<char>)>, version: Seq<char>) -> Seq<
    (Seq<char>, Seq<char>),
> {
    if has_header(hs, "user-agent"@) {
        seq![]
    } else {
        seq![("user-agent"@, user_agent_value(version))]
    }
}

/// The `accept-encoding` header that fetch adds: none when the caller gave one.
pub open spec fn default_accept_encoding(hs: Seq<(Seq<char>, Seq<char>)>) -> Seq<
    (Seq<char>, Seq<char>),
> {
    if has_header(hs, "accept-encoding"@) {
        seq![]
    } else {
        seq![("accept-encoding"@, "zstd, br, gzip, deflate"@)]
    }
}

/// The `accept` header that fetch adds: none when the caller gave one.
pub open spec fn default_accept(hs: Seq<(Seq<char>, Seq<char>)>) -> Seq<(Seq<char>, Seq<char>)> {
    if has_header(hs, "accept"@) {
        seq![]
    } else {
        seq![("accept"@, "*/*"@)]
    }
}

/// The headers that fetch adds after the caller's, each one only when the
/// caller gave no header of that name (sent or not).
pub open spec fn default_headers(hs: Seq<(Seq<char>, Seq<char>)>, version: Seq<char>) -> Seq<
    (Seq<char>, Seq<char>),
> {
    default_user_agent(hs, version) + default_accept_encoding(hs) + default_accept(hs)
}

/// Each header that goes with the request is one of the caller's, and one
/// that `forwards_header` lets through; each of the caller's headers that
/// it lets through goes with the request.
pub proof fn lemma_forwarded_headers(
    hs: Seq<(Seq<char>, Seq<char>)>,
    change_method: bool,
    same_origin: bool,
)
    ensures
        forall|k: int|
            0 <= k < forwarded_headers(hs, change_method, same_origin).len() ==> {
                &&& forwards_header(
                    (#[trigger] forwarded_headers(hs, change_method, same_origin)[k]).0,
                    change_method,
                    same_origin,
                )
                &&& hs.contains(forwarded_headers(hs, change_method, same_origin)[k])
            },
        forall|j: int|
            0 <= j < hs.len() && forwards_header((#[trigger] hs[j]).0, change_method, same_origin)
                ==> forwarded_headers(hs, change_method, same_origin).contains(hs[j]),
    decreases hs.len(),
{
    if hs.len() > 0 {
        let init = hs.drop_last();
        lemma_forwarded_headers(init, change_method, same_origin);
        let f = forwarded_headers(hs, change_method, same_origin);
        let g = forwarded_headers(init, change_method, same_origin);
        assert forall|k: int| 0 <= k < f.len() implies {
            &&& forwards_header((#[trigger] f[k]).0, change_method, same_origin)
            &&& hs.contains(f[k])
        } by {
            if k < g.len() {
                assert(f[k] == g[k]);
                let j = choose|j: int| 0 <= j < init.len() && init[j] == g[k];
                assert(hs[j] == init[j]);
            } else {
                assert(f[k] == hs.last());
                assert(hs[hs.len() - 1] == hs.last());
            }
        }
        assert forall|j: int|
            0 <= j < hs.len() && forwards_header((#[trigger] hs[j]).0, change_method, same_origin)
            implies f.contains(hs[j]) by {
            if j < hs.len() - 1 {
                assert(init[j] == hs[j]);
                assert(g.contains(init[j]));
                let k = choose|k: int| 0 <= k < g.len() && g[k] == init[j];
                assert(f[k] == g[k]);
            } else {
                assert(f[f.len() - 1] == hs[j]);
            }
        }
    }
}

proof fn lemma_default_header_names()
    ensures
        !spec_is_request_body_header_name("user-agent"@),
        !spec_is_request_body_header_name("accept-encoding"@),
        !spec_is_request_body_header_name("accept"@),
        !spec_is_cors_non_wildcard_request_header_name("user-agent"@),
        !spec_is_cors_non_wildcard_request_header_name("accept-encoding"@),
        !spec_is_cors_non_wildcard_request_header_name("accept"@),
        ascii_lowercase("user-agent"@) == "user-agent"@,
        ascii_lowercase("accept-encoding"@) == "accept-encoding"@,
        ascii_lowercase("accept"@) == "accept"@,
{
    reveal_strlit("user-agent");
    reveal_strlit("accept-encoding");
    reveal_strlit("accept");
    reveal_strlit("authorization");
    reveal_strlit("content-encoding");
    reveal_strlit("content-language");
    reveal_strlit("content-location");
    reveal_strlit("content-type");
    assert("user-agent"@.len() == 10 && "accept-encoding"@.len() == 15 && "accept"@.len() == 6);
    assert("authorization"@.len() == 13 && "content-type"@.len() == 12);
    assert("content-encoding"@.len() == 16 && "content-language"@.len() == 16);
    assert("content-location"@.len() == 16);
    assert(ascii_lowercase("user-agent"@) =~= "user-agent"@);
    assert(ascii_lowercase("accept-encoding"@) =~= "accept-encoding"@);
    assert(ascii_lowercase("accept"@) =~= "accept"@);
}

/// Every request carries a `user-agent`, an `accept-encoding` and an
/// `accept` header: the caller's when it gave one, else fetch's own.
pub proof fn lemma_plan_has_default_headers(
    method: HttpMethod,
    uri: UriView,
    headers: Seq<(Seq<char>, Seq<char>)>,
    body: Seq<u8>,
    prev_status: u16,
    initial_uri: UriView,
    version: Seq<char>,
)
    ensures
        ({
            let plan = spec_plan_request(
                method,
                uri,
                headers,
                body,
                prev_status,
                initial_uri,
                version,
            );
            &&& has_header(plan.headers, "user-agent"@)
            &&& has_header(plan.headers, "accept-encoding"@)
            &&& has_header(plan.headers, "accept"@)
        }),
{
    let change = spec_should_change_method(prev_status, method);
    let same = spec_same_origin(uri, initial_uri);
    let hs = lowered_names(headers);
    let fwd = forwarded_headers(hs, change, same);
    let dflt = default_headers(hs, version);
    let all = fwd + dflt;
    lemma_default_header_names();
    lemma_forwarded_headers(hs, change, same);
    let names = seq!["user-agent"@, "accept-encoding"@, "accept"@];
    assert forall|t: int| 0 <= t < 3 implies has_header(all, #[trigger] names[t]) by {
        let n = names[t];
        if has_header(hs, n) {
            let j = choose|j: int| 0 <= j < hs.len() && (#[trigger] hs[j]).0 == n;
            assert(forwards_header(hs[j].0, change, same));
            assert(fwd.contains(hs[j]));
            let k = choose|k: int| 0 <= k < fwd.len() && fwd[k] == hs[j];
            assert(all[k] == fwd[k]);
        } else {
            let ua = default_user_agent(hs, version);
            let ae = default_accept_encoding(hs);
            if t == 0 {
                assert(all[fwd.len() as int].0 == n);
            } else if t == 1 {
                assert(all[(fwd.len() + ua.len()) as int].0 == n);
            } else {
                assert(all[(fwd.len() + ua.len() + ae.len()) as int].0 == n);
            }
        }
    }
    assert(names[0] == "user-agent"@);
    assert(names[1] == "accept-encoding"@);
    assert(names[2] == "accept"@);
}

/// A request that a redirect turned into a `GET` carries no body and none of
/// the body-describing headers; a request to another origin than the first
/// carries no `authorization` header. Every header name of a request is in
/// lower case, so no header escapes these rules by the case of its name.
pub proof fn lemma_plan_drops_restricted_headers(
    method: HttpMethod,
    uri: UriView,
    headers: Seq<(Seq<char>, Seq<char>)>,
    body: Seq<u8>,
    prev_status: u16,
    initial_uri: UriView,
    version: Seq<char>,
)
    ensures
        ({
            let plan = spec_plan_request(
                method,
                uri,
                headers,
                body,
                prev_status,
                initial_uri,
                version,
            );
            &&& spec_should_change_method(prev_status, method) ==> {
                &&& plan.method == HttpMethod::Get
                &&& plan.body.len() == 0
                &&& forall|k: int|
                    0 <= k < plan.headers.len() ==> !spec_is_request_body_header_name(
                        (#[trigger] plan.headers[k]).0,
                    )
            }
            &&& !spec_same_origin(uri, initial_uri) ==> forall|k: int|
                0 <= k < plan.headers.len() ==> !spec_is_cors_non_wildcard_request_header_name(
                    (#[trigger] plan.headers[k]).0,
                )
            &&& forall|k: int|
                0 <= k < plan.headers.len() ==> ascii_lowercase((#[trigger] plan.headers[k]).0)
                    == plan.headers[k].0
        }),
{
    let change = spec_should_change_method(prev_status, method);
    let same = spec_same_origin(uri, initial_uri);
    let hs = lowered_names(headers);
    let fwd = forwarded_headers(hs, change, same);
    let dflt = default_headers(hs, version);
    let all = fwd + dflt;
    lemma_default_header_names();
    lemma_forwarded_headers(hs, change, same);
    assert forall|k: int| 0 <= k < all.len() implies {
        &&& (change ==> !spec_is_request_body_header_name((#[trigger] all[k]).0))
        &&& (!same ==> !spec_is_cors_non_wildcard_request_header_name(all[k].0))
        &&& ascii_lowercase(all[k].0) == all[k].0
    } by {
        if k < fwd.len() {
            assert(forwards_header(fwd[k].0, change, same));
            let j = choose|j: int| 0 <= j < hs.len() && hs[j] == fwd[k];
            lemma_ascii_lowercase(headers[j].0, headers[j].0);
        } else {
            let d = k - fwd.len();
            assert(all[k] == dflt[d]);
            assert(dflt[d].0 == "user-agent"@ || dflt[d].0 == "accept-encoding"@ || dflt[d].0
                == "accept"@);
        }
    }
}

/// A request to the first request's origin that no redirect turned into a
/// `GET` carries every header the caller gave, in order and with its name
/// in lower case, before fetch's own.
pub proof fn lemma_plan_keeps_headers(
    method: HttpMethod,
    uri: UriView,
    headers: Seq<(Seq<char>, Seq<char>)>,
    body: Seq<u8>,
    prev_status: u16,
    initial_uri: UriView,
    version: Seq<char>,
)
    requires
        spec_same_origin(uri, initial_uri),
        !spec_should_change_method(prev_status, method),
    ensures
        ({
            let plan = spec_plan_request(
                method,
                uri,
                headers,
                body,
                prev_status,
                initial_uri,
                version,
            );
            &&& plan.method == method
            &&& plan.body == body
            &&& plan.headers.take(headers.len() as int) == lowered_names(headers)
        }),
{
    let hs = lowered_names(headers);
    lemma_forwarded_all(hs);
    let plan = spec_plan_request(method, uri, headers, body, prev_status, initial_uri, version);
    assert(plan.headers.take(headers.len() as int) =~= hs);
}

proof fn lemma_forwarded_all(hs: Seq<(Seq<char>, Seq<char>)>)
    ensures
        forwarded_headers(hs, false, true) == hs,
    decreases hs.len(),
{
    if hs.len() > 0 {
        lemma_forwarded_all(hs.drop_last());
        assert(hs.drop_last().push(hs.last()) =~= hs);
    }
}

/// How many of the headers have the given name.
pub open spec fn count_named(hs: Seq<(Seq<char>, Seq<char>)>, name: Seq<char>) -> nat
    decreases hs.len(),
{
    if hs.len() == 0 {
        0
    } else {
        count_named(hs.drop_last(), name) + if hs.last().0 == name {
            1nat
        } else {
            0nat
        }
    }
}

proof fn lemma_count_push(hs: Seq<(Seq<char>, Seq<char>)>, h: (Seq<char>, Seq<char>), name: Seq<char>)
    ensures
        count_named(hs.push(h), name) == count_named(hs, name) + if h.0 == name {
            1nat
        } else {
            0nat
        },
{
    assert(hs.push(h).drop_last() =~= hs);
}

proof fn lemma_count_concat(
    a: Seq<(Seq<char>, Seq<char>)>,
    b: Seq<(Seq<char>, Seq<char>)>,
    name: Seq<char>,
)
    ensures
        count_named(a + b, name) == count_named(a, name) + count_named(b, name),
    decreases b.len(),
{
    if b.len() == 0 {
        assert(a + b =~= a);
    } else {
        lemma_count_concat(a, b.drop_last(), name);
        assert((a + b).drop_last() =~= a + b.drop_last());
        assert((a + b).last() == b.last());
    }
}

proof fn lemma_count_has(hs: Seq<(Seq<char>, Seq<char>)>, name: Seq<char>)
    ensures
        has_header(hs, name) <==> count_named(hs, name) > 0,
    decreases hs.len(),
{
    if hs.len() > 0 {
        let init = hs.drop_last();
        lemma_count_has(init, name);
        if has_header(hs, name) && hs.last().0 != name {
            let k = choose|k: int| 0 <= k < hs.len() && (#[trigger] hs[k]).0 == name;
            assert(k != hs.len() - 1);
            assert(init[k] == hs[k]);
        }
        if has_header(init, name) {
            let k = choose|k: int| 0 <= k < init.len() && (#[trigger] init[k]).0 == name;
            assert(hs[k] == init[k]);
        }
        if hs.last().0 == name {
            assert(hs[hs.len() - 1].0 == name);
        }
    }
}

proof fn lemma_count_forwarded(
    hs: Seq<(Seq<char>, Seq<char>)>,
    change_method: bool,
    same_origin: bool,
    name: Seq<char>,
)
    requires
        forwards_header(name, change_method, same_origin),
    ensures
        count_named(forwarded_headers(hs, change_method, same_origin), name) == count_named(
            hs,
            name,
        ),
    decreases hs.len(),
{
    if hs.len() > 0 {
        let rest = forwarded_headers(hs.drop_last(), change_method, same_origin);
        lemma_count_forwarded(hs.drop_last(), change_method, same_origin, name);
        lemma_count_push(rest, hs.last(), name);
    }
}

/// Fetch adds its `user-agent`, `accept-encoding` or `accept` header only
/// when the caller gave no header of that name (in any case): each of these
/// names is held once more than the caller gave it when the caller gave
/// none, and exactly as often as the caller gave it otherwise.
pub proof fn lemma_plan_default_header_counts(
    method: HttpMethod,
    uri: UriView,
    headers: Seq<(Seq<char>, Seq<char>)>,
    body: Seq<u8>,
    prev_status: u16,
    initial_uri: UriView,
    version: Seq<char>,
)
    ensures
        forall|n: Seq<char>|
            n == "user-agent"@ || n == "accept-encoding"@ || n == "accept"@ ==> #[trigger] count_named(
                spec_plan_request(
                    method,
                    uri,
                    headers,
                    body,
                    prev_status,
                    initial_uri,
                    version,
                ).headers,
                n,
            ) == count_named(lowered_names(headers), n) + if count_named(lowered_names(headers), n)
                == 0 {
                1nat
            } else {
                0nat
            },
{
    let change = spec_should_change_method(prev_status, method);
    let same = spec_same_origin(uri, initial_uri);
    let hs = lowered_names(headers);
    let fwd = forwarded_headers(hs, change, same);
    let ua = default_user_agent(hs, version);
    let ae = default_accept_encoding(hs);
    let ac = default_accept(hs);
    lemma_default_header_names();
    reveal_strlit("user-agent");
    reveal_strlit("accept-encoding");
    reveal_strlit("accept");
    assert("user-agent"@.len() == 10 && "accept-encoding"@.len() == 15 && "accept"@.len() == 6);
    assert forall|n: Seq<char>|
        n == "user-agent"@ || n == "accept-encoding"@ || n == "accept"@ implies #[trigger] count_named(
            fwd + (ua + ae + ac),
            n,
        ) == count_named(hs, n) + if count_named(hs, n) == 0 {
            1nat
        } else {
            0nat
        } by {
        lemma_count_forwarded(hs, change, same, n);
        lemma_count_has(hs, n);
        lemma_count_concat(fwd, ua + ae + ac, n);
        lemma_count_concat(ua + ae, ac, n);
        lemma_count_concat(ua, ae, n);
        let e = Seq::<(Seq<char>, Seq<char>)>::empty();
        lemma_count_push(e, ("user-agent"@, user_agent_value(version)), n);
        lemma_count_push(e, ("accept-encoding"@, "zstd, br, gzip, deflate"@), n);
        lemma_count_push(e, ("accept"@, "*/*"@), n);
        assert(seq![("user-agent"@, user_agent_value(version))] =~= e.push(
            ("user-agent"@, user_agent_value(version)),
        ));
        assert(seq![("accept-encoding"@, "zstd, br, gzip, deflate"@)] =~= e.push(
            ("accept-encoding"@, "zstd, br, gzip, deflate"@),
        ));
        assert(seq![("accept"@, "*/*"@)] =~= e.push(("accept"@, "*/*"@)));
        assert(default_headers(hs, version) == ua + ae + ac);
    }
    assert(spec_plan_request(method, uri, headers, body, prev_status, initial_uri, version).headers
        == fwd + (ua + ae + ac));
}

/// Each header of a request is one of the caller's, with its name in lower
/// case, or one of fetch's own three: `user-agent` with `llrt ` and the
/// version, `accept-encoding` with `zstd, br, gzip, deflate`, and `accept`
/// with `*/*`.
pub proof fn lemma_plan_header_origins(
    method: HttpMethod,
    uri: UriView,
    headers: Seq<(Seq<char>, Seq<char>)>,
    body: Seq<u8>,
    prev_status: u16,
    initial_uri: UriView,
    version: Seq<char>,
)
    ensures
        ({
            let plan = spec_plan_request(
                method,
                uri,
                headers,
                body,
                prev_status,
                initial_uri,
                version,
            );
            forall|k: int|
                0 <= k < plan.headers.len() ==> {
                    ||| lowered_names(headers).contains(#[trigger] plan.headers[k])
                    ||| plan.headers[k] == ("user-agent"@, "llrt "@ + version)
                    ||| plan.headers[k] == ("accept-encoding"@, "zstd, br, gzip, deflate"@)
                    ||| plan.headers[k] == ("accept"@, "*/*"@)
                }
        }),
{
    let change = spec_should_change_method(prev_status, method);
    let same = spec_same_origin(uri, initial_uri);
    let hs = lowered_names(headers);
    let fwd = forwarded_headers(hs, change, same);
    let d = default_headers(hs, version);
    let all = fwd + d;
    lemma_forwarded_headers(hs, change, same);
    let ua = default_user_agent(hs, version);
    let ae = default_accept_encoding(hs);
    assert forall|k: int| 0 <= k < all.len() implies {
        ||| hs.contains(#[trigger] all[k])
        ||| all[k] == ("user-agent"@, "llrt "@ + version)
        ||| all[k] == ("accept-encoding"@, "zstd, br, gzip, deflate"@)
        ||| all[k] == ("accept"@, "*/*"@)
    } by {
        if k >= fwd.len() {
            let j = k - fwd.len();
            assert(all[k] == d[j]);
            if j < ua.len() {
                assert(d[j] == ua[j]);
            } else if j < ua.len() + ae.len() {
                assert(d[j] == ae[j - ua.len()]);
            } else {
                assert(d[j] == default_accept(hs)[j - ua.len() - ae.len()]);
            }
        }
    }
}

/// What one request of a fetch carries.
#[derive(Debug)]
pub struct RequestPlan {
    pub method: HttpMethod,
    /// The URI, as the `http` crate writes it.
    pub uri: String,
    /// The parsed URI itself.
    pub target: hyper::Uri,
    pub headers: Vec<HeaderPair>,
    pub body: Vec<u8>,
}

/// The model of a [`RequestPlan`].
pub struct RequestPlanView {
    pub method: HttpMethod,
    pub uri: Seq<char>,
    pub target: hyper::Uri,
    pub headers: Seq<(Seq<char>, Seq<char>)>,
    pub body: Seq<u8>,
}

impl View for RequestPlan {
    type V = RequestPlanView;

    open spec fn view(&self) -> RequestPlanView {
        RequestPlanView {
            method: self.method,
            uri: self.uri@,
            target: self.target,
            headers: headers_view(self.headers@),
            body: self.body@,
        }
    }
}

/// The request that fetch sends to `uri`, after a response with status
/// `prev_status` (0 for the first request), for a fetch that asked for
/// `method`, `headers` and `body` at `initial_uri`. Header names are read
/// in lower case, as the `http` crate keeps them.
pub open spec fn spec_plan_request(
    method: HttpMethod,
    uri: UriView,
    headers: Seq<(Seq<char>, Seq<char>)>,
    body: Seq<u8>,
    prev_status: u16,
    initial_uri: UriView,
    version: Seq<char>,
) -> RequestPlanView {
    let change = spec_should_change_method(prev_status, method);
    let same = spec_same_origin(uri, initial_uri);
    let hs = lowered_names(headers);
    RequestPlanView {
        method: if change { HttpMethod::Get } else { method },
        uri: uri.text,
        target: uri.target,
        headers: forwarded_headers(hs, change, same) + default_headers(hs, version),
        body: if change { seq![] } else { body },
    }
}

fn copy_bytes(v: &Vec<u8>) -> (r: Vec<u8>)
    ensures
        r@ == v@,
{
    let mut r: Vec<u8> = Vec::new();
    let mut i: usize = 0;
    while i < v.len()
        invariant
            i <= v.len(),
            r@ == v@.take(i as int),
        decreases v.len() - i,
    {
        r.push(v[i]);
        i = i + 1;
        assert(r@ =~= v@.take(i as int));
    }
    assert(v@.take(i as int) =~= v@);
    r
}

/// Decides the method, headers and body of one request of a fetch.
pub fn plan_request(
    method: &HttpMethod,
    uri: &ParsedUri,
    headers: &Vec<HeaderPair>,
    body: &Vec<u8>,
    prev_status: u16,
    initial_uri: &ParsedUri,
    version: &str,
) -> (r: RequestPlan)
    ensures
        r@ == spec_plan_request(
            *method,
            uri@,
            headers_view(headers@),
            body@,
            prev_status,
            initial_uri@,
            version@,
        ),
{
    let same_origin = is_same_origin(uri, initial_uri);
    let change_method = should_change_method(prev_status, method);
    let ghost hv = lowered_names(headers_view(headers@));
    let mut out: Vec<HeaderPair> = Vec::new();
    let mut has_user_agent = false;
    let mut has_accept_encoding = false;
    let mut has_accept = false;
    let mut i: usize = 0;
    while i < headers.len()
        invariant
            i <= headers.len(),
            hv == lowered_names(headers_view(headers@)),
            headers_view(out@) == forwarded_headers(hv.take(i as int), change_method, same_origin),
            has_user_agent == has_header(hv.take(i as int), "user-agent"@),
            has_accept_encoding == has_header(hv.take(i as int), "accept-encoding"@),
            has_accept == has_header(hv.take(i as int), "accept"@),
        decreases headers.len() - i,
    {
        let name = to_ascii_lowercase(headers[i].0.as_str());
        let value = &headers[i].1;
        let ghost prev = hv.take(i as int);
        let ghost next = hv.take(i + 1);
        assert(next.drop_last() =~= prev);
        assert(next.last() == hv[i as int]);
        assert(hv[i as int] == (name@, value@));
        if str_equals(name.as_str(), "user-agent") {
            has_user_agent = true;
        }
        if str_equals(name.as_str(), "accept-encoding") {
            has_accept_encoding = true;
        }
        if str_equals(name.as_str(), "accept") {
            has_accept = true;
        }
        proof {
            assert forall|n: Seq<char>| has_header(next, n) == (has_header(prev, n) || name@ == n) by {
                if has_header(next, n) {
                    let k = choose|k: int| 0 <= k < next.len() && (#[trigger] next[k]).0 == n;
                    if k < prev.len() {
                        assert(prev[k] == next[k]);
                    }
                }
                if has_header(prev, n) {
                    let k = choose|k: int| 0 <= k < prev.len() && (#[trigger] prev[k]).0 == n;
                    assert(next[k] == prev[k]);
                }
                if name@ == n {
                    assert(next[i as int].0 == n);
                }
            }
        }
        let skip_body_header = change_method && is_request_body_header_name(name.as_str());
        let skip_cors_header = !same_origin && is_cors_non_wildcard_request_header_name(
            name.as_str(),
        );
        if !skip_body_header && !skip_cors_header {
            out.push((name, value.clone()));
        }
        assert(headers_view(out@) =~= forwarded_headers(next, change_method, same_origin));
        i = i + 1;
    }
    assert(hv.take(headers.len() as int) =~= hv);
    if !has_user_agent {
        out.push((String::from_str("user-agent"), String::from_str("llrt ").concat(version)));
    }
    if !has_accept_encoding {
        out.push((String::from_str("accept-encoding"), String::from_str("zstd, br, gzip, deflate")));
    }
    if !has_accept {
        out.push((String::from_str("accept"), String::from_str("*/*")));
    }
    let (method_to_use, req_body) = if change_method {
        (HttpMethod::Get, Vec::new())
    } else {
        (*method, copy_bytes(body))
    };
    let plan = RequestPlan {
        method: method_to_use,
        uri: uri.text.clone(),
        target: clone_uri(&uri.target),
        headers: out,
        body: req_body,
    };
    assert(plan@.headers =~= spec_plan_request(
        *method,
        uri@,
        headers_view(headers@),
        body@,
        prev_status,
        initial_uri@,
        version@,
    ).headers);
    plan
}

/// Whether a character may stand in a header name (an HTTP token character).
pub open spec fn is_header_name_char(c: char) -> bool {
    ||| c == '!' || c == '#' || c == '$' || c == '%' || c == '&' || c == '\''
    ||| c == '*' || c == '+' || c == '-' || c == '.' || c == '^' || c == '_'
    ||| c == '`' || c == '|' || c == '~'
    ||| ('0' <= c && c <= '9') || ('a' <= c && c <= 'z') || ('A' <= c && c <= 'Z')
}

/// Whether `HeaderName::from_bytes` accepts the bytes of the text: one to
/// 65535 token characters.
pub open spec fn header_name_accepted(name: Seq<char>) -> bool {
    &&& 1 <= name.len() <= 65535
    &&& forall|i: int| 0 <= i < name.len() ==> is_header_name_char(#[trigger] name[i])
}

/// Whether a character may stand in a header value: a tab, or anything
/// from the space on but DEL.
pub open spec fn is_header_value_char(c: char) -> bool {
    c == '\t' || (c as u32 >= 32 && c as u32 != 127)
}

/// Whether `HeaderValue::from_bytes` accepts the bytes of the text.
pub open spec fn header_value_accepted(value: Seq<char>) -> bool {
    forall|i: int| 0 <= i < value.len() ==> is_header_value_char(#[trigger] value[i])
}

/// Whether the `http` crate accepts a header's name and value.
pub open spec fn header_accepted(h: (Seq<char>, Seq<char>)) -> bool {
    header_name_accepted(h.0) && header_value_accepted(h.1)
}

/// How `http::Error` (and `InvalidHeaderName`) describes a refused header name.
pub open spec fn invalid_header_name_message() -> Seq<char> {
    "invalid HTTP header name"@
}

/// How `http::Error` (and `InvalidHeaderValue`) describes a refused header value.
pub open spec fn invalid_header_value_message() -> Seq<char> {
    "failed to parse header value"@
}

/// How `http::Error` (and `MaxSizeReached`) describes a header table that is full.
pub open spec fn max_size_message() -> Seq<char> {
    "max size reached"@
}

/// How many distinct header names a request holds before its header table
/// may refuse a new one: below it, `HeaderMap::try_append` neither grows
/// its index past its largest size nor runs out of entries.
pub open spec fn header_table_room() -> nat {
    6554
}

/// The description of the first header, in order, whose name or value the
/// `http` crate refuses (a name is checked before its value), if any.
pub open spec fn first_header_refusal(hs: Seq<(Seq<char>, Seq<char>)>) -> Option<Seq<char>>
    decreases hs.len(),
{
    if hs.len() == 0 {
        None
    } else if !header_name_accepted(hs[0].0) {
        Some(invalid_header_name_message())
    } else if !header_value_accepted(hs[0].1) {
        Some(invalid_header_value_message())
    } else {
        first_header_refusal(hs.drop_first())
    }
}

/// No header is refused exactly when the `http` crate accepts every one.
pub proof fn lemma_no_refusal_iff_all_accepted(hs: Seq<(Seq<char>, Seq<char>)>)
    ensures
        first_header_refusal(hs) is None <==> forall|i: int|
            0 <= i < hs.len() ==> header_accepted(#[trigger] hs[i]),
    decreases hs.len(),
{
    if hs.len() > 0 {
        lemma_no_refusal_iff_all_accepted(hs.drop_first());
        if forall|i: int| 0 <= i < hs.len() ==> header_accepted(#[trigger] hs[i]) {
            assert forall|i: int| 0 <= i < hs.drop_first().len() implies header_accepted(
                #[trigger] hs.drop_first()[i],
            ) by {
                assert(hs.drop_first()[i] == hs[i + 1]);
            }
            assert(header_accepted(hs[0]));
        }
        if first_header_refusal(hs) is None {
            assert forall|i: int| 0 <= i < hs.len() implies header_accepted(#[trigger] hs[i]) by {
                if i > 0 {
                    assert(hs[i] == hs.drop_first()[i - 1]);
                }
            }
        }
    }
}

/// The `Method` that `Method::from_bytes` gives for the bytes of the name.
pub uninterp spec fn parsed_method(name: Seq<char>) -> hyper::Method;

/// The `HeaderName` that `HeaderName::from_bytes` gives for the bytes of the text.
pub uninterp spec fn parsed_header_name(name: Seq<char>) -> hyper::header::HeaderName;

/// The `HeaderValue` that `HeaderValue::from_bytes` gives for the bytes of the text.
pub uninterp spec fn parsed_header_value(value: Seq<char>) -> hyper::header::HeaderValue;

/// The method of a request (`Request::method`).
pub uninterp spec fn request_method(q: hyper::Request<http_body_util::Full<bytes::Bytes>>) -> hyper::Method;

/// The URI of a request (`Request::uri`).
pub uninterp spec fn request_uri(q: hyper::Request<http_body_util::Full<bytes::Bytes>>) -> hyper::Uri;

/// What the header map of a request holds (`Request::headers`): for each
/// name, its values in the order they were appended (`HeaderMap::get_all`).
pub uninterp spec fn request_headers(q: hyper::Request<http_body_util::Full<bytes::Bytes>>) -> Map<
    hyper::header::HeaderName,
    Seq<hyper::header::HeaderValue>,
>;

/// The bytes of the body of a request.
pub uninterp spec fn request_body(q: hyper::Request<http_body_util::Full<bytes::Bytes>>) -> Seq<u8>;

/// A header table that holds no header.
pub open spec fn empty_header_table() -> Map<hyper::header::HeaderName, Seq<hyper::header::HeaderValue>> {
    Map::empty()
}

/// A header table with one more value appended under a name.
pub open spec fn append_value(
    m: Map<hyper::header::HeaderName, Seq<hyper::header::HeaderValue>>,
    name: hyper::header::HeaderName,
    value: hyper::header::HeaderValue,
) -> Map<hyper::header::HeaderName, Seq<hyper::header::HeaderValue>> {
    if m.contains_key(name) {
        m.insert(name, m[name].push(value))
    } else {
        m.insert(name, seq![value])
    }
}

/// The header table that appending the headers in order gives, from empty.
pub open spec fn header_table(hs: Seq<(hyper::header::HeaderName, hyper::header::HeaderValue)>) -> Map<
    hyper::header::HeaderName,
    Seq<hyper::header::HeaderValue>,
>
    decreases hs.len(),
{
    if hs.len() == 0 {
        empty_header_table()
    } else {
        append_value(header_table(hs.drop_last()), hs.last().0, hs.last().1)
    }
}

/// The `http` crate's names and values for the headers' texts.
pub open spec fn parsed_headers(hs: Seq<(Seq<char>, Seq<char>)>) -> Seq<
    (hyper::header::HeaderName, hyper::header::HeaderValue),
> {
    hs.map_values(|h: (Seq<char>, Seq<char>)| (parsed_header_name(h.0), parsed_header_value(h.1)))
}

/// A header table built from `n` headers is finite and has at most `n` names.
pub proof fn lemma_header_table_size(hs: Seq<(hyper::header::HeaderName, hyper::header::HeaderValue)>)
    ensures
        header_table(hs).dom().finite(),
        header_table(hs).dom().len() <= hs.len(),
    decreases hs.len(),
{
    if hs.len() > 0 {
        lemma_header_table_size(hs.drop_last());
    }
}

/// A name is held in the header table exactly when some header has it.
pub proof fn lemma_header_table_names(hs: Seq<(hyper::header::HeaderName, hyper::header::HeaderValue)>)
    ensures
        forall|n: hyper::header::HeaderName|
            #[trigger] header_table(hs).dom().contains(n) <==> exists|k: int|
                0 <= k < hs.len() && (#[trigger] hs[k]).0 == n,
    decreases hs.len(),
{
    if hs.len() > 0 {
        let init = hs.drop_last();
        lemma_header_table_names(init);
        assert(header_table(hs).dom() =~= header_table(init).dom().insert(hs.last().0));
        assert forall|n: hyper::header::HeaderName|
            #[trigger] header_table(hs).dom().contains(n) <==> exists|k: int|
                0 <= k < hs.len() && (#[trigger] hs[k]).0 == n by {
            if header_table(hs).dom().contains(n) && n != hs.last().0 {
                assert(header_table(init).dom().contains(n));
                let k = choose|k: int| 0 <= k < init.len() && (#[trigger] init[k]).0 == n;
                assert(hs[k] == init[k]);
            }
            if n == hs.last().0 {
                assert(hs[hs.len() - 1].0 == n);
            }
            if exists|k: int| 0 <= k < hs.len() && (#[trigger] hs[k]).0 == n {
                let k = choose|k: int| 0 <= k < hs.len() && (#[trigger] hs[k]).0 == n;
                if k < hs.len() - 1 {
                    assert(init[k] == hs[k]);
                }
            }
        }
    }
}

/// Appending only the first headers gives a table with no more names than
/// appending them all.
proof fn lemma_header_table_prefix(
    hs: Seq<(hyper::header::HeaderName, hyper::header::HeaderValue)>,
    i: int,
)
    requires
        0 <= i <= hs.len(),
    ensures
        header_table(hs.take(i)).dom().len() <= header_table(hs).dom().len(),
{
    let pre = hs.take(i);
    lemma_header_table_names(pre);
    lemma_header_table_names(hs);
    lemma_header_table_size(hs);
    assert forall|n: hyper::header::HeaderName|
        header_table(pre).dom().contains(n) implies header_table(hs).dom().contains(n) by {
        let k = choose|k: int| 0 <= k < pre.len() && (#[trigger] pre[k]).0 == n;
        assert(hs[k] == pre[k]);
    }
    vstd::set_lib::lemma_len_subset(header_table(pre).dom(), header_table(hs).dom());
}

/// Whether the `http` crate's name for each header's text is the name of
/// exactly the accepted texts that are equal to that text up to ASCII case.
pub open spec fn names_fold_case(hs: Seq<(Seq<char>, Seq<char>)>) -> bool {
    forall|k: int, t: Seq<char>|
        #![trigger hs[k], parsed_header_name(t)]
        0 <= k < hs.len() && header_name_accepted(t) ==> (parsed_header_name(t)
            == parsed_header_name(hs[k].0) <==> eq_ignore_ascii_case(t, hs[k].0))
}

/// Whether a request is the one that a plan describes: the plan's method,
/// its parsed URI, its headers appended in order, and its body.
pub open spec fn request_matches_plan(
    q: hyper::Request<http_body_util::Full<bytes::Bytes>>,
    plan: RequestPlanView,
) -> bool {
    &&& request_method(q) == parsed_method(spec_method_name(plan.method))
    &&& request_uri(q) == plan.target
    &&& request_headers(q) == header_table(parsed_headers(plan.headers))
    &&& request_body(q) == plan.body
}

/// What assembling the request of a plan gives: the request that the plan
/// describes, or a failure. It succeeds when the `http` crate accepts every
/// header and the headers fall under fewer than `header_table_room()`
/// distinct names; it fails
/// on the first header whose name or value is refused, with that refusal's
/// description, unless the header table refused an earlier header ("max
/// size reached"); and the table is the only other cause of failure. On
/// success, the name under which each header is held is that of every text
/// equal to the header's name up to ASCII case.
pub open spec fn assembly_outcome(
    plan: RequestPlanView,
    r: Result<hyper::Request<http_body_util::Full<bytes::Bytes>>, FetchError>,
) -> bool {
    &&& r matches Ok(q) ==> first_header_refusal(plan.headers) is None && request_matches_plan(
        q,
        plan,
    ) && names_fold_case(plan.headers)
    &&& first_header_refusal(plan.headers) is None && header_table(
        parsed_headers(plan.headers),
    ).dom().len() < header_table_room() ==> r is Ok
    &&& match first_header_refusal(plan.headers) {
        Some(m) => r matches Err(e) && (e@ == FetchErrorView::InvalidRequest(m) || e@
            == FetchErrorView::InvalidRequest(max_size_message())),
        None => r is Ok || (r matches Err(e) && e@ == FetchErrorView::InvalidRequest(
            max_size_message(),
        )),
    }
}

proof fn lemma_default_headers_accepted(hs: Seq<(Seq<char>, Seq<char>)>, version: Seq<char>)
    requires
        header_value_accepted(version),
    ensures
        forall|k: int|
            0 <= k < default_headers(hs, version).len() ==> header_accepted(
                #[trigger] default_headers(hs, version)[k],
            ),
        default_headers(hs, version).len() <= 3,
{
    reveal_strlit("user-agent");
    reveal_strlit("accept-encoding");
    reveal_strlit("accept");
    reveal_strlit("llrt ");
    reveal_strlit("zstd, br, gzip, deflate");
    reveal_strlit("*/*");
    assert("user-agent"@ =~= seq!['u', 's', 'e', 'r', '-', 'a', 'g', 'e', 'n', 't']);
    assert("accept-encoding"@ =~= seq![
        'a', 'c', 'c', 'e', 'p', 't', '-', 'e', 'n', 'c', 'o', 'd', 'i', 'n', 'g',
    ]);
    assert("accept"@ =~= seq!['a', 'c', 'c', 'e', 'p', 't']);
    assert("llrt "@ =~= seq!['l', 'l', 'r', 't', ' ']);
    assert("zstd, br, gzip, deflate"@ =~= seq![
        'z', 's', 't', 'd', ',', ' ', 'b', 'r', ',', ' ', 'g', 'z', 'i', 'p', ',', ' ', 'd', 'e',
        'f', 'l', 'a', 't', 'e',
    ]);
    assert("*/*"@ =~= seq!['*', '/', '*']);
    assert(header_accepted(("user-agent"@, user_agent_value(version)))) by {
        let v = user_agent_value(version);
        assert forall|i: int| 0 <= i < v.len() implies is_header_value_char(#[trigger] v[i]) by {
            if i >= 5 {
                assert(v[i] == version[i - 5]);
            }
        }
    }
    assert(header_accepted(("accept-encoding"@, "zstd, br, gzip, deflate"@)));
    assert(header_accepted(("accept"@, "*/*"@)));
    let ua = default_user_agent(hs, version);
    let ae = default_accept_encoding(hs);
    let ac = default_accept(hs);
    let d = default_headers(hs, version);
    assert forall|k: int| 0 <= k < d.len() implies header_accepted(#[trigger] d[k]) by {
        if k < ua.len() {
            assert(d[k] == ua[k]);
        } else if k < ua.len() + ae.len() {
            assert(d[k] == ae[k - ua.len()]);
        } else {
            assert(d[k] == ac[k - ua.len() - ae.len()]);
        }
    }
}

proof fn lemma_forwarded_len(hs: Seq<(Seq<char>, Seq<char>)>, change_method: bool, same_origin: bool)
    ensures
        forwarded_headers(hs, change_method, same_origin).len() <= hs.len(),
    decreases hs.len(),
{
    if hs.len() > 0 {
        lemma_forwarded_len(hs.drop_last(), change_method, same_origin);
    }
}

/// The `http` crate accepts every header of a request whenever it accepts
/// each header that the caller gave and the text of `version` as a header
/// value: fetch's own headers are always accepted, and at most three are
/// added, so the request's headers fall under at most three more names than
/// the caller gave headers.
pub proof fn lemma_plan_headers_accepted(
    method: HttpMethod,
    uri: UriView,
    headers: Seq<(Seq<char>, Seq<char>)>,
    body: Seq<u8>,
    prev_status: u16,
    initial_uri: UriView,
    version: Seq<char>,
)
    requires
        forall|i: int| 0 <= i < headers.len() ==> header_accepted(#[trigger] headers[i]),
        header_value_accepted(version),
    ensures
        ({
            let plan = spec_plan_request(
                method,
                uri,
                headers,
                body,
                prev_status,
                initial_uri,
                version,
            );
            &&& first_header_refusal(plan.headers) is None
            &&& plan.headers.len() <= headers.len() + 3
            &&& header_table(parsed_headers(plan.headers)).dom().len() <= headers.len() + 3
        }),
{
    let change = spec_should_change_method(prev_status, method);
    let same = spec_same_origin(uri, initial_uri);
    let hs = lowered_names(headers);
    let fwd = forwarded_headers(hs, change, same);
    let d = default_headers(hs, version);
    let all = fwd + d;
    lemma_forwarded_headers(hs, change, same);
    lemma_forwarded_len(hs, change, same);
    lemma_default_headers_accepted(hs, version);
    lemma_header_table_size(parsed_headers(all));
    assert forall|k: int| 0 <= k < all.len() implies header_accepted(#[trigger] all[k]) by {
        if k < fwd.len() {
            let j = choose|j: int| 0 <= j < hs.len() && hs[j] == fwd[k];
            assert(header_accepted(headers[j]));
            lemma_ascii_lowercase(headers[j].0, headers[j].0);
        } else {
            assert(all[k] == d[k - fwd.len()]);
        }
    }
    lemma_no_refusal_iff_all_accepted(all);
}

/// Calls `Method::from_bytes` on the bytes of a method name, and turns a
/// refusal into the `Display` text of `InvalidMethod`. The seven names that
/// fetch sends are among the standard ones that `from_bytes` recognizes.
#[verifier::external_body]
fn to_method(name: &str) -> (r: Result<hyper::Method, String>)
    ensures
        spec_method_named(name@) is Some ==> r is Ok,
        r matches Ok(m) ==> m == parsed_method(name@),
{
    match hyper::Method::from_bytes(name.as_bytes()) {
        Ok(m) => Ok(m),
        Err(e) => Err(e.to_string()),
    }
}

/// Calls `HeaderName::from_bytes` on the bytes of a header name; a refusal
/// is described by `InvalidHeaderName`'s `Display`, a fixed text. The name
/// it gives holds the text with ASCII letters in lower case, so two accepted
/// texts give the same name exactly when they are equal up to ASCII case.
#[verifier::external_body]
fn to_header_name(name: &str) -> (r: Result<hyper::header::HeaderName, String>)
    ensures
        r is Ok <==> header_name_accepted(name@),
        r matches Ok(n) ==> n == parsed_header_name(name@),
        r matches Ok(n) ==> forall|t: Seq<char>|
            header_name_accepted(t) ==> (#[trigger] parsed_header_name(t) == n
                <==> eq_ignore_ascii_case(t, name@)),
        r matches Err(m) ==> m@ == invalid_header_name_message(),
{
    match hyper::header::HeaderName::from_bytes(name.as_bytes()) {
        Ok(n) => Ok(n),
        Err(e) => Err(e.to_string()),
    }
}

/// Calls `HeaderValue::from_bytes` on the bytes of a header value; a refusal
/// is described by `InvalidHeaderValue`'s `Display`, a fixed text.
#[verifier::external_body]
fn to_header_value(value: &str) -> (r: Result<hyper::header::HeaderValue, String>)
    ensures
        r is Ok <==> header_value_accepted(value@),
        r matches Ok(v) ==> v == parsed_header_value(value@),
        r matches Err(m) ==> m@ == invalid_header_value_message(),
{
    match hyper::header::HeaderValue::from_bytes(value.as_bytes()) {
        Ok(v) => Ok(v),
        Err(e) => Err(e.to_string()),
    }
}

/// Calls `Request::new` with a `Full` body made of the bytes: a request
/// with that body and no headers (its method and URI, `GET` and `/`, are
/// not stated).
#[verifier::external_body]
fn new_request(body: Vec<u8>) -> (r: hyper::Request<http_body_util::Full<bytes::Bytes>>)
    ensures
        request_headers(r) == empty_header_table(),
        request_body(r) == body@,
{
    hyper::Request::new(http_body_util::Full::from(body))
}

/// Sets the method of a request through `Request::method_mut`, leaving the
/// rest of it as it was.
#[verifier::external_body]
fn set_request_method(req: &mut hyper::Request<http_body_util::Full<bytes::Bytes>>, method: hyper::Method)
    ensures
        request_method(*final(req)) == method,
        request_uri(*final(req)) == request_uri(*old(req)),
        request_headers(*final(req)) == request_headers(*old(req)),
        request_body(*final(req)) == request_body(*old(req)),
{
    *req.method_mut() = method;
}

/// Sets the URI of a request through `Request::uri_mut`, leaving the rest
/// of it as it was.
#[verifier::external_body]
fn set_request_uri(req: &mut hyper::Request<http_body_util::Full<bytes::Bytes>>, uri: hyper::Uri)
    ensures
        request_uri(*final(req)) == uri,
        request_method(*final(req)) == request_method(*old(req)),
        request_headers(*final(req)) == request_headers(*old(req)),
        request_body(*final(req)) == request_body(*old(req)),
{
    *req.uri_mut() = uri;
}

/// Appends a header to a request through `Request::headers_mut` and
/// `HeaderMap::try_append`: the value goes after those already held under
/// the name. The only error is `MaxSizeReached` (its `Display` is a fixed
/// text), which leaves the headers as they were and cannot arise while the
/// map holds fewer than `header_table_room()` names.
#[verifier::external_body]
fn append_request_header(
    req: &mut hyper::Request<http_body_util::Full<bytes::Bytes>>,
    name: hyper::header::HeaderName,
    value: hyper::header::HeaderValue,
) -> (r: Result<(), String>)
    ensures
        request_headers(*old(req)).dom().finite() && request_headers(*old(req)).dom().len()
            < header_table_room() ==> r is Ok,
        r is Ok ==> request_headers(*final(req)) == append_value(
            request_headers(*old(req)),
            name,
            value,
        ),
        r is Err ==> request_headers(*final(req)) == request_headers(*old(req)),
        r matches Err(m) ==> m@ == max_size_message(),
        request_method(*final(req)) == request_method(*old(req)),
        request_uri(*final(req)) == request_uri(*old(req)),
        request_body(*final(req)) == request_body(*old(req)),
{
    match req.headers_mut().try_append(name, value) {
        Ok(_) => Ok(()),
        Err(e) => Err(e.to_string()),
    }
}

/// Assembles the `hyper` request that a plan describes: its method, URI,
/// headers in order, and body; see [`assembly_outcome`] for when it fails.
pub fn assemble_request(plan: RequestPlan) -> (r: Result<
    hyper::Request<http_body_util::Full<bytes::Bytes>>,
    FetchError,
>)
    ensures
        assembly_outcome(plan@, r),
{
    let ghost pv = plan@;
    let ghost hv = plan@.headers;
    proof {
        lemma_method_name_round_trip(plan.method);
    }
    let method = match to_method(plan.method.name()) {
        Ok(m) => m,
        Err(e) => {
            return Err(FetchError::InvalidRequest(e));
        },
    };
    let RequestPlan { method: _, uri: _, target, headers, body } = plan;
    let mut req = new_request(body);
    set_request_method(&mut req, method);
    set_request_uri(&mut req, target);
    assert(hv.skip(0) =~= hv);
    assert(parsed_headers(hv.take(0)) =~= Seq::<
        (hyper::header::HeaderName, hyper::header::HeaderValue),
    >::empty());
    let mut i: usize = 0;
    while i < headers.len()
        invariant
            i <= headers.len(),
            hv == headers_view(headers@),
            hv == pv.headers,
            pv == plan@,
            first_header_refusal(hv) == first_header_refusal(hv.skip(i as int)),
            request_headers(req) == header_table(parsed_headers(hv.take(i as int))),
            names_fold_case(hv.take(i as int)),
            request_method(req) == parsed_method(spec_method_name(pv.method)),
            request_uri(req) == pv.target,
            request_body(req) == pv.body,
        decreases headers.len() - i,
    {
        let ghost rest = hv.skip(i as int);
        assert(rest.drop_first() =~= hv.skip(i + 1));
        assert(rest[0] == (headers[i as int].0@, headers[i as int].1@));
        let name = match to_header_name(headers[i].0.as_str()) {
            Ok(n) => n,
            Err(m) => {
                assert(first_header_refusal(rest) == Some(invalid_header_name_message()));
                return Err(FetchError::InvalidRequest(m));
            },
        };
        let value = match to_header_value(headers[i].1.as_str()) {
            Ok(v) => v,
            Err(m) => {
                assert(first_header_refusal(rest) == Some(invalid_header_value_message()));
                return Err(FetchError::InvalidRequest(m));
            },
        };
        assert(first_header_refusal(rest) == first_header_refusal(hv.skip(i + 1)));
        let ghost before = parsed_headers(hv.take(i as int));
        let ghost after = parsed_headers(hv.take(i + 1));
        proof {
            lemma_header_table_size(before);
            assert(after.drop_last() =~= before);
            assert(after.last() == (name, value));
            assert(parsed_headers(hv).take(i as int) =~= before);
            lemma_header_table_prefix(parsed_headers(hv), i as int);
            let pre = hv.take(i as int);
            let next = hv.take(i + 1);
            assert forall|k: int, t: Seq<char>|
                #![trigger next[k], parsed_header_name(t)]
                0 <= k < next.len() && header_name_accepted(t) implies (parsed_header_name(t)
                == parsed_header_name(next[k].0) <==> eq_ignore_ascii_case(t, next[k].0)) by {
                if k < i {
                    assert(next[k] == pre[k]);
                } else {
                    assert(next[k] == rest[0]);
                }
            }
        }
        match append_request_header(&mut req, name, value) {
            Ok(()) => {},
            Err(m) => {
                return Err(FetchError::InvalidRequest(m));
            },
        }
        i = i + 1;
    }
    assert(hv.skip(headers.len() as int).len() == 0);
    assert(hv.take(headers.len() as int) =~= hv);
    Ok(req)
}

/// Builds one request of a fetch: decides it with [`plan_request`] and
/// assembles it with [`assemble_request`], so that it fails only on the
/// planned headers as [`assembly_outcome`] says.
pub fn build_request(
    method: &HttpMethod,
    uri: &ParsedUri,
    headers: &Vec<HeaderPair>,
    body: &Vec<u8>,
    prev_status: u16,
    initial_uri: &ParsedUri,
    version: &str,
) -> (r: Result<hyper::Request<http_body_util::Full<bytes::Bytes>>, FetchError>)
    ensures
        assembly_outcome(
            spec_plan_request(
                *method,
                uri@,
                headers_view(headers@),
                body@,
                prev_status,
                initial_uri@,
                version@,
            ),
            r,
        ),
{
    let plan = plan_request(method, uri, headers, body, prev_status, initial_uri, version);
    assemble_request(plan)
}

/// A request that a redirect turned into a `GET` is sent with an empty body
/// and holds no body-describing header, whatever the case of the name the
/// caller gave it; a request to another origin than the first holds no
/// `authorization` header, whatever its case.
pub proof fn lemma_request_drops_restricted_headers(
    method: HttpMethod,
    uri: UriView,
    headers: Seq<(Seq<char>, Seq<char>)>,
    body: Seq<u8>,
    prev_status: u16,
    initial_uri: UriView,
    version: Seq<char>,
    q: hyper::Request<http_body_util::Full<bytes::Bytes>>,
)
    requires
        assembly_outcome(
            spec_plan_request(method, uri, headers, body, prev_status, initial_uri, version),
            Ok(q),
        ),
    ensures
        spec_should_change_method(prev_status, method) ==> {
            &&& request_body(q) == Seq::<u8>::empty()
            &&& forall|t: Seq<char>|
                header_name_accepted(t) && spec_is_request_body_header_name(ascii_lowercase(t))
                    ==> !request_headers(q).dom().contains(#[trigger] parsed_header_name(t))
        },
        !spec_same_origin(uri, initial_uri) ==> forall|t: Seq<char>|
            header_name_accepted(t) && spec_is_cors_non_wildcard_request_header_name(
                ascii_lowercase(t),
            ) ==> !request_headers(q).dom().contains(#[trigger] parsed_header_name(t)),
{
    let plan = spec_plan_request(method, uri, headers, body, prev_status, initial_uri, version);
    let ps = parsed_headers(plan.headers);
    lemma_plan_drops_restricted_headers(
        method,
        uri,
        headers,
        body,
        prev_status,
        initial_uri,
        version,
    );
    lemma_header_table_names(ps);
    assert forall|t: Seq<char>|
        header_name_accepted(t) && #[trigger] request_headers(q).dom().contains(
            parsed_header_name(t),
        ) implies exists|k: int|
        0 <= k < plan.headers.len() && ascii_lowercase(t) == (#[trigger] plan.headers[k]).0 by {
        let k = choose|k: int| 0 <= k < ps.len() && (#[trigger] ps[k]).0 == parsed_header_name(t);
        let n = plan.headers[k].0;
        assert(parsed_header_name(t) == parsed_header_name(n));
        assert(eq_ignore_ascii_case(t, n));
        lemma_ascii_lowercase(t, n);
        assert(ascii_lowercase(n) == n);
    }
    assert(plan.body == request_body(q));
}

/// Every request that is built holds a `user-agent`, an `accept-encoding`
/// and an `accept` header.
pub proof fn lemma_request_has_default_headers(
    method: HttpMethod,
    uri: UriView,
    headers: Seq<(Seq<char>, Seq<char>)>,
    body: Seq<u8>,
    prev_status: u16,
    initial_uri: UriView,
    version: Seq<char>,
    q: hyper::Request<http_body_util::Full<bytes::Bytes>>,
)
    requires
        assembly_outcome(
            spec_plan_request(method, uri, headers, body, prev_status, initial_uri, version),
            Ok(q),
        ),
    ensures
        request_headers(q).dom().contains(parsed_header_name("user-agent"@)),
        request_headers(q).dom().contains(parsed_header_name("accept-encoding"@)),
        request_headers(q).dom().contains(parsed_header_name("accept"@)),
{
    let plan = spec_plan_request(method, uri, headers, body, prev_status, initial_uri, version);
    let ps = parsed_headers(plan.headers);
    lemma_plan_has_default_headers(method, uri, headers, body, prev_status, initial_uri, version);
    lemma_header_table_names(ps);
    let names = seq!["user-agent"@, "accept-encoding"@, "accept"@];
    assert forall|j: int| 0 <= j < 3 implies request_headers(q).dom().contains(
        parsed_header_name(#[trigger] names[j]),
    ) by {
        let n = names[j];
        let k = choose|k: int| 0 <= k < plan.headers.len() && (#[trigger] plan.headers[k]).0 == n;
        assert(ps[k].0 == parsed_header_name(n));
    }
    assert(names[0] == "user-agent"@);
    assert(names[1] == "accept-encoding"@);
    assert(names[2] == "accept"@);
}

} // verus!
