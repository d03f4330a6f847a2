//! The HTTP proxy: what is sent upstream for a request, and what of the answer is handed back.

use axum::http::HeaderMap;
use reqwest::{Certificate, ClientBuilder};
use vstd::prelude::*;
use vstd::string::*;

use crate::headers::{
    bytes_of, entries, first_of, header_get, header_list, header_text, listed, value_text,
};
use crate::reply::{
    error_response, Reply, BAD_GATEWAY, BAD_REQUEST, INTERNAL_SERVER_ERROR, METHOD_NOT_ALLOWED,
};
use crate::text::{has_prefix, is_alphanumeric, join2, lower, starts_with, text_eq, to_lower};

verus! {

/// The header that names the URL to forward a request to.
pub const TARGET_HEADER: &'static str = "x-llmwiki-target-url";

/// How long connecting to a target may take, in seconds.
pub const PROXY_CONNECT_TIMEOUT_SECS: u64 = 10;

/// Headers of a request that are never sent upstream: what belongs to the connection, and the
/// session cookie.
pub open spec fn skips_request_header(name: Seq<char>) -> bool {
    ||| name == TARGET_HEADER@
    ||| name == "host"@
    ||| name == "cookie"@
    ||| name == "connection"@
    ||| name == "content-length"@
    ||| name == "accept-encoding"@
    ||| name == "origin"@
    ||| name == "referer"@
}

fn skip_request_header(name: &str) -> (res: bool)
    ensures
        res == skips_request_header(name@),
{
    text_eq(name, TARGET_HEADER) || text_eq(name, "host") || text_eq(name, "cookie") || text_eq(
        name,
        "connection",
    ) || text_eq(name, "content-length") || text_eq(name, "accept-encoding") || text_eq(
        name,
        "origin",
    ) || text_eq(name, "referer")
}

/// Headers of an answer that are never handed back.
pub open spec fn skips_response_header(name: Seq<char>) -> bool {
    ||| name == "transfer-encoding"@
    ||| name == "connection"@
    ||| name == "content-length"@
    ||| name == "set-cookie"@
}

fn skip_response_header(name: &str) -> (res: bool)
    ensures
        res == skips_response_header(name@),
{
    text_eq(name, "transfer-encoding") || text_eq(name, "connection") || text_eq(
        name,
        "content-length",
    ) || text_eq(name, "set-cookie")
}

/// A character that a method name may hold.
pub open spec fn is_token_char(c: char) -> bool {
    ||| is_alphanumeric(c)
    ||| c == '!'
    ||| '#' <= c <= '\''
    ||| c == '*'
    ||| c == '+'
    ||| c == '-'
    ||| c == '.'
    ||| '^' <= c <= '`'
    ||| c == '|'
    ||| c == '~'
}

/// The names that are HTTP methods: one or more token characters.
pub open spec fn is_method(name: Seq<char>) -> bool {
    name.len() > 0 && forall|i: int| 0 <= i < name.len() ==> is_token_char(#[trigger] name[i])
}

/// `reqwest::Method::from_bytes`, and the name of the method that it gives: it accepts exactly the
/// non-empty names made of token characters, and keeps them as they are.
#[verifier::external_body]
fn method_named(name: &str) -> (res: Option<String>)
    ensures
        match res {
            Some(method) => is_method(name@) && method@ == name@,
            None => !is_method(name@),
        },
{
    reqwest::Method::from_bytes(name.as_bytes()).ok().map(|method| method.as_str().to_string())
}

/// A request to send upstream.
pub struct ProxyRequest {
    pub method: String,
    pub target: String,
    pub headers: Vec<(String, String)>,
    /// Whether the body of the incoming request goes along.
    pub with_body: bool,
}

/// The headers that go upstream: all but the skipped ones and those whose value is not visible
/// ASCII.
pub open spec fn forwarded(list: Seq<(Seq<char>, Seq<u8>)>) -> Seq<(Seq<char>, Seq<char>)>
    decreases list.len(),
{
    if list.len() == 0 {
        Seq::empty()
    } else {
        let before = forwarded(list.drop_last());
        let (name, value) = list.last();
        match header_text(value) {
            Some(text) => if skips_request_header(lower(name)) {
                before
            } else {
                before.push((name, text))
            },
            None => before,
        }
    }
}

pub open spec fn texts(list: Seq<(String, String)>) -> Seq<(Seq<char>, Seq<char>)> {
    list.map_values(|h: (String, String)| (h.0@, h.1@))
}

fn forward_headers(list: &Vec<(String, Vec<u8>)>) -> (res: Vec<(String, String)>)
    ensures
        texts(res@) == forwarded(listed(list@)),
{
    let mut out: Vec<(String, String)> = Vec::new();
    let mut i: usize = 0;
    assert(listed(list@).take(0) =~= Seq::<(Seq<char>, Seq<u8>)>::empty());
    assert(texts(out@) =~= Seq::<(Seq<char>, Seq<char>)>::empty());
    while i < list.len()
        invariant
            i <= list@.len(),
            texts(out@) == forwarded(listed(list@).take(i as int)),
        decreases list@.len() - i,
    {
        let name = &list[i].0;
        let value = &list[i].1;
        let ghost before = out@;
        proof {
            let next = listed(list@).take(i + 1);
            assert(next.drop_last() =~= listed(list@).take(i as int));
            assert(next.last() == (name@, value@));
        }
        let low = to_lower(name.as_str());
        if !skip_request_header(low.as_str()) {
            if let Some(text) = value_text(value) {
                let ghost seen = (name@, text@);
                out.push((name.clone(), text));
                assert(texts(out@) =~= texts(before).push(seen));
            }
        }
        i = i + 1;
    }
    assert(listed(list@).take(i as int) =~= listed(list@));
    out
}

pub open spec fn is_http_url(target: Seq<char>) -> bool {
    has_prefix(target, "http://"@) || has_prefix(target, "https://"@)
}

/// Whether `res` is the right answer to a proxy request with the given target header and headers:
/// the request to send, or the reply that refuses it.
pub open spec fn is_proxy_plan(
    res: Result<ProxyRequest, Reply>,
    method: Seq<char>,
    target: Option<Seq<u8>>,
    headers: Seq<(Seq<char>, Seq<u8>)>,
    body_len: usize,
) -> bool {
    let url = match target {
        Some(value) => header_text(value),
        None => None,
    };
    match url {
        None => res matches Err(reply) && reply.is_error(
            BAD_REQUEST,
            "Missing x-llmwiki-target-url header"@,
        ),
        Some(text) => if !is_http_url(text) {
            res matches Err(reply) && reply.is_error(BAD_REQUEST, "Target must be an http(s) URL"@)
        } else if !is_method(method) {
            res matches Err(reply) && reply.is_error(METHOD_NOT_ALLOWED, "Unsupported method"@)
        } else {
            res matches Ok(request) && {
                &&& request.method@ == method
                &&& request.target@ == text
                &&& texts(request.headers@) == forwarded(headers)
                &&& request.with_body == (body_len > 0)
            }
        },
    }
}

/// Plans the upstream request, from the value of the target header and the list of all headers.
pub fn plan_proxy(
    method: &str,
    target: Option<Vec<u8>>,
    headers: &Vec<(String, Vec<u8>)>,
    body_len: usize,
) -> (res: Result<ProxyRequest, Reply>)
    ensures
        is_proxy_plan(res, method@, bytes_of(target), listed(headers@), body_len),
{
    let url = match target {
        Some(value) => value_text(&value),
        None => None,
    };
    let url = match url {
        Some(text) => text,
        None => {
            return Err(error_response(BAD_REQUEST, "Missing x-llmwiki-target-url header"));
        },
    };
    if !starts_with(url.as_str(), "http://") && !starts_with(url.as_str(), "https://") {
        return Err(error_response(BAD_REQUEST, "Target must be an http(s) URL"));
    }
    match method_named(method) {
        Some(name) => Ok(
            ProxyRequest {
                method: name,
                target: url,
                headers: forward_headers(headers),
                with_body: body_len > 0,
            },
        ),
        None => Err(error_response(METHOD_NOT_ALLOWED, "Unsupported method")),
    }
}

/// Plans the upstream request for an incoming one.
pub fn handle_proxy(method: &str, headers: &HeaderMap, body_len: usize) -> (res: Result<
    ProxyRequest,
    Reply,
>)
    ensures
        is_proxy_plan(
            res,
            method@,
            first_of(entries(*headers), TARGET_HEADER@),
            entries(*headers),
            body_len,
        ),
{
    proof {
        reveal_strlit("x-llmwiki-target-url");
        assert(lower(TARGET_HEADER@) =~= TARGET_HEADER@);
    }
    let target = header_get(headers, TARGET_HEADER);
    let list = header_list(headers);
    plan_proxy(method, target, &list, body_len)
}

/// The message of a failure with its causes, outermost first.
pub open spec fn failure_detail(message: Seq<char>, causes: Seq<String>) -> Seq<char>
    decreases causes.len(),
{
    if causes.len() == 0 {
        message
    } else {
        failure_detail(message, causes.drop_last()) + ": "@ + causes.last()@
    }
}

/// The reply where the upstream request failed.
pub fn proxy_failed(message: &str, causes: &Vec<String>) -> (res: Reply)
    ensures
        res.is_error(
            BAD_GATEWAY,
            "Proxy request failed: "@ + failure_detail(message@, causes@),
        ),
{
    let mut detail = message.to_owned();
    let mut i: usize = 0;
    assert(causes@.take(0) =~= Seq::<String>::empty());
    while i < causes.len()
        invariant
            i <= causes@.len(),
            detail@ == failure_detail(message@, causes@.take(i as int)),
        decreases causes@.len() - i,
    {
        assert(causes@.take(i + 1).drop_last() =~= causes@.take(i as int));
        detail.append(": ");
        detail.append(causes[i].as_str());
        i = i + 1;
    }
    assert(causes@.take(i as int) =~= causes@);
    let text = join2("Proxy request failed: ", detail.as_str());
    error_response(BAD_GATEWAY, text.as_str())
}

/// The head of the answer to hand back; its body is streamed through.
pub struct ProxyResponse {
    pub status: u16,
    pub headers: Vec<(String, Vec<u8>)>,
}

/// The headers that are handed back: all but the skipped ones.
pub open spec fn returned(list: Seq<(Seq<char>, Seq<u8>)>) -> Seq<(Seq<char>, Seq<u8>)>
    decreases list.len(),
{
    if list.len() == 0 {
        Seq::empty()
    } else {
        let before = returned(list.drop_last());
        if skips_response_header(lower(list.last().0)) {
            before
        } else {
            before.push(list.last())
        }
    }
}

/// Selects the headers to hand back.
pub fn return_headers(list: Vec<(String, Vec<u8>)>) -> (res: Vec<(String, Vec<u8>)>)
    ensures
        listed(res@) == returned(listed(list@)),
{
    let ghost all = list@;
    let mut out: Vec<(String, Vec<u8>)> = Vec::new();
    assert(listed(all).take(0) =~= Seq::<(Seq<char>, Seq<u8>)>::empty());
    assert(listed(out@) =~= Seq::<(Seq<char>, Seq<u8>)>::empty());
    for (name, value) in it: list
        invariant
            it.seq() == all,
            listed(out@) == returned(listed(all).take(it.index())),
    {
        let ghost before = out@;
        proof {
            let next = listed(all).take(it.index() + 1);
            assert(next.drop_last() =~= listed(all).take(it.index()));
            assert(next.last() == (name@, value@));
        }
        let low = to_lower(name.as_str());
        if !skip_response_header(low.as_str()) {
            let ghost seen = (name@, value@);
            out.push((name, value));
            assert(listed(out@) =~= listed(before).push(seen));
        }
    }
    assert(listed(all).take(all.len() as int) =~= listed(all));
    out
}

/// The head of the answer, from the status and the headers that came from upstream.
pub fn proxy_response(status: u16, headers: &HeaderMap) -> (res: ProxyResponse)
    ensures
        res.status == status,
        listed(res.headers@) == returned(entries(*headers)),
{
    ProxyResponse { status, headers: return_headers(header_list(headers)) }
}

/// The reply where the answer could not be put together.
pub fn proxy_response_failed(message: &str) -> (res: Reply)
    ensures
        res.is_error(INTERNAL_SERVER_ERROR, "Proxy response error: "@ + message@),
{
    let text = join2("Proxy response error: ", message);
    error_response(INTERNAL_SERVER_ERROR, text.as_str())
}

/// Declares `reqwest::Error`.
#[verifier::external_type_specification]
#[verifier::external_body]
pub struct ExReqwestError(reqwest::Error);

/// Declares `reqwest::Certificate`.
#[verifier::external_type_specification]
#[verifier::external_body]
pub struct ExCertificate(reqwest::Certificate);

/// Declares `reqwest::ClientBuilder`.
#[verifier::external_type_specification]
#[verifier::external_body]
pub struct ExClientBuilder(reqwest::ClientBuilder);

/// The bytes that a certificate holds.
pub uninterp spec fn certificate_bytes(certificate: Certificate) -> Seq<u8>;

/// The certificates that were added to a client's trusted roots, in order.
pub uninterp spec fn added_roots(builder: ClientBuilder) -> Seq<Seq<u8>>;

/// How long a client may take to connect, in seconds, where that is limited.
pub uninterp spec fn connect_limit(builder: ClientBuilder) -> Option<u64>;

/// What `Certificate::from_pem_bundle` reads out of a PEM file: the bytes of each certificate, or
/// nothing where the file is damaged.
pub uninterp spec fn pem_bundle(pem: Seq<u8>) -> Option<Seq<Seq<u8>>>;

pub open spec fn all_bytes(certificates: Seq<Certificate>) -> Seq<Seq<u8>> {
    certificates.map_values(|c: Certificate| certificate_bytes(c))
}

/// `Certificate::from_pem_bundle`: what it reads depends on the bytes of the file alone, and its
/// error displays as `builder error`. Which files it reads is left unsaid.
#[verifier::external_body]
fn read_bundle(pem: &[u8]) -> (res: Result<Vec<Certificate>, reqwest::Error>)
    ensures
        match res {
            Ok(certificates) => pem_bundle(pem@) == Some(all_bytes(certificates@)),
            Err(err) => pem_bundle(pem@) is None && forall|message: String|
                #[trigger] to_string_from_display_ensures::<reqwest::Error>(&err, message)
                    ==> message@ == "builder error"@,
        },
{
    Certificate::from_pem_bundle(pem)
}

/// `reqwest::Client::builder`: no root is added yet, and connecting is not limited.
#[verifier::external_body]
fn new_builder() -> (res: ClientBuilder)
    ensures
        added_roots(res) == Seq::<Seq<u8>>::empty(),
        connect_limit(res) is None,
{
    reqwest::Client::builder()
}

/// `ClientBuilder::connect_timeout` sets the limit and leaves the roots.
#[verifier::external_body]
fn limit_connect(builder: ClientBuilder, seconds: u64) -> (res: ClientBuilder)
    ensures
        connect_limit(res) == Some(seconds),
        added_roots(res) == added_roots(builder),
{
    builder.connect_timeout(std::time::Duration::from_secs(seconds))
}

/// `ClientBuilder::add_root_certificate` adds one root behind the others and leaves the limit.
#[verifier::external_body]
fn add_root(builder: ClientBuilder, certificate: Certificate) -> (res: ClientBuilder)
    ensures
        added_roots(res) == added_roots(builder).push(certificate_bytes(certificate)),
        connect_limit(res) == connect_limit(builder),
{
    builder.add_root_certificate(certificate)
}

/// What became of the file with extra root certificates.
pub enum ExtraRoots {
    NotConfigured,
    Loaded,
    Invalid(String),
}

/// Adds certificates to the trusted roots of a client.
pub fn trust(builder: ClientBuilder, certificates: Vec<Certificate>) -> (res: ClientBuilder)
    ensures
        added_roots(res) == added_roots(builder) + all_bytes(certificates@),
        connect_limit(res) == connect_limit(builder),
{
    let ghost all = certificates@;
    let ghost first = added_roots(builder);
    let ghost limit = connect_limit(builder);
    let mut current = builder;
    assert(first + all_bytes(all).take(0) =~= first);
    for certificate in it: certificates
        invariant
            it.seq() == all,
            added_roots(current) == first + all_bytes(all).take(it.index()),
            connect_limit(current) == limit,
    {
        let ghost done = all_bytes(all).take(it.index());
        assert(all_bytes(all).take(it.index() + 1) =~= done.push(certificate_bytes(certificate)));
        current = add_root(current, certificate);
        assert(added_roots(current) =~= first + all_bytes(all).take(it.index() + 1));
    }
    assert(all_bytes(all).take(all.len() as int) =~= all_bytes(all));
    current
}

/// Sets up the client for upstream requests. `pem` is the file with extra root certificates, where
/// one is configured and could be read; a damaged file adds nothing.
pub fn proxy_client(pem: Option<&[u8]>) -> (res: (ClientBuilder, ExtraRoots))
    ensures
        connect_limit(res.0) == Some(PROXY_CONNECT_TIMEOUT_SECS),
        match pem {
            None => added_roots(res.0) == Seq::<Seq<u8>>::empty() && res.1 is NotConfigured,
            Some(bytes) => match pem_bundle(bytes@) {
                Some(roots) => added_roots(res.0) == roots && res.1 is Loaded,
                None => added_roots(res.0) == Seq::<Seq<u8>>::empty() && (res.1 matches ExtraRoots::Invalid(
                    message,
                ) && message@ == "builder error"@),
            },
        },
{
    let builder = limit_connect(new_builder(), PROXY_CONNECT_TIMEOUT_SECS);
    match pem {
        None => (builder, ExtraRoots::NotConfigured),
        Some(bytes) => match read_bundle(bytes) {
            Ok(certificates) => {
                let ghost roots = all_bytes(certificates@);
                let trusting = trust(builder, certificates);
                assert(added_roots(trusting) =~= roots);
                (trusting, ExtraRoots::Loaded)
            },
            Err(err) => (builder, ExtraRoots::Invalid(err.to_string())),
        },
    }
}

proof fn lemma_forwarded_not_skipped(list: Seq<(Seq<char>, Seq<u8>)>)
    ensures
        forall|i: int|
            0 <= i < forwarded(list).len() ==> !skips_request_header(
                lower((#[trigger] forwarded(list)[i]).0),
            ),
    decreases list.len(),
{
    if list.len() > 0 {
        lemma_forwarded_not_skipped(list.drop_last());
        let before = forwarded(list.drop_last());
        assert forall|i: int| 0 <= i < forwarded(list).len() implies !skips_request_header(
            lower((#[trigger] forwarded(list)[i]).0),
        ) by {
            if i < before.len() {
                assert(forwarded(list)[i] == before[i]);
            }
        }
    }
}

/// No skipped header goes upstream, in whatever case its name is written: neither the session
/// cookie nor the target header reaches the target.
pub proof fn law_skipped_headers_stay_here(list: Seq<(Seq<char>, Seq<u8>)>, i: int)
    requires
        0 <= i < forwarded(list).len(),
    ensures
        !skips_request_header(lower(forwarded(list)[i].0)),
        lower(forwarded(list)[i].0) != "cookie"@,
        lower(forwarded(list)[i].0) != TARGET_HEADER@,
{
    lemma_forwarded_not_skipped(list);
    assert(!skips_request_header(lower(forwarded(list)[i].0)));
}

/// Every other header with a readable value does go upstream.
pub proof fn law_other_headers_are_forwarded(list: Seq<(Seq<char>, Seq<u8>)>, i: int)
    requires
        0 <= i < list.len(),
        !skips_request_header(lower(list[i].0)),
        header_text(list[i].1) is Some,
    ensures
        forwarded(list).contains((list[i].0, header_text(list[i].1)->0)),
    decreases list.len(),
{
    let pair = (list[i].0, header_text(list[i].1)->0);
    let before = forwarded(list.drop_last());
    if i == list.len() - 1 {
        assert(forwarded(list)[before.len() as int] == pair);
    } else {
        assert(list.drop_last()[i] == list[i]);
        law_other_headers_are_forwarded(list.drop_last(), i);
        let k = choose|k: int| 0 <= k < before.len() && before[k] == pair;
        assert(forwarded(list)[k] == pair);
    }
}

proof fn lemma_returned_not_skipped(list: Seq<(Seq<char>, Seq<u8>)>)
    ensures
        forall|i: int|
            0 <= i < returned(list).len() ==> !skips_response_header(
                lower((#[trigger] returned(list)[i]).0),
            ),
    decreases list.len(),
{
    if list.len() > 0 {
        lemma_returned_not_skipped(list.drop_last());
        let before = returned(list.drop_last());
        assert forall|i: int| 0 <= i < returned(list).len() implies !skips_response_header(
            lower((#[trigger] returned(list)[i]).0),
        ) by {
            if i < before.len() {
                assert(returned(list)[i] == before[i]);
            }
        }
    }
}

/// No skipped header is handed back; in particular no cookie of the target reaches the browser.
pub proof fn law_skipped_answers_stay_here(list: Seq<(Seq<char>, Seq<u8>)>, i: int)
    requires
        0 <= i < returned(list).len(),
    ensures
        !skips_response_header(lower(returned(list)[i].0)),
        lower(returned(list)[i].0) != "set-cookie"@,
{
    lemma_returned_not_skipped(list);
    assert(!skips_response_header(lower(returned(list)[i].0)));
}

/// Every other header of an answer is handed back.
pub proof fn law_other_answers_are_returned(list: Seq<(Seq<char>, Seq<u8>)>, i: int)
    requires
        0 <= i < list.len(),
        !skips_response_header(lower(list[i].0)),
    ensures
        returned(list).contains(list[i]),
    decreases list.len(),
{
    let before = returned(list.drop_last());
    if i == list.len() - 1 {
        assert(returned(list)[before.len() as int] == list[i]);
    } else {
        assert(list.drop_last()[i] == list[i]);
        law_other_answers_are_returned(list.drop_last(), i);
        let k = choose|k: int| 0 <= k < before.len() && before[k] == list[i];
        assert(returned(list)[k] == list[i]);
    }
}

/// Whether a header belongs to the browser's own connection or session: `x-llmwiki-target-url`,
/// `host`, `cookie`, `connection`, `content-length`, `accept-encoding`, `origin` or `referer`, in any
/// case.
pub open spec fn stays_with_request(name: Seq<char>) -> bool {
    let low = lower(name);
    ||| low == "x-llmwiki-target-url"@
    ||| low == "host"@
    ||| low == "cookie"@
    ||| low == "connection"@
    ||| low == "content-length"@
    ||| low == "accept-encoding"@
    ||| low == "origin"@
    ||| low == "referer"@
}

/// Whether a header belongs to the target's own connection or session: `transfer-encoding`,
/// `connection`, `content-length` or `set-cookie`, in any case.
pub open spec fn stays_with_answer(name: Seq<char>) -> bool {
    let low = lower(name);
    ||| low == "transfer-encoding"@
    ||| low == "connection"@
    ||| low == "content-length"@
    ||| low == "set-cookie"@
}

/// Headers go upstream one by one, in their order: one that belongs to the connection or whose value
/// cannot be read is left out, and any other goes with its name and its value.
pub proof fn law_headers_one_by_one(list: Seq<(Seq<char>, Seq<u8>)>, name: Seq<char>, value: Seq<u8>)
    ensures
        forwarded(Seq::empty()) == Seq::<(Seq<char>, Seq<char>)>::empty(),
        forwarded(list.push((name, value))) == forwarded(list) + (match header_text(value) {
            Some(text) => if stays_with_request(name) {
                Seq::<(Seq<char>, Seq<char>)>::empty()
            } else {
                seq![(name, text)]
            },
            None => Seq::<(Seq<char>, Seq<char>)>::empty(),
        }),
{
    assert(list.push((name, value)).drop_last() =~= list);
    assert(forwarded(list) + Seq::<(Seq<char>, Seq<char>)>::empty() =~= forwarded(list));
}

/// Headers come back one by one, in their order: one that belongs to the connection is left out, and
/// any other comes with its name and its bytes.
pub proof fn law_answers_one_by_one(list: Seq<(Seq<char>, Seq<u8>)>, name: Seq<char>, value: Seq<u8>)
    ensures
        returned(Seq::empty()) == Seq::<(Seq<char>, Seq<u8>)>::empty(),
        returned(list.push((name, value))) == returned(list) + (if stays_with_answer(name) {
            Seq::<(Seq<char>, Seq<u8>)>::empty()
        } else {
            seq![(name, value)]
        }),
{
    assert(list.push((name, value)).drop_last() =~= list);
    assert(returned(list) + Seq::<(Seq<char>, Seq<u8>)>::empty() =~= returned(list));
}

proof fn lemma_nothing_else_forwarded(list: Seq<(Seq<char>, Seq<u8>)>, k: int) -> (i: int)
    requires
        0 <= k < forwarded(list).len(),
    ensures
        0 <= i < list.len(),
        list[i].0 == forwarded(list)[k].0,
        header_text(list[i].1) == Some(forwarded(list)[k].1),
    decreases list.len(),
{
    let before = forwarded(list.drop_last());
    if k < before.len() {
        let i = lemma_nothing_else_forwarded(list.drop_last(), k);
        assert(list.drop_last()[i] == list[i]);
        i
    } else {
        list.len() - 1
    }
}

proof fn lemma_nothing_else_returned(list: Seq<(Seq<char>, Seq<u8>)>, k: int) -> (i: int)
    requires
        0 <= k < returned(list).len(),
    ensures
        0 <= i < list.len(),
        list[i] == returned(list)[k],
    decreases list.len(),
{
    let before = returned(list.drop_last());
    if k < before.len() {
        let i = lemma_nothing_else_returned(list.drop_last(), k);
        assert(list.drop_last()[i] == list[i]);
        i
    } else {
        list.len() - 1
    }
}

/// The target of a proxy request, where its header can be read as text.
pub open spec fn target_of(value: Option<Seq<u8>>) -> Option<Seq<char>> {
    match value {
        Some(bytes) => header_text(bytes),
        None => None,
    }
}

/// When a request is forwarded: the target can be read and begins with `http://` or `https://`, and
/// the method is one. Else it is refused, for the first of these that fails.
pub proof fn law_refused_requests(
    method: &str,
    headers: &HeaderMap,
    body_len: usize,
    res: Result<ProxyRequest, Reply>,
)
    requires
        call_ensures(handle_proxy, (method, headers, body_len), res),
    ensures
        match target_of(first_of(entries(*headers), "x-llmwiki-target-url"@)) {
            None => res matches Err(reply) && reply.is_error(
                400,
                "Missing x-llmwiki-target-url header"@,
            ),
            Some(url) => if !has_prefix(url, "http://"@) && !has_prefix(url, "https://"@) {
                res matches Err(reply) && reply.is_error(400, "Target must be an http(s) URL"@)
            } else if !is_method(method@) {
                res matches Err(reply) && reply.is_error(405, "Unsupported method"@)
            } else {
                res is Ok
            },
        },
{
}

/// What is sent upstream: the method and the target as they came, the body unless it is empty, every
/// header that is readable and does not belong to the browser's connection or session, with its name
/// and value, and no other header.
pub proof fn law_forwarded_requests(
    method: &str,
    headers: &HeaderMap,
    body_len: usize,
    request: ProxyRequest,
)
    requires
        call_ensures(handle_proxy, (method, headers, body_len), Ok::<ProxyRequest, Reply>(request)),
    ensures
        request.method@ == method@,
        Some(request.target@) == target_of(first_of(entries(*headers), "x-llmwiki-target-url"@)),
        request.with_body <==> body_len != 0,
        texts(request.headers@) == forwarded(entries(*headers)),
        forall|i: int|
            0 <= i < entries(*headers).len() && !stays_with_request(
                (#[trigger] entries(*headers)[i]).0,
            ) && header_text(entries(*headers)[i].1) is Some ==> exists|k: int|
                0 <= k < request.headers@.len() && (#[trigger] request.headers@[k]).0@
                    == entries(*headers)[i].0 && Some(request.headers@[k].1@) == header_text(
                    entries(*headers)[i].1,
                ),
        forall|k: int|
            0 <= k < request.headers@.len() ==> !stays_with_request(
                (#[trigger] request.headers@[k]).0@,
            ) && exists|i: int|
                0 <= i < entries(*headers).len() && (#[trigger] entries(*headers)[i]).0
                    == request.headers@[k].0@ && header_text(entries(*headers)[i].1) == Some(
                    request.headers@[k].1@,
                ),
{
    let all = entries(*headers);
    let sent = request.headers@;
    assert forall|i: int|
        0 <= i < all.len() && !stays_with_request((#[trigger] all[i]).0) && header_text(
            all[i].1,
        ) is Some implies exists|k: int|
        0 <= k < sent.len() && (#[trigger] sent[k]).0@ == all[i].0 && Some(sent[k].1@)
            == header_text(all[i].1) by {
        law_other_headers_are_forwarded(all, i);
        let pair = (all[i].0, header_text(all[i].1)->0);
        let k = choose|k: int| 0 <= k < forwarded(all).len() && forwarded(all)[k] == pair;
        assert(texts(sent)[k] == (sent[k].0@, sent[k].1@));
    }
    assert forall|k: int| 0 <= k < sent.len() implies !stays_with_request((#[trigger] sent[k]).0@)
        && exists|i: int|
        0 <= i < all.len() && (#[trigger] all[i]).0 == sent[k].0@ && header_text(all[i].1) == Some(
            sent[k].1@,
        ) by {
        assert(texts(sent)[k] == (sent[k].0@, sent[k].1@));
        law_skipped_headers_stay_here(all, k);
        let i = lemma_nothing_else_forwarded(all, k);
        assert(all[i].0 == sent[k].0@);
    }
}

/// Whatever the header map, the plan of a request is the same when its target and its headers are
/// given one by one.
pub proof fn law_planned_requests(
    method: &str,
    target: Option<Vec<u8>>,
    headers: &Vec<(String, Vec<u8>)>,
    body_len: usize,
    res: Result<ProxyRequest, Reply>,
)
    requires
        call_ensures(plan_proxy, (method, target, headers, body_len), res),
    ensures
        match target_of(bytes_of(target)) {
            None => res matches Err(reply) && reply.is_error(
                400,
                "Missing x-llmwiki-target-url header"@,
            ),
            Some(url) => if !has_prefix(url, "http://"@) && !has_prefix(url, "https://"@) {
                res matches Err(reply) && reply.is_error(400, "Target must be an http(s) URL"@)
            } else if !is_method(method@) {
                res matches Err(reply) && reply.is_error(405, "Unsupported method"@)
            } else {
                res matches Ok(request) && {
                    &&& request.method@ == method@
                    &&& request.target@ == url
                    &&& texts(request.headers@) == forwarded(listed(headers@))
                    &&& request.with_body <==> body_len != 0
                }
            },
        },
{
}

/// What is handed back: the status as it came, every header that does not belong to the target's
/// connection or session, with its name and bytes, and no other header.
pub proof fn law_returned_answers(status: u16, headers: &HeaderMap, res: ProxyResponse)
    requires
        call_ensures(proxy_response, (status, headers), res),
    ensures
        res.status == status,
        listed(res.headers@) == returned(entries(*headers)),
        forall|i: int|
            0 <= i < entries(*headers).len() && !stays_with_answer(
                (#[trigger] entries(*headers)[i]).0,
            ) ==> exists|k: int|
                0 <= k < res.headers@.len() && (#[trigger] res.headers@[k]).0@
                    == entries(*headers)[i].0 && res.headers@[k].1@ == entries(*headers)[i].1,
        forall|k: int|
            0 <= k < res.headers@.len() ==> !stays_with_answer((#[trigger] res.headers@[k]).0@)
                && exists|i: int|
                0 <= i < entries(*headers).len() && (#[trigger] entries(*headers)[i]).0
                    == res.headers@[k].0@ && entries(*headers)[i].1 == res.headers@[k].1@,
{
    let all = entries(*headers);
    let sent = res.headers@;
    assert forall|i: int| 0 <= i < all.len() && !stays_with_answer((#[trigger] all[i]).0) implies exists|
        k: int,
    |
        0 <= k < sent.len() && (#[trigger] sent[k]).0@ == all[i].0 && sent[k].1@ == all[i].1 by {
        law_other_answers_are_returned(all, i);
        let k = choose|k: int| 0 <= k < returned(all).len() && returned(all)[k] == all[i];
        assert(listed(sent)[k] == (sent[k].0@, sent[k].1@));
    }
    assert forall|k: int| 0 <= k < sent.len() implies !stays_with_answer((#[trigger] sent[k]).0@)
        && exists|i: int|
        0 <= i < all.len() && (#[trigger] all[i]).0 == sent[k].0@ && all[i].1 == sent[k].1@ by {
        assert(listed(sent)[k] == (sent[k].0@, sent[k].1@));
        law_skipped_answers_stay_here(all, k);
        let i = lemma_nothing_else_returned(all, k);
        assert(all[i].0 == sent[k].0@);
    }
}

/// A list of headers is selected as the headers of an answer are.
pub proof fn law_selected_headers(list: Vec<(String, Vec<u8>)>, res: Vec<(String, Vec<u8>)>)
    requires
        call_ensures(return_headers, (list,), res),
    ensures
        listed(res@) == returned(listed(list@)),
{
}

/// A failure to reach the target is reported with status 502, its message and all its causes, each
/// behind a colon.
pub proof fn law_failed_requests(
    message: &str,
    causes: &Vec<String>,
    further: &Vec<String>,
    res: Reply,
    res_further: Reply,
)
    requires
        call_ensures(proxy_failed, (message, causes), res),
        call_ensures(proxy_failed, (message, further), res_further),
        further@.len() == causes@.len() + 1,
        further@.drop_last() == causes@,
    ensures
        causes@.len() == 0 ==> res.is_error(502, "Proxy request failed: "@ + message@),
        exists|text: Seq<char>|
            {
                &&& res.is_error(502, text)
                &&& res_further.is_error(502, #[trigger] (text + ": "@ + further@.last()@))
            },
{
    let text = "Proxy request failed: "@ + failure_detail(message@, causes@);
    assert("Proxy request failed: "@ + failure_detail(message@, further@) =~= text + ": "@
        + further@.last()@);
    assert(res.is_error(502, text));
}

/// An answer that cannot be put together is reported with status 500 and the reason.
pub proof fn law_failed_answers(message: &str, res: Reply)
    requires
        call_ensures(proxy_response_failed, (message,), res),
    ensures
        res.is_error(500, "Proxy response error: "@ + message@),
{
}

/// The client gives up connecting after 10 seconds. Beside the roots that it has anyway it trusts
/// those of the configured file, all of them and in order, and none where there is no file or it is
/// damaged.
pub proof fn law_client(pem: Option<&[u8]>, res: (ClientBuilder, ExtraRoots))
    requires
        call_ensures(proxy_client, (pem,), res),
    ensures
        connect_limit(res.0) == Some(10u64),
        res.1 is NotConfigured <==> pem is None,
        res.1 is Loaded <==> pem is Some && pem_bundle(pem->0@) is Some,
        res.1 is Loaded ==> added_roots(res.0) == pem_bundle(pem->0@)->0,
        !(res.1 is Loaded) ==> added_roots(res.0).len() == 0,
        res.1 matches ExtraRoots::Invalid(message) ==> message@ == "builder error"@,
{
}

/// Trusting certificates adds each of them behind the roots that were there, and leaves the limit.
pub proof fn law_trusted_roots(
    builder: ClientBuilder,
    certificates: Vec<Certificate>,
    res: ClientBuilder,
)
    requires
        call_ensures(trust, (builder, certificates), res),
    ensures
        connect_limit(res) == connect_limit(builder),
        added_roots(res).len() == added_roots(builder).len() + certificates@.len(),
        forall|i: int|
            0 <= i < added_roots(builder).len() ==> #[trigger] added_roots(res)[i] == added_roots(
                builder,
            )[i],
        forall|i: int|
            0 <= i < certificates@.len() ==> added_roots(res)[added_roots(builder).len() + i]
                == certificate_bytes(#[trigger] certificates@[i]),
{
}

/// A method is a name of one or more characters, each a letter, a digit or one of ``!#$%&'*+-.^_`|~``.
pub proof fn law_methods(name: Seq<char>)
    ensures
        is_method(name) <==> name.len() > 0 && forall|i: int|
            0 <= i < name.len() ==> {
                let code = (#[trigger] name[i]) as int;
                ||| 48 <= code <= 57
                ||| 65 <= code <= 90
                ||| 94 <= code <= 122
                ||| code == 33
                ||| 35 <= code <= 39
                ||| 42 <= code <= 43
                ||| 45 <= code <= 46
                ||| code == 124
                ||| code == 126
            },
{
    if !is_method(name) && name.len() > 0 {
        let i = choose|i: int| 0 <= i < name.len() && !is_token_char(#[trigger] name[i]);
        assert(!is_token_char(name[i]));
    } else if name.len() > 0 {
        assert forall|i: int| 0 <= i < name.len() implies is_token_char(#[trigger] name[i]) by {}
    }
}

} // verus!
