//! The HTTP front of a served MCP server: which requests shut it down, how
//! requests are forwarded to an SSE server, and how requests are relayed to
//! a stdio server and answered.
use vstd::prelude::*;
use vstd::utf8::encode_utf8;

use crate::blueprint::{launches, CommandRunner, CommandSpec, Runner, ServerDefinition};
use crate::text::{
    ascii_lowercase, contains_bytes, contains_str, contains_text, lowercase_equals,
    trim_end_char, trim_end_matches_char,
};

verus! {

/// An HTTP header: its name and the raw bytes of its value.
#[derive(Debug, Clone)]
pub struct HttpHeader {
    pub name: String,
    pub value: Vec<u8>,
}

/// An HTTP response: status code, headers in order, and body.
#[derive(Debug, Clone)]
pub struct HttpResponse {
    pub status: u16,
    pub headers: Vec<HttpHeader>,
    pub body: Vec<u8>,
}

/// The address the SSE proxy listens on.
pub const PROXY_LISTEN_ADDR: &'static str = "127.0.0.1:3000";

/// The address the stdio relay listens on.
pub const STDIO_LISTEN_ADDR: &'static str = "127.0.0.1:3002";

/// `h` has the name `name` (compared as HTTP does, without regard to ASCII case).
pub open spec fn named(h: HttpHeader, name: Seq<char>) -> bool {
    ascii_lowercase(h.name@) == name
}

/// Some header of `headers` is named `name`.
pub open spec fn has_header(headers: Seq<HttpHeader>, name: Seq<char>) -> bool {
    exists|i: int| 0 <= i < headers.len() && named(headers[i], name)
}

fn find_header(headers: &Vec<HttpHeader>, name: &str) -> (r: Option<usize>)
    ensures
        match r {
            Some(i) => i < headers@.len() && named(headers@[i as int], name@) && forall|j: int|
                0 <= j < i ==> !named(#[trigger] headers@[j], name@),
            None => !has_header(headers@, name@),
        },
{
    let mut i: usize = 0;
    while i < headers.len()
        invariant
            i <= headers@.len(),
            forall|j: int| 0 <= j < i ==> !named(#[trigger] headers@[j], name@),
        decreases headers.len() - i,
    {
        if lowercase_equals(headers[i].name.as_str(), name) {
            return Some(i);
        }
        i = i + 1;
    }
    None
}

/// The index of the first header of `headers` named `name`.
pub open spec fn first_named(headers: Seq<HttpHeader>, name: Seq<char>) -> Option<int> {
    if has_header(headers, name) {
        Some(
            choose|i: int|
                0 <= i < headers.len() && named(headers[i], name) && forall|j: int|
                    0 <= j < i ==> !named(#[trigger] headers[j], name),
        )
    } else {
        None
    }
}

proof fn lemma_first_named_unique(headers: Seq<HttpHeader>, name: Seq<char>, i: int)
    requires
        0 <= i < headers.len(),
        named(headers[i], name),
        forall|j: int| 0 <= j < i ==> !named(#[trigger] headers[j], name),
    ensures
        first_named(headers, name) == Some(i),
{
    let k = choose|k: int|
        0 <= k < headers.len() && named(headers[k], name) && forall|j: int|
            0 <= j < k ==> !named(#[trigger] headers[j], name);
    if k < i {
        assert(!named(headers[k], name));
    } else if k > i {
        assert(!named(headers[i], name));
    }
}

/// The request asks the server to shut down: a path containing "/calculate"
/// with a query containing "token", the path "/shutdown", or an
/// `x-calculation-token` header.
pub open spec fn asks_shutdown(path: Seq<char>, query: Option<Seq<char>>, headers: Seq<HttpHeader>) -> bool {
    let q = match query {
        Some(q) => q,
        None => Seq::empty(),
    };
    (contains_text(path, "/calculate"@) && contains_text(q, "token"@)) || path == "/shutdown"@
        || has_header(headers, "x-calculation-token"@)
}

fn str_equals(a: &str, b: &str) -> (r: bool)
    ensures
        r == (a@ == b@),
{
    let x = crate::text::chars_of(a);
    let y = crate::text::chars_of(b);
    if x.len() != y.len() {
        return false;
    }
    let mut i: usize = 0;
    while i < x.len()
        invariant
            x@ == a@,
            y@ == b@,
            x.len() == y.len(),
            i <= x.len(),
            forall|k: int| 0 <= k < i ==> x@[k] == y@[k],
        decreases x.len() - i,
    {
        if x[i] != y[i] {
            return false;
        }
        i = i + 1;
    }
    assert(x@ =~= y@);
    true
}

/// The bytes are all visible ASCII characters or tabs, which is what a header
/// value must be to be read as text.
pub open spec fn visible_ascii(bytes: Seq<u8>) -> bool {
    forall|i: int| 0 <= i < bytes.len() ==> #[trigger] bytes[i] == 9u8 || (32u8 <= bytes[i] && bytes[i] < 127u8)
}

fn is_visible_ascii(bytes: &Vec<u8>) -> (r: bool)
    ensures
        r == visible_ascii(bytes@),
{
    let mut i: usize = 0;
    while i < bytes.len()
        invariant
            i <= bytes.len(),
            forall|k: int| 0 <= k < i ==> #[trigger] bytes@[k] == 9u8 || (32u8 <= bytes@[k] && bytes@[k] < 127u8),
        decreases bytes.len() - i,
    {
        let b = bytes[i];
        if !(b == 9 || (32 <= b && b < 127)) {
            return false;
        }
        i = i + 1;
    }
    true
}

/// The headers that are not forwarded to the target server: they belong to
/// one connection only, or are computed anew.
pub open spec fn hop_by_hop(name: Seq<char>) -> bool {
    let n = ascii_lowercase(name);
    n == "host"@ || n == "connection"@ || n == "transfer-encoding"@ || n == "content-length"@
}

/// A request header is forwarded when it is not hop-by-hop and its value is text.
pub open spec fn forwardable(h: HttpHeader) -> bool {
    !hop_by_hop(h.name@) && visible_ascii(h.value@)
}

/// The forwardable headers of `headers`, in their order.
pub open spec fn forwardable_headers(headers: Seq<HttpHeader>) -> Seq<HttpHeader>
    decreases headers.len(),
{
    if headers.len() == 0 {
        Seq::empty()
    } else {
        let rest = forwardable_headers(headers.drop_last());
        if forwardable(headers.last()) {
            rest.push(headers.last())
        } else {
            rest
        }
    }
}

/// The headers never forwarded, by their lower-case names.
pub open spec fn is_connection_header_name(lower: Seq<char>) -> bool {
    lower == "host"@ || lower == "connection"@ || lower == "transfer-encoding"@ || lower
        == "content-length"@
}

/// Law of forwarding: a request header is forwarded exactly when its name,
/// without regard to ASCII case, is none of `host`, `connection`,
/// `transfer-encoding` and `content-length`, and its value is text; the
/// forwarded headers are exactly those headers of the request, in order.
pub proof fn lemma_forwarded_exactly(headers: Seq<HttpHeader>)
    ensures
        forall|h: HttpHeader|
            #[trigger] forwardable(h) <==> (!is_connection_header_name(ascii_lowercase(h.name@))
                && visible_ascii(h.value@)),
        forall|i: int|
            0 <= i < headers.len() && !is_connection_header_name(ascii_lowercase(headers[i].name@))
                && visible_ascii(headers[i].value@) ==> forwardable_headers(headers).contains(
                #[trigger] headers[i],
            ),
        forall|k: int|
            0 <= k < forwardable_headers(headers).len() ==> {
                let h = #[trigger] forwardable_headers(headers)[k];
                &&& headers.contains(h)
                &&& !is_connection_header_name(ascii_lowercase(h.name@))
                &&& visible_ascii(h.value@)
            },
    decreases headers.len(),
{
    if headers.len() > 0 {
        let init = headers.drop_last();
        lemma_forwarded_exactly(init);
        let f = forwardable_headers(headers);
        let fi = forwardable_headers(init);
        assert forall|i: int|
            0 <= i < headers.len() && !is_connection_header_name(ascii_lowercase(headers[i].name@))
                && visible_ascii(headers[i].value@) implies f.contains(#[trigger] headers[i]) by {
            if i < headers.len() - 1 {
                assert(init[i] == headers[i]);
                let k = choose|k: int| 0 <= k < fi.len() && fi[k] == init[i];
                if forwardable(headers.last()) {
                    assert(f[k] == fi[k]);
                } else {
                    assert(f == fi);
                }
            } else {
                assert(f == fi.push(headers.last()));
                assert(f[fi.len() as int] == headers[i]);
            }
        }
        assert forall|k: int| 0 <= k < f.len() implies {
            let h = #[trigger] f[k];
            &&& headers.contains(h)
            &&& !is_connection_header_name(ascii_lowercase(h.name@))
            &&& visible_ascii(h.value@)
        } by {
            if forwardable(headers.last()) && k == fi.len() {
                assert(f[k] == headers.last());
                assert(headers[headers.len() - 1] == headers.last());
            } else {
                assert(f[k] == fi[k]);
                let h = fi[k];
                let j = choose|j: int| 0 <= j < init.len() && init[j] == h;
                assert(headers[j] == init[j]);
            }
        }
    }
}

/// Two headers have the same name and value.
pub open spec fn same_header(a: HttpHeader, b: HttpHeader) -> bool {
    a.name@ == b.name@ && a.value@ == b.value@
}

/// Two header lists hold the same headers in the same order.
pub open spec fn same_headers(a: Seq<HttpHeader>, b: Seq<HttpHeader>) -> bool {
    a.len() == b.len() && forall|i: int| 0 <= i < a.len() ==> same_header(#[trigger] a[i], b[i])
}

fn copy_header(h: &HttpHeader) -> (r: HttpHeader)
    ensures
        same_header(r, *h),
{
    HttpHeader { name: h.name.clone(), value: vstd::slice::slice_to_vec(h.value.as_slice()) }
}

fn header_from(name: &str, value: &str) -> (r: HttpHeader)
    ensures
        r.name@ == name@,
        r.value@ == encode_utf8(value@),
{
    HttpHeader { name: String::from_str(name), value: value.as_bytes_vec() }
}

fn is_hop_by_hop(name: &str) -> (r: bool)
    ensures
        r == hop_by_hop(name@),
{
    lowercase_equals(name, "host") || lowercase_equals(name, "connection") || lowercase_equals(
        name,
        "transfer-encoding",
    ) || lowercase_equals(name, "content-length")
}

/// The proxy, which forwards requests to the SSE server at `target_url`.
pub struct ProxyService {
    pub target_url: String,
}

/// The URL a request is forwarded to: the target address without its
/// trailing slashes, followed by the request's path and query ("/" when it
/// has none).
pub open spec fn forward_url(target: Seq<char>, path_and_query: Option<Seq<char>>) -> Seq<char> {
    trim_end_char(target, '/') + match path_and_query {
        Some(pq) => pq,
        None => "/"@,
    }
}

/// `r` is a response with status `status`, the single header
/// `content-type: content_type`, and body `body`.
pub open spec fn plain_response(r: HttpResponse, status: u16, content_type: Seq<char>, body: Seq<u8>) -> bool {
    &&& r.status == status
    &&& r.headers@.len() == 1
    &&& r.headers@[0].name@ == "content-type"@
    &&& r.headers@[0].value@ == encode_utf8(content_type)
    &&& r.body@ == body
}

/// The text of the answer to a shutdown request.
pub open spec fn shutdown_body() -> Seq<char> {
    "{\"status\":\"shutdown\",\"message\":\"Server shutting down due to calculation token request\"}"@
}

/// The text of the answer to a request that could not be forwarded.
pub open spec fn forward_error_body() -> Seq<char> {
    "{\"error\":\"Failed to forward request\"}"@
}

/// The text of an optional string.
pub open spec fn opt_text(o: Option<&str>) -> Option<Seq<char>> {
    match o {
        Some(s) => Some(s@),
        None => None,
    }
}

/// `r` is the proxy's decision for a request that asks to shut down, or not:
/// a shutdown request is answered at once, with status 200 and a JSON note;
/// any other is forwarded.
pub open spec fn decides(r: ProxyDecision, shutdown: bool) -> bool {
    if shutdown {
        match r {
            ProxyDecision::Shutdown(resp) => plain_response(
                resp,
                200,
                "application/json"@,
                encode_utf8(shutdown_body()),
            ),
            ProxyDecision::Forward => false,
        }
    } else {
        r is Forward
    }
}

/// What the proxy does with a request.
#[derive(Debug, Clone)]
pub enum ProxyDecision {
    /// Shut the server down and answer with this response.
    Shutdown(HttpResponse),
    /// Forward the request to the target server.
    Forward,
}

/// A request to send to the target server: its method, URL, headers, and body
/// (none when the client sent an empty one).
#[derive(Debug, Clone)]
pub struct ForwardedRequest {
    pub method: String,
    pub url: String,
    pub headers: Vec<HttpHeader>,
    pub body: Option<Vec<u8>>,
}

/// The content type of a response: the first `content-type` header's value
/// when it is text, else nothing.
pub open spec fn content_type_text(headers: Seq<HttpHeader>) -> Seq<u8> {
    match first_named(headers, "content-type"@) {
        Some(i) => if visible_ascii(headers[i].value@) {
            headers[i].value@
        } else {
            Seq::empty()
        },
        None => Seq::empty(),
    }
}

/// The response is an event stream.
pub open spec fn is_event_stream(headers: Seq<HttpHeader>) -> bool {
    contains_text(content_type_text(headers), encode_utf8("text/event-stream"@))
}

/// The headers sent back to the client: all of the target's, in order, and
/// for an event stream three more: `content-type: text/event-stream`,
/// `cache-control: no-cache` and `connection: keep-alive`.
pub open spec fn returns_headers(upstream: Seq<HttpHeader>, r: Seq<HttpHeader>) -> bool {
    if is_event_stream(upstream) {
        &&& r.len() == upstream.len() + 3
        &&& same_headers(r.subrange(0, upstream.len() as int), upstream)
        &&& r[upstream.len() as int].name@ == "content-type"@
        &&& r[upstream.len() as int].value@ == encode_utf8("text/event-stream"@)
        &&& r[upstream.len() as int + 1].name@ == "cache-control"@
        &&& r[upstream.len() as int + 1].value@ == encode_utf8("no-cache"@)
        &&& r[upstream.len() as int + 2].name@ == "connection"@
        &&& r[upstream.len() as int + 2].value@ == encode_utf8("keep-alive"@)
    } else {
        same_headers(r, upstream)
    }
}

impl ProxyService {
    pub fn new(target_url: String) -> (r: ProxyService)
        ensures
            r.target_url@ == target_url@,
    {
        ProxyService { target_url }
    }

    /// Whether the request asks the server to shut down.
    pub fn is_calculation_token_request(
        &self,
        path: &str,
        query: Option<&str>,
        headers: &Vec<HttpHeader>,
    ) -> (r: bool)
        ensures
            r == asks_shutdown(path@, opt_text(query), headers@),
    {
        let q: &str = match query {
            Some(q) => q,
            None => "",
        };
        proof {
            reveal_strlit("");
            if query is None {
                assert(q@ =~= Seq::<char>::empty());
            }
        }
        (contains_str(path, "/calculate") && contains_str(q, "token")) || str_equals(
            path,
            "/shutdown",
        ) || find_header(headers, "x-calculation-token").is_some()
    }

    /// What to do with a request: a shutdown request is answered at once,
    /// with status 200 and a JSON note; any other is forwarded.
    pub fn decide(&self, path: &str, query: Option<&str>, headers: &Vec<HttpHeader>) -> (r:
        ProxyDecision)
        ensures
            decides(r, asks_shutdown(path@, opt_text(query), headers@)),
    {
        if self.is_calculation_token_request(path, query, headers) {
            ProxyDecision::Shutdown(self.create_shutdown_response())
        } else {
            ProxyDecision::Forward
        }
    }

    /// The URL a request with this path and query is forwarded to.
    pub fn forward_url(&self, path_and_query: Option<&str>) -> (r: String)
        ensures
            r@ == forward_url(self.target_url@, opt_text(path_and_query)),
    {
        let mut url = trim_end_matches_char(self.target_url.as_str(), '/');
        match path_and_query {
            Some(pq) => url.append(pq),
            None => url.append("/"),
        }
        url
    }

    /// The request sent to the target for a client request with `method`,
    /// path and query, `headers` and `body`: the same method, the forwarding
    /// URL, the forwardable headers, and the body only when it is not empty.
    pub fn forward_request(
        &self,
        method: &str,
        path_and_query: Option<&str>,
        headers: &Vec<HttpHeader>,
        body: Vec<u8>,
    ) -> (r: ForwardedRequest)
        ensures
            r.method@ == method@,
            r.url@ == forward_url(self.target_url@, opt_text(path_and_query)),
            same_headers(r.headers@, forwardable_headers(headers@)),
            body@.len() == 0 ==> r.body is None,
            body@.len() > 0 ==> r.body == Some(body),
    {
        let body = if body.len() == 0 {
            None
        } else {
            Some(body)
        };
        ForwardedRequest {
            method: String::from_str(method),
            url: self.forward_url(path_and_query),
            headers: self.forwarded_headers(headers),
            body,
        }
    }

    /// The request headers forwarded to the target: all but the hop-by-hop
    /// ones and those whose value is not text, in their order.
    pub fn forwarded_headers(&self, headers: &Vec<HttpHeader>) -> (r: Vec<HttpHeader>)
        ensures
            same_headers(r@, forwardable_headers(headers@)),
    {
        let mut r: Vec<HttpHeader> = Vec::new();
        let mut i: usize = 0;
        while i < headers.len()
            invariant
                i <= headers@.len(),
                same_headers(r@, forwardable_headers(headers@.subrange(0, i as int))),
            decreases headers.len() - i,
        {
            let ghost before = r@;
            assert(headers@.subrange(0, i + 1).drop_last() =~= headers@.subrange(0, i as int));
            if !is_hop_by_hop(headers[i].name.as_str()) && is_visible_ascii(&headers[i].value) {
                r.push(copy_header(&headers[i]));
            }
            i = i + 1;
            assert(same_headers(r@, forwardable_headers(headers@.subrange(0, i as int)))) by {
                let f = forwardable_headers(headers@.subrange(0, i as int));
                assert forall|k: int| 0 <= k < r@.len() implies same_header(#[trigger] r@[k], f[k]) by {
                    if k < before.len() {
                        assert(r@[k] == before[k]);
                    }
                }
            }
        }
        assert(headers@.subrange(0, i as int) =~= headers@);
        r
    }

    /// The headers sent back to the client for the target's response headers.
    pub fn response_headers(&self, upstream: &Vec<HttpHeader>) -> (r: Vec<HttpHeader>)
        ensures
            returns_headers(upstream@, r@),
    {
        let mut r: Vec<HttpHeader> = Vec::new();
        let mut i: usize = 0;
        while i < upstream.len()
            invariant
                i <= upstream@.len(),
                same_headers(r@, upstream@.subrange(0, i as int)),
            decreases upstream.len() - i,
        {
            r.push(copy_header(&upstream[i]));
            i = i + 1;
            assert(same_headers(r@, upstream@.subrange(0, i as int))) by {
                assert forall|k: int| 0 <= k < r@.len() implies same_header(
                    #[trigger] r@[k],
                    upstream@.subrange(0, i as int)[k],
                ) by {
                    if k < r@.len() - 1 {
                        assert(upstream@.subrange(0, i as int)[k] == upstream@.subrange(
                            0,
                            i - 1,
                        )[k]);
                    }
                }
            }
        }
        assert(upstream@.subrange(0, i as int) =~= upstream@);
        let ct: Vec<u8> = match find_header(upstream, "content-type") {
            Some(k) => {
                proof {
                    lemma_first_named_unique(upstream@, "content-type"@, k as int);
                }
                if is_visible_ascii(&upstream[k].value) {
                    vstd::slice::slice_to_vec(upstream[k].value.as_slice())
                } else {
                    Vec::new()
                }
            },
            None => Vec::new(),
        };
        assert(ct@ == content_type_text(upstream@));
        let marker = "text/event-stream".as_bytes_vec();
        if contains_bytes(&ct, &marker) {
            let ghost copied = r@;
            r.push(header_from("content-type", "text/event-stream"));
            r.push(header_from("cache-control", "no-cache"));
            r.push(header_from("connection", "keep-alive"));
            assert(same_headers(r@.subrange(0, upstream@.len() as int), upstream@)) by {
                assert forall|k: int| 0 <= k < upstream@.len() implies same_header(
                    #[trigger] r@.subrange(0, upstream@.len() as int)[k],
                    upstream@[k],
                ) by {
                    assert(r@.subrange(0, upstream@.len() as int)[k] == r@[k]);
                    assert(r@[k] == copied[k]);
                }
            }
        }
        r
    }

    /// The answer to a shutdown request.
    pub fn create_shutdown_response(&self) -> (r: HttpResponse)
        ensures
            plain_response(r, 200, "application/json"@, encode_utf8(shutdown_body())),
    {
        let mut headers: Vec<HttpHeader> = Vec::new();
        headers.push(header_from("content-type", "application/json"));
        HttpResponse {
            status: 200,
            headers,
            body: "{\"status\":\"shutdown\",\"message\":\"Server shutting down due to calculation token request\"}".as_bytes_vec(),
        }
    }

    /// The answer to a request that could not be forwarded.
    pub fn create_error_response(&self) -> (r: HttpResponse)
        ensures
            plain_response(r, 500, "application/json"@, encode_utf8(forward_error_body())),
    {
        let mut headers: Vec<HttpHeader> = Vec::new();
        headers.push(header_from("content-type", "application/json"));
        HttpResponse {
            status: 500,
            headers,
            body: "{\"error\":\"Failed to forward request\"}".as_bytes_vec(),
        }
    }
}

/// `b` is an ASCII digit.
pub open spec fn is_digit(b: u8) -> bool {
    48u8 <= b && b <= 57u8
}

/// Every byte of `d` is an ASCII digit.
pub open spec fn all_digits(d: Seq<u8>) -> bool {
    forall|i: int| 0 <= i < d.len() ==> #[trigger] is_digit(d[i])
}

/// The number written by the decimal digits `d`.
pub open spec fn decimal_value(d: Seq<u8>) -> nat
    decreases d.len(),
{
    if d.len() == 0 {
        0
    } else {
        decimal_value(d.drop_last()) * 10 + (d.last() - 48) as nat
    }
}

/// The digits of an unsigned number: the text without one leading `+`.
pub open spec fn unsigned_digits(s: Seq<u8>) -> Seq<u8> {
    if s.len() > 0 && s[0] == 43u8 {
        s.subrange(1, s.len() as int)
    } else {
        s
    }
}

/// The `usize` that `s` denotes as `str::parse::<usize>` reads it: an optional
/// `+`, then one or more decimal digits, with a value that fits.
pub open spec fn parsed_usize(s: Seq<u8>) -> Option<usize> {
    let d = unsigned_digits(s);
    if d.len() > 0 && all_digits(d) && decimal_value(d) <= usize::MAX {
        Some(decimal_value(d) as usize)
    } else {
        None
    }
}

proof fn lemma_decimal_prefix(d: Seq<u8>, i: int)
    requires
        0 <= i <= d.len(),
        forall|k: int| 0 <= k < d.len() ==> #[trigger] is_digit(d[k]),
    ensures
        decimal_value(d.subrange(0, i)) <= decimal_value(d),
    decreases d.len(),
{
    if i < d.len() {
        let init = d.drop_last();
        assert forall|k: int| 0 <= k < init.len() implies #[trigger] is_digit(init[k]) by {
            assert(init[k] == d[k]);
        }
        lemma_decimal_prefix(init, i);
        assert(init.subrange(0, i) =~= d.subrange(0, i));
    } else {
        assert(d.subrange(0, i) =~= d);
    }
}

/// Reads a `usize` as `str::parse::<usize>` does.
pub fn parse_usize(s: &Vec<u8>) -> (r: Option<usize>)
    ensures
        r == parsed_usize(s@),
{
    let start: usize = if s.len() > 0 && s[0] == 43u8 {
        1
    } else {
        0
    };
    let ghost d = unsigned_digits(s@);
    assert(d =~= s@.subrange(start as int, s@.len() as int));
    if start == s.len() {
        return None;
    }
    let mut acc: usize = 0;
    let mut i: usize = start;
    while i < s.len()
        invariant
            start <= i <= s.len(),
            d == s@.subrange(start as int, s@.len() as int),
            d == unsigned_digits(s@),
            forall|k: int| start <= k < i ==> #[trigger] is_digit(s@[k]),
            acc == decimal_value(s@.subrange(start as int, i as int)),
        decreases s.len() - i,
    {
        let b = s[i];
        if !(48u8 <= b && b <= 57u8) {
            assert(d[i - start] == s@[i as int]);
            assert(!is_digit(d[i - start]));
            assert(!all_digits(d));
            return None;
        }
        let ghost prefix = s@.subrange(start as int, i + 1);
        assert(prefix.drop_last() =~= s@.subrange(start as int, i as int));
        let times_ten = match acc.checked_mul(10) {
            Some(v) => v,
            None => {
                proof {
                    if all_digits(d) {
                        lemma_decimal_prefix(d, i + 1 - start);
                        assert(d.subrange(0, i + 1 - start) =~= prefix);
                    }
                }
                return None;
            },
        };
        let next = match times_ten.checked_add((b - 48) as usize) {
            Some(v) => v,
            None => {
                proof {
                    if all_digits(d) {
                        lemma_decimal_prefix(d, i + 1 - start);
                        assert(d.subrange(0, i + 1 - start) =~= prefix);
                    }
                }
                return None;
            },
        };
        acc = next;
        i = i + 1;
    }
    assert(s@.subrange(start as int, i as int) =~= d);
    assert(all_digits(d)) by {
        assert forall|k: int| 0 <= k < d.len() implies #[trigger] is_digit(d[k]) by {
            assert(d[k] == s@[start + k]);
        }
    }
    Some(acc)
}

/// The length a request announces: its first `content-length` header read as
/// a number, or 0 when there is none, or it is not text, or not a number.
pub open spec fn announced_length(headers: Seq<HttpHeader>) -> usize {
    match first_named(headers, "content-length"@) {
        Some(i) => if visible_ascii(headers[i].value@) {
            match parsed_usize(headers[i].value@) {
                Some(n) => n,
                None => 0,
            }
        } else {
            0
        },
        None => 0,
    }
}

/// The text of an error answer of the stdio relay.
pub open spec fn error_json(message: Seq<char>) -> Seq<char> {
    "{\"error\":\""@ + message + "\"}"@
}

/// The reply given to a request that is not relayed (a stand-in for an
/// initialization result).
pub open spec fn initialize_reply() -> Seq<char> {
    "{\"id\":0,\"jsonrpc\":\"2.0\",\"result\":{\"capabilities\":{\"experimental\":{},\"prompts\":{\"listChanged\":false},\"resources\":{\"listChanged\":false,\"subscribe\":false},\"tools\":{\"listChanged\":false}},\"protocolVersion\":\"2025-03-26\",\"serverInfo\":{\"name\":\"test-weather-server\",\"version\":\"1.9.5.dev5+f3cd20c\"}}}"@
}

/// `r` is the relay's error answer with `message`.
pub open spec fn error_answer(r: HttpResponse, message: Seq<char>) -> bool {
    plain_response(r, 500, "application/json"@, encode_utf8(error_json(message)))
}

/// What the stdio relay does next with a request.
#[derive(Debug, Clone)]
pub enum StdioAction {
    /// Answer with this response; the request is done.
    Respond(HttpResponse),
    /// Read the request's body and report it.
    CollectBody,
    /// Write these bytes to the server's standard input and report whether
    /// that worked.
    SendToChild(Vec<u8>),
    /// Wait for the next output of the server and report it.
    AwaitChildOutput,
}

/// `a` answers with the relay's error answer with `message`.
pub open spec fn responds_error(a: StdioAction, message: Seq<char>) -> bool {
    match a {
        StdioAction::Respond(r) => error_answer(r, message),
        _ => false,
    }
}

/// Relays HTTP requests to a stdio server and its output back.
pub struct StdioRelay;

impl StdioRelay {
    /// The length a request announces in its `content-length` header.
    pub fn content_length(&self, headers: &Vec<HttpHeader>) -> (r: usize)
        ensures
            r == announced_length(headers@),
    {
        match find_header(headers, "content-length") {
            Some(k) => {
                proof {
                    lemma_first_named_unique(headers@, "content-length"@, k as int);
                }
                if is_visible_ascii(&headers[k].value) {
                    match parse_usize(&headers[k].value) {
                        Some(n) => n,
                        None => 0,
                    }
                } else {
                    0
                }
            },
            None => 0,
        }
    }

    /// Only POST requests and requests with a body are relayed.
    pub fn should_forward(&self, is_post: bool, content_length: usize) -> (r: bool)
        ensures
            r == (is_post || content_length > 0),
    {
        is_post || content_length > 0
    }

    /// The error answer with `message`.
    pub fn create_error_response(&self, message: &str) -> (r: HttpResponse)
        ensures
            error_answer(r, message@),
    {
        let mut text = String::from_str("{\"error\":\"");
        text.append(message);
        text.append("\"}");
        let mut headers: Vec<HttpHeader> = Vec::new();
        headers.push(header_from("content-type", "application/json"));
        HttpResponse { status: 500, headers, body: text.as_str().as_bytes_vec() }
    }

    /// A new request: refused while the server shuts down; answered at once
    /// with the stand-in reply (status 200, no headers) when it is not to be
    /// relayed; else its body is read.
    pub fn on_request(&self, cancelled: bool, is_post: bool, headers: &Vec<HttpHeader>) -> (r:
        StdioAction)
        ensures
            cancelled ==> responds_error(r, "Server is shutting down"@),
            !cancelled && (is_post || announced_length(headers@) > 0) ==> r is CollectBody,
            !cancelled && !(is_post || announced_length(headers@) > 0) ==> (match r {
                StdioAction::Respond(resp) => resp.status == 200 && resp.headers@.len() == 0
                    && resp.body@ == encode_utf8(initialize_reply()),
                _ => false,
            }),
    {
        if cancelled {
            return StdioAction::Respond(self.create_error_response("Server is shutting down"));
        }
        let length = self.content_length(headers);
        if self.should_forward(is_post, length) {
            StdioAction::CollectBody
        } else {
            StdioAction::Respond(
                HttpResponse {
                    status: 200,
                    headers: Vec::new(),
                    body: "{\"id\":0,\"jsonrpc\":\"2.0\",\"result\":{\"capabilities\":{\"experimental\":{},\"prompts\":{\"listChanged\":false},\"resources\":{\"listChanged\":false,\"subscribe\":false},\"tools\":{\"listChanged\":false}},\"protocolVersion\":\"2025-03-26\",\"serverInfo\":{\"name\":\"test-weather-server\",\"version\":\"1.9.5.dev5+f3cd20c\"}}}".as_bytes_vec(),
                },
            )
        }
    }

    /// The body was read (or not): it goes to the server's input as it is.
    pub fn on_body(&self, body: Result<Vec<u8>, String>) -> (r: StdioAction)
        ensures
            match body {
                Ok(bytes) => match r {
                    StdioAction::SendToChild(b) => b@ == bytes@,
                    _ => false,
                },
                Err(_) => responds_error(r, "Failed to read request body"@),
            },
    {
        match body {
            Ok(b) => StdioAction::SendToChild(b),
            Err(_) => StdioAction::Respond(
                self.create_error_response("Failed to read request body"),
            ),
        }
    }

    /// The body was handed to the server's input (or not).
    pub fn on_sent(&self, sent: bool) -> (r: StdioAction)
        ensures
            sent ==> r is AwaitChildOutput,
            !sent ==> responds_error(r, "Failed to send request to child process"@),
    {
        if sent {
            StdioAction::AwaitChildOutput
        } else {
            StdioAction::Respond(
                self.create_error_response("Failed to send request to child process"),
            )
        }
    }

    /// The answer built from the server's next output: the bytes read, with
    /// status 200; or an error answer when reading failed or the output ended.
    pub fn on_child_output(&self, output: Option<Result<Vec<u8>, String>>) -> (r: HttpResponse)
        ensures
            match output {
                Some(Ok(data)) => plain_response(
                    r,
                    200,
                    "application/octet-stream"@,
                    data@,
                ),
                Some(Err(_)) => error_answer(r, "Error reading from child process"@),
                None => error_answer(r, "Child process closed"@),
            },
    {
        match output {
            Some(Ok(data)) => {
                let mut headers: Vec<HttpHeader> = Vec::new();
                headers.push(header_from("content-type", "application/octet-stream"));
                HttpResponse { status: 200, headers, body: data }
            },
            Some(Err(_)) => self.create_error_response("Error reading from child process"),
            None => self.create_error_response("Child process closed"),
        }
    }
}

/// How a server definition is served: a stdio server behind the relay, or an
/// SSE server behind the proxy; either way its command is started first.
#[derive(Debug, Clone)]
pub enum ServePlan {
    Stdio { command: CommandSpec, listen: String },
    Sse { command: CommandSpec, listen: String, target_url: String },
}

/// An MCP server made reachable over HTTP.
pub struct GpmcpServer {
    pub server_definition: ServerDefinition,
}

impl GpmcpServer {
    /// How this server is served: its command, with its environment, and the
    /// relay on [`STDIO_LISTEN_ADDR`] for stdio, or the proxy on
    /// [`PROXY_LISTEN_ADDR`] forwarding to the SSE address.
    pub fn serve_plan(&self) -> (r: ServePlan)
        ensures
            match self.server_definition.runner {
                Runner::Stdio { command_runner } => r matches ServePlan::Stdio { command, listen }
                    && launches(command, command_runner, self.server_definition.env@, false)
                    && listen@ == STDIO_LISTEN_ADDR@,
                Runner::Sse { command_runner, url } => r matches ServePlan::Sse {
                    command,
                    listen,
                    target_url,
                } && launches(command, command_runner, self.server_definition.env@, false)
                    && listen@ == PROXY_LISTEN_ADDR@ && target_url@ == url@,
            },
    {
        match &self.server_definition.runner {
            Runner::Stdio { command_runner } => ServePlan::Stdio {
                command: command_runner.launch(&self.server_definition.env, false),
                listen: String::from_str(STDIO_LISTEN_ADDR),
            },
            Runner::Sse { command_runner, url } => ServePlan::Sse {
                command: command_runner.launch(&self.server_definition.env, false),
                listen: String::from_str(PROXY_LISTEN_ADDR),
                target_url: url.clone(),
            },
        }
    }
}

} // verus!
