//! The HTTP forwarder's rules: where a request goes, which headers travel
//! with it, and what is reported of the origin's answer. The request itself
//! is made by the caller.

use vstd::prelude::*;
use vstd::string::*;
use vstd::utf8::*;

use crate::messages::{Headers, HeadersModel};
use crate::text::{decimal, eq_ignore_ascii_case, lower, push_decimal};

verus! {

/// How many idle connections to one origin are kept for later requests.
pub const POOL_MAX_IDLE_PER_HOST: usize = 10;

/// Redirects are never followed: the public client must see the origin's
/// redirect as it is.
pub const FOLLOW_REDIRECTS: bool = false;

/// Whether `http::header::HeaderName` accepts a text as a header name.
pub uninterp spec fn header_name_valid(name: Seq<char>) -> bool;

/// The error that `http::Method` gives for a text, in words; `None` where it
/// accepts the text as a method.
pub uninterp spec fn http_method_error(method: Seq<char>) -> Option<Seq<char>>;

/// A byte that `http::header::HeaderValue` accepts: no control character but
/// the tab.
pub open spec fn header_value_byte(b: u8) -> bool {
    b >= 32 && b != 127 || b == 9
}

/// A byte that `http::header::HeaderValue` shows as text: visible ASCII, the
/// space or the tab.
pub open spec fn visible_ascii_byte(b: u8) -> bool {
    b >= 32 && b < 127 || b == 9
}

/// Whether `http::header::HeaderValue` accepts a text as a header value.
pub open spec fn header_value_valid(value: Seq<char>) -> bool {
    forall|i: int|
        0 <= i < encode_utf8(value).len() ==> header_value_byte(#[trigger] encode_utf8(value)[i])
}

/// Whether every byte is visible ASCII.
pub open spec fn all_visible_ascii(bytes: Seq<u8>) -> bool {
    forall|i: int| 0 <= i < bytes.len() ==> visible_ascii_byte(#[trigger] bytes[i])
}

/// Parses a header name with `http::header::HeaderName`.
///
/// Trusted: whether the name is accepted depends on its text alone.
#[verifier::external_body]
pub(crate) fn header_name_is_valid(name: &str) -> (r: bool)
    ensures
        r == header_name_valid(name@),
{
    name.parse::<::http::header::HeaderName>().is_ok()
}

/// Calls `http::header::HeaderValue::from_str`.
///
/// Trusted: the value is accepted exactly when none of its bytes is a
/// control character other than the tab.
#[verifier::external_body]
pub(crate) fn header_value_is_valid(value: &str) -> (r: bool)
    ensures
        r == header_value_valid(value@),
{
    ::http::header::HeaderValue::from_str(value).is_ok()
}

/// Calls `http::header::HeaderValue::from_bytes` and then
/// `http::header::HeaderValue::to_str`.
///
/// Trusted: a text comes back exactly when every byte is visible ASCII, the
/// space or the tab, and it then holds those bytes.
#[verifier::external_body]
pub(crate) fn header_value_text(bytes: &[u8]) -> (r: Option<String>)
    ensures
        r is Some <==> all_visible_ascii(bytes@),
        r matches Some(s) ==> encode_utf8(s@) == bytes@,
{
    let value = ::http::header::HeaderValue::from_bytes(bytes).ok()?;
    value.to_str().ok().map(|s| s.to_string())
}

/// Parses a method with `http::Method` and hands back the error's text.
///
/// Trusted: the outcome depends on the method's text alone.
#[verifier::external_body]
pub(crate) fn method_error(method: &str) -> (r: Option<String>)
    ensures
        r.deep_view() == http_method_error(method@),
{
    method.parse::<::http::Method>().err().map(|e| e.to_string())
}

/// Two header names are the same, letter case aside.
pub open spec fn same_name(a: Seq<char>, b: Seq<char>) -> bool {
    lower(a) == lower(b)
}

/// The headers that belong to one transport hop and are never forwarded.
pub open spec fn is_hop_by_hop_name(name: Seq<char>) -> bool {
    same_name(name, "connection"@) || same_name(name, "keep-alive"@) || same_name(
        name,
        "proxy-authenticate"@,
    ) || same_name(name, "proxy-authorization"@) || same_name(name, "te"@) || same_name(
        name,
        "trailers"@,
    ) || same_name(name, "transfer-encoding"@) || same_name(name, "upgrade"@)
}

/// `true` exactly for a hop-by-hop header name.
pub fn is_hop_by_hop(name: &str) -> (r: bool)
    ensures
        r == is_hop_by_hop_name(name@),
{
    eq_ignore_ascii_case(name, "connection") || eq_ignore_ascii_case(name, "keep-alive")
        || eq_ignore_ascii_case(name, "proxy-authenticate") || eq_ignore_ascii_case(
        name,
        "proxy-authorization",
    ) || eq_ignore_ascii_case(name, "te") || eq_ignore_ascii_case(name, "trailers")
        || eq_ignore_ascii_case(name, "transfer-encoding") || eq_ignore_ascii_case(name, "upgrade")
}

/// A request header travels on when it is not hop-by-hop, is not `host`, and
/// has a well-formed name and value.
pub open spec fn request_header_kept(h: (Seq<char>, Seq<char>)) -> bool {
    !is_hop_by_hop_name(h.0) && !same_name(h.0, "host"@) && header_name_valid(h.0)
        && header_value_valid(h.1)
}

/// The place of the first header with this name, letter case aside, or the
/// number of headers where there is none.
pub open spec fn name_index(headers: HeadersModel, name: Seq<char>) -> int
    decreases headers.len(),
{
    if headers.len() == 0 {
        0
    } else if same_name(headers[0].0, name) {
        0
    } else {
        1 + name_index(headers.drop_first(), name)
    }
}

/// The headers with one more header set: a header of a name that is there
/// already, letter case aside, gives its value to the header of that name;
/// a header of a new name comes last.
pub open spec fn with_header(headers: HeadersModel, h: (Seq<char>, Seq<char>)) -> HeadersModel {
    let at = name_index(headers, h.0);
    if at < headers.len() {
        headers.update(at, (headers[at].0, h.1))
    } else {
        headers.push(h)
    }
}

/// The request headers that travel on: of the headers that are kept, each
/// name once, at the place where it came first, with the value that came
/// last.
pub open spec fn kept_request_headers(headers: HeadersModel) -> HeadersModel
    decreases headers.len(),
{
    if headers.len() == 0 {
        Seq::empty()
    } else {
        let before = kept_request_headers(headers.drop_last());
        if request_header_kept(headers.last()) {
            with_header(before, headers.last())
        } else {
            before
        }
    }
}

/// Sets a header in a list in which no name comes twice.
pub fn set_header(headers: &mut Headers, name: &String, value: &String)
    ensures
        final(headers).deep_view() == with_header(old(headers).deep_view(), (name@, value@)),
{
    let ghost model = headers.deep_view();
    let mut i: usize = 0;
    assert(model.skip(0) =~= model);
    while i < headers.len()
        invariant
            i <= headers.len(),
            model == headers.deep_view(),
            model == old(headers).deep_view(),
            model.len() == headers.len(),
            name_index(model, name@) == i + name_index(model.skip(i as int), name@),
        decreases headers.len() - i,
    {
        proof {
            assert(model.skip(i as int).drop_first() =~= model.skip(i + 1));
            assert(model.skip(i as int)[0] == (headers@[i as int].0@, headers@[i as int].1@));
        }
        if eq_ignore_ascii_case(headers[i].0.as_str(), name.as_str()) {
            proof {
                assert(same_name(model.skip(i as int)[0].0, name@));
                assert(name_index(model.skip(i as int), name@) == 0);
                assert(name_index(model, name@) == i);
            }
            let kept_name = headers[i].0.clone();
            headers.set(i, (kept_name, value.clone()));
            assert(headers.deep_view() =~= model.update(i as int, (model[i as int].0, value@)));
            return;
        }
        i += 1;
    }
    proof {
        assert(model.skip(i as int) =~= Seq::empty());
        assert(name_index(model, name@) == model.len());
    }
    headers.push((name.clone(), value.clone()));
    assert(headers.deep_view() =~= model.push((name@, value@)));
}

/// The URL of the local origin for a request.
pub open spec fn target_url_spec(
    local_host: Seq<char>,
    local_port: u16,
    path: Seq<char>,
    query_string: Seq<char>,
) -> Seq<char> {
    let base = "http://"@ + local_host + ":"@ + decimal(local_port as nat) + path;
    if query_string.len() == 0 {
        base
    } else {
        base + "?"@ + query_string
    }
}

/// Builds `http://{local_host}:{local_port}{path}`, with `?{query_string}`
/// after it where the query is not empty.
pub fn target_url(local_host: &str, local_port: u16, path: &str, query_string: &str) -> (r: String)
    ensures
        r@ == target_url_spec(local_host@, local_port, path@, query_string@),
{
    let mut url = String::from_str("http://");
    url.append(local_host);
    url.append(":");
    push_decimal(&mut url, local_port as u64);
    url.append(path);
    if !query_string.is_empty() {
        url.append("?");
        url.append(query_string);
    }
    url
}

/// Selects the request headers that travel on to the origin. No name comes
/// twice in the result: a later header of a name takes the place of an
/// earlier one.
pub fn request_headers(headers: &Headers) -> (r: Headers)
    ensures
        r.deep_view() == kept_request_headers(headers.deep_view()),
{
    let ghost model = headers.deep_view();
    let mut kept: Headers = Vec::new();
    let mut i: usize = 0;
    assert(kept.deep_view() =~= kept_request_headers(model.take(0)));
    while i < headers.len()
        invariant
            i <= headers.len(),
            model == headers.deep_view(),
            model.len() == headers.len(),
            kept.deep_view() == kept_request_headers(model.take(i as int)),
        decreases headers.len() - i,
    {
        proof {
            assert(model.take(i + 1).drop_last() =~= model.take(i as int));
            assert(model.take(i + 1).last() == (headers@[i as int].0@, headers@[i as int].1@));
        }
        let name = headers[i].0.as_str();
        let value = headers[i].1.as_str();
        let dropped = is_hop_by_hop(name) || eq_ignore_ascii_case(name, "host");
        if !dropped && header_name_is_valid(name) && header_value_is_valid(value) {
            set_header(&mut kept, &headers[i].0, &headers[i].1);
        }
        i += 1;
    }
    assert(model.take(i as int) =~= model);
    kept
}

/// A request as it goes to the local origin.
#[derive(Debug, Clone, PartialEq, Eq)]
pub struct HttpRequest {
    pub url: String,
    pub method: String,
    pub headers: Headers,
    pub body: Option<Vec<u8>>,
}

/// The model of an [`HttpRequest`].
pub struct HttpRequestModel {
    pub url: Seq<char>,
    pub method: Seq<char>,
    pub headers: HeadersModel,
    pub body: Option<Seq<u8>>,
}

impl View for HttpRequest {
    type V = HttpRequestModel;

    open spec fn view(&self) -> HttpRequestModel {
        HttpRequestModel {
            url: self.url@,
            method: self.method@,
            headers: self.headers.deep_view(),
            body: self.body.deep_view(),
        }
    }
}

/// The request that forwarding makes, or the error's text where the method
/// is not one.
pub open spec fn plan_request_spec(
    local_host: Seq<char>,
    local_port: u16,
    method: Seq<char>,
    path: Seq<char>,
    query_string: Seq<char>,
    headers: HeadersModel,
    body: Option<Seq<u8>>,
) -> Result<HttpRequestModel, Seq<char>> {
    match http_method_error(method) {
        Some(error) => Err(error),
        None => Ok(
            HttpRequestModel {
                url: target_url_spec(local_host, local_port, path, query_string),
                method,
                headers: kept_request_headers(headers),
                body,
            },
        ),
    }
}

/// The model of a planning result.
pub open spec fn planned_model(r: Result<HttpRequest, String>) -> Result<HttpRequestModel, Seq<char>> {
    match r {
        Ok(request) => Ok(request@),
        Err(error) => Err(error@),
    }
}

/// Prepares the one request that goes to the local origin: its URL, its
/// method, the headers that travel on, and the body as it came.
pub fn plan_request(
    local_host: &str,
    local_port: u16,
    method: &str,
    path: &str,
    query_string: &str,
    headers: &Headers,
    body: Option<Vec<u8>>,
) -> (r: Result<HttpRequest, String>)
    ensures
        planned_model(r) == plan_request_spec(
            local_host@,
            local_port,
            method@,
            path@,
            query_string@,
            headers.deep_view(),
            body.deep_view(),
        ),
{
    match method_error(method) {
        Some(error) => Err(error),
        None => Ok(
            HttpRequest {
                url: target_url(local_host, local_port, path, query_string),
                method: method.to_string(),
                headers: request_headers(headers),
                body,
            },
        ),
    }
}

/// What is reported of the origin's answer.
#[derive(Debug, Clone, PartialEq, Eq)]
pub struct HttpResponse {
    pub status: u16,
    pub headers: Headers,
    pub body: Option<Vec<u8>>,
}

/// The model of an [`HttpResponse`].
pub struct HttpResponseModel {
    pub status: u16,
    pub headers: HeadersModel,
    pub body: Option<Seq<u8>>,
}

impl View for HttpResponse {
    type V = HttpResponseModel;

    open spec fn view(&self) -> HttpResponseModel {
        HttpResponseModel {
            status: self.status,
            headers: self.headers.deep_view(),
            body: self.body.deep_view(),
        }
    }
}

/// A response header is reported when it is not hop-by-hop and its value is
/// visible ASCII.
pub open spec fn response_header_kept(h: (Seq<char>, Seq<u8>)) -> bool {
    !is_hop_by_hop_name(h.0) && all_visible_ascii(h.1)
}

/// The response headers that are reported, in their order, each value as
/// the text that its bytes spell.
pub open spec fn kept_response_headers(headers: Seq<(Seq<char>, Seq<u8>)>) -> HeadersModel
    decreases headers.len(),
{
    if headers.len() == 0 {
        Seq::empty()
    } else {
        let before = kept_response_headers(headers.drop_last());
        if response_header_kept(headers.last()) {
            before.push((headers.last().0, decode_utf8(headers.last().1)))
        } else {
            before
        }
    }
}

/// A body of no bytes is reported as absent.
pub open spec fn reported_body(body: Option<Seq<u8>>) -> Option<Seq<u8>> {
    match body {
        Some(bytes) => if bytes.len() == 0 {
            None
        } else {
            Some(bytes)
        },
        None => None,
    }
}

/// Selects the response headers that are reported to the server.
pub fn response_headers(headers: &Vec<(String, Vec<u8>)>) -> (r: Headers)
    ensures
        r.deep_view() == kept_response_headers(headers.deep_view()),
{
    let ghost model = headers.deep_view();
    let mut kept: Headers = Vec::new();
    let mut i: usize = 0;
    assert(kept.deep_view() =~= kept_response_headers(model.take(0)));
    while i < headers.len()
        invariant
            i <= headers.len(),
            model == headers.deep_view(),
            model.len() == headers.len(),
            kept.deep_view() == kept_response_headers(model.take(i as int)),
        decreases headers.len() - i,
    {
        proof {
            assert(model.take(i + 1).drop_last() =~= model.take(i as int));
            assert(headers@[i as int].1.deep_view() =~= headers@[i as int].1@);
            assert(model.take(i + 1).last() == (headers@[i as int].0@, headers@[i as int].1@));
        }
        let name = headers[i].0.as_str();
        if !is_hop_by_hop(name) {
            match header_value_text(headers[i].1.as_slice()) {
                Some(value) => {
                    proof {
                        encode_utf8_decode_utf8(value@);
                    }
                    let ghost before = kept.deep_view();
                    kept.push((headers[i].0.clone(), value));
                    assert(kept.deep_view() =~= before.push(
                        (headers@[i as int].0@, decode_utf8(headers@[i as int].1@)),
                    ));
                },
                None => {},
            }
        }
        i += 1;
    }
    assert(model.take(i as int) =~= model);
    kept
}

/// Puts together what is reported of the origin's answer: the status, the
/// headers that are not hop-by-hop, and the body unless it is empty.
pub fn digest_response(status: u16, headers: &Vec<(String, Vec<u8>)>, body: Option<Vec<u8>>) -> (r:
    HttpResponse)
    ensures
        r@ == (HttpResponseModel {
            status,
            headers: kept_response_headers(headers.deep_view()),
            body: reported_body(body.deep_view()),
        }),
{
    let body = match body {
        Some(bytes) => {
            assert(bytes.deep_view() =~= bytes@);
            if bytes.len() == 0 {
                None
            } else {
                Some(bytes)
            }
        },
        None => None,
    };
    HttpResponse { status, headers: response_headers(headers), body }
}

/// No name comes twice, letter case aside.
pub open spec fn names_distinct(headers: HeadersModel) -> bool {
    forall|i: int, j: int|
        0 <= i < headers.len() && 0 <= j < headers.len() && i != j ==> !same_name(
            #[trigger] headers[i].0,
            #[trigger] headers[j].0,
        )
}

/// Where the first header of a name is: at a place that holds the name, with
/// no header of the name before it; or nowhere, and then no header has the
/// name.
pub proof fn lemma_name_index(headers: HeadersModel, name: Seq<char>)
    ensures
        0 <= name_index(headers, name) <= headers.len(),
        name_index(headers, name) < headers.len() ==> same_name(
            headers[name_index(headers, name)].0,
            name,
        ),
        forall|i: int| 0 <= i < name_index(headers, name) ==> !same_name(#[trigger] headers[i].0, name),
    decreases headers.len(),
{
    if headers.len() > 0 && !same_name(headers[0].0, name) {
        let rest = headers.drop_first();
        lemma_name_index(rest, name);
        assert forall|i: int| 0 <= i < name_index(headers, name) implies !same_name(
            #[trigger] headers[i].0,
            name,
        ) by {
            if i > 0 {
                assert(headers[i] == rest[i - 1]);
            }
        }
    }
}

/// Setting a header keeps what holds of every name in the list and of the
/// name that is set, and keeps the names distinct.
pub proof fn lemma_with_header(
    headers: HeadersModel,
    h: (Seq<char>, Seq<char>),
    good: spec_fn(Seq<char>) -> bool,
)
    requires
        names_distinct(headers),
        forall|i: int| 0 <= i < headers.len() ==> good(#[trigger] headers[i].0),
        good(h.0),
    ensures
        names_distinct(with_header(headers, h)),
        forall|i: int|
            0 <= i < with_header(headers, h).len() ==> good(#[trigger] with_header(headers, h)[i].0),
{
    lemma_name_index(headers, h.0);
    let after = with_header(headers, h);
    let at = name_index(headers, h.0);
    if at < headers.len() {
        assert forall|i: int| 0 <= i < after.len() implies after[i].0 == headers[i].0 by {}
    } else {
        assert forall|i: int, j: int|
            0 <= i < after.len() && 0 <= j < after.len() && i != j implies !same_name(
            #[trigger] after[i].0,
            #[trigger] after[j].0,
        ) by {
            if i < headers.len() && j < headers.len() {
                assert(after[i] == headers[i]);
                assert(after[j] == headers[j]);
            } else if i < headers.len() {
                assert(after[i] == headers[i]);
                assert(!same_name(headers[i].0, h.0));
            } else {
                assert(after[j] == headers[j]);
                assert(!same_name(headers[j].0, h.0));
            }
        }
    }
}

/// A name that may travel on to the origin.
pub open spec fn forwardable_name() -> spec_fn(Seq<char>) -> bool {
    |name: Seq<char>| !is_hop_by_hop_name(name) && !same_name(name, "host"@) && header_name_valid(name)
}

/// Of the request headers that travel on, none is hop-by-hop, none is
/// `host`, each has a well-formed name, and no name comes twice.
pub proof fn lemma_request_headers_stripped(headers: HeadersModel)
    ensures
        names_distinct(kept_request_headers(headers)),
        forall|i: int|
            0 <= i < kept_request_headers(headers).len() ==> forwardable_name()(
                #[trigger] kept_request_headers(headers)[i].0,
            ),
    decreases headers.len(),
{
    if headers.len() > 0 {
        lemma_request_headers_stripped(headers.drop_last());
        if request_header_kept(headers.last()) {
            lemma_with_header(
                kept_request_headers(headers.drop_last()),
                headers.last(),
                forwardable_name(),
            );
        }
    }
}

/// Of the response headers that are reported, none is hop-by-hop, and each
/// value is the text of visible ASCII bytes that the origin sent.
pub proof fn lemma_response_headers_stripped(headers: Seq<(Seq<char>, Seq<u8>)>)
    ensures
        forall|i: int|
            0 <= i < kept_response_headers(headers).len() ==> !is_hop_by_hop_name(
                #[trigger] kept_response_headers(headers)[i].0,
            ),
        kept_response_headers(headers).len() <= headers.len(),
    decreases headers.len(),
{
    if headers.len() > 0 {
        lemma_response_headers_stripped(headers.drop_last());
    }
}

} // verus!
