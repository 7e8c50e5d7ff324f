use vstd::prelude::*;

verus! {

use vstd::string::StringExecFns;
use crate::json::entries_view;
use crate::text::{eq_lowered, str_eq, str_eq_lowered};

/// An HTTP response as the host supplies it or the bridge synthesizes it.
pub struct HttpResponseValue {
    /// Status code, within 100..=599.
    pub status: u16,
    /// Header pairs, applied in order with later pairs overriding earlier
    /// ones of the same name.
    pub headers: Vec<(String, String)>,
    /// Body text.
    pub body: String,
}

impl HttpResponseValue {
    /// The header pairs as character sequences.
    pub open spec fn headers_view(self) -> Seq<(Seq<char>, Seq<char>)> {
        entries_view(self.headers@)
    }
}

/// How the listener treats one inbound request, decided by method and path
/// alone.
#[derive(Clone, Copy, Debug, PartialEq, Eq, Structural)]
pub enum RequestClass {
    /// An `OPTIONS` request: answered with the preflight response.
    CorsPreflight,
    /// `GET /sse`: opens a streaming session.
    SseSubscribe,
    /// `POST /message`: forwarded as a protocol notification.
    McpMessage,
    /// `GET /`: answered with the static probe response.
    RootProbe,
    /// Everything else: the deferred-response flow.
    Generic,
}

/// The classification of a request by method and path.
pub open spec fn classify_spec(method: Seq<char>, path: Seq<char>) -> RequestClass {
    if method == "OPTIONS"@ {
        RequestClass::CorsPreflight
    } else if method == "GET"@ && path == "/sse"@ {
        RequestClass::SseSubscribe
    } else if method == "POST"@ && path == "/message"@ {
        RequestClass::McpMessage
    } else if method == "GET"@ && path == "/"@ {
        RequestClass::RootProbe
    } else {
        RequestClass::Generic
    }
}

/// Classifies one inbound request, as `classify_spec` describes.
pub fn classify_request(method: &str, path: &str) -> (c: RequestClass)
    ensures
        c == classify_spec(method@, path@),
{
    if str_eq(method, "OPTIONS") {
        RequestClass::CorsPreflight
    } else if str_eq(method, "GET") && str_eq(path, "/sse") {
        RequestClass::SseSubscribe
    } else if str_eq(method, "POST") && str_eq(path, "/message") {
        RequestClass::McpMessage
    } else if str_eq(method, "GET") && str_eq(path, "/") {
        RequestClass::RootProbe
    } else {
        RequestClass::Generic
    }
}

/// The CORS headers every outgoing response carries: any origin, the three
/// supported methods, the two permitted request headers, and a preflight
/// max-age of one day.
pub open spec fn cors_pairs() -> Seq<(Seq<char>, Seq<char>)> {
    seq![
        ("Access-Control-Allow-Origin"@, "*"@),
        ("Access-Control-Allow-Methods"@, "GET, POST, OPTIONS"@),
        ("Access-Control-Allow-Headers"@, "content-type, authorization"@),
        ("Access-Control-Max-Age"@, "86400"@),
    ]
}

/// Appends the CORS headers to `headers`.
pub fn add_cors_headers(headers: &mut Vec<(String, String)>)
    ensures
        entries_view(final(headers)@) == entries_view(old(headers)@) + cors_pairs(),
{
    headers.push(("Access-Control-Allow-Origin".to_owned(), "*".to_owned()));
    headers.push(("Access-Control-Allow-Methods".to_owned(), "GET, POST, OPTIONS".to_owned()));
    headers.push((
        "Access-Control-Allow-Headers".to_owned(),
        "content-type, authorization".to_owned(),
    ));
    headers.push(("Access-Control-Max-Age".to_owned(), "86400".to_owned()));
    proof {
        assert(entries_view(final(headers)@) =~= entries_view(old(headers)@) + cors_pairs());
    }
}

/// Whether some header names the content type, compared without regard to
/// ASCII case.
pub open spec fn has_content_type(hs: Seq<(Seq<char>, Seq<char>)>) -> bool {
    exists|i: int| 0 <= i < hs.len() && eq_lowered(#[trigger] hs[i].0, "content-type"@)
}

/// Scans the headers for a content-type entry.
fn headers_have_content_type(headers: &Vec<(String, String)>) -> (r: bool)
    ensures
        r <==> has_content_type(entries_view(headers@)),
{
    let ghost hs = entries_view(headers@);
    let mut i: usize = 0;
    while i < headers.len()
        invariant
            i <= headers.len(),
            hs == entries_view(headers@),
            hs.len() == headers@.len(),
            forall|j: int| 0 <= j < i ==> !eq_lowered(#[trigger] hs[j].0, "content-type"@),
        decreases headers.len() - i,
    {
        if str_eq_lowered(headers[i].0.as_str(), "content-type") {
            proof {
                assert(hs[i as int].0 == headers@[i as int].0@);
                assert(eq_lowered(hs[i as int].0, "content-type"@));
            }
            return true;
        }
        i += 1;
    }
    false
}

/// The default content type injected when the host names none.
pub open spec fn default_content_type() -> (Seq<char>, Seq<char>) {
    ("Content-Type"@, "application/json; charset=utf-8"@)
}

/// The headers a fulfilled response goes out with: the default content type
/// first when the host named none, then the host's headers, then CORS.
pub open spec fn finalized_headers(hs: Seq<(Seq<char>, Seq<char>)>) -> Seq<(Seq<char>, Seq<char>)> {
    if has_content_type(hs) {
        hs + cors_pairs()
    } else {
        seq![default_content_type()] + hs + cors_pairs()
    }
}

/// Prepares a host-supplied response for the wire: injects the default JSON
/// content type when none is named, and attaches the CORS headers.
pub fn finalize_response(resp: HttpResponseValue) -> (r: HttpResponseValue)
    ensures
        r.status == resp.status,
        r.body@ == resp.body@,
        r.headers_view() == finalized_headers(resp.headers_view()),
{
    let has_ct = headers_have_content_type(&resp.headers);
    let mut headers: Vec<(String, String)> = Vec::new();
    if !has_ct {
        headers.push((
            "Content-Type".to_owned(),
            "application/json; charset=utf-8".to_owned(),
        ));
    }
    let mut rest = resp.headers;
    let ghost rest_view = entries_view(rest@);
    headers.append(&mut rest);
    add_cors_headers(&mut headers);
    proof {
        assert(entries_view(headers@) =~= finalized_headers(rest_view));
    }
    HttpResponseValue { status: resp.status, headers, body: resp.body }
}

/// A response carrying only the CORS headers and the given status and body.
fn cors_only_response(status: u16, body: &str) -> (r: HttpResponseValue)
    ensures
        r.status == status,
        r.headers_view() == cors_pairs(),
        r.body@ == body@,
{
    let mut headers: Vec<(String, String)> = Vec::new();
    add_cors_headers(&mut headers);
    proof {
        assert(entries_view(headers@) =~= cors_pairs());
    }
    HttpResponseValue { status, headers, body: String::from_str(body) }
}

/// The answer to a CORS preflight: 204 with the CORS headers and no body.
pub fn preflight_response() -> (r: HttpResponseValue)
    ensures
        r.status == 204,
        r.headers_view() == cors_pairs(),
        r.body@ == Seq::<char>::empty(),
{
    proof {
        reveal_strlit("");
        assert(""@ =~= Seq::<char>::empty());
    }
    cors_only_response(204, "")
}

/// The static probe answer on the root path.
pub fn root_probe_response() -> (r: HttpResponseValue)
    ensures
        r.status == 200,
        r.headers_view() == cors_pairs(),
        r.body@ == "MCP server"@,
{
    cors_only_response(200, "MCP server")
}

/// The acknowledgement for a forwarded protocol message.
pub fn accepted_response() -> (r: HttpResponseValue)
    ensures
        r.status == 202,
        r.headers_view() == cors_pairs(),
        r.body@ == Seq::<char>::empty(),
{
    proof {
        reveal_strlit("");
        assert(""@ =~= Seq::<char>::empty());
    }
    cors_only_response(202, "")
}

/// The answer when a request body cannot be read.
pub fn bad_request_response() -> (r: HttpResponseValue)
    ensures
        r.status == 400,
        r.headers_view() == cors_pairs(),
        r.body@ == "Failed to read request body"@,
{
    cors_only_response(400, "Failed to read request body")
}

/// The answer when the notification channel toward the host is not
/// initialized.
pub fn delivery_unavailable_response() -> (r: HttpResponseValue)
    ensures
        r.status == 503,
        r.headers_view() == cors_pairs(),
        r.body@ == "Event connection is unavailable"@,
{
    cors_only_response(503, "Event connection is unavailable")
}

/// The answer when the notification channel toward the host is saturated.
pub fn queue_full_response() -> (r: HttpResponseValue)
    ensures
        r.status == 503,
        r.headers_view() == cors_pairs(),
        r.body@ == "Event queue is full"@,
{
    cors_only_response(503, "Event queue is full")
}

/// The answer when the waiting task was abandoned before a late fulfilment.
pub fn channel_closed_response() -> (r: HttpResponseValue)
    ensures
        r.status == 500,
        r.headers_view() == cors_pairs(),
        r.body@ == "Response channel closed"@,
{
    cors_only_response(500, "Response channel closed")
}

/// The fixed headers of the streaming response a subscriber receives:
/// an event stream, uncached, kept alive, with proxy buffering disabled.
pub open spec fn sse_stream_pairs() -> Seq<(Seq<char>, Seq<char>)> {
    seq![
        ("Content-Type"@, "text/event-stream"@),
        ("Cache-Control"@, "no-cache"@),
        ("Connection"@, "keep-alive"@),
        ("X-Accel-Buffering"@, "no"@),
    ]
}

/// The header list of the streaming response: the stream envelope followed
/// by the CORS headers.
pub fn sse_stream_headers() -> (r: Vec<(String, String)>)
    ensures
        entries_view(r@) == sse_stream_pairs() + cors_pairs(),
{
    let mut headers: Vec<(String, String)> = Vec::new();
    headers.push(("Content-Type".to_owned(), "text/event-stream".to_owned()));
    headers.push(("Cache-Control".to_owned(), "no-cache".to_owned()));
    headers.push(("Connection".to_owned(), "keep-alive".to_owned()));
    headers.push(("X-Accel-Buffering".to_owned(), "no".to_owned()));
    add_cors_headers(&mut headers);
    proof {
        assert(entries_view(headers@) =~= sse_stream_pairs() + cors_pairs());
    }
    headers
}

/// The answer when no fulfilment arrived within the timeout window.
pub fn timeout_response() -> (r: HttpResponseValue)
    ensures
        r.status == 504,
        r.headers_view() == cors_pairs(),
        r.body@ == "Handler timeout"@,
{
    cors_only_response(504, "Handler timeout")
}

} // verus!
