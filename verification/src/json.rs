use vstd::prelude::*;

verus! {

use vstd::string::StringExecFns;
use crate::errors::BridgeError;
use crate::text::str_eq;

/// The JSON text of one string value: the characters of `s` between double
/// quotes, with the escapes JSON calls for.
pub uninterp spec fn json_quoted(s: Seq<char>) -> Seq<char>;

/// The entries of a JSON object whose values are read as text, in the order
/// the decoder reports them (sorted by key): a string value keeps its
/// characters, a boolean or number its usual rendering, null and the
/// composite values become empty text.  `None` when the text is not a JSON
/// object.
pub uninterp spec fn json_text_entries(s: Seq<char>) -> Option<Seq<(Seq<char>, Seq<char>)>>;

/// The views of a list of owned header pairs.
pub open spec fn entries_view(v: Seq<(String, String)>) -> Seq<(Seq<char>, Seq<char>)> {
    v.map_values(|p: (String, String)| (p.0@, p.1@))
}

/// Relies on serde_json::to_string for a string slice: it yields the JSON
/// text of the string, a pure function of its characters, and cannot fail
/// for a string value, so the error arm below is never taken.
#[verifier::external_body]
fn json_quote(s: &str) -> (r: String)
    ensures
        r@ == json_quoted(s@),
{
    match serde_json::to_string(s) {
        Ok(out) => out,
        Err(_) => String::new(),
    }
}

/// Relies on serde_json::from_str for a `serde_json::Map`: it accepts
/// exactly the texts that are JSON objects and yields the entries sorted by
/// key, a pure function of the input text.  Each value moves out by variant:
/// strings keep their text, booleans and numbers their rendering, the rest
/// become empty text.
#[verifier::external_body]
fn parse_json_object(s: &str) -> (r: Option<Vec<(String, String)>>)
    ensures
        match r {
            Some(v) => json_text_entries(s@) == Some(entries_view(v@)),
            None => json_text_entries(s@) is None,
        },
{
    let parsed: Result<serde_json::Map<String, serde_json::Value>, _> = serde_json::from_str(s);
    match parsed {
        Err(_) => None,
        Ok(object) => Some(object.into_iter().map(|(key, value)| (key, match value {
            serde_json::Value::Null => String::new(),
            serde_json::Value::Bool(b) => b.to_string(),
            serde_json::Value::Number(n) => n.to_string(),
            serde_json::Value::String(text) => text,
            serde_json::Value::Array(_) => String::new(),
            serde_json::Value::Object(_) => String::new(),
        })).collect()),
    }
}

/// A header payload is acceptable when it is empty or parses as a JSON
/// object.
pub open spec fn headers_json_ok(s: Seq<char>) -> bool {
    s.len() == 0 || json_text_entries(s) is Some
}

/// The header pairs an acceptable payload denotes; an empty payload denotes
/// no headers.
pub open spec fn parsed_headers(s: Seq<char>) -> Seq<(Seq<char>, Seq<char>)> {
    if s.len() == 0 {
        Seq::empty()
    } else {
        json_text_entries(s)->Some_0
    }
}

/// Decodes a header payload handed in by the host: empty text stands for no
/// headers, anything else must be a JSON object of scalar values.
pub fn parse_headers(json_headers: &str) -> (r: Result<Vec<(String, String)>, BridgeError>)
    ensures
        match r {
            Ok(v) => headers_json_ok(json_headers@) && entries_view(v@)
                == parsed_headers(json_headers@),
            Err(e) => e == BridgeError::InvalidHeadersPayload && !headers_json_ok(
                json_headers@,
            ),
        },
{
    if json_headers.is_empty() {
        let v: Vec<(String, String)> = Vec::new();
        proof {
            assert(entries_view(v@) =~= parsed_headers(json_headers@));
        }
        Ok(v)
    } else {
        match parse_json_object(json_headers) {
            Some(v) => Ok(v),
            None => Err(BridgeError::InvalidHeadersPayload),
        }
    }
}

/// One `"key":"value"` member of a JSON object.
pub open spec fn header_entry_text(k: Seq<char>, v: Seq<char>) -> Seq<char> {
    json_quoted(k) + ":"@ + json_quoted(v)
}

/// The members after the first one, each preceded by a comma.
pub open spec fn headers_tail_text(hs: Seq<(Seq<char>, Seq<char>)>) -> Seq<char>
    decreases hs.len(),
{
    if hs.len() == 0 {
        Seq::empty()
    } else {
        ","@ + header_entry_text(hs[0].0, hs[0].1) + headers_tail_text(hs.skip(1))
    }
}

/// `headers_tail_text` distributes over concatenation.
pub proof fn lemma_headers_tail_concat(a: Seq<(Seq<char>, Seq<char>)>, b: Seq<(Seq<char>, Seq<char>)>)
    ensures
        headers_tail_text(a + b) == headers_tail_text(a) + headers_tail_text(b),
    decreases a.len(),
{
    if a.len() == 0 {
        assert(a + b =~= b);
        assert(headers_tail_text(a) + headers_tail_text(b) =~= headers_tail_text(b));
    } else {
        lemma_headers_tail_concat(a.skip(1), b);
        assert((a + b).skip(1) =~= a.skip(1) + b);
        assert((a + b)[0] == a[0]);
        assert(headers_tail_text(a + b) =~= headers_tail_text(a) + headers_tail_text(b));
    }
}

/// A JSON object holding the given members in order.
pub open spec fn headers_object_text(hs: Seq<(Seq<char>, Seq<char>)>) -> Seq<char> {
    "{"@ + (if hs.len() == 0 {
        Seq::<char>::empty()
    } else {
        header_entry_text(hs[0].0, hs[0].1) + headers_tail_text(hs.skip(1))
    }) + "}"@
}

/// The notification payload of one deferred request: a JSON object with the
/// correlation identifier, the request line pieces, the headers, and the
/// body text.
pub open spec fn request_json_text(
    id: Seq<char>,
    method: Seq<char>,
    path: Seq<char>,
    query: Seq<char>,
    headers: Seq<(Seq<char>, Seq<char>)>,
    body: Seq<char>,
) -> Seq<char> {
    "{\"id\":"@ + json_quoted(id) + ",\"method\":"@ + json_quoted(method) + ",\"path\":"@
        + json_quoted(path) + ",\"query\":"@ + json_quoted(query) + ",\"headers\":"@
        + headers_object_text(headers) + ",\"body\":"@ + json_quoted(body) + "}"@
}

/// Whether no entry of `hs` carries the key `k`.
pub open spec fn key_absent(hs: Seq<(Seq<char>, Seq<char>)>, k: Seq<char>) -> bool {
    forall|j: int| 0 <= j < hs.len() ==> (#[trigger] hs[j]).0 != k
}

/// The header mapping a pair list denotes: each key once, carrying the
/// value of its last occurrence, entries ordered by last occurrence.
pub open spec fn dedup_headers(hs: Seq<(Seq<char>, Seq<char>)>) -> Seq<(Seq<char>, Seq<char>)>
    decreases hs.len(),
{
    if hs.len() == 0 {
        Seq::empty()
    } else if key_absent(hs.skip(1), hs[0].0) {
        seq![hs[0]] + dedup_headers(hs.skip(1))
    } else {
        dedup_headers(hs.skip(1))
    }
}

/// Whether the key occurs among the entries at or after `from`.
fn key_in_suffix(headers: &Vec<(String, String)>, from: usize, key: &str) -> (r: bool)
    requires
        from <= headers@.len(),
    ensures
        r <==> !key_absent(entries_view(headers@).skip(from as int), key@),
{
    let ghost suffix = entries_view(headers@).skip(from as int);
    let mut j = from;
    while j < headers.len()
        invariant
            from <= j <= headers@.len(),
            suffix == entries_view(headers@).skip(from as int),
            forall|t: int| from <= t < j ==> #[trigger] headers@[t].0@ != key@,
        decreases headers@.len() - j,
    {
        if str_eq(headers[j].0.as_str(), key) {
            proof {
                assert(suffix[j - from as int].0 == headers@[j as int].0@);
            }
            return true;
        }
        j += 1;
    }
    proof {
        assert forall|u: int| 0 <= u < suffix.len() implies (#[trigger] suffix[u]).0
            != key@ by {
            assert(suffix[u].0 == headers@[u + from as int].0@);
        }
    }
    false
}

/// The entries from `i` on, with duplicate keys collapsed to their last
/// occurrence, as `dedup_headers` describes.
fn dedup_from(headers: &Vec<(String, String)>, i: usize) -> (r: Vec<(String, String)>)
    requires
        i <= headers@.len(),
    ensures
        entries_view(r@) == dedup_headers(entries_view(headers@).skip(i as int)),
    decreases headers@.len() - i,
{
    let ghost tail = entries_view(headers@).skip(i as int);
    if i == headers.len() {
        let r: Vec<(String, String)> = Vec::new();
        proof {
            assert(tail =~= Seq::<(Seq<char>, Seq<char>)>::empty());
            assert(entries_view(r@) =~= dedup_headers(tail));
        }
        return r;
    }
    proof {
        assert(tail[0] == (headers@[i as int].0@, headers@[i as int].1@));
        assert(tail.skip(1) =~= entries_view(headers@).skip(i as int + 1));
    }
    let later = key_in_suffix(headers, i + 1, headers[i].0.as_str());
    let mut rest = dedup_from(headers, i + 1);
    if later {
        rest
    } else {
        let entry = (headers[i].0.clone(), headers[i].1.clone());
        rest.insert(0, entry);
        proof {
            assert(entries_view(rest@) =~= seq![tail[0]] + dedup_headers(tail.skip(1)));
            assert(entries_view(rest@) =~= dedup_headers(tail));
        }
        rest
    }
}

/// A request waiting for its answer, as it is shown to the host.
pub struct HttpIncomingRequest {
    /// Correlation identifier, unique among currently open requests.
    pub id: String,
    /// HTTP method name.
    pub method: String,
    /// Request path.
    pub path: String,
    /// Raw query string, empty when absent.
    pub query: String,
    /// Header pairs, case preserved.
    pub headers: Vec<(String, String)>,
    /// Body bytes read as text.
    pub body: String,
}

impl HttpIncomingRequest {
    /// The notification payload for this request.  The headers go out as a
    /// mapping: duplicate keys are collapsed to their last value, as
    /// `dedup_headers` describes.
    pub fn to_json(&self) -> (r: String)
        ensures
            r@ == request_json_text(
                self.id@,
                self.method@,
                self.path@,
                self.query@,
                dedup_headers(entries_view(self.headers@)),
                self.body@,
            ),
    {
        let headers = dedup_from(&self.headers, 0);
        proof {
            assert(entries_view(self.headers@).skip(0) =~= entries_view(self.headers@));
        }
        let ghost hs = entries_view(headers@);
        let mut out = String::new();
        out.append("{\"id\":");
        out.append(json_quote(self.id.as_str()).as_str());
        out.append(",\"method\":");
        out.append(json_quote(self.method.as_str()).as_str());
        out.append(",\"path\":");
        out.append(json_quote(self.path.as_str()).as_str());
        out.append(",\"query\":");
        out.append(json_quote(self.query.as_str()).as_str());
        out.append(",\"headers\":");
        out.append("{");
        let ghost before_members = out@;
        if headers.len() > 0 {
            let first = &headers[0];
            out.append(json_quote(first.0.as_str()).as_str());
            out.append(":");
            out.append(json_quote(first.1.as_str()).as_str());
            proof {
                assert(out@ =~= before_members + header_entry_text(hs[0].0, hs[0].1)
                    + headers_tail_text(hs.subrange(1, 1)));
            }
            let mut k: usize = 1;
            while k < headers.len()
                invariant
                    1 <= k <= headers.len(),
                    hs == entries_view(headers@),
                    hs.len() == headers@.len(),
                    out@ == before_members + header_entry_text(hs[0].0, hs[0].1)
                        + headers_tail_text(hs.subrange(1, k as int)),
                decreases headers.len() - k,
            {
                let entry = &headers[k];
                out.append(",");
                out.append(json_quote(entry.0.as_str()).as_str());
                out.append(":");
                out.append(json_quote(entry.1.as_str()).as_str());
                proof {
                    let ghost hk = hs[k as int];
                    assert(hs.subrange(1, k as int + 1) =~= hs.subrange(1, k as int)
                        + seq![hk]);
                    lemma_headers_tail_concat(hs.subrange(1, k as int), seq![hk]);
                    assert(seq![hk].skip(1) =~= Seq::<(Seq<char>, Seq<char>)>::empty());
                    assert(headers_tail_text(Seq::<(Seq<char>, Seq<char>)>::empty())
                        =~= Seq::<char>::empty());
                    assert(headers_tail_text(seq![hk]) =~= ","@
                        + header_entry_text(hk.0, hk.1));
                    assert(out@ =~= before_members + header_entry_text(hs[0].0, hs[0].1)
                        + headers_tail_text(hs.subrange(1, k as int + 1)));
                }
                k += 1;
            }
            proof {
                assert(hs.subrange(1, hs.len() as int) =~= hs.skip(1));
            }
        }
        out.append("}");
        out.append(",\"body\":");
        out.append(json_quote(self.body.as_str()).as_str());
        out.append("}");
        proof {
            assert(out@ =~= request_json_text(
                self.id@,
                self.method@,
                self.path@,
                self.query@,
                hs,
                self.body@,
            ));
        }
        out
    }
}

/// The notification payload announcing a newly opened streaming session.
pub open spec fn sse_open_payload_text(id: Seq<char>) -> Seq<char> {
    "{\"id\":"@ + json_quoted(id) + ",\"path\":\"/sse\",\"headers\":{}}"@
}

/// Builds the payload announcing the streaming session `session_id`.
pub fn sse_open_payload(session_id: &str) -> (r: String)
    ensures
        r@ == sse_open_payload_text(session_id@),
{
    let mut out = String::new();
    out.append("{\"id\":");
    out.append(json_quote(session_id).as_str());
    out.append(",\"path\":\"/sse\",\"headers\":{}}");
    proof {
        assert(out@ =~= sse_open_payload_text(session_id@));
    }
    out
}

} // verus!
