use vstd::prelude::*;

verus! {

use crate::decimal::{decimal_digits, lemma_decimal_digits_injective, u64_to_decimal};
use crate::errors::BridgeError;
use crate::json::{headers_json_ok, parse_headers, parsed_headers};
use crate::query::query_param;
use crate::response::HttpResponseValue;
use crate::sse::{sse_event_text, sse_format_event, sse_format_message_event};
use crate::text::str_eq;
use vstd::string::StringExecFns;

/// How many seconds a network task waits for a fulfilment before the
/// timing-out side removes the entry and answers with the timeout response.
pub const HTTP_RESPONSE_TIMEOUT_SECS: u64 = 30;

/// One open streaming session: its identifier and the frames queued for the
/// subscriber, oldest first.
pub struct SseSession {
    /// Session identifier: client-supplied or drawn from the counter.
    pub id: String,
    /// Formatted frames awaiting the subscriber, in arrival order.
    pub queue: Vec<String>,
}

impl SseSession {
    /// The queued frames as character sequences, oldest first.
    pub open spec fn queue_view(self) -> Seq<Seq<char>> {
        self.queue@.map_values(|f: String| f@)
    }
}

/// The absolute URL a subscriber must post protocol messages to.
pub open spec fn endpoint_url_text(host: Seq<char>, id: Seq<char>) -> Seq<char> {
    "http://"@ + host + "/message?sessionId="@ + id
}

/// The initial queue of a fresh session: exactly one `endpoint` frame
/// pointing at the message URL that carries the session identifier.
pub open spec fn endpoint_queue(host: Seq<char>, id: Seq<char>) -> Seq<Seq<char>> {
    seq![sse_event_text("endpoint"@, endpoint_url_text(host, id))]
}

/// `id` is the canonical numeral of some counter value below `bound`.
pub open spec fn is_numeral_below(id: Seq<char>, bound: u64) -> bool {
    exists|m: nat| m < bound && id == decimal_digits(m)
}

/// Every identifier in `ids` is the numeral of a counter value below
/// `bound`, and the identifiers are pairwise distinct.
pub open spec fn pending_ids_wf(ids: Seq<String>, bound: u64) -> bool {
    &&& forall|i: int| 0 <= i < ids.len() ==> is_numeral_below(#[trigger] ids[i]@, bound)
    &&& forall|i: int, j: int|
        0 <= i < j < ids.len() ==> #[trigger] ids[i]@ != #[trigger] ids[j]@
}

/// The sessions carry pairwise distinct identifiers.
pub open spec fn session_ids_distinct(ss: Seq<SseSession>) -> bool {
    forall|i: int, j: int|
        0 <= i < j < ss.len() ==> #[trigger] ss[i].id@ != #[trigger] ss[j].id@
}

/// Removing an entry keeps the pending identifiers well formed.
proof fn lemma_pending_wf_remove(ids: Seq<String>, bound: u64, at: int)
    requires
        pending_ids_wf(ids, bound),
        0 <= at < ids.len(),
    ensures
        pending_ids_wf(ids.remove(at), bound),
{
    let post = ids.remove(at);
    assert forall|i: int| 0 <= i < post.len() implies is_numeral_below(
        #[trigger] post[i]@,
        bound,
    ) by {
        let k: int = if i < at {
            i
        } else {
            i + 1
        };
        assert(post[i] == ids[k]);
        assert(is_numeral_below(ids[k]@, bound));
    }
    assert forall|i: int, j: int| 0 <= i < j < post.len() implies #[trigger] post[i]@
        != #[trigger] post[j]@ by {
        let ki: int = if i < at {
            i
        } else {
            i + 1
        };
        let kj: int = if j < at {
            j
        } else {
            j + 1
        };
        assert(post[i] == ids[ki]);
        assert(post[j] == ids[kj]);
        assert(ids[ki]@ != ids[kj]@);
    }
}

/// Removing a session keeps the identifiers pairwise distinct.
proof fn lemma_distinct_remove(ss: Seq<SseSession>, at: int)
    requires
        session_ids_distinct(ss),
        0 <= at < ss.len(),
    ensures
        session_ids_distinct(ss.remove(at)),
{
    let post = ss.remove(at);
    assert forall|i: int, j: int| 0 <= i < j < post.len() implies #[trigger] post[i].id@
        != #[trigger] post[j].id@ by {
        let ki: int = if i < at {
            i
        } else {
            i + 1
        };
        let kj: int = if j < at {
            j
        } else {
            j + 1
        };
        assert(post[i] == ss[ki]);
        assert(post[j] == ss[kj]);
        assert(ss[ki].id@ != ss[kj].id@);
    }
}

/// Replacing a session by one under the same identifier keeps the
/// identifiers pairwise distinct.
proof fn lemma_distinct_update_same_id(ss: Seq<SseSession>, at: int, entry: SseSession)
    requires
        session_ids_distinct(ss),
        0 <= at < ss.len(),
        entry.id@ == ss[at].id@,
    ensures
        session_ids_distinct(ss.update(at, entry)),
{
    let post = ss.update(at, entry);
    assert forall|i: int, j: int| 0 <= i < j < post.len() implies #[trigger] post[i].id@
        != #[trigger] post[j].id@ by {
        assert(post[i].id@ == ss[i].id@);
        assert(post[j].id@ == ss[j].id@);
        assert(ss[i].id@ != ss[j].id@);
    }
}

/// Appending a session under a fresh identifier keeps the identifiers
/// pairwise distinct.
proof fn lemma_distinct_push_fresh(ss: Seq<SseSession>, entry: SseSession)
    requires
        session_ids_distinct(ss),
        forall|k: int| 0 <= k < ss.len() ==> #[trigger] ss[k].id@ != entry.id@,
    ensures
        session_ids_distinct(ss.push(entry)),
{
    let post = ss.push(entry);
    assert forall|i: int, j: int| 0 <= i < j < post.len() implies #[trigger] post[i].id@
        != #[trigger] post[j].id@ by {
        if j < ss.len() {
            assert(ss[i].id@ != ss[j].id@);
        } else {
            assert(post[j] == entry);
            assert(ss[i].id@ != entry.id@);
        }
    }
}

/// The registries and switches behind one server instance: whether it is
/// listening, the identifier counters, the requests awaiting fulfilment,
/// and the open streaming sessions.
///
/// The network substrate drives this state from its connection tasks; the
/// host drives it through the synchronous control calls.  Each operation
/// below is the decision step of one such call.
pub struct ServerBridge {
    /// Whether a listener is currently bound.
    pub running: bool,
    /// Next request identifier to hand out.
    pub next_request_id: u64,
    /// Identifiers of requests whose answers are still owed.
    pub pending: Vec<String>,
    /// Next generated session identifier.
    pub next_session_id: u64,
    /// Open streaming sessions.
    pub sessions: Vec<SseSession>,
}

impl ServerBridge {
    /// Whether an answer is still owed under `id`.
    pub open spec fn pending_contains(self, id: Seq<char>) -> bool {
        exists|i: int| 0 <= i < self.pending@.len() && #[trigger] self.pending@[i]@ == id
    }

    /// Whether a session is open under `id`.
    pub open spec fn sessions_contain(self, id: Seq<char>) -> bool {
        exists|i: int| 0 <= i < self.sessions@.len() && #[trigger] self.sessions@[i].id@ == id
    }

    /// Well-formedness: pending identifiers drawn from the counter and
    /// pairwise distinct, session identifiers pairwise distinct.
    pub open spec fn wf(self) -> bool {
        pending_ids_wf(self.pending@, self.next_request_id) && session_ids_distinct(
            self.sessions@,
        )
    }

    /// A fresh instance: not listening, both counters at one, both
    /// registries empty.
    pub fn new() -> (b: ServerBridge)
        ensures
            b.wf(),
            !b.running,
            b.next_request_id == 1,
            b.next_session_id == 1,
            b.pending@ == Seq::<String>::empty(),
            b.sessions@ == Seq::<SseSession>::empty(),
    {
        let b = ServerBridge {
            running: false,
            next_request_id: 1,
            pending: Vec::new(),
            next_session_id: 1,
            sessions: Vec::new(),
        };
        proof {
            assert(b.pending@ =~= Seq::<String>::empty());
            assert(b.sessions@ =~= Seq::<SseSession>::empty());
        }
        b
    }

    /// Position of `id` among the pending identifiers, if it is there.
    fn find_pending(&self, id: &str) -> (r: Option<usize>)
        ensures
            match r {
                Some(i) => i < self.pending@.len() && self.pending@[i as int]@ == id@,
                None => !self.pending_contains(id@),
            },
    {
        let mut i: usize = 0;
        while i < self.pending.len()
            invariant
                i <= self.pending@.len(),
                forall|j: int| 0 <= j < i ==> #[trigger] self.pending@[j]@ != id@,
            decreases self.pending@.len() - i,
        {
            if str_eq(self.pending[i].as_str(), id) {
                return Some(i);
            }
            i += 1;
        }
        None
    }

    /// Position of the session open under `id`, if there is one.
    fn find_session(&self, id: &str) -> (r: Option<usize>)
        ensures
            match r {
                Some(i) => i < self.sessions@.len() && self.sessions@[i as int].id@ == id@,
                None => !self.sessions_contain(id@),
            },
    {
        let mut i: usize = 0;
        while i < self.sessions.len()
            invariant
                i <= self.sessions@.len(),
                forall|j: int| 0 <= j < i ==> #[trigger] self.sessions@[j].id@ != id@,
            decreases self.sessions@.len() - i,
        {
            if str_eq(self.sessions[i].id.as_str(), id) {
                return Some(i);
            }
            i += 1;
        }
        None
    }

    /// Why a start call must fail, if it must: a listener is already bound,
    /// or the address does not parse.
    pub open spec fn spec_start_error(self, address_ok: bool) -> Option<BridgeError> {
        if self.running {
            Some(BridgeError::AlreadyRunning)
        } else if !address_ok {
            Some(BridgeError::InvalidAddress)
        } else {
            None
        }
    }

    /// Starts listening.  `address_ok` reports whether the requested
    /// address parsed as a socket address; binding itself happens outside.
    pub fn start(&mut self, address_ok: bool) -> (r: Result<(), BridgeError>)
        ensures
            match r {
                Err(e) => Some(e) == old(self).spec_start_error(address_ok) && *final(self)
                    == *old(self),
                Ok(_) => old(self).spec_start_error(address_ok) is None && *final(self) == (
                ServerBridge { running: true, ..*old(self) }),
            },
    {
        if self.running {
            Err(BridgeError::AlreadyRunning)
        } else if !address_ok {
            Err(BridgeError::InvalidAddress)
        } else {
            self.running = true;
            Ok(())
        }
    }

    /// Stops listening: both registries are drained so that no waiter is
    /// left suspended and no later call can find a stale entry.
    pub fn stop(&mut self) -> (r: Result<(), BridgeError>)
        requires
            old(self).wf(),
        ensures
            final(self).wf(),
            match r {
                Err(e) => e == BridgeError::NotRunning && !old(self).running && *final(self)
                    == *old(self),
                Ok(_) => old(self).running && *final(self) == (ServerBridge {
                    running: false,
                    pending: final(self).pending,
                    sessions: final(self).sessions,
                    ..*old(self)
                }) && final(self).pending@ == Seq::<String>::empty() && final(self).sessions@
                    == Seq::<SseSession>::empty(),
            },
    {
        if !self.running {
            return Err(BridgeError::NotRunning);
        }
        self.running = false;
        self.pending.clear();
        self.sessions.clear();
        proof {
            assert(self.pending@ =~= Seq::<String>::empty());
            assert(self.sessions@ =~= Seq::<SseSession>::empty());
        }
        Ok(())
    }

    /// Draws a fresh identifier and registers it as awaiting fulfilment.
    /// The identifier differs from every identifier currently pending.
    pub fn register_pending(&mut self) -> (id: String)
        requires
            old(self).wf(),
            old(self).next_request_id < u64::MAX,
        ensures
            final(self).wf(),
            id@ == decimal_digits(old(self).next_request_id as nat),
            !old(self).pending_contains(id@),
            final(self).pending@ == old(self).pending@.push(id),
            final(self).next_request_id == old(self).next_request_id + 1,
            *final(self) == (ServerBridge {
                pending: final(self).pending,
                next_request_id: final(self).next_request_id,
                ..*old(self)
            }),
    {
        let ghost pre = self.pending@;
        let ghost bound = self.next_request_id;
        let id = u64_to_decimal(self.next_request_id);
        proof {
            assert forall|i: int| 0 <= i < pre.len() implies #[trigger] pre[i]@ != id@ by {
                assert(is_numeral_below(pre[i]@, bound));
                let m = choose|m: nat| m < bound && pre[i]@ == decimal_digits(m);
                if pre[i]@ == id@ {
                    lemma_decimal_digits_injective(m, bound as nat);
                }
            }
        }
        self.pending.push(id.clone());
        self.next_request_id = self.next_request_id + 1;
        proof {
            assert(self.pending@ =~= pre.push(id));
            assert forall|i: int| 0 <= i < self.pending@.len() implies is_numeral_below(
                #[trigger] self.pending@[i]@,
                self.next_request_id,
            ) by {
                if i < pre.len() {
                    assert(is_numeral_below(pre[i]@, bound));
                    let m = choose|m: nat| m < bound && pre[i]@ == decimal_digits(m);
                    assert(m < self.next_request_id && self.pending@[i]@ == decimal_digits(m));
                } else {
                    assert(self.pending@[i]@ == decimal_digits(bound as nat));
                    assert((bound as nat) < self.next_request_id);
                }
            }
            assert forall|i: int, j: int| 0 <= i < j < self.pending@.len() implies #[trigger]
                self.pending@[i]@ != #[trigger] self.pending@[j]@ by {
                if j < pre.len() {
                    assert(pre[i]@ != pre[j]@);
                } else {
                    assert(self.pending@[j]@ == id@);
                    assert(pre[i]@ != id@);
                }
            }
        }
        id
    }

    /// Removes `id` from the pending registry if it is still there; used by
    /// the timing-out side and by the rollback after a failed delivery.
    /// Afterwards the registry no longer holds `id`, whichever side won.
    pub fn remove_pending(&mut self, id: &str) -> (found: bool)
        requires
            old(self).wf(),
        ensures
            final(self).wf(),
            found <==> old(self).pending_contains(id@),
            found ==> exists|i: int|
                0 <= i < old(self).pending@.len() && #[trigger] old(self).pending@[i]@ == id@
                    && final(self).pending@ == old(self).pending@.remove(i),
            !found ==> *final(self) == *old(self),
            !final(self).pending_contains(id@),
            *final(self) == (ServerBridge { pending: final(self).pending, ..*old(self) }),
    {
        match self.find_pending(id) {
            None => false,
            Some(i) => {
                let ghost pre = self.pending@;
                self.pending.remove(i);
                proof {
                    lemma_pending_wf_remove(pre, self.next_request_id, i as int);
                    assert forall|k: int| 0 <= k < self.pending@.len() implies #[trigger]
                        self.pending@[k]@ != id@ by {
                        if k < i {
                            assert(self.pending@[k] == pre[k]);
                            assert(pre[k]@ != pre[i as int]@);
                        } else {
                            assert(self.pending@[k] == pre[k + 1]);
                            assert(pre[i as int]@ != pre[k + 1]@);
                        }
                    }
                }
                true
            },
        }
    }

    /// Why a send-response call must fail, if it must, in the order the
    /// checks run: status range, header payload, server state, registry.
    pub open spec fn spec_send_response_error(
        self,
        status: int,
        headers: Seq<char>,
        id: Seq<char>,
    ) -> Option<BridgeError> {
        if !(100 <= status <= 599) {
            Some(BridgeError::InvalidStatusCode)
        } else if !headers_json_ok(headers) {
            Some(BridgeError::InvalidHeadersPayload)
        } else if !self.running {
            Some(BridgeError::NotRunning)
        } else if !self.pending_contains(id) {
            Some(BridgeError::RequestNotFound)
        } else {
            None
        }
    }

    /// The host answers a pending request.  On success the entry leaves the
    /// registry — it can be fulfilled at most once — and the response value
    /// is handed back for the waiting connection.  An out-of-range status
    /// or a malformed header payload is rejected before the registry is
    /// touched.
    pub fn send_response(
        &mut self,
        request_id: &str,
        status_code: i32,
        headers_json: &str,
        body: &str,
    ) -> (r: Result<HttpResponseValue, BridgeError>)
        requires
            old(self).wf(),
        ensures
            final(self).wf(),
            match r {
                Err(e) => Some(e) == old(self).spec_send_response_error(
                    status_code as int,
                    headers_json@,
                    request_id@,
                ) && *final(self) == *old(self),
                Ok(resp) => {
                    &&& old(self).spec_send_response_error(
                        status_code as int,
                        headers_json@,
                        request_id@,
                    ) is None
                    &&& resp.status as int == status_code as int
                    &&& resp.headers_view() == parsed_headers(headers_json@)
                    &&& resp.body@ == body@
                    &&& exists|i: int|
                        0 <= i < old(self).pending@.len() && #[trigger] old(self).pending@[i]@
                            == request_id@ && final(self).pending@ == old(self).pending@.remove(i)
                    &&& !final(self).pending_contains(request_id@)
                    &&& *final(self) == (ServerBridge {
                        pending: final(self).pending,
                        ..*old(self)
                    })
                },
            },
    {
        if status_code < 100 || status_code > 599 {
            return Err(BridgeError::InvalidStatusCode);
        }
        let headers = match parse_headers(headers_json) {
            Ok(h) => h,
            Err(e) => {
                return Err(e);
            },
        };
        if !self.running {
            return Err(BridgeError::NotRunning);
        }
        let found = self.remove_pending(request_id);
        if !found {
            return Err(BridgeError::RequestNotFound);
        }
        Ok(HttpResponseValue { status: status_code as u16, headers, body: String::from_str(body) })
    }

    /// Why a streaming send must fail, if it must: no server is running —
    /// checked before anything else, so a stopped instance answers
    /// NotRunning — or the session is unknown: never opened or already
    /// closed.
    pub open spec fn spec_sse_send_error(self, id: Seq<char>) -> Option<BridgeError> {
        if !self.running {
            Some(BridgeError::NotRunning)
        } else if !self.sessions_contain(id) {
            Some(BridgeError::SessionNotFound)
        } else {
            None
        }
    }

    /// Opens a streaming session: the identifier comes from the `sessionId`
    /// query parameter when present, else from the counter; a session under
    /// the same identifier is replaced.  The new queue holds exactly the
    /// initial `endpoint` frame.
    pub fn open_session(&mut self, query: &str, host: &str) -> (id: String)
        requires
            old(self).wf(),
            old(self).next_session_id < u64::MAX,
        ensures
            final(self).wf(),
            match query_param(query@, "sessionId"@) {
                Some(v) => id@ == v && final(self).next_session_id == old(self).next_session_id,
                None => id@ == decimal_digits(old(self).next_session_id as nat) && final(self).next_session_id == old(self).next_session_id + 1,
            },
            old(self).sessions_contain(id@) ==> exists|i: int|
                0 <= i < old(self).sessions@.len() && #[trigger] old(self).sessions@[i].id@
                    == id@ && final(self).sessions@ == old(self).sessions@.update(
                    i,
                    final(self).sessions@[i],
                ) && final(self).sessions@[i].id@ == id@ && final(self).sessions@[i].queue_view()
                    == endpoint_queue(host@, id@),
            !old(self).sessions_contain(id@) ==> final(self).sessions@ == old(self).sessions@.push(final(self).sessions@.last()) && final(self).sessions@.last().id@
                == id@ && final(self).sessions@.last().queue_view() == endpoint_queue(
                host@,
                id@,
            ),
            *final(self) == (ServerBridge {
                sessions: final(self).sessions,
                next_session_id: final(self).next_session_id,
                ..*old(self)
            }),
    {
        let id: String = match crate::query::get_query_param(query, "sessionId") {
            Some(v) => v,
            None => {
                let fresh = u64_to_decimal(self.next_session_id);
                self.next_session_id = self.next_session_id + 1;
                fresh
            },
        };
        let url = endpoint_url(host, id.as_str());
        let frame = sse_format_event("endpoint", url.as_str());
        let mut queue: Vec<String> = Vec::new();
        queue.push(frame);
        let entry = SseSession { id: id.clone(), queue };
        proof {
            assert(entry.queue_view() =~= endpoint_queue(host@, id@));
        }
        let ghost pre = self.sessions@;
        match self.find_session(id.as_str()) {
            Some(i) => {
                self.sessions.remove(i);
                self.sessions.insert(i, entry);
                proof {
                    assert(self.sessions@ =~= pre.update(i as int, self.sessions@[i as int]));
                    lemma_distinct_update_same_id(pre, i as int, self.sessions@[i as int]);
                }
            },
            None => {
                self.sessions.push(entry);
                proof {
                    assert(self.sessions@ =~= pre.push(self.sessions@.last()));
                    lemma_distinct_push_fresh(pre, self.sessions@.last());
                }
            },
        }
        id
    }

    /// Formats `data` as a `message` event frame and appends it to the
    /// session's queue, preserving arrival order.
    pub fn sse_send(&mut self, session_id: &str, data: &str) -> (r: Result<(), BridgeError>)
        requires
            old(self).wf(),
        ensures
            final(self).wf(),
            match r {
                Err(e) => Some(e) == old(self).spec_sse_send_error(session_id@) && *final(self)
                    == *old(self),
                Ok(_) => {
                    &&& old(self).spec_sse_send_error(session_id@) is None
                    &&& exists|i: int|
                        0 <= i < old(self).sessions@.len() && #[trigger] old(self).sessions@[i].id@ == session_id@ && final(self).sessions@ == old(self).sessions@.update(i, final(self).sessions@[i]) && final(self).sessions@[i].id@ == session_id@ && final(self).sessions@[i].queue_view()
                            == old(self).sessions@[i].queue_view().push(
                            sse_event_text("message"@, data@),
                        )
                    &&& *final(self) == (ServerBridge {
                        sessions: final(self).sessions,
                        ..*old(self)
                    })
                },
            },
    {
        if !self.running {
            return Err(BridgeError::NotRunning);
        }
        match self.find_session(session_id) {
            None => Err(BridgeError::SessionNotFound),
            Some(i) => {
                let ghost pre = self.sessions@;
                let mut entry = self.sessions.remove(i);
                let ghost old_entry = entry;
                let frame = sse_format_message_event(data);
                entry.queue.push(frame);
                proof {
                    assert(entry.queue_view() =~= old_entry.queue_view().push(
                        sse_event_text("message"@, data@),
                    ));
                }
                self.sessions.insert(i, entry);
                proof {
                    assert(self.sessions@ =~= pre.update(i as int, self.sessions@[i as int]));
                    lemma_distinct_update_same_id(pre, i as int, self.sessions@[i as int]);
                }
                Ok(())
            },
        }
    }

    /// Closes a session, if it is open; closing again or closing an unknown
    /// session changes nothing.  Afterwards the session is gone either way.
    pub fn sse_close(&mut self, session_id: &str) -> (found: bool)
        requires
            old(self).wf(),
        ensures
            final(self).wf(),
            found <==> old(self).sessions_contain(session_id@),
            found ==> exists|i: int|
                0 <= i < old(self).sessions@.len() && #[trigger] old(self).sessions@[i].id@
                    == session_id@ && final(self).sessions@ == old(self).sessions@.remove(i),
            !found ==> *final(self) == *old(self),
            !final(self).sessions_contain(session_id@),
            *final(self) == (ServerBridge { sessions: final(self).sessions, ..*old(self) }),
    {
        match self.find_session(session_id) {
            None => false,
            Some(i) => {
                let ghost pre = self.sessions@;
                self.sessions.remove(i);
                proof {
                    lemma_distinct_remove(pre, i as int);
                    assert forall|k: int| 0 <= k < self.sessions@.len() implies #[trigger]
                        self.sessions@[k].id@ != session_id@ by {
                        if k < i {
                            assert(self.sessions@[k] == pre[k]);
                            assert(pre[k].id@ != pre[i as int].id@);
                        } else {
                            assert(self.sessions@[k] == pre[k + 1]);
                            assert(pre[i as int].id@ != pre[k + 1].id@);
                        }
                    }
                }
                true
            },
        }
    }

    /// Hands out every frame queued for the session, oldest first, leaving
    /// the queue empty; the network writer drains sessions through this.
    pub fn sse_take(&mut self, session_id: &str) -> (r: Option<Vec<String>>)
        requires
            old(self).wf(),
        ensures
            final(self).wf(),
            match r {
                None => !old(self).sessions_contain(session_id@) && *final(self) == *old(self),
                Some(frames) => exists|i: int|
                    0 <= i < old(self).sessions@.len() && #[trigger] old(self).sessions@[i].id@
                        == session_id@ && final(self).sessions@ == old(self).sessions@.update(
                        i,
                        final(self).sessions@[i],
                    ) && final(self).sessions@[i].id@ == session_id@ && final(self).sessions@[i].queue_view() == Seq::<Seq<char>>::empty() && frames@.map_values(
                        |f: String| f@,
                    ) == old(self).sessions@[i].queue_view(),
            },
            *final(self) == (ServerBridge { sessions: final(self).sessions, ..*old(self) }),
    {
        match self.find_session(session_id) {
            None => None,
            Some(i) => {
                let ghost pre = self.sessions@;
                let mut entry = self.sessions.remove(i);
                let frames = entry.queue;
                entry.queue = Vec::new();
                proof {
                    assert(entry.queue_view() =~= Seq::<Seq<char>>::empty());
                }
                self.sessions.insert(i, entry);
                proof {
                    assert(self.sessions@ =~= pre.update(i as int, self.sessions@[i as int]));
                    lemma_distinct_update_same_id(pre, i as int, self.sessions@[i as int]);
                }
                Some(frames)
            },
        }
    }
}

/// The event bridge's verdict on one delivery attempt: the channel must be
/// initialized and must accept the notification; otherwise the just-created
/// registry entry is rolled back and the connection is told which of the
/// two failures occurred.
pub open spec fn spec_delivery_error(host_attached: bool, accepted: bool) -> Option<BridgeError> {
    if !host_attached {
        Some(BridgeError::DeliveryUnavailable)
    } else if !accepted {
        Some(BridgeError::DeliveryQueueFull)
    } else {
        None
    }
}

impl ServerBridge {
    /// Settles one delivery attempt for the request registered under `id`:
    /// on a failed delivery the entry is rolled back out of the registry.
    pub fn settle_delivery(&mut self, id: &str, host_attached: bool, accepted: bool) -> (r: Result<
        (),
        BridgeError,
    >)
        requires
            old(self).wf(),
        ensures
            final(self).wf(),
            match r {
                Ok(_) => spec_delivery_error(host_attached, accepted) is None && *final(self)
                    == *old(self),
                Err(e) => Some(e) == spec_delivery_error(host_attached, accepted) && !final(self).pending_contains(id@) && *final(self) == (ServerBridge {
                    pending: final(self).pending,
                    ..*old(self)
                }),
            },
    {
        if !host_attached {
            self.remove_pending(id);
            Err(BridgeError::DeliveryUnavailable)
        } else if !accepted {
            self.remove_pending(id);
            Err(BridgeError::DeliveryQueueFull)
        } else {
            Ok(())
        }
    }
}

/// Builds the absolute message URL for a session, as `endpoint_url_text`
/// describes it.
pub fn endpoint_url(host: &str, session_id: &str) -> (r: String)
    ensures
        r@ == endpoint_url_text(host@, session_id@),
{
    let mut out = String::new();
    out.append("http://");
    out.append(host);
    out.append("/message?sessionId=");
    out.append(session_id);
    proof {
        assert(out@ =~= endpoint_url_text(host@, session_id@));
    }
    out
}

} // verus!
