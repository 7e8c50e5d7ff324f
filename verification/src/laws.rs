use vstd::prelude::*;

verus! {

use crate::errors::BridgeError;
use crate::json::headers_json_ok;
use crate::server::ServerBridge;
use crate::ws::WsClient;

/// Identifiers of requests pending at the same time are pairwise
/// distinct: every well-formed bridge state keeps the registry free of
/// duplicates, whatever interleaving produced it.
pub proof fn lemma_pending_ids_distinct(b: ServerBridge, i: int, j: int)
    requires
        b.wf(),
        0 <= i < b.pending@.len(),
        0 <= j < b.pending@.len(),
        i != j,
    ensures
        b.pending@[i]@ != b.pending@[j]@,
{
    if i < j {
        assert(b.pending@[i]@ != b.pending@[j]@);
    } else {
        assert(b.pending@[j]@ != b.pending@[i]@);
    }
}

/// A fulfilment succeeds at most once per identifier: once the entry has
/// left the registry — a successful send-response removes it — a repeated
/// attempt with the same well-formed arguments reports RequestNotFound.
pub proof fn lemma_fulfill_second_attempt(
    b: ServerBridge,
    status: int,
    headers: Seq<char>,
    id: Seq<char>,
)
    requires
        b.running,
        !b.pending_contains(id),
        100 <= status <= 599,
        headers_json_ok(headers),
    ensures
        b.spec_send_response_error(status, headers, id) == Some(BridgeError::RequestNotFound),
{
}

/// After a stop, a fulfilment with well-formed arguments reports
/// NotRunning, whatever identifier it names.
pub proof fn lemma_stopped_send_response(
    b: ServerBridge,
    status: int,
    headers: Seq<char>,
    id: Seq<char>,
)
    requires
        !b.running,
        100 <= status <= 599,
        headers_json_ok(headers),
    ensures
        b.spec_send_response_error(status, headers, id) == Some(BridgeError::NotRunning),
{
}

/// After a stop, a streaming send reports NotRunning, whatever identifier
/// it names: the running state is checked before the session lookup.
pub proof fn lemma_stopped_sse_send(b: ServerBridge, id: Seq<char>)
    requires
        !b.running,
    ensures
        b.spec_sse_send_error(id) == Some(BridgeError::NotRunning),
{
}

/// While the server runs, a streaming send to a session that was closed,
/// or never opened, reports SessionNotFound.
pub proof fn lemma_unknown_session_send(b: ServerBridge, id: Seq<char>)
    requires
        b.running,
        !b.sessions_contain(id),
    ensures
        b.spec_sse_send_error(id) == Some(BridgeError::SessionNotFound),
{
}

/// Frames appended by successive sends stand in the queue in send order:
/// enqueueing preserves everything already queued and places the new
/// frames behind it, in order.
pub proof fn lemma_sse_fifo(q: Seq<Seq<char>>, f1: Seq<char>, f2: Seq<char>)
    ensures
        q.push(f1).push(f2).len() == q.len() + 2,
        q.push(f1).push(f2)[q.len() as int] == f1,
        q.push(f1).push(f2)[q.len() as int + 1] == f2,
        forall|k: int| 0 <= k < q.len() ==> q.push(f1).push(f2)[k] == q[k],
{
}

/// While a server runs, a second start reports AlreadyRunning and, by
/// `start`'s contract, leaves the running server untouched.
pub proof fn lemma_start_while_running(b: ServerBridge, address_ok: bool)
    requires
        b.running,
    ensures
        b.spec_start_error(address_ok) == Some(BridgeError::AlreadyRunning),
{
}

/// An out-of-range status code is rejected whatever the registry holds,
/// and before the registry is touched: `send_response` leaves the state
/// unchanged on every error.
pub proof fn lemma_status_checked_first(
    b: ServerBridge,
    status: int,
    headers: Seq<char>,
    id: Seq<char>,
)
    requires
        !(100 <= status <= 599),
    ensures
        b.spec_send_response_error(status, headers, id) == Some(BridgeError::InvalidStatusCode),
{
}

/// Before any successful connect — and after any disconnect — a send is
/// refused with NoConnection.
pub proof fn lemma_send_without_connection(c: WsClient)
    requires
        !c.connected,
    ensures
        c.spec_send_error() == Some(BridgeError::NoConnection),
{
}

} // verus!
