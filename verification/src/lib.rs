//! A synchronous facade over asynchronous web transports.
//!
//! A host application that can only issue short synchronous calls drives an
//! HTTP listener with deferred responses, Server-Sent-Event sessions, and a
//! WebSocket client.  This crate holds the bridging discipline itself: the
//! registries correlating deferred answers with waiting connections, request
//! classification, frame and payload formatting, and the state machines
//! behind every host-visible operation.  The network substrate that carries
//! the bytes stays outside and hands plain values in and out.

pub mod errors;
pub mod text;
pub mod decimal;
pub mod sse;
pub mod query;
pub mod json;
pub mod response;
pub mod server;
pub mod ws;
pub mod laws;

use vstd::prelude::*;

verus! {

/// The version reported through the version query of both control
/// surfaces.
pub fn version() -> (r: String)
    ensures
        r@ == "0.1.0"@,
{
    "0.1.0".to_owned()
}

} // verus!
