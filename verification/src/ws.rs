use vstd::prelude::*;

verus! {

use vstd::string::StrSliceExecFns;
use vstd::string::StringExecFns;
use crate::errors::BridgeError;
use crate::json::{entries_view, headers_json_ok, parse_headers, parsed_headers};
use crate::text::{find_char, first_index_of};

/// The authority component of `s` read as a URI, or `None` when `s` is not
/// a URI or has no authority.
pub uninterp spec fn authority_of(s: Seq<char>) -> Option<Seq<char>>;

/// Relies on the http crate's Uri parser, reached through
/// tokio_tungstenite: parsing is a pure function of the text, and
/// `authority` returns the authority component exactly when the URI has
/// one.
#[verifier::external_body]
fn uri_authority(s: &str) -> (r: Option<String>)
    ensures
        match r {
            Some(a) => authority_of(s@) == Some(a@),
            None => authority_of(s@) is None,
        },
{
    match s.parse::<tokio_tungstenite::tungstenite::http::Uri>() {
        Ok(uri) => uri.authority().map(|a| a.as_str().to_owned()),
        Err(_) => None,
    }
}

/// Relies on tungstenite's generate_key: a random nonce for the
/// `Sec-WebSocket-Key` header; nothing can be promised of its value.
#[verifier::external_body]
fn handshake_key() -> (r: String) {
    tokio_tungstenite::tungstenite::handshake::client::generate_key()
}

/// The host part of an authority: everything after the first `@`, or the
/// whole authority when it carries no user information.
pub open spec fn host_of(authority: Seq<char>) -> Seq<char> {
    let i = first_index_of(authority, '@');
    if i == authority.len() {
        authority
    } else {
        authority.skip(i as int + 1)
    }
}

/// Extracts the host from an authority, as `host_of` describes.
pub fn host_of_authority(authority: &str) -> (r: String)
    ensures
        r@ == host_of(authority@),
{
    let len = authority.unicode_len();
    let i = find_char(authority, '@');
    proof {
        crate::text::lemma_first_index_of(authority@, '@');
    }
    if i == len {
        String::from_str(authority)
    } else {
        let rest = authority.substring_char(i + 1, len);
        proof {
            assert(rest@ =~= authority@.skip(i as int + 1));
        }
        String::from_str(rest)
    }
}

/// The fixed upgrade headers of a client handshake, before the caller's
/// extra headers.
pub open spec fn handshake_pairs(host: Seq<char>, key: Seq<char>) -> Seq<(Seq<char>, Seq<char>)> {
    seq![
        ("Host"@, host),
        ("Connection"@, "Upgrade"@),
        ("Upgrade"@, "websocket"@),
        ("Sec-WebSocket-Version"@, "13"@),
        ("Sec-WebSocket-Key"@, key),
    ]
}

/// Everything the network layer needs to perform one upgrade handshake:
/// the address and the full header list, fixed headers first.
pub struct HandshakeRequest {
    /// The address the connection goes to.
    pub address: String,
    /// Upgrade headers followed by the caller's extra headers.
    pub headers: Vec<(String, String)>,
}

/// Prepares a connect call: decodes the caller's extra headers, requires
/// the address to be a URI with an authority, and lays out the handshake
/// headers.  The header payload is checked before the address, as the
/// connect call does.
pub fn build_handshake(address: &str, headers_json: &str) -> (r: Result<
    HandshakeRequest,
    BridgeError,
>)
    ensures
        match r {
            Ok(h) => {
                &&& headers_json_ok(headers_json@)
                &&& authority_of(address@) is Some
                &&& h.address@ == address@
                &&& exists|key: Seq<char>|
                    entries_view(h.headers@) == #[trigger] handshake_pairs(
                        host_of(authority_of(address@)->Some_0),
                        key,
                    ) + parsed_headers(headers_json@)
            },
            Err(e) => if !headers_json_ok(headers_json@) {
                e == BridgeError::InvalidHeadersPayload
            } else {
                authority_of(address@) is None && e == BridgeError::InvalidAddress
            },
        },
{
    let extra = match parse_headers(headers_json) {
        Ok(v) => v,
        Err(e) => {
            return Err(e);
        },
    };
    let authority = match uri_authority(address) {
        Some(a) => a,
        None => {
            return Err(BridgeError::InvalidAddress);
        },
    };
    let host = host_of_authority(authority.as_str());
    let key = handshake_key();
    let ghost key_view = key@;
    let mut headers: Vec<(String, String)> = Vec::new();
    headers.push(("Host".to_owned(), host));
    headers.push(("Connection".to_owned(), "Upgrade".to_owned()));
    headers.push(("Upgrade".to_owned(), "websocket".to_owned()));
    headers.push(("Sec-WebSocket-Version".to_owned(), "13".to_owned()));
    headers.push(("Sec-WebSocket-Key".to_owned(), key));
    let mut rest = extra;
    headers.append(&mut rest);
    proof {
        assert(entries_view(headers@) =~= handshake_pairs(
            host_of(authority_of(address@)->Some_0),
            key_view,
        ) + parsed_headers(headers_json@));
    }
    Ok(HandshakeRequest { address: String::from_str(address), headers })
}

/// What the connection delivered to one bounded-wait receive call.
pub enum WsRecvEvent {
    /// Nothing arrived within the wait.
    TimedOut,
    /// The stream ended.
    StreamEnded,
    /// A text frame arrived.
    Frame(String),
    /// A frame arrived that does not read as text.
    Malformed,
}

/// The synchronous facade over one background socket connection: at most
/// one connection is held at a time, and every operation is valid or not
/// by this state alone.
pub struct WsClient {
    /// Whether a connection is currently held.
    pub connected: bool,
}

impl WsClient {
    /// Why a send must fail, if it must: no connection is held.
    pub open spec fn spec_send_error(self) -> Option<BridgeError> {
        if !self.connected {
            Some(BridgeError::NoConnection)
        } else {
            None
        }
    }

    /// What a bounded-wait receive returns for each delivered event: empty
    /// text on a timeout or stream end — a normal outcome — the payload of
    /// a text frame, and a protocol error for anything else.
    pub open spec fn spec_receive_reply(self, event: WsRecvEvent) -> Result<
        Seq<char>,
        BridgeError,
    > {
        if !self.connected {
            Err(BridgeError::NoConnection)
        } else {
            match event {
                WsRecvEvent::TimedOut => Ok(Seq::empty()),
                WsRecvEvent::StreamEnded => Ok(Seq::empty()),
                WsRecvEvent::Frame(t) => Ok(t@),
                WsRecvEvent::Malformed => Err(BridgeError::ProtocolError),
            }
        }
    }

    /// A fresh client holds no connection.
    pub fn new() -> (c: WsClient)
        ensures
            !c.connected,
    {
        WsClient { connected: false }
    }

    /// Records the outcome of a connect attempt: on success the new
    /// connection replaces any previous one; on failure the previous state
    /// is kept.
    pub fn on_connect_result(&mut self, success: bool) -> (r: Result<(), BridgeError>)
        ensures
            success ==> r is Ok && *final(self) == (WsClient { connected: true }),
            !success ==> r == Err::<(), BridgeError>(BridgeError::ConnectFailed) && *final(self)
                == *old(self),
    {
        if success {
            self.connected = true;
            Ok(())
        } else {
            Err(BridgeError::ConnectFailed)
        }
    }

    /// Whether a send may proceed: valid only while a connection is held.
    pub fn check_send(&self) -> (r: Result<(), BridgeError>)
        ensures
            match r {
                Ok(_) => self.spec_send_error() is None,
                Err(e) => Some(e) == self.spec_send_error(),
            },
    {
        if self.connected {
            Ok(())
        } else {
            Err(BridgeError::NoConnection)
        }
    }

    /// Turns one delivered receive event into the host-visible result, as
    /// `spec_receive_reply` describes.
    pub fn receive_reply(&self, event: WsRecvEvent) -> (r: Result<String, BridgeError>)
        ensures
            match r {
                Ok(t) => self.spec_receive_reply(event) == Ok::<Seq<char>, BridgeError>(t@),
                Err(e) => self.spec_receive_reply(event) == Err::<Seq<char>, BridgeError>(e),
            },
    {
        if !self.connected {
            return Err(BridgeError::NoConnection);
        }
        match event {
            WsRecvEvent::TimedOut => Ok(String::new()),
            WsRecvEvent::StreamEnded => Ok(String::new()),
            WsRecvEvent::Frame(t) => Ok(t),
            WsRecvEvent::Malformed => Err(BridgeError::ProtocolError),
        }
    }

    /// Drops the connection, if any; always valid and always leaves the
    /// client disconnected.
    pub fn disconnect(&mut self) -> (r: bool)
        ensures
            !final(self).connected,
            r,
    {
        self.connected = false;
        true
    }
}

} // verus!
