use mcp_bridge::errors::BridgeError;
use mcp_bridge::ws::{build_handshake, host_of_authority, WsClient, WsRecvEvent};

#[test]
fn host_strips_user_information() {
    assert_eq!(host_of_authority("example.com:9001"), "example.com:9001");
    assert_eq!(host_of_authority("user:pass@example.com"), "example.com");
    assert_eq!(host_of_authority("u@a@b"), "a@b");
}

#[test]
fn handshake_carries_fixed_headers_then_extras() {
    let h = build_handshake(
        "ws://user:pass@example.com:9001/socket",
        "{\"Authorization\":\"Bearer t\"}",
    )
    .expect("address has an authority");
    assert_eq!(h.address, "ws://user:pass@example.com:9001/socket");
    assert_eq!(h.headers.len(), 6);
    assert_eq!(
        h.headers[0],
        ("Host".to_string(), "example.com:9001".to_string())
    );
    assert_eq!(
        h.headers[1],
        ("Connection".to_string(), "Upgrade".to_string())
    );
    assert_eq!(h.headers[2], ("Upgrade".to_string(), "websocket".to_string()));
    assert_eq!(
        h.headers[3],
        ("Sec-WebSocket-Version".to_string(), "13".to_string())
    );
    assert_eq!(h.headers[4].0, "Sec-WebSocket-Key");
    // a fresh 16-byte nonce in base64: 24 characters, not a constant
    assert_eq!(h.headers[4].1.len(), 24);
    let again = build_handshake("ws://example.com/", "").unwrap();
    assert_ne!(h.headers[4].1, again.headers[4].1);
    assert_eq!(
        h.headers[5],
        ("Authorization".to_string(), "Bearer t".to_string())
    );
}

#[test]
fn handshake_rejects_an_address_without_authority() {
    let r = build_handshake("/just/a/path", "");
    assert!(matches!(r, Err(BridgeError::InvalidAddress)));
}

#[test]
fn handshake_checks_headers_before_the_address() {
    let r = build_handshake("/just/a/path", "not json");
    assert!(matches!(r, Err(BridgeError::InvalidHeadersPayload)));
}

#[test]
fn send_before_connect_is_refused() {
    let c = WsClient::new();
    assert!(matches!(c.check_send(), Err(BridgeError::NoConnection)));
    assert!(matches!(
        c.receive_reply(WsRecvEvent::TimedOut),
        Err(BridgeError::NoConnection)
    ));
}

#[test]
fn connect_state_machine() {
    let mut c = WsClient::new();
    assert!(matches!(
        c.on_connect_result(false),
        Err(BridgeError::ConnectFailed)
    ));
    assert!(!c.connected);
    assert!(c.on_connect_result(true).is_ok());
    assert!(c.connected);
    assert!(c.check_send().is_ok());
    assert!(c.disconnect());
    assert!(!c.connected);
    assert!(matches!(c.check_send(), Err(BridgeError::NoConnection)));
}

#[test]
fn receive_outcomes() {
    let mut c = WsClient::new();
    c.on_connect_result(true).unwrap();
    assert_eq!(c.receive_reply(WsRecvEvent::TimedOut).unwrap(), "");
    assert_eq!(c.receive_reply(WsRecvEvent::StreamEnded).unwrap(), "");
    assert_eq!(
        c.receive_reply(WsRecvEvent::Frame("hi".to_string())).unwrap(),
        "hi"
    );
    assert!(matches!(
        c.receive_reply(WsRecvEvent::Malformed),
        Err(BridgeError::ProtocolError)
    ));
}
