use mcp_bridge::errors::BridgeError;
use mcp_bridge::server::ServerBridge;

#[test]
fn start_then_start_again_is_already_running() {
    let mut b = ServerBridge::new();
    assert!(b.start(true).is_ok());
    assert!(b.running);
    assert_eq!(b.start(true), Err(BridgeError::AlreadyRunning));
    assert!(b.running);
}

#[test]
fn start_with_bad_address_is_invalid_address() {
    let mut b = ServerBridge::new();
    assert_eq!(b.start(false), Err(BridgeError::InvalidAddress));
    assert!(!b.running);
}

#[test]
fn stop_without_start_is_not_running() {
    let mut b = ServerBridge::new();
    assert_eq!(b.stop(), Err(BridgeError::NotRunning));
}

#[test]
fn request_ids_are_fresh_and_distinct() {
    let mut b = ServerBridge::new();
    b.start(true).unwrap();
    let a = b.register_pending();
    let c = b.register_pending();
    let d = b.register_pending();
    assert_eq!(a, "1");
    assert_eq!(c, "2");
    assert_eq!(d, "3");
    assert_ne!(a, c);
    assert_ne!(c, d);
    assert_ne!(a, d);
}

#[test]
fn fulfill_succeeds_exactly_once() {
    let mut b = ServerBridge::new();
    b.start(true).unwrap();
    let id = b.register_pending();
    let first = b.send_response(id.as_str(), 200, "{}", "ok");
    let resp = first.expect("first fulfilment succeeds");
    assert_eq!(resp.status, 200);
    assert_eq!(resp.body, "ok");
    assert!(resp.headers.is_empty());
    let second = b.send_response(id.as_str(), 200, "{}", "ok");
    assert!(matches!(second, Err(BridgeError::RequestNotFound)));
}

#[test]
fn status_out_of_range_fails_before_the_registry() {
    let mut b = ServerBridge::new();
    b.start(true).unwrap();
    let id = b.register_pending();
    let r = b.send_response(id.as_str(), 999, "{}", "x");
    assert!(matches!(r, Err(BridgeError::InvalidStatusCode)));
    let r = b.send_response(id.as_str(), 99, "{}", "x");
    assert!(matches!(r, Err(BridgeError::InvalidStatusCode)));
    // the entry is untouched: a well-formed call still succeeds
    let r = b.send_response(id.as_str(), 204, "{}", "");
    assert!(r.is_ok());
}

#[test]
fn malformed_headers_payload_is_rejected() {
    let mut b = ServerBridge::new();
    b.start(true).unwrap();
    let id = b.register_pending();
    let r = b.send_response(id.as_str(), 200, "not json", "x");
    assert!(matches!(r, Err(BridgeError::InvalidHeadersPayload)));
    let r = b.send_response(id.as_str(), 200, "[1,2]", "x");
    assert!(matches!(r, Err(BridgeError::InvalidHeadersPayload)));
}

#[test]
fn header_values_are_read_as_text() {
    let mut b = ServerBridge::new();
    b.start(true).unwrap();
    let id = b.register_pending();
    let payload = "{\"X\":\"1\",\"n\":2,\"b\":true,\"z\":null}";
    let resp = b.send_response(id.as_str(), 200, payload, "").unwrap();
    // entries come back sorted by key, values rendered as text
    let expected = vec![
        ("X".to_string(), "1".to_string()),
        ("b".to_string(), "true".to_string()),
        ("n".to_string(), "2".to_string()),
        ("z".to_string(), String::new()),
    ];
    assert_eq!(resp.headers, expected);
}

#[test]
fn timeout_removal_clears_the_entry() {
    let mut b = ServerBridge::new();
    b.start(true).unwrap();
    let id = b.register_pending();
    assert!(b.remove_pending(id.as_str()));
    assert!(!b.remove_pending(id.as_str()));
    let r = b.send_response(id.as_str(), 200, "{}", "x");
    assert!(matches!(r, Err(BridgeError::RequestNotFound)));
}

#[test]
fn failed_delivery_rolls_the_entry_back() {
    let mut b = ServerBridge::new();
    b.start(true).unwrap();
    let id = b.register_pending();
    let r = b.settle_delivery(id.as_str(), false, false);
    assert!(matches!(r, Err(BridgeError::DeliveryUnavailable)));
    assert!(matches!(
        b.send_response(id.as_str(), 200, "{}", "x"),
        Err(BridgeError::RequestNotFound)
    ));

    let id = b.register_pending();
    let r = b.settle_delivery(id.as_str(), true, false);
    assert!(matches!(r, Err(BridgeError::DeliveryQueueFull)));
    assert!(matches!(
        b.send_response(id.as_str(), 200, "{}", "x"),
        Err(BridgeError::RequestNotFound)
    ));

    let id = b.register_pending();
    assert!(b.settle_delivery(id.as_str(), true, true).is_ok());
    assert!(b.send_response(id.as_str(), 200, "{}", "x").is_ok());
}

#[test]
fn stop_clears_both_registries() {
    let mut b = ServerBridge::new();
    b.start(true).unwrap();
    let id = b.register_pending();
    b.open_session("sessionId=s1", "127.0.0.1:8080");
    assert!(b.stop().is_ok());
    assert!(!b.running);
    assert!(b.pending.is_empty());
    assert!(b.sessions.is_empty());
    // fulfilment after stop reports NotRunning
    let r = b.send_response(id.as_str(), 200, "{}", "x");
    assert!(matches!(r, Err(BridgeError::NotRunning)));
    // a streaming send after stop reports NotRunning as well
    let r = b.sse_send("s1", "hello");
    assert!(matches!(r, Err(BridgeError::NotRunning)));
}

#[test]
fn session_from_query_parameter() {
    let mut b = ServerBridge::new();
    b.start(true).unwrap();
    let id = b.open_session("sessionId=abc", "127.0.0.1:8080");
    assert_eq!(id, "abc");
    let frames = b.sse_take("abc").unwrap();
    assert_eq!(
        frames,
        vec![
            "event: endpoint\ndata: http://127.0.0.1:8080/message?sessionId=abc\n\n".to_string()
        ]
    );
}

#[test]
fn session_from_counter_when_no_parameter() {
    let mut b = ServerBridge::new();
    b.start(true).unwrap();
    let id = b.open_session("", "localhost");
    assert_eq!(id, "1");
    let id2 = b.open_session("other=1", "localhost");
    assert_eq!(id2, "2");
}

#[test]
fn sse_frames_are_delivered_in_fifo_order() {
    let mut b = ServerBridge::new();
    b.start(true).unwrap();
    let id = b.open_session("sessionId=s", "h");
    assert!(b.sse_send(id.as_str(), "hello").is_ok());
    assert!(b.sse_send(id.as_str(), "world").is_ok());
    let frames = b.sse_take(id.as_str()).unwrap();
    assert_eq!(
        frames,
        vec![
            "event: endpoint\ndata: http://h/message?sessionId=s\n\n".to_string(),
            "event: message\ndata: hello\n\n".to_string(),
            "event: message\ndata: world\n\n".to_string(),
        ]
    );
    // taking drains: nothing is replayed
    assert_eq!(b.sse_take(id.as_str()).unwrap(), Vec::<String>::new());
}

#[test]
fn sse_send_to_unknown_session_fails() {
    let mut b = ServerBridge::new();
    b.start(true).unwrap();
    assert!(matches!(
        b.sse_send("nope", "x"),
        Err(BridgeError::SessionNotFound)
    ));
}

#[test]
fn sse_send_after_close_fails_and_close_is_idempotent() {
    let mut b = ServerBridge::new();
    b.start(true).unwrap();
    let id = b.open_session("sessionId=s", "h");
    assert!(b.sse_send(id.as_str(), "x").is_ok());
    assert!(b.sse_close(id.as_str()));
    assert!(matches!(
        b.sse_send(id.as_str(), "x"),
        Err(BridgeError::SessionNotFound)
    ));
    assert!(!b.sse_close(id.as_str()));
}

#[test]
fn reopened_session_starts_over() {
    let mut b = ServerBridge::new();
    b.start(true).unwrap();
    b.open_session("sessionId=s", "h");
    b.sse_send("s", "stale").unwrap();
    b.open_session("sessionId=s", "h");
    let frames = b.sse_take("s").unwrap();
    assert_eq!(
        frames,
        vec!["event: endpoint\ndata: http://h/message?sessionId=s\n\n".to_string()]
    );
}

#[test]
fn error_messages_match_the_reported_texts() {
    assert_eq!(
        BridgeError::AlreadyRunning.message(),
        "HTTP сервер уже запущен"
    );
    assert_eq!(BridgeError::NotRunning.message(), "HTTP сервер не запущен");
    assert_eq!(
        BridgeError::RequestNotFound.message(),
        "Не найден ожидающий ответ запрос"
    );
    assert_eq!(BridgeError::SessionNotFound.message(), "SSE сессия не найдена");
    assert_eq!(BridgeError::HandlerTimeout.message(), "Handler timeout");
}

#[test]
fn version_is_reported() {
    assert_eq!(mcp_bridge::version(), "0.1.0");
}
