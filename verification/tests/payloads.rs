use mcp_bridge::json::{sse_open_payload, HttpIncomingRequest};
use mcp_bridge::response::sse_stream_headers;
use mcp_bridge::response::{
    add_cors_headers, bad_request_response, channel_closed_response, classify_request,
    delivery_unavailable_response, finalize_response, preflight_response, queue_full_response,
    root_probe_response, timeout_response, HttpResponseValue, RequestClass,
};

#[test]
fn request_payload_round_trips_through_a_json_decoder() {
    let req = HttpIncomingRequest {
        id: "7".to_string(),
        method: "GET".to_string(),
        path: "/unknown/path".to_string(),
        query: "a=1&b=2".to_string(),
        headers: vec![
            ("Accept".to_string(), "text/plain".to_string()),
            ("X-Tricky".to_string(), "line\nbreak \"quoted\"".to_string()),
        ],
        body: "body with \"quotes\" and \\slashes\\".to_string(),
    };
    let text = req.to_json();
    let value: serde_json::Value = serde_json::from_str(&text).expect("payload is valid JSON");
    assert_eq!(value["id"], "7");
    assert_eq!(value["method"], "GET");
    assert_eq!(value["path"], "/unknown/path");
    assert_eq!(value["query"], "a=1&b=2");
    assert_eq!(value["headers"]["Accept"], "text/plain");
    assert_eq!(value["headers"]["X-Tricky"], "line\nbreak \"quoted\"");
    assert_eq!(value["body"], "body with \"quotes\" and \\slashes\\");
    assert_eq!(value["headers"].as_object().unwrap().len(), 2);
}

#[test]
fn request_payload_with_no_headers() {
    let req = HttpIncomingRequest {
        id: "mcp".to_string(),
        method: "POST".to_string(),
        path: "/message".to_string(),
        query: String::new(),
        headers: vec![],
        body: "{}".to_string(),
    };
    let text = req.to_json();
    assert_eq!(
        text,
        "{\"id\":\"mcp\",\"method\":\"POST\",\"path\":\"/message\",\"query\":\"\",\"headers\":{},\"body\":\"{}\"}"
    );
}

#[test]
fn session_open_payload_shape() {
    let text = sse_open_payload("42");
    assert_eq!(text, "{\"id\":\"42\",\"path\":\"/sse\",\"headers\":{}}");
    let value: serde_json::Value = serde_json::from_str(&text).unwrap();
    assert_eq!(value["id"], "42");
    assert_eq!(value["path"], "/sse");
    assert!(value["headers"].as_object().unwrap().is_empty());
}

#[test]
fn classification_covers_all_endpoints() {
    assert_eq!(classify_request("OPTIONS", "/x"), RequestClass::CorsPreflight);
    assert_eq!(classify_request("GET", "/sse"), RequestClass::SseSubscribe);
    assert_eq!(classify_request("POST", "/message"), RequestClass::McpMessage);
    assert_eq!(classify_request("GET", "/"), RequestClass::RootProbe);
    assert_eq!(classify_request("GET", "/unknown/path"), RequestClass::Generic);
    assert_eq!(classify_request("POST", "/sse"), RequestClass::Generic);
    assert_eq!(classify_request("DELETE", "/message"), RequestClass::Generic);
}

fn cors() -> Vec<(String, String)> {
    vec![
        (
            "Access-Control-Allow-Origin".to_string(),
            "*".to_string(),
        ),
        (
            "Access-Control-Allow-Methods".to_string(),
            "GET, POST, OPTIONS".to_string(),
        ),
        (
            "Access-Control-Allow-Headers".to_string(),
            "content-type, authorization".to_string(),
        ),
        (
            "Access-Control-Max-Age".to_string(),
            "86400".to_string(),
        ),
    ]
}

#[test]
fn cors_headers_are_appended() {
    let mut headers = vec![("X".to_string(), "1".to_string())];
    add_cors_headers(&mut headers);
    let mut expected = vec![("X".to_string(), "1".to_string())];
    expected.extend(cors());
    assert_eq!(headers, expected);
}

#[test]
fn canned_responses() {
    let r = preflight_response();
    assert_eq!((r.status, r.body.as_str()), (204, ""));
    assert_eq!(r.headers, cors());

    let r = root_probe_response();
    assert_eq!((r.status, r.body.as_str()), (200, "MCP server"));

    let r = timeout_response();
    assert_eq!((r.status, r.body.as_str()), (504, "Handler timeout"));
    assert_eq!(r.headers, cors());

    let r = delivery_unavailable_response();
    assert_eq!(
        (r.status, r.body.as_str()),
        (503, "Event connection is unavailable")
    );

    let r = queue_full_response();
    assert_eq!((r.status, r.body.as_str()), (503, "Event queue is full"));

    let r = channel_closed_response();
    assert_eq!((r.status, r.body.as_str()), (500, "Response channel closed"));
    assert_eq!(r.headers, cors());

    let r = bad_request_response();
    assert_eq!(
        (r.status, r.body.as_str()),
        (400, "Failed to read request body")
    );
    assert_eq!(r.headers, cors());
}

#[test]
fn finalize_injects_json_content_type_when_absent() {
    let resp = HttpResponseValue {
        status: 200,
        headers: vec![("X".to_string(), "1".to_string())],
        body: "ok".to_string(),
    };
    let r = finalize_response(resp);
    let mut expected = vec![
        (
            "Content-Type".to_string(),
            "application/json; charset=utf-8".to_string(),
        ),
        ("X".to_string(), "1".to_string()),
    ];
    expected.extend(cors());
    assert_eq!(r.headers, expected);
    assert_eq!(r.status, 200);
    assert_eq!(r.body, "ok");
}

#[test]
fn finalize_keeps_a_host_supplied_content_type() {
    let resp = HttpResponseValue {
        status: 201,
        headers: vec![("Content-TYPE".to_string(), "text/plain".to_string())],
        body: "t".to_string(),
    };
    let r = finalize_response(resp);
    let mut expected = vec![("Content-TYPE".to_string(), "text/plain".to_string())];
    expected.extend(cors());
    assert_eq!(r.headers, expected);
}

#[test]
fn duplicate_header_keys_collapse_to_the_last_value() {
    let req = HttpIncomingRequest {
        id: "1".to_string(),
        method: "GET".to_string(),
        path: "/p".to_string(),
        query: String::new(),
        headers: vec![
            ("accept".to_string(), "text/plain".to_string()),
            ("x-mark".to_string(), "first".to_string()),
            ("x-mark".to_string(), "second".to_string()),
        ],
        body: String::new(),
    };
    let text = req.to_json();
    let value: serde_json::Value = serde_json::from_str(&text).unwrap();
    let headers = value["headers"].as_object().unwrap();
    assert_eq!(headers.len(), 2);
    assert_eq!(headers["accept"], "text/plain");
    assert_eq!(headers["x-mark"], "second");
    // the raw text carries the key once
    assert_eq!(text.matches("x-mark").count(), 1);
}

#[test]
fn sse_stream_envelope() {
    let headers = sse_stream_headers();
    let mut expected = vec![
        ("Content-Type".to_string(), "text/event-stream".to_string()),
        ("Cache-Control".to_string(), "no-cache".to_string()),
        ("Connection".to_string(), "keep-alive".to_string()),
        ("X-Accel-Buffering".to_string(), "no".to_string()),
    ];
    expected.extend(cors());
    assert_eq!(headers, expected);
}
