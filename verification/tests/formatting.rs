use mcp_bridge::decimal::u64_to_decimal;
use mcp_bridge::query::get_query_param;
use mcp_bridge::sse::{sse_format_event, sse_format_message_event, split_lines_exec};

#[test]
fn event_frame_single_line() {
    let out = sse_format_event("endpoint", "http://x/message?sessionId=5");
    assert_eq!(out, "event: endpoint\ndata: http://x/message?sessionId=5\n\n");
}

#[test]
fn event_frame_empty_payload_still_emits_data_line() {
    let out = sse_format_event("message", "");
    assert_eq!(out, "event: message\ndata:\n\n");
}

#[test]
fn event_frame_multi_line_payload() {
    let out = sse_format_event("message", "a\nb");
    assert_eq!(out, "event: message\ndata: a\ndata: b\n\n");
}

#[test]
fn event_frame_crlf_payload() {
    let out = sse_format_event("message", "a\r\nb\r\n");
    assert_eq!(out, "event: message\ndata: a\ndata: b\n\n");
}

#[test]
fn event_frame_trailing_newline_is_optional() {
    assert_eq!(sse_format_event("e", "a\n"), sse_format_event("e", "a"));
}

#[test]
fn event_frame_blank_interior_line() {
    let out = sse_format_event("e", "a\n\nb");
    assert_eq!(out, "event: e\ndata: a\ndata: \ndata: b\n\n");
}

#[test]
fn message_event_is_event_named_message() {
    let out = sse_format_message_event("hello");
    assert_eq!(out, "event: message\ndata: hello\n\n");
}

#[test]
fn event_frame_keeps_a_bare_trailing_carriage_return() {
    let out = sse_format_event("e", "a\r");
    assert_eq!(out, "event: e\ndata: a\r\n\n");
}

#[test]
fn split_lines_matches_rust_lines() {
    for text in ["", "a", "a\n", "a\nb", "a\r\nb\r\n", "\n", "x\n\ny", "a\r", "baz\r", "a\r\nb\r"] {
        let ours: Vec<String> = split_lines_exec(text);
        let std_lines: Vec<String> = text.lines().map(|l| l.to_string()).collect();
        assert_eq!(ours, std_lines, "text {:?}", text);
    }
}

#[test]
fn query_param_found() {
    assert_eq!(
        get_query_param("sessionId=42&x=1", "sessionId"),
        Some("42".to_string())
    );
    assert_eq!(
        get_query_param("a=1&sessionId=7", "sessionId"),
        Some("7".to_string())
    );
}

#[test]
fn query_param_missing() {
    assert_eq!(get_query_param("", "sessionId"), None);
    assert_eq!(get_query_param("a=1&b=2", "sessionId"), None);
}

#[test]
fn query_param_no_equals_gives_empty_value() {
    assert_eq!(get_query_param("sessionId", "sessionId"), Some(String::new()));
}

#[test]
fn query_param_skips_empty_pairs() {
    assert_eq!(
        get_query_param("&&sessionId=9", "sessionId"),
        Some("9".to_string())
    );
}

#[test]
fn query_param_first_match_wins() {
    assert_eq!(get_query_param("k=1&k=2", "k"), Some("1".to_string()));
}

#[test]
fn query_param_value_keeps_later_equals() {
    assert_eq!(get_query_param("k=a=b", "k"), Some("a=b".to_string()));
}

#[test]
fn decimal_renders_canonically() {
    assert_eq!(u64_to_decimal(0), "0");
    assert_eq!(u64_to_decimal(1), "1");
    assert_eq!(u64_to_decimal(10), "10");
    assert_eq!(u64_to_decimal(12345), "12345");
    assert_eq!(u64_to_decimal(u64::MAX), "18446744073709551615");
}
