use local_sent_bridge::protocol::parse_confirm_request;
use local_sent_bridge::protocol::route_listen_line;
use local_sent_bridge::protocol::ListenEvent;
use local_sent_bridge::protocol::StreamKind;

#[test]
fn confirm_request_without_from_defaults_to_unknown() {
    let line = b"[confirm-request] {\"id\":7,\"path\":\"/tmp/x\",\"size\":100}";
    let req = parse_confirm_request(line).expect("should decode");
    assert_eq!(req.id, 7);
    assert_eq!(req.from, b"unknown".to_vec());
    assert_eq!(req.path, b"/tmp/x".to_vec());
    assert_eq!(req.size, 100);
}

#[test]
fn routed_confirm_line_yields_one_confirm_event_and_no_log() {
    let line = b"[confirm-request] {\"id\":7,\"path\":\"/tmp/x\",\"size\":100}";
    match route_listen_line(StreamKind::Stdout, line) {
        Some(ListenEvent::Confirm(req)) => {
            assert_eq!(req.id, 7);
            assert_eq!(req.from, b"unknown".to_vec());
        }
        other => panic!("expected a confirm event, got {other:?}"),
    }
}

#[test]
fn truncated_payload_degrades_to_log_line() {
    let line = b"[confirm-request] {\"id\":7,\"path\":\"/tmp/x\",\"si";
    assert!(parse_confirm_request(line).is_none());
    match route_listen_line(StreamKind::Stdout, line) {
        Some(ListenEvent::Log(log)) => {
            assert_eq!(log.stream, StreamKind::Stdout);
            assert_eq!(log.text, line.to_vec());
        }
        other => panic!("expected a log event, got {other:?}"),
    }
}

#[test]
fn stderr_sentinel_line_is_never_a_control_message() {
    let line = b"[confirm-request] {\"id\":7,\"path\":\"/tmp/x\",\"size\":100}";
    match route_listen_line(StreamKind::Stderr, line) {
        Some(ListenEvent::Log(log)) => assert_eq!(log.stream, StreamKind::Stderr),
        other => panic!("expected a log event, got {other:?}"),
    }
}

#[test]
fn blank_line_is_dropped() {
    assert!(route_listen_line(StreamKind::Stdout, b"   \t  ").is_none());
    assert!(route_listen_line(StreamKind::Stderr, b"").is_none());
}

#[test]
fn ordinary_line_is_logged_trimmed() {
    match route_listen_line(StreamKind::Stdout, b"  listening on port 7777  ") {
        Some(ListenEvent::Log(log)) => {
            assert_eq!(log.text, b"listening on port 7777".to_vec());
        }
        other => panic!("expected a log event, got {other:?}"),
    }
}

#[test]
fn confirm_request_fields_in_any_order() {
    let line = b"[confirm-request] {\"size\":1,\"from\":\"deck\",\"id\":3,\"path\":\"a\"}";
    let req = parse_confirm_request(line).expect("should decode");
    assert_eq!(req.id, 3);
    assert_eq!(req.from, b"deck".to_vec());
    assert_eq!(req.path, b"a".to_vec());
    assert_eq!(req.size, 1);
}

#[test]
fn confirm_request_with_escapes_in_path() {
    let line = b"[confirm-request] {\"id\":1,\"path\":\"C:\\\\x \\\"q\\\" \\n\",\"size\":2}";
    let req = parse_confirm_request(line).expect("should decode");
    assert_eq!(req.path, b"C:\\x \"q\" \n".to_vec());
}

#[test]
fn confirm_request_with_unicode_escape() {
    // \u0041 is 'A'; \ud83d\ude00 is a surrogate pair for U+1F600
    let line = b"[confirm-request] {\"id\":1,\"path\":\"\\u0041\\ud83d\\ude00\",\"size\":2}";
    let req = parse_confirm_request(line).expect("should decode");
    assert_eq!(req.path, "A\u{1F600}".as_bytes().to_vec());
}

#[test]
fn lone_surrogate_is_refused() {
    let line = b"[confirm-request] {\"id\":1,\"path\":\"\\ud83d\",\"size\":2}";
    assert!(parse_confirm_request(line).is_none());
}

#[test]
fn missing_required_field_is_refused() {
    let line = b"[confirm-request] {\"id\":7,\"size\":100}";
    assert!(parse_confirm_request(line).is_none());
}

#[test]
fn duplicate_field_is_refused() {
    let line = b"[confirm-request] {\"id\":7,\"id\":8,\"path\":\"x\",\"size\":1}";
    assert!(parse_confirm_request(line).is_none());
}

#[test]
fn unknown_field_is_refused() {
    let line = b"[confirm-request] {\"id\":7,\"path\":\"x\",\"size\":1,\"extra\":true}";
    assert!(parse_confirm_request(line).is_none());
}

#[test]
fn oversized_id_is_refused() {
    let line = b"[confirm-request] {\"id\":18446744073709551616,\"path\":\"x\",\"size\":1}";
    assert!(parse_confirm_request(line).is_none());
}

#[test]
fn max_u64_id_is_accepted() {
    let line = b"[confirm-request] {\"id\":18446744073709551615,\"path\":\"x\",\"size\":0}";
    let req = parse_confirm_request(line).expect("should decode");
    assert_eq!(req.id, u64::MAX);
    assert_eq!(req.size, 0);
}

#[test]
fn fractional_size_is_refused() {
    let line = b"[confirm-request] {\"id\":1,\"path\":\"x\",\"size\":1.5}";
    assert!(parse_confirm_request(line).is_none());
}

#[test]
fn payload_with_surrounding_whitespace_is_accepted() {
    let line = b"[confirm-request]  { \"id\" : 7 , \"path\" : \"x\" , \"size\" : 1 } ";
    let req = parse_confirm_request(line).expect("should decode");
    assert_eq!(req.id, 7);
}

#[test]
fn line_without_prefix_is_not_a_confirm() {
    assert!(parse_confirm_request(b"{\"id\":7,\"path\":\"x\",\"size\":1}").is_none());
}
