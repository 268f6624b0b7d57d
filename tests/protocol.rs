use thalassa::client::is_white_space;
use thalassa::acp::{JsonRpcError, JsonRpcRequest, JsonRpcResponse};
use thalassa::client::{call_id_of, check_reply, is_blank, Inbound, PendingCalls, ProtocolError};
use thalassa::json::Json;
use thalassa::entity::{Entity, TelegramUser};
use thalassa::text::parse_decimal_u64;

fn reply(id: Json, result: Option<Json>) -> JsonRpcResponse {
    JsonRpcResponse { jsonrpc: "2.0".to_string(), id, result, error: None }
}

fn number(text: &str) -> Json {
    Json::Number(text.to_string())
}

fn delivered(action: Inbound<&'static str>) -> Option<(&'static str, JsonRpcResponse)> {
    match action {
        Inbound::Deliver { handle, response } => Some((handle, response)),
        _ => None,
    }
}

#[test]
fn decimal_ids_parse_only_in_canonical_form() {
    assert_eq!(parse_decimal_u64("5"), Some(5));
    assert_eq!(parse_decimal_u64("0"), Some(0));
    assert_eq!(parse_decimal_u64("120"), Some(120));
    assert_eq!(parse_decimal_u64("18446744073709551615"), Some(u64::MAX));
    assert_eq!(parse_decimal_u64("18446744073709551616"), None);
    assert_eq!(parse_decimal_u64("05"), None);
    assert_eq!(parse_decimal_u64(""), None);
    assert_eq!(parse_decimal_u64("-1"), None);
    assert_eq!(parse_decimal_u64("5.0"), None);
    assert_eq!(parse_decimal_u64(" 5"), None);
}

#[test]
fn numbers_are_written_in_decimal() {
    let call = JsonRpcRequest::new("m", None, Some(4096));
    assert!(matches!(call.id, Some(Json::Number(ref t)) if t == "4096"));
    let call = JsonRpcRequest::new("m", None, Some(0));
    assert!(matches!(call.id, Some(Json::Number(ref t)) if t == "0"));
    let user = Entity::User(TelegramUser { id: -42, username: None, first_name: "A".to_string() });
    assert_eq!(user.id().id, "telegram:-42");
    let failed = ProtocolError::CallFailed { code: 7, message: "m".to_string() };
    assert_eq!(failed.message(), "call failed: m (7)");
}

#[test]
fn reply_ids_are_matched_without_quotes() {
    assert_eq!(call_id_of(&number("5")), Some(5));
    assert_eq!(call_id_of(&Json::Str("5".to_string())), Some(5));
    assert_eq!(call_id_of(&Json::Str("\"5\"".to_string())), None);
    assert_eq!(call_id_of(&number("5.0")), None);
    assert_eq!(call_id_of(&Json::Null), None);
    assert_eq!(call_id_of(&Json::Bool(true)), None);
}

#[test]
fn calls_get_increasing_ids_from_one() {
    let mut table: PendingCalls<&'static str> = PendingCalls::new();
    let first = table.begin_call("initialize", None, "a").ok().unwrap();
    let second = table.begin_call("session/new", Some(Json::Null), "b").ok().unwrap();
    assert_eq!(first.jsonrpc, "2.0");
    assert_eq!(first.method, "initialize");
    assert!(matches!(first.id, Some(Json::Number(ref t)) if t == "1"));
    assert_eq!(second.method, "session/new");
    assert!(matches!(second.params, Some(Json::Null)));
    assert!(matches!(second.id, Some(Json::Number(ref t)) if t == "2"));
    assert!(!table.is_idle());
}

#[test]
fn replies_out_of_order_reach_their_callers() {
    let mut table: PendingCalls<&'static str> = PendingCalls::new();
    table.begin_call("one", None, "first").ok().unwrap();
    table.begin_call("two", None, "second").ok().unwrap();
    table.begin_call("three", None, "third").ok().unwrap();
    let (h, r) = delivered(table.resolve(reply(number("3"), Some(number("30"))))).unwrap();
    assert_eq!(h, "third");
    assert!(matches!(r.result, Some(Json::Number(ref t)) if t == "30"));
    let (h, _) = delivered(table.resolve(reply(number("1"), None))).unwrap();
    assert_eq!(h, "first");
    let (h, _) = delivered(table.resolve(reply(Json::Str("2".to_string()), None))).unwrap();
    assert_eq!(h, "second");
    assert!(table.is_idle());
}

#[test]
fn unmatched_reply_is_dropped_and_changes_nothing() {
    let mut table: PendingCalls<&'static str> = PendingCalls::new();
    table.begin_call("one", None, "first").ok().unwrap();
    assert!(matches!(table.resolve(reply(number("9"), None)), Inbound::Unmatched(_)));
    assert!(matches!(table.resolve(reply(Json::Null, None)), Inbound::Unmatched(_)));
    let (h, _) = delivered(table.resolve(reply(number("1"), None))).unwrap();
    assert_eq!(h, "first");
    assert!(matches!(table.resolve(reply(number("1"), None)), Inbound::Unmatched(_)));
}

#[test]
fn malformed_line_does_not_stop_the_next_reply() {
    let mut table: PendingCalls<&'static str> = PendingCalls::new();
    table.begin_call("one", None, "waiting").ok().unwrap();
    assert!(matches!(table.on_line("this is not json", None, None), Inbound::Malformed));
    let line = "{\"jsonrpc\":\"2.0\",\"id\":1,\"result\":{}}";
    let (h, _) = delivered(table.on_line(line, Some(reply(number("1"), Some(Json::Object(vec![])))), None)).unwrap();
    assert_eq!(h, "waiting");
}

#[test]
fn blank_lines_are_skipped_and_calls_are_published() {
    let mut table: PendingCalls<&'static str> = PendingCalls::new();
    assert!(matches!(table.on_line("", None, None), Inbound::Skip));
    assert!(matches!(table.on_line(" \t\r", None, None), Inbound::Skip));
    let note = JsonRpcRequest::notification("session/update", None);
    match table.on_line("{\"method\":\"session/update\"}", None, Some(note)) {
        Inbound::Notify(n) => assert_eq!(n.method, "session/update"),
        _ => panic!("expected a notification"),
    }
    assert!(is_blank("\u{3000}\n"));
    assert!(!is_blank(" x "));
}

#[test]
fn closing_fails_new_calls_and_empties_the_table() {
    let mut table: PendingCalls<&'static str> = PendingCalls::new();
    table.begin_call("one", None, "first").ok().unwrap();
    table.close();
    assert!(table.is_idle());
    assert!(matches!(table.begin_call("two", None, "second"), Err(ProtocolError::ConnectionClosed)));
    assert!(matches!(table.resolve(reply(number("1"), None)), Inbound::Unmatched(_)));
}

#[test]
fn cancelled_call_no_longer_matches() {
    let mut table: PendingCalls<&'static str> = PendingCalls::new();
    table.begin_call("one", None, "first").ok().unwrap();
    assert_eq!(table.cancel(1), Some("first"));
    assert_eq!(table.cancel(1), None);
    assert!(matches!(table.resolve(reply(number("1"), None)), Inbound::Unmatched(_)));
}

#[test]
fn error_replies_become_call_failures() {
    let failed = JsonRpcResponse {
        jsonrpc: "2.0".to_string(),
        id: number("4"),
        result: None,
        error: Some(JsonRpcError { code: -32000, message: "boom".to_string(), data: None }),
    };
    match check_reply(failed) {
        Err(e) => {
            assert!(matches!(e, ProtocolError::CallFailed { code: -32000, .. }));
            assert_eq!(e.message(), "call failed: boom (-32000)");
        }
        Ok(_) => panic!("expected a failure"),
    }
    assert!(check_reply(reply(number("4"), Some(Json::Null))).is_ok());
    assert_eq!(ProtocolError::ConnectionClosed.message(), "connection closed");
    assert_eq!(ProtocolError::Timeout.message(), "call timed out");
}

#[test]
fn request_ids_are_decimal_numbers() {
    let call = JsonRpcRequest::new("x", None, Some(7));
    assert!(matches!(call.id, Some(Json::Number(ref t)) if t == "7"));
    let note = JsonRpcRequest::notification("y", Some(Json::Bool(false)));
    assert!(note.id.is_none());
    assert_eq!(note.jsonrpc, "2.0");
}

#[test]
fn agent_call_with_an_id_goes_to_subscribers() {
    let mut table: PendingCalls<&'static str> = PendingCalls::new();
    table.begin_call("session/prompt", None, "waiting").ok().unwrap();
    let line = "{\"jsonrpc\":\"2.0\",\"method\":\"fs/read_text_file\",\"id\":1,\"params\":{}}";
    let as_reply = reply(number("1"), None);
    let call = JsonRpcRequest {
        jsonrpc: "2.0".to_string(),
        method: "fs/read_text_file".to_string(),
        params: Some(Json::Object(vec![])),
        id: Some(number("1")),
    };
    match table.on_line(line, Some(as_reply), Some(call)) {
        Inbound::Notify(n) => {
            assert_eq!(n.method, "fs/read_text_file");
            assert!(matches!(n.id, Some(Json::Number(ref t)) if t == "1"));
        }
        _ => panic!("an agent call is not a reply"),
    }
    assert!(!table.is_idle());
    let (h, _) = delivered(table.on_line("{}", Some(reply(number("1"), Some(Json::Null))), None)).unwrap();
    assert_eq!(h, "waiting");
}

#[test]
fn reply_with_both_result_and_error_is_not_a_reply() {
    let mut table: PendingCalls<&'static str> = PendingCalls::new();
    table.begin_call("m", None, "waiting").ok().unwrap();
    let both = JsonRpcResponse {
        jsonrpc: "2.0".to_string(),
        id: number("1"),
        result: Some(Json::Null),
        error: Some(JsonRpcError { code: 1, message: "x".to_string(), data: None }),
    };
    assert!(matches!(table.on_line("{}", Some(both), None), Inbound::Malformed));
    assert!(!table.is_idle());
}

#[test]
fn white_space_is_the_unicode_set() {
    for c in ['\t', '\n', '\u{0b}', '\u{0c}', '\r', ' ', '\u{85}', '\u{a0}', '\u{2003}', '\u{3000}'] {
        assert!(is_white_space(c));
        assert_eq!(is_white_space(c), c.is_whitespace());
    }
    for c in ['a', '0', '\u{200b}', '\u{feff}', '_'] {
        assert!(!is_white_space(c));
        assert_eq!(is_white_space(c), c.is_whitespace());
    }
}
