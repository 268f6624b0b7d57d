use thalassa::bridge::{initialize_call, prompt_call, session_new_call};
use thalassa::acp::{ContentBlock, JsonRpcError, JsonRpcRequest, JsonRpcResponse, SessionPromptParams};
use thalassa::bridge::{
    extract_text_from_response, initialize_params, session_id_of, starts_turn, AgentSession, TurnStart,
};
use thalassa::bus::{Event, NotificationLevel};
use thalassa::chat::{ChatMessage, Timestamp};
use thalassa::client::ProtocolError;
use thalassa::entity::{EntityId, Role};
use thalassa::json::Json;
use thalassa::manager::agent_identity;
use thalassa::table::Metadata;

fn object(members: Vec<(&str, Json)>) -> Json {
    Json::Object(members.into_iter().map(|(k, v)| (k.to_string(), v)).collect())
}

fn text(s: &str) -> Json {
    Json::Str(s.to_string())
}

fn chunk(t: &str) -> JsonRpcRequest {
    let params = object(vec![(
        "update",
        object(vec![
            ("sessionUpdate", text("agent_message_chunk")),
            ("content", object(vec![("type", text("text")), ("text", text(t))])),
        ]),
    )]);
    JsonRpcRequest::notification("session/update", Some(params))
}

fn ok_reply() -> Result<JsonRpcResponse, ProtocolError> {
    Ok(JsonRpcResponse {
        jsonrpc: "2.0".to_string(),
        id: Json::Number("3".to_string()),
        result: Some(object(vec![("stopReason", text("end_turn"))])),
        error: None,
    })
}

fn metadata(project: &str) -> Metadata {
    let mut m = Metadata::new();
    m.insert("telegram_chat_id".to_string(), "42".to_string());
    m.insert("project_name".to_string(), project.to_string());
    m
}

fn user_message(content: &str, project: &str) -> ChatMessage {
    ChatMessage {
        id: "m1".to_string(),
        chat_id: Some("telegram-direct".to_string()),
        sender: EntityId::new("7".to_string(), "TelegramUser".to_string(), Role::User),
        content: content.to_string(),
        timestamp: Timestamp { millis: 0 },
        metadata: metadata(project),
    }
}

fn ready_bridge(project: &str) -> AgentSession {
    let mut b = AgentSession::new(project.to_string(), agent_identity(&project.to_string()));
    b.session_created(Ok("sess-1".to_string()));
    b
}

fn reply_content(e: Option<Event>) -> Option<String> {
    match e {
        Some(Event::ChatMessage(m)) => Some(m.content),
        _ => None,
    }
}

fn error_notice(e: &Option<Event>) -> Option<String> {
    match e {
        Some(Event::SystemNotification { level: NotificationLevel::Error, message, target: None }) => {
            Some(message.clone())
        }
        _ => None,
    }
}

#[test]
fn reply_is_prefixed_with_the_project() {
    let mut b = ready_bridge("foo");
    let msg = user_message("hi", "foo");
    assert!(matches!(b.begin_turn(&msg), TurnStart::Prompt(_)));
    b.on_notification(&chunk("\nhello"));
    let out = b.finish_turn_with(ok_reply(), &msg.metadata, "r1".to_string(), Timestamp { millis: 5 });
    match out {
        Some(Event::ChatMessage(m)) => {
            assert_eq!(m.content, "[foo]\nhello");
            assert_eq!(m.id, "r1");
            assert_eq!(m.timestamp, Timestamp { millis: 5 });
            assert!(m.chat_id.is_none());
            assert_eq!(m.sender.id, "agent-foo");
            assert_eq!(m.sender.role, Role::Agent);
            assert_eq!(m.metadata.get("telegram_chat_id").map(|s| s.as_str()), Some("42"));
        }
        _ => panic!("expected a reply"),
    }
}

#[test]
fn one_leading_newline_is_stripped_and_chunks_keep_their_order() {
    let mut b = ready_bridge("foo");
    let msg = user_message("hi", "foo");
    b.begin_turn(&msg);
    b.on_notification(&chunk("\n\nab"));
    b.on_notification(&chunk("c\n"));
    b.on_notification(&chunk("d"));
    let out = b.finish_turn(ok_reply(), &msg.metadata);
    assert_eq!(reply_content(out).unwrap(), "[foo]\n\nabc\nd");
}

#[test]
fn project_label_falls_back_to_unknown() {
    let mut b = ready_bridge("foo");
    let mut msg = user_message("hi", "foo");
    msg.metadata = Metadata::new();
    b.begin_turn(&msg);
    b.on_notification(&chunk("x"));
    let out = b.finish_turn(ok_reply(), &msg.metadata);
    assert_eq!(reply_content(out).unwrap(), "[unknown]\nx");
}

#[test]
fn empty_turn_publishes_nothing() {
    let mut b = ready_bridge("foo");
    let msg = user_message("hi", "foo");
    b.begin_turn(&msg);
    let note = JsonRpcRequest::notification("session/update", Some(object(vec![(
        "update",
        object(vec![("sessionUpdate", text("tool_call")), ("content", object(vec![("text", text("zzz"))]))]),
    )])));
    b.on_notification(&note);
    assert!(b.finish_turn(ok_reply(), &msg.metadata).is_none());
}

#[test]
fn second_turn_does_not_see_the_first() {
    let mut b = ready_bridge("foo");
    let first = user_message("one", "foo");
    b.begin_turn(&first);
    b.on_notification(&chunk("first answer"));
    let second = user_message("two", "foo");
    b.begin_turn(&second);
    b.on_notification(&chunk("second answer"));
    let out = b.finish_turn(ok_reply(), &second.metadata);
    assert_eq!(reply_content(out).unwrap(), "[foo]\nsecond answer");
    b.begin_turn(&first);
    assert!(b.finish_turn(ok_reply(), &first.metadata).is_none());
}

#[test]
fn turn_without_session_reports_once_and_sends_nothing() {
    let mut b = AgentSession::new("foo".to_string(), agent_identity(&"foo".to_string()));
    b.session_created(Err(ProtocolError::MissingSessionId));
    match b.begin_turn(&user_message("hi", "foo")) {
        TurnStart::NotReady(e) => {
            assert_eq!(error_notice(&Some(e)).unwrap(), "Agent session not ready");
        }
        TurnStart::Prompt(_) => panic!("no prompt may be sent"),
    }
}

#[test]
fn prompt_carries_the_session_and_the_message() {
    let mut b = ready_bridge("foo");
    match b.begin_turn(&user_message("what now?", "foo")) {
        TurnStart::Prompt(SessionPromptParams { sessionId, prompt }) => {
            assert_eq!(sessionId, "sess-1");
            assert_eq!(prompt.len(), 1);
            let ContentBlock::Text { text } = &prompt[0];
            assert_eq!(text, "what now?");
        }
        TurnStart::NotReady(_) => panic!("the session is ready"),
    }
}

#[test]
fn failed_prompt_becomes_an_error_notification() {
    let mut b = ready_bridge("foo");
    let msg = user_message("hi", "foo");
    b.begin_turn(&msg);
    let out = b.finish_turn(Err(ProtocolError::ConnectionClosed), &msg.metadata);
    assert_eq!(error_notice(&out).unwrap(), "Agent failed to reply: connection closed");
    let failed = Ok(JsonRpcResponse {
        jsonrpc: "2.0".to_string(),
        id: Json::Number("3".to_string()),
        result: None,
        error: Some(JsonRpcError { code: 7, message: "no".to_string(), data: None }),
    });
    let out = b.finish_turn(failed, &msg.metadata);
    assert_eq!(error_notice(&out).unwrap(), "Agent failed to reply: call failed: no (7)");
}

#[test]
fn session_id_is_read_from_either_form() {
    let with_field = JsonRpcResponse {
        jsonrpc: "2.0".to_string(),
        id: Json::Number("2".to_string()),
        result: Some(object(vec![("sessionId", text("abc"))])),
        error: None,
    };
    assert_eq!(session_id_of(with_field).ok().unwrap(), "abc");
    let bare = JsonRpcResponse {
        jsonrpc: "2.0".to_string(),
        id: Json::Number("2".to_string()),
        result: Some(text("xyz")),
        error: None,
    };
    assert_eq!(session_id_of(bare).ok().unwrap(), "xyz");
    let missing = JsonRpcResponse {
        jsonrpc: "2.0".to_string(),
        id: Json::Number("2".to_string()),
        result: Some(object(vec![("sessionId", Json::Number("1".to_string()))])),
        error: None,
    };
    assert!(matches!(session_id_of(missing), Err(ProtocolError::MissingSessionId)));
    let none = JsonRpcResponse { jsonrpc: "2.0".to_string(), id: Json::Null, result: None, error: None };
    assert!(matches!(session_id_of(none), Err(ProtocolError::NoResult)));
}

#[test]
fn only_user_messages_start_turns() {
    let user = Event::ChatMessage(user_message("hi", "foo"));
    assert!(starts_turn(&user));
    let mut from_agent = user_message("hi", "foo");
    from_agent.sender = agent_identity(&"foo".to_string());
    assert!(!starts_turn(&Event::ChatMessage(from_agent)));
    assert!(!starts_turn(&Event::ConfigChanged));
}

#[test]
fn bridge_session_id_is_fresh() {
    let a = AgentSession::new("p".to_string(), agent_identity(&"p".to_string()));
    let b = AgentSession::new("p".to_string(), agent_identity(&"p".to_string()));
    assert!(a.session_id().starts_with("ses_"));
    assert_eq!(a.session_id().len(), 36);
    assert_ne!(a.session_id(), b.session_id());
    match a.started_notification() {
        Event::SystemNotification { level: NotificationLevel::Success, message, target: None } => {
            assert_eq!(message, format!("Agent session {} started for p", a.session_id()));
        }
        _ => panic!("expected a success notification"),
    }
}

#[test]
fn reply_text_follows_the_first_strategy_that_fits() {
    let mk = |result: Option<Json>| JsonRpcResponse {
        jsonrpc: "2.0".to_string(),
        id: Json::Number("1".to_string()),
        result,
        error: None,
    };
    let content = object(vec![
        ("content", Json::Array(vec![object(vec![("text", text("from content"))])])),
        ("text", text("from text")),
    ]);
    assert_eq!(extract_text_from_response(&mk(Some(content))), "from content");
    let message = object(vec![
        ("message", object(vec![("content", text("from message"))])),
        ("text", text("from text")),
    ]);
    assert_eq!(extract_text_from_response(&mk(Some(message))), "from message");
    let plain = object(vec![("content", Json::Array(vec![])), ("text", text("from text"))]);
    assert_eq!(extract_text_from_response(&mk(Some(plain))), "from text");
    assert_eq!(extract_text_from_response(&mk(Some(text("bare")))), "bare");
    assert_eq!(extract_text_from_response(&mk(Some(Json::Bool(true)))), "");
    assert_eq!(extract_text_from_response(&mk(None)), "");
}

#[test]
fn initialize_describes_the_client() {
    let p = initialize_params();
    assert_eq!(p.protocolVersion, 1);
    assert_eq!(p.clientInfo.name, "Thalassa");
    assert_eq!(p.clientInfo.title.as_deref(), Some("Thalassa Orchestrator"));
    let j = p.to_json();
    let keys: Vec<String> = match &j {
        Json::Object(ms) => ms.iter().map(|(k, _)| k.clone()).collect(),
        _ => vec![],
    };
    assert_eq!(keys, vec!["protocolVersion", "clientCapabilities", "clientInfo"]);
    assert!(matches!(j.get("protocolVersion"), Some(Json::Number(t)) if t == "1"));
    let caps = j.get("clientCapabilities").unwrap();
    assert!(matches!(caps.get("terminal"), Some(Json::Bool(true))));
    assert!(matches!(caps.get("fs").unwrap().get("writeTextFile"), Some(Json::Bool(true))));
}

#[test]
fn calls_name_their_methods() {
    let init = initialize_call(&initialize_params());
    assert_eq!(init.method, "initialize");
    assert!(matches!(init.params.get("protocolVersion"), Some(Json::Number(t)) if t == "1"));
    let b = ready_bridge("web");
    let new = session_new_call(&b.new_session_params());
    assert_eq!(new.method, "session/new");
    assert!(matches!(new.params.get("cwd"), Some(Json::Str(t)) if t == "/home/devuser/projects/web"));
    let params = SessionPromptParams {
        sessionId: "s".to_string(),
        prompt: vec![ContentBlock::Text { text: "t".to_string() }],
    };
    let prompt = prompt_call(&params);
    assert_eq!(prompt.method, "session/prompt");
    assert!(matches!(prompt.params.get("sessionId"), Some(Json::Str(t)) if t == "s"));
}

#[test]
fn many_notifications_without_chunks_publish_nothing() {
    let mut b = ready_bridge("foo");
    b.on_notification(&chunk("left over"));
    let msg = user_message("hi", "foo");
    b.begin_turn(&msg);
    for method in ["session/update", "session/other", "fs/read_text_file"] {
        b.on_notification(&JsonRpcRequest::notification(method, Some(object(vec![("update", text("x"))]))));
    }
    assert!(b.finish_turn(ok_reply(), &msg.metadata).is_none());
    b.begin_turn(&msg);
    b.on_notification(&chunk("fresh"));
    let out = b.finish_turn(ok_reply(), &msg.metadata);
    match out {
        Some(Event::ChatMessage(m)) => {
            assert_eq!(m.content, "[foo]\nfresh");
            assert_eq!(m.sender.id, "agent-foo");
        }
        _ => panic!("expected a reply"),
    }
}
