use thalassa::manager::{claim_start, BridgeSlot};
use thalassa::acp::{
    ContentBlock, EnvVariable, HttpHeader, McpServer, SessionNewParams, SessionPromptParams,
};
use thalassa::bridge::AgentSession;
use thalassa::chat::{new_message_id, ChatSession};
use thalassa::entity::{AgentEntity, Entity, EntityId, Role, TelegramUser};
use thalassa::json::Json;
use thalassa::manager::{agent_identity, Scheduler};
use thalassa::table::{Metadata, NameTable};
use thalassa::text::{i64_text, same_text, trim_leading_newline, u64_text};

fn keys(j: &Json) -> Vec<String> {
    match j {
        Json::Object(ms) => ms.iter().map(|(k, _)| k.clone()).collect(),
        _ => vec![],
    }
}

#[test]
fn entity_ids_by_kind() {
    let s = Entity::System.id();
    assert_eq!((s.id.as_str(), s.name.as_str(), s.role), ("system", "System", Role::System));
    let u = Entity::User(TelegramUser { id: -12, username: None, first_name: "Ann".to_string() }).id();
    assert_eq!((u.id.as_str(), u.name.as_str(), u.role), ("telegram:-12", "Ann", Role::User));
    let named = Entity::User(TelegramUser {
        id: 99,
        username: Some("ann_b".to_string()),
        first_name: "Ann".to_string(),
    })
    .id();
    assert_eq!((named.id.as_str(), named.name.as_str()), ("telegram:99", "ann_b"));
    let a = Entity::Agent(AgentEntity { project_name: "web".to_string() }).id();
    assert_eq!((a.id.as_str(), a.name.as_str(), a.role), ("agent:web", "Agent (web)", Role::Agent));
    assert_eq!(EntityId::system().to_string(), "System (system)");
    assert_eq!(EntityId::system(), EntityId::new("system".to_string(), "System".to_string(), Role::System));
}

#[test]
fn agent_identity_names_the_project() {
    let a = agent_identity(&"web".to_string());
    assert_eq!((a.id.as_str(), a.name.as_str(), a.role), ("agent-web", "Mothership Agent", Role::Agent));
    let b = AgentSession::new("web".to_string(), a);
    assert_eq!(b.project_name(), "web");
    let _ = Scheduler::new();
}

#[test]
fn name_table_keeps_one_value_per_name() {
    let mut t: NameTable<u32> = NameTable::new();
    assert!(t.get("a").is_none());
    t.insert("a".to_string(), 1);
    t.insert("b".to_string(), 2);
    t.insert("a".to_string(), 3);
    assert_eq!(t.get("a"), Some(&3));
    assert_eq!(t.get("b"), Some(&2));
    assert!(t.contains_key("b"));
    assert!(!t.contains_key("c"));
    assert_eq!(t.entries().len(), 2);
    let mut m = Metadata::new();
    m.insert("k".to_string(), "v".to_string());
    let c = m.copy();
    assert_eq!(c.get("k").map(|s| s.as_str()), Some("v"));
}

#[test]
fn json_lookup_and_strings() {
    let j = Json::Object(vec![
        ("a".to_string(), Json::Str("x".to_string())),
        ("b".to_string(), Json::Bool(false)),
    ]);
    assert!(matches!(j.get("a").and_then(|v| v.as_str()), Some(s) if s == "x"));
    assert!(j.get("b").unwrap().as_str().is_none());
    assert!(j.get("c").is_none());
    assert!(Json::Null.get("a").is_none());
}

#[test]
fn text_helpers() {
    assert_eq!(trim_leading_newline("\n\nab\n"), "\nab\n");
    assert_eq!(trim_leading_newline("\nab"), "ab");
    assert_eq!(trim_leading_newline("ab"), "ab");
    assert_eq!(trim_leading_newline("\n"), "");
    assert!(same_text(&"abc".to_string(), "abc"));
    assert!(!same_text(&"abc".to_string(), "abd"));
}

#[test]
fn prompt_params_json() {
    let p = SessionPromptParams {
        sessionId: "s1".to_string(),
        prompt: vec![ContentBlock::Text { text: "hello".to_string() }],
    };
    let j = p.to_json();
    assert_eq!(keys(&j), vec!["sessionId", "prompt"]);
    match j.get("prompt") {
        Some(Json::Array(items)) => {
            assert_eq!(items.len(), 1);
            assert_eq!(keys(&items[0]), vec!["type", "text"]);
            assert!(matches!(items[0].get("type"), Some(Json::Str(t)) if t == "text"));
            assert!(matches!(items[0].get("text"), Some(Json::Str(t)) if t == "hello"));
        }
        _ => panic!("expected an array"),
    }
}

#[test]
fn session_new_params_json() {
    let b = AgentSession::new("web".to_string(), agent_identity(&"web".to_string()));
    let p = b.new_session_params();
    assert_eq!(p.cwd, "/home/devuser/projects/web");
    let j = p.to_json();
    assert_eq!(keys(&j), vec!["cwd", "mcpServers"]);
    assert!(matches!(j.get("mcpServers"), Some(Json::Array(a)) if a.is_empty()));
    let servers = SessionNewParams {
        cwd: "/w".to_string(),
        mcpServers: vec![
            McpServer::Stdio {
                name: "fs".to_string(),
                command: "run".to_string(),
                args: vec!["-x".to_string()],
                env: vec![],
            },
            McpServer::Stdio {
                name: "fs2".to_string(),
                command: "run".to_string(),
                args: vec![],
                env: vec![EnvVariable { name: "K".to_string(), value: "V".to_string() }],
            },
            McpServer::Http {
                transport_type: "http".to_string(),
                name: "web".to_string(),
                url: "http://x".to_string(),
                headers: vec![HttpHeader { name: "A".to_string(), value: "B".to_string() }],
            },
        ],
    };
    match servers.to_json().get("mcpServers") {
        Some(Json::Array(items)) => {
            assert_eq!(keys(&items[0]), vec!["name", "command", "args"]);
            assert_eq!(keys(&items[1]), vec!["name", "command", "args", "env"]);
            assert_eq!(keys(&items[2]), vec!["type", "name", "url", "headers"]);
            assert!(matches!(items[2].get("type"), Some(Json::Str(t)) if t == "http"));
        }
        _ => panic!("expected an array"),
    }
}

#[test]
fn chat_sessions_and_message_ids() {
    let a = EntityId::system();
    let b = agent_identity(&"p".to_string());
    let s = ChatSession::new("c1".to_string(), a, b);
    assert_eq!(s.id, "c1");
    assert_eq!(s.created_at, s.last_active_at);
    assert!(s.created_at.millis > 0);
    let id = new_message_id();
    assert_eq!(id.len(), 36);
    assert_eq!(id.matches('-').count(), 4);
    assert_ne!(id, new_message_id());
}

#[test]
fn one_bridge_start_per_project() {
    let mut sessions: NameTable<BridgeSlot<u8>> = NameTable::new();
    let web = "web".to_string();
    assert!(claim_start(&mut sessions, &web));
    assert!(!claim_start(&mut sessions, &web));
    sessions.insert(web.clone(), BridgeSlot::Failed);
    assert!(claim_start(&mut sessions, &web));
    sessions.insert(web.clone(), BridgeSlot::Running(1));
    assert!(!claim_start(&mut sessions, &web));
    assert!(claim_start(&mut sessions, &"api".to_string()));
}

#[test]
fn numbers_are_written_like_display() {
    for n in [0u64, 9, 10, 4096, u64::MAX] {
        assert_eq!(u64_text(n), n.to_string());
    }
    for n in [0i64, -1, 42, -4096, i64::MIN, i64::MAX] {
        assert_eq!(i64_text(n), n.to_string());
    }
}
