use thalassa::bus::Event;
use thalassa::chat::Timestamp;
use thalassa::entity::Role;
use thalassa::gateway::{
    callback_project, enter_target, is_authorized, parse_i64, parse_whitelist, projects_reply,
    reply_chat_id, sender_from_text, trim_text, user_message, user_message_with, ActiveChats,
};
use thalassa::manager::agent_identity;

fn names(v: &[&str]) -> Vec<String> {
    v.iter().map(|s| s.to_string()).collect()
}

#[test]
fn whitelist_is_trimmed_and_skips_empty_names() {
    assert_eq!(parse_whitelist(" alice , bob,,carol "), names(&["alice", "bob", "carol"]));
    assert_eq!(parse_whitelist(""), Vec::<String>::new());
    assert_eq!(parse_whitelist(" , ,"), Vec::<String>::new());
    assert_eq!(parse_whitelist("solo"), names(&["solo"]));
}

#[test]
fn only_whitelisted_usernames_are_authorized() {
    let list = names(&["alice", "bob"]);
    assert!(is_authorized(&list, &Some("bob".to_string())));
    assert!(!is_authorized(&list, &Some("eve".to_string())));
    assert!(!is_authorized(&list, &None));
    assert!(is_authorized(&names(&[""]), &None));
}

#[test]
fn project_list_marks_the_active_project() {
    let projects = names(&["api", "web"]);
    assert_eq!(projects_reply(&projects, &None), "Projects:\n  api\n  web\n");
    assert_eq!(
        projects_reply(&projects, &Some("web".to_string())),
        "Projects (→ = active):\n  api\n→ web\n"
    );
    assert_eq!(projects_reply(&vec![], &None), "No projects found.");
}

#[test]
fn enter_arguments_and_callbacks() {
    assert_eq!(enter_target("  web "), Some("web".to_string()));
    assert_eq!(enter_target("   "), None);
    assert_eq!(callback_project("enter:web"), Some("web".to_string()));
    assert_eq!(callback_project("enter:"), Some(String::new()));
    assert_eq!(callback_project("leave:web"), None);
    assert_eq!(callback_project("ent"), None);
    assert_eq!(trim_text("\t a b \n"), "a b");
}

#[test]
fn signed_numbers_parse_like_std() {
    assert_eq!(parse_i64("42"), Some(42));
    assert_eq!(parse_i64("-42"), Some(-42));
    assert_eq!(parse_i64("+7"), Some(7));
    assert_eq!(parse_i64("007"), Some(7));
    assert_eq!(parse_i64("-9223372036854775808"), Some(i64::MIN));
    assert_eq!(parse_i64("9223372036854775807"), Some(i64::MAX));
    assert_eq!(parse_i64("9223372036854775808"), None);
    assert_eq!(parse_i64("-"), None);
    assert_eq!(parse_i64(""), None);
    assert_eq!(parse_i64("1x"), None);
}

#[test]
fn user_messages_carry_their_route() {
    let m = user_message_with(
        5,
        -100,
        &"web".to_string(),
        &"hello".to_string(),
        "id1".to_string(),
        Timestamp { millis: 3 },
    );
    assert_eq!(m.chat_id.as_deref(), Some("telegram-direct"));
    assert_eq!(m.sender.id, "5");
    assert_eq!(m.sender.name, "TelegramUser");
    assert_eq!(m.sender.role, Role::User);
    assert_eq!(m.content, "hello");
    assert_eq!(m.metadata.get("telegram_chat_id").map(|s| s.as_str()), Some("-100"));
    assert_eq!(m.metadata.get("project_name").map(|s| s.as_str()), Some("web"));
    let fresh = user_message(5, -100, &"web".to_string(), &"hi".to_string());
    assert_eq!(fresh.id.len(), 36);
    assert_eq!(fresh.sender.name, "TelegramUser");
    assert_eq!(fresh.metadata.entries().len(), 2);
}

#[test]
fn agent_replies_are_routed_to_their_chat() {
    let mut reply = user_message(5, -100, &"web".to_string(), &"hi".to_string());
    assert_eq!(reply_chat_id(&Event::ChatMessage(reply.clone())), None);
    reply.sender = agent_identity(&"web".to_string());
    assert_eq!(reply_chat_id(&Event::ChatMessage(reply.clone())), Some(-100));
    reply.metadata.insert("telegram_chat_id".to_string(), "abc".to_string());
    assert_eq!(reply_chat_id(&Event::ChatMessage(reply)), None);
    assert_eq!(reply_chat_id(&Event::ConfigChanged), None);
}

#[test]
fn active_chats_remember_the_entered_project() {
    let mut chats = ActiveChats::new();
    assert!(chats.get(1).is_none());
    chats.set_active_project(1, "web".to_string());
    chats.set_active_project(2, "api".to_string());
    chats.set_active_project(1, "docs".to_string());
    let c = chats.get(1).unwrap();
    assert_eq!(c.active_project, "docs");
    assert_eq!(c.agent_id.id, "agent-docs");
    assert_eq!(c.agent_id.name, "Agent (docs)");
    assert_eq!(chats.get(2).unwrap().active_project, "api");
}

#[test]
fn stored_senders_are_read_back() {
    let a = sender_from_text(&"Agent (web) (agent:web)".to_string());
    assert_eq!(a.role, Role::Agent);
    assert_eq!(a.id, "Agent (web) (agent:web)");
    let s = sender_from_text(&"System (system)".to_string());
    assert_eq!((s.id.as_str(), s.role), ("system", Role::System));
    let u = sender_from_text(&"Ann (telegram:1)".to_string());
    assert_eq!(u.role, Role::User);
}
