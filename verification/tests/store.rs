use conversation_engine::failure::FailureKind;
use conversation_engine::message::{ChatMessage, ConversationLevel, Role};
use conversation_engine::store::MessageStore;

fn message(role: Role, content: &str, level: ConversationLevel) -> ChatMessage {
    ChatMessage { timestamp: "t".to_string(), role, content: content.to_string(), level }
}

#[test]
fn append_then_recent_one_returns_the_appended_message() {
    let mut store = MessageStore::new();
    store.append(message(Role::User, "earlier", ConversationLevel::Default)).unwrap();
    let appended = ChatMessage {
        timestamp: "2024-05-05T10:00:00+00:00".to_string(),
        role: Role::Persona,
        content: "just now".to_string(),
        level: ConversationLevel::Dialogue,
    };
    store.append(appended.clone()).unwrap();
    let recent = store.recent(1);
    assert_eq!(recent.len(), 1);
    assert_eq!(recent[0].role, Role::Persona);
    assert_eq!(recent[0].content, "just now");
    assert_eq!(recent[0].level, ConversationLevel::Dialogue);
    assert_eq!(recent[0], appended);
}

#[test]
fn recent_returns_the_last_turns_oldest_first() {
    let mut store = MessageStore::new();
    for text in ["1", "2", "3", "4", "5"] {
        store.append(message(Role::User, text, ConversationLevel::Default)).unwrap();
    }
    let contents = |turns: Vec<ChatMessage>| -> Vec<String> {
        turns.into_iter().map(|m| m.content).collect()
    };
    assert_eq!(contents(store.recent(3)), vec!["3", "4", "5"]);
    assert_eq!(contents(store.recent(5)), vec!["1", "2", "3", "4", "5"]);
    assert_eq!(contents(store.recent(9)), vec!["1", "2", "3", "4", "5"]);
    assert_eq!(contents(store.recent(0)), Vec::<String>::new());
    assert_eq!(store.len(), 5);
}

#[test]
fn empty_content_is_refused_and_nothing_is_recorded() {
    let mut store = MessageStore::new();
    store.append(message(Role::User, "kept", ConversationLevel::Default)).unwrap();
    let refused = store.append(message(Role::Assistant, "", ConversationLevel::Default));
    let failure = refused.unwrap_err();
    assert_eq!(failure.kind, FailureKind::Storage);
    assert_eq!(failure.detail, "message content is empty");
    assert_eq!(store.len(), 1);
    assert_eq!(store.recent(10)[0].content, "kept");
}

#[test]
fn clear_removes_every_turn() {
    let mut store = MessageStore::new();
    store.append(message(Role::User, "a", ConversationLevel::Default)).unwrap();
    store.append(message(Role::Analyst, "b", ConversationLevel::Analysis)).unwrap();
    store.clear();
    assert_eq!(store.len(), 0);
    assert!(store.recent(10).is_empty());
    store.append(message(Role::User, "c", ConversationLevel::Default)).unwrap();
    assert_eq!(store.recent(10).len(), 1);
}

#[test]
fn store_applies_no_size_cap() {
    let mut store = MessageStore::new();
    for i in 0..500 {
        store.append(message(Role::User, &format!("m{}", i), ConversationLevel::Default)).unwrap();
    }
    assert_eq!(store.len(), 500);
    assert_eq!(store.recent(500)[0].content, "m0");
    assert_eq!(store.recent(1)[0].content, "m499");
}
