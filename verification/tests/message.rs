use conversation_engine::message::{ChatMessage, ConversationLevel, Role};

#[test]
fn role_names() {
    assert_eq!(Role::User.name(), "user");
    assert_eq!(Role::Assistant.name(), "assistant");
    assert_eq!(Role::Persona.name(), "persona");
    assert_eq!(Role::Analyst.name(), "analyst");
}

#[test]
fn roles_are_read_back_from_their_names() {
    for role in [Role::User, Role::Assistant, Role::Persona, Role::Analyst] {
        assert_eq!(Role::from_name(role.name()), Some(role));
    }
}

#[test]
fn other_names_are_no_role() {
    for name in ["", "system", "User", "user ", "assistant\n", "personas", "analys"] {
        assert_eq!(Role::from_name(name), None, "{:?}", name);
    }
}

#[test]
fn level_codes() {
    assert_eq!(ConversationLevel::Default.code(), 0);
    assert_eq!(ConversationLevel::Dialogue.code(), 1);
    assert_eq!(ConversationLevel::Analysis.code(), 2);
    assert_eq!(ConversationLevel::from_code(0), ConversationLevel::Default);
    assert_eq!(ConversationLevel::from_code(1), ConversationLevel::Dialogue);
    assert_eq!(ConversationLevel::from_code(2), ConversationLevel::Analysis);
}

#[test]
fn unknown_level_code_selects_the_default_level() {
    for code in [3u8, 4, 17, 255] {
        assert_eq!(ConversationLevel::from_code(code), ConversationLevel::Default);
    }
}

#[test]
fn duplicate_copies_every_field() {
    let turn = ChatMessage {
        timestamp: "2024-02-02T02:02:02+00:00".to_string(),
        role: Role::Analyst,
        content: "a note".to_string(),
        level: ConversationLevel::Analysis,
    };
    assert_eq!(turn.duplicate(), turn);
}
