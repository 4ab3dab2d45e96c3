//! The conversation data model: roles, interaction levels and stored turns.

use vstd::prelude::*;

verus! {

/// Who produced a stored turn.
#[derive(Clone, Copy, Debug, PartialEq, Eq, Structural)]
pub enum Role {
    /// Text typed by the user.
    User,
    /// An answer of the general assistant.
    Assistant,
    /// The persona speaking, either as commentary or in direct dialogue.
    Persona,
    /// A reflective analysis of the conversation.
    Analyst,
}

/// The interaction mode that a turn was produced under.
#[derive(Clone, Copy, Debug, PartialEq, Eq, Structural)]
pub enum ConversationLevel {
    /// General assistant mode, with a short persona commentary after each answer.
    Default,
    /// The persona talks to the user directly.
    Dialogue,
    /// Reflective, analytical mode.
    Analysis,
}

impl Role {
    /// The name a role is stored under.
    pub open spec fn name_text(self) -> Seq<char> {
        match self {
            Role::User => "user"@,
            Role::Assistant => "assistant"@,
            Role::Persona => "persona"@,
            Role::Analyst => "analyst"@,
        }
    }

    /// The name a role is stored under.
    pub fn name(self) -> (r: &'static str)
        ensures
            r@ == self.name_text(),
    {
        match self {
            Role::User => "user",
            Role::Assistant => "assistant",
            Role::Persona => "persona",
            Role::Analyst => "analyst",
        }
    }
}

impl Role {
    /// The role that is stored under a name, if the name is that of a role.
    pub open spec fn named(name: Seq<char>) -> Option<Role> {
        if name == Role::User.name_text() {
            Some(Role::User)
        } else if name == Role::Assistant.name_text() {
            Some(Role::Assistant)
        } else if name == Role::Persona.name_text() {
            Some(Role::Persona)
        } else if name == Role::Analyst.name_text() {
            Some(Role::Analyst)
        } else {
            None
        }
    }

    /// Reads a role from the name it is stored under. A text that is not the
    /// name of a role gives nothing.
    pub fn from_name(name: &str) -> (r: Option<Role>)
        ensures
            r == Role::named(name@),
    {
        let given = name.to_owned();
        if given == Role::User.name().to_owned() {
            Some(Role::User)
        } else if given == Role::Assistant.name().to_owned() {
            Some(Role::Assistant)
        } else if given == Role::Persona.name().to_owned() {
            Some(Role::Persona)
        } else if given == Role::Analyst.name().to_owned() {
            Some(Role::Analyst)
        } else {
            None
        }
    }
}

/// A role is read back from the name it is stored under.
pub proof fn lemma_role_name_round_trip(role: Role)
    ensures
        Role::named(role.name_text()) == Some(role),
{
    reveal_strlit("user");
    reveal_strlit("assistant");
    reveal_strlit("persona");
    reveal_strlit("analyst");
    assert("user"@.len() == 4 && "assistant"@.len() == 9);
    assert("persona"@[0] == 'p' && "analyst"@[0] == 'a');
}

/// A level is read back from its code.
pub proof fn lemma_level_code_round_trip(level: ConversationLevel)
    ensures
        ConversationLevel::of_code(level.code_of()) == level,
{
}

impl ConversationLevel {
    /// The numeric code of a level: 0, 1 or 2.
    pub open spec fn code_of(self) -> u8 {
        match self {
            ConversationLevel::Default => 0u8,
            ConversationLevel::Dialogue => 1u8,
            ConversationLevel::Analysis => 2u8,
        }
    }

    /// The level that a numeric code selects; every code but 1 and 2 selects
    /// the default level.
    pub open spec fn of_code(code: u8) -> ConversationLevel {
        if code == 1 {
            ConversationLevel::Dialogue
        } else if code == 2 {
            ConversationLevel::Analysis
        } else {
            ConversationLevel::Default
        }
    }

    /// The numeric code of a level.
    pub fn code(self) -> (r: u8)
        ensures
            r == self.code_of(),
            r <= 2,
    {
        match self {
            ConversationLevel::Default => 0,
            ConversationLevel::Dialogue => 1,
            ConversationLevel::Analysis => 2,
        }
    }

    /// Selects a level by its numeric code.
    pub fn from_code(code: u8) -> (r: ConversationLevel)
        ensures
            r == ConversationLevel::of_code(code),
            code <= 2 ==> r.code_of() == code,
    {
        if code == 1 {
            ConversationLevel::Dialogue
        } else if code == 2 {
            ConversationLevel::Analysis
        } else {
            ConversationLevel::Default
        }
    }
}

/// What a stored turn holds, with each text as a sequence of characters.
pub struct ChatMessageView {
    pub timestamp: Seq<char>,
    pub role: Role,
    pub content: Seq<char>,
    pub level: ConversationLevel,
}

/// One stored turn of the conversation.
#[derive(Clone, Debug, PartialEq, Eq)]
pub struct ChatMessage {
    /// When the turn was recorded, as a sortable UTC timestamp.
    pub timestamp: String,
    pub role: Role,
    pub content: String,
    /// The level under which the turn was produced.
    pub level: ConversationLevel,
}

impl View for ChatMessage {
    type V = ChatMessageView;

    open spec fn view(&self) -> ChatMessageView {
        ChatMessageView {
            timestamp: self.timestamp@,
            role: self.role,
            content: self.content@,
            level: self.level,
        }
    }
}

/// The views of a sequence of stored turns, in the same order.
pub open spec fn message_views(messages: Seq<ChatMessage>) -> Seq<ChatMessageView> {
    messages.map_values(|m: ChatMessage| m@)
}

impl ChatMessage {
    /// A copy of this turn.
    pub fn duplicate(&self) -> (r: ChatMessage)
        ensures
            r@ == self@,
    {
        ChatMessage {
            timestamp: self.timestamp.clone(),
            role: self.role,
            content: self.content.clone(),
            level: self.level,
        }
    }
}

} // verus!
