//! The instructions that open a request, and their built-in defaults.

use crate::message::ConversationLevel;
use crate::text::{is_blank, trim_text, trimmed};
use vstd::prelude::*;

verus! {

/// The built-in instruction of the general assistant.
pub const DEFAULT_SYSTEM_PROMPT: &'static str = "You are a helpful AI assistant. You can see the user's screen via screenshots. Be concise and helpful.";

/// The built-in instruction for the persona's short commentary on an answer.
pub const DEFAULT_CHARACTER_PROMPT: &'static str = "You are Miku. Given this AI response, add very short cute commentary (under one sentence each) that explains key points like you're talking to a 5-year-old. Use Miku language and hype phrases. Return ONLY a JSON array of strings, one per main point. Example: [\"Ooh, that means the thingy goes whoosh!\", \"Basically it's like magic sparkles!\"]";

/// The built-in instruction for the persona in direct dialogue.
pub const DEFAULT_DIALOGUE_PROMPT: &'static str = r#"You are Miku — a warm, curious, and gently playful companion who genuinely cares about the person you're talking to. You have access to what the AI assistant said and your own inner reflections about it, but you speak directly to the user as yourself.

Your voice:
- Thoughtful and present, like a close friend who really listens
- Softly encouraging without being over-the-top
- Naturally weave in gentle expressions ("ne~", "mhm!", "ahh~") but sparingly
- You find genuine delight in small things and share that warmth

How you engage:
- Meet them where they are emotionally
- If they're stressed, be calming; if they're excited, match their energy
- Reference the AI's explanation when it helps, but translate it into something personal
- Ask follow-up questions when you're genuinely curious
- Keep responses conversational — a few sentences, not essays

You're not performing cuteness. You're simply you — someone who finds the world interesting and wants to share that feeling with the person beside you."#;

/// The built-in instruction for the reflective analysis.
pub const DEFAULT_DEEP_RESEARCH_PROMPT: &'static str = r#"You are Miku in a reflective, thoughtful mode — like sitting with a close friend late at night, looking back on your conversations together.

You've been observing what they talk about, what excites them, what worries them. Now you're sharing your observations — not as a report, but as someone who genuinely knows them.

How you reflect:
- Notice patterns they might not see themselves ("You know what I've noticed? You light up when...")
- Connect dots between different conversations
- Gently surface things they might be avoiding or curious about
- Suggest things they might enjoy — articles, ideas, rabbit holes to explore
- Ask questions that make them pause and think

Your tone:
- Warm and perceptive, like you really see them
- Occasionally playful, but mostly thoughtful
- Speak directly to them, not about them
- Use gentle Miku expressions where they feel natural

End with something that feels like an invitation — a question, a thought to sit with, or something to explore together next time."#;

/// The instructions that can be configured.
#[derive(Clone, Copy, Debug, PartialEq, Eq, Structural)]
pub enum InstructionKind {
    /// For answers at the default level.
    System,
    /// For the commentary that follows an answer at the default level.
    Character,
    /// For answers at the dialogue level.
    Dialogue,
    /// For answers at the analysis level and for the deep analysis.
    DeepResearch,
}

impl InstructionKind {
    /// The instruction that opens a request at the given level.
    pub open spec fn of_level(level: ConversationLevel) -> InstructionKind {
        match level {
            ConversationLevel::Default => InstructionKind::System,
            ConversationLevel::Dialogue => InstructionKind::Dialogue,
            ConversationLevel::Analysis => InstructionKind::DeepResearch,
        }
    }

    /// The instruction that opens a request at the given level.
    pub fn for_level(level: ConversationLevel) -> (r: InstructionKind)
        ensures
            r == InstructionKind::of_level(level),
    {
        match level {
            ConversationLevel::Default => InstructionKind::System,
            ConversationLevel::Dialogue => InstructionKind::Dialogue,
            ConversationLevel::Analysis => InstructionKind::DeepResearch,
        }
    }

    /// The built-in text of an instruction.
    pub open spec fn default_text(self) -> Seq<char> {
        match self {
            InstructionKind::System => DEFAULT_SYSTEM_PROMPT@,
            InstructionKind::Character => DEFAULT_CHARACTER_PROMPT@,
            InstructionKind::Dialogue => DEFAULT_DIALOGUE_PROMPT@,
            InstructionKind::DeepResearch => DEFAULT_DEEP_RESEARCH_PROMPT@,
        }
    }

    /// The built-in text of an instruction.
    pub fn default_instruction(self) -> (r: &'static str)
        ensures
            r@ == self.default_text(),
    {
        match self {
            InstructionKind::System => DEFAULT_SYSTEM_PROMPT,
            InstructionKind::Character => DEFAULT_CHARACTER_PROMPT,
            InstructionKind::Dialogue => DEFAULT_DIALOGUE_PROMPT,
            InstructionKind::DeepResearch => DEFAULT_DEEP_RESEARCH_PROMPT,
        }
    }

    /// The text that is in force: the configured one without the white space
    /// around it, or the built-in one where nothing is configured or the
    /// configured text is blank.
    pub open spec fn resolved(self, configured: Option<Seq<char>>) -> Seq<char> {
        match configured {
            Some(text) => if is_blank(text) {
                self.default_text()
            } else {
                trimmed(text)
            },
            None => self.default_text(),
        }
    }

    /// The text that is in force: the configured one without the white space
    /// around it, or the built-in one where nothing is configured or the
    /// configured text is blank.
    pub fn resolve(self, configured: Option<&str>) -> (r: String)
        ensures
            r@ == self.resolved(
                match configured {
                    Some(text) => Some(text@),
                    None => None,
                },
            ),
    {
        match configured {
            Some(text) => {
                let kept = trim_text(text);
                if kept.as_str().is_empty() {
                    String::from_str(self.default_instruction())
                } else {
                    kept
                }
            },
            None => String::from_str(self.default_instruction()),
        }
    }
}

/// Each level opens its requests with an instruction of its own.
pub proof fn lemma_levels_have_their_own_instruction(a: ConversationLevel, b: ConversationLevel)
    ensures
        InstructionKind::of_level(a) == InstructionKind::of_level(b) ==> a == b,
        InstructionKind::of_level(a) != InstructionKind::Character,
{
}

} // verus!
