//! The three requests that the engine sends: for the primary answer, for the
//! persona's commentary on it, and for the deep analysis.

use crate::completion::{
    entry_views, text_entry, ApiMessage, ApiRole, CompletionRequest, CompletionRequestView,
};
use crate::context::{assemble, assembled};
use crate::message::{message_views, ChatMessage, ChatMessageView, ConversationLevel};
use crate::text::text_of;
use vstd::prelude::*;

verus! {

/// The model that answers a message of the user and comments on the answer.
pub const CHAT_MODEL: &'static str = "gpt-4.1-2025-04-14";

/// The model that runs the deep analysis.
pub const ANALYSIS_MODEL: &'static str = "gpt-4o";

/// The cap on the length of a primary answer.
pub const ANSWER_MAX_TOKENS: u32 = 1000;

/// The cap on the length of a commentary.
pub const COMMENTARY_MAX_TOKENS: u32 = 500;

/// How many turns are read as context for a message of the user.
pub const CHAT_HISTORY_LIMIT: usize = 10;

/// How many turns are read for a deep analysis.
pub const ANALYSIS_HISTORY_LIMIT: usize = 50;

/// How many turns are read for display.
pub const DISPLAY_HISTORY_LIMIT: usize = 100;

/// One line of a transcript: the turn's role in brackets, then its content.
pub open spec fn transcript_line(turn: ChatMessageView) -> Seq<char> {
    "["@ + turn.role.name_text() + "]: "@ + turn.content
}

/// The transcript of a history: one line for each turn, oldest first, with
/// an empty line between two turns.
pub open spec fn transcript_of(history: Seq<ChatMessageView>) -> Seq<char>
    decreases history.len(),
{
    if history.len() == 0 {
        Seq::empty()
    } else if history.len() == 1 {
        transcript_line(history[0])
    } else {
        transcript_of(history.drop_last()) + "\n\n"@ + transcript_line(history.last())
    }
}

/// The request for the primary answer to a message of the user.
pub open spec fn primary_request_of(
    level: ConversationLevel,
    instruction: Seq<char>,
    history: Seq<ChatMessageView>,
    input: Seq<char>,
    image_url: Option<Seq<char>>,
) -> CompletionRequestView {
    CompletionRequestView {
        model: CHAT_MODEL@,
        messages: assembled(level, instruction, history, input, image_url),
        max_tokens: Some(ANSWER_MAX_TOKENS),
    }
}

/// The request for the persona's commentary on an answer.
pub open spec fn commentary_request_of(
    instruction: Seq<char>,
    answer: Seq<char>,
) -> CompletionRequestView {
    CompletionRequestView {
        model: CHAT_MODEL@,
        messages: seq![
            text_entry(ApiRole::System, instruction),
            text_entry(ApiRole::User, "Here is the AI response to comment on:\n\n"@ + answer),
        ],
        max_tokens: Some(COMMENTARY_MAX_TOKENS),
    }
}

/// The request for a deep analysis of a history.
pub open spec fn analysis_request_of(
    instruction: Seq<char>,
    history: Seq<ChatMessageView>,
) -> CompletionRequestView {
    CompletionRequestView {
        model: ANALYSIS_MODEL@,
        messages: seq![
            text_entry(ApiRole::System, instruction),
            text_entry(
                ApiRole::User,
                "Analyze this conversation history:\n\n"@ + transcript_of(history),
            ),
        ],
        max_tokens: None,
    }
}

/// Writes a history out as one text: a line for each turn, oldest first,
/// each with its role in front, and an empty line between two turns.
pub fn transcript(history: &Vec<ChatMessage>) -> (r: String)
    ensures
        r@ == transcript_of(message_views(history@)),
{
    let ghost turns = message_views(history@);
    let mut text = String::new();
    let mut i: usize = 0;
    assert(turns.take(0) =~= Seq::<ChatMessageView>::empty());
    while i < history.len()
        invariant
            i <= history.len(),
            turns == message_views(history@),
            text@ == transcript_of(turns.take(i as int)),
        decreases history.len() - i,
    {
        let turn = &history[i];
        let ghost before = text@;
        if i > 0 {
            text.append("\n\n");
        }
        text.append("[");
        text.append(turn.role.name());
        text.append("]: ");
        text.append(turn.content.as_str());
        proof {
            let longer = turns.take(i + 1);
            assert(longer.drop_last() =~= turns.take(i as int));
            assert(longer.last() == turn@);
            if i == 0 {
                assert(before =~= Seq::<char>::empty());
                assert(text@ =~= transcript_line(turn@));
            } else {
                assert(text@ =~= before + "\n\n"@ + transcript_line(turn@));
            }
        }
        i += 1;
    }
    assert(turns.take(history.len() as int) =~= turns);
    text
}

/// Builds the request for the primary answer: the assembled context, sent to
/// the chat model with the cap on answers.
pub fn primary_request(
    level: ConversationLevel,
    instruction: &str,
    history: &Vec<ChatMessage>,
    input: &str,
    image_url: Option<String>,
) -> (r: CompletionRequest)
    ensures
        r@ == primary_request_of(
            level,
            instruction@,
            message_views(history@),
            input@,
            text_of(image_url),
        ),
{
    CompletionRequest {
        model: String::from_str(CHAT_MODEL),
        messages: assemble(level, instruction, history, input, image_url),
        max_tokens: Some(ANSWER_MAX_TOKENS),
    }
}

fn two_entries(first: ApiMessage, second: ApiMessage) -> (r: Vec<ApiMessage>)
    ensures
        entry_views(r@) == seq![first@, second@],
{
    let mut entries: Vec<ApiMessage> = Vec::new();
    entries.push(first);
    entries.push(second);
    assert(entry_views(entries@) =~= seq![first@, second@]);
    entries
}

/// Builds the request for the persona's commentary: the commentary
/// instruction, then the answer to comment on.
pub fn commentary_request(instruction: &str, answer: &str) -> (r: CompletionRequest)
    ensures
        r@ == commentary_request_of(instruction@, answer@),
{
    let mut task = String::from_str("Here is the AI response to comment on:\n\n");
    task.append(answer);
    CompletionRequest {
        model: String::from_str(CHAT_MODEL),
        messages: two_entries(
            ApiMessage::text(ApiRole::System, String::from_str(instruction)),
            ApiMessage::text(ApiRole::User, task),
        ),
        max_tokens: Some(COMMENTARY_MAX_TOKENS),
    }
}

/// Builds the request for a deep analysis: the analysis instruction, then
/// the transcript of the history. The request sets no cap on the answer.
pub fn analysis_request(instruction: &str, history: &Vec<ChatMessage>) -> (r: CompletionRequest)
    ensures
        r@ == analysis_request_of(instruction@, message_views(history@)),
{
    let mut task = String::from_str("Analyze this conversation history:\n\n");
    let lines = transcript(history);
    task.append(lines.as_str());
    CompletionRequest {
        model: String::from_str(ANALYSIS_MODEL),
        messages: two_entries(
            ApiMessage::text(ApiRole::System, String::from_str(instruction)),
            ApiMessage::text(ApiRole::User, task),
        ),
        max_tokens: None,
    }
}

} // verus!
