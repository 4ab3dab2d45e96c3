//! The orchestrator: one operation of the engine as a state machine.
//!
//! A session decides; it performs nothing. Each step takes the event that
//! reports how the last effect went and answers with the next effect to
//! perform: reading a stored text, taking a screenshot, reading the history,
//! sending a request, recording turns, stamping the cooldown, or finishing
//! with an outcome. Whoever embeds the engine performs the effects, in the
//! order in which they are asked for, and hands the events back.

use crate::clock::Moment;
use crate::completion::{
    interpret, interpreted, CompletionReply, CompletionReplyView, CompletionRequest,
    CompletionRequestView,
};
use crate::cooldown::{state_of, stamp_text, status_at, CooldownState, COOLDOWN_SECONDS};
use crate::encoding::{encodable, png_data_url_text, try_png_data_url};
use crate::failure::{Failure, FailureKind, FailureView, Operation};
use crate::instruction::InstructionKind;
use crate::message::{message_views, ChatMessage, ChatMessageView, ConversationLevel, Role};
use crate::numeral::{decimal_digits, lemma_numeral_round_trip};
use crate::request::{
    analysis_request, analysis_request_of, commentary_request, commentary_request_of,
    primary_request, primary_request_of, ANALYSIS_HISTORY_LIMIT, CHAT_HISTORY_LIMIT,
};
use crate::text::{fetched_view, text_of, trim_text, trimmed, written_view};
use vstd::prelude::*;

verus! {

/// What a session is waiting for.
#[derive(Clone, Copy, Debug, PartialEq, Eq, Structural)]
pub enum Phase {
    /// The stored cooldown stamp and the time.
    Cooldown,
    /// The credential for the completion service.
    Credential,
    /// The instruction that opens the request.
    Instruction,
    /// The screenshot to attach.
    Screenshot,
    /// The recent history.
    History,
    /// The reply to the primary request.
    Answer,
    /// The recording of the turns that the primary answer gave.
    AnswerStored,
    /// The instruction for the commentary.
    CommentaryInstruction,
    /// The reply to the commentary request.
    Commentary,
    /// The recording of the commentary.
    CommentaryStored,
    /// The writing of the cooldown stamp.
    Stamp,
    /// Nothing: the session has finished.
    Done,
}

/// What the engine answers to a message of the user.
pub struct ChatResponseView {
    pub main_response: Seq<char>,
    pub character_comments: Option<Seq<Seq<char>>>,
}

/// What the engine answers to a message of the user: the answer, and the
/// persona's commentary on it where there is one, as a single item.
#[derive(Clone, Debug, PartialEq, Eq)]
pub struct ChatResponse {
    pub main_response: String,
    pub character_comments: Option<Vec<String>>,
}

/// The characters of each text of a list.
pub open spec fn text_views(texts: Seq<String>) -> Seq<Seq<char>> {
    texts.map_values(|text: String| text@)
}

impl View for ChatResponse {
    type V = ChatResponseView;

    open spec fn view(&self) -> ChatResponseView {
        ChatResponseView {
            main_response: self.main_response@,
            character_comments: match self.character_comments {
                Some(comments) => Some(text_views(comments@)),
                None => None,
            },
        }
    }
}

/// What the engine answers to a request for a deep analysis.
pub struct DeepResearchResponseView {
    pub on_cooldown: bool,
    pub remaining_seconds: u64,
    pub main_response: Seq<char>,
}

/// What the engine answers to a request for a deep analysis: that the
/// cooldown is active, with the seconds left to wait, or the analysis.
#[derive(Clone, Debug, PartialEq, Eq)]
pub struct DeepResearchResponse {
    pub on_cooldown: bool,
    pub remaining_seconds: u64,
    pub main_response: String,
}

impl View for DeepResearchResponse {
    type V = DeepResearchResponseView;

    open spec fn view(&self) -> DeepResearchResponseView {
        DeepResearchResponseView {
            on_cooldown: self.on_cooldown,
            remaining_seconds: self.remaining_seconds,
            main_response: self.main_response@,
        }
    }
}

/// How a session ended.
pub enum OutcomeView {
    Chat(ChatResponseView),
    Analysis(DeepResearchResponseView),
    Failed(FailureView),
}

/// How a session ended.
#[derive(Clone, Debug, PartialEq, Eq)]
pub enum Outcome {
    /// A message of the user was answered.
    Chat(ChatResponse),
    /// A deep analysis ran, or was refused by the cooldown.
    Analysis(DeepResearchResponse),
    /// The operation failed.
    Failed(Failure),
}

impl View for Outcome {
    type V = OutcomeView;

    open spec fn view(&self) -> OutcomeView {
        match self {
            Outcome::Chat(response) => OutcomeView::Chat(response@),
            Outcome::Analysis(response) => OutcomeView::Analysis(response@),
            Outcome::Failed(failure) => OutcomeView::Failed(failure@),
        }
    }
}

/// What a session asks to be done next.
pub enum EffectView {
    LoadCooldown,
    LoadCredential,
    LoadInstruction(InstructionKind),
    CaptureScreenshot,
    ReadHistory(usize),
    Send { credential: Seq<char>, request: CompletionRequestView },
    Persist(Seq<ChatMessageView>),
    StampCooldown(Seq<char>),
    Finish(OutcomeView),
}

/// What a session asks to be done next.
#[derive(Clone, Debug, PartialEq, Eq)]
pub enum Effect {
    /// Read the stored cooldown stamp, and the clock.
    LoadCooldown,
    /// Read the stored credential.
    LoadCredential,
    /// Read the configured text of an instruction.
    LoadInstruction(InstructionKind),
    /// Take a screenshot, as a PNG image.
    CaptureScreenshot,
    /// Read the given number of most recent turns from the message store.
    ReadHistory(usize),
    /// Send a request to the completion service, and read the clock when
    /// the reply is in.
    Send { credential: String, request: CompletionRequest },
    /// Record the turns in the message store, in the given order, all or none.
    Persist(Vec<ChatMessage>),
    /// Store the text as the cooldown stamp.
    StampCooldown(String),
    /// Hand the outcome to the caller: the session is over.
    Finish(Outcome),
}

impl View for Effect {
    type V = EffectView;

    open spec fn view(&self) -> EffectView {
        match self {
            Effect::LoadCooldown => EffectView::LoadCooldown,
            Effect::LoadCredential => EffectView::LoadCredential,
            Effect::LoadInstruction(kind) => EffectView::LoadInstruction(*kind),
            Effect::CaptureScreenshot => EffectView::CaptureScreenshot,
            Effect::ReadHistory(limit) => EffectView::ReadHistory(*limit),
            Effect::Send { credential, request } => EffectView::Send {
                credential: credential@,
                request: request@,
            },
            Effect::Persist(turns) => EffectView::Persist(message_views(turns@)),
            Effect::StampCooldown(text) => EffectView::StampCooldown(text@),
            Effect::Finish(outcome) => EffectView::Finish(outcome@),
        }
    }
}

/// How an effect went.
pub enum EventView {
    Cooldown { stored: Result<Option<Seq<char>>, Seq<char>>, now: Moment },
    Credential(Result<Option<Seq<char>>, Seq<char>>),
    Instruction(Result<Option<Seq<char>>, Seq<char>>),
    Screenshot(Result<Seq<u8>, Seq<char>>),
    History(Result<Seq<ChatMessageView>, Seq<char>>),
    Reply { reply: CompletionReplyView, at: Moment },
    Persisted(Result<(), Seq<char>>),
    Stamped(Result<(), Seq<char>>),
}

/// How an effect went. Where an effect can fail, the event carries the
/// message of the failure.
#[derive(Debug, PartialEq, Eq)]
pub enum Event {
    /// The stored cooldown stamp, or nothing where none is stored, and the
    /// time at which it was read.
    Cooldown { stored: Result<Option<String>, String>, now: Moment },
    /// The stored credential, or nothing where none is configured.
    Credential(Result<Option<String>, String>),
    /// The configured text of the instruction, or nothing where none is
    /// configured.
    Instruction(Result<Option<String>, String>),
    /// The screenshot, as the bytes of a PNG image.
    Screenshot(Result<Vec<u8>, String>),
    /// The turns that were read, oldest first.
    History(Result<Vec<ChatMessage>, String>),
    /// What the transport handed back, and the time at which it did.
    Reply { reply: CompletionReply, at: Moment },
    /// The turns were recorded.
    Persisted(Result<(), String>),
    /// The cooldown stamp was stored.
    Stamped(Result<(), String>),
}

impl View for Event {
    type V = EventView;

    open spec fn view(&self) -> EventView {
        match self {
            Event::Cooldown { stored, now } => EventView::Cooldown {
                stored: fetched_view(*stored),
                now: *now,
            },
            Event::Credential(fetched) => EventView::Credential(fetched_view(*fetched)),
            Event::Instruction(fetched) => EventView::Instruction(fetched_view(*fetched)),
            Event::Screenshot(taken) => EventView::Screenshot(
                match taken {
                    Ok(image) => Ok(image@),
                    Err(reason) => Err(reason@),
                },
            ),
            Event::History(read) => EventView::History(
                match read {
                    Ok(turns) => Ok(message_views(turns@)),
                    Err(reason) => Err(reason@),
                },
            ),
            Event::Reply { reply, at } => EventView::Reply { reply: reply@, at: *at },
            Event::Persisted(written) => EventView::Persisted(written_view(*written)),
            Event::Stamped(written) => EventView::Stamped(written_view(*written)),
        }
    }
}

/// What a session holds.
pub struct SessionView {
    pub operation: Operation,
    pub phase: Phase,
    pub level: ConversationLevel,
    pub input: Seq<char>,
    pub wants_screenshot: bool,
    pub credential: Seq<char>,
    pub instruction: Seq<char>,
    pub image_url: Option<Seq<char>>,
    pub asked_at: u64,
    pub timestamp: Seq<char>,
    pub answer: Seq<char>,
    pub commentary: Seq<char>,
}

/// One operation of the engine in progress: the handling of a message of the
/// user, or a deep analysis.
#[derive(Clone, Debug, PartialEq, Eq)]
pub struct Session {
    operation: Operation,
    phase: Phase,
    level: ConversationLevel,
    input: String,
    wants_screenshot: bool,
    credential: String,
    instruction: String,
    image_url: Option<String>,
    asked_at: u64,
    timestamp: String,
    answer: String,
    commentary: String,
}

impl View for Session {
    type V = SessionView;

    closed spec fn view(&self) -> SessionView {
        SessionView {
            operation: self.operation,
            phase: self.phase,
            level: self.level,
            input: self.input@,
            wants_screenshot: self.wants_screenshot,
            credential: self.credential@,
            instruction: self.instruction@,
            image_url: text_of(self.image_url),
            asked_at: self.asked_at,
            timestamp: self.timestamp@,
            answer: self.answer@,
            commentary: self.commentary@,
        }
    }
}

/// The role under which the primary answer of a level is recorded.
pub open spec fn answer_role(level: ConversationLevel) -> Role {
    match level {
        ConversationLevel::Default => Role::Assistant,
        ConversationLevel::Dialogue => Role::Persona,
        ConversationLevel::Analysis => Role::Analyst,
    }
}

/// A turn with the given fields.
pub open spec fn turn_of(
    timestamp: Seq<char>,
    role: Role,
    content: Seq<char>,
    level: ConversationLevel,
) -> ChatMessageView {
    ChatMessageView { timestamp, role, content, level }
}

/// The turns that an answered message of the user leaves in the log: the
/// message, then the answer under the role of the level, both at that level
/// and under the same timestamp.
pub open spec fn chat_records(
    level: ConversationLevel,
    timestamp: Seq<char>,
    input: Seq<char>,
    answer: Seq<char>,
) -> Seq<ChatMessageView> {
    seq![
        turn_of(timestamp, Role::User, input, level),
        turn_of(timestamp, answer_role(level), answer, level),
    ]
}

/// The turn that a deep analysis leaves in the log.
pub open spec fn analysis_records(timestamp: Seq<char>, insights: Seq<char>) -> Seq<
    ChatMessageView,
> {
    seq![turn_of(timestamp, Role::Analyst, insights, ConversationLevel::Analysis)]
}

/// The turn that a commentary leaves in the log.
pub open spec fn commentary_records(timestamp: Seq<char>, commentary: Seq<char>) -> Seq<
    ChatMessageView,
> {
    seq![turn_of(timestamp, Role::Persona, commentary, ConversationLevel::Default)]
}

/// The text that stands for an answer which the reply does not hold.
pub open spec fn placeholder_of(operation: Operation) -> Seq<char> {
    match operation {
        Operation::Chat => "No response"@,
        Operation::DeepAnalysis => "No insights generated"@,
    }
}

/// The instruction that opens the request of a session.
pub open spec fn opening_instruction(s: SessionView) -> InstructionKind {
    match s.operation {
        Operation::Chat => InstructionKind::of_level(s.level),
        Operation::DeepAnalysis => InstructionKind::DeepResearch,
    }
}

/// How many turns a session reads.
pub open spec fn history_limit(operation: Operation) -> usize {
    match operation {
        Operation::Chat => CHAT_HISTORY_LIMIT,
        Operation::DeepAnalysis => ANALYSIS_HISTORY_LIMIT,
    }
}

/// Whether a session takes a screenshot: only for a message at the default
/// level, and only if asked to.
pub open spec fn takes_screenshot(s: SessionView) -> bool {
    s.operation == Operation::Chat && s.wants_screenshot && s.level == ConversationLevel::Default
}

/// Whether a phase belongs to the operation and level of a session.
pub open spec fn well_formed(s: SessionView) -> bool {
    match s.phase {
        Phase::Cooldown | Phase::Stamp => s.operation == Operation::DeepAnalysis,
        Phase::Screenshot => takes_screenshot(s),
        Phase::CommentaryInstruction | Phase::Commentary | Phase::CommentaryStored => s.operation
            == Operation::Chat && s.level == ConversationLevel::Default,
        _ => true,
    }
}

/// The session at its end.
pub open spec fn finished(s: SessionView) -> SessionView {
    SessionView { phase: Phase::Done, ..s }
}

/// The end of a session in failure.
pub open spec fn failed(s: SessionView, kind: FailureKind, detail: Seq<char>) -> (
    SessionView,
    EffectView,
) {
    (finished(s), EffectView::Finish(OutcomeView::Failed(FailureView { kind, detail })))
}

/// The end of a session on an event that it was not waiting for.
pub open spec fn unexpected(s: SessionView) -> (SessionView, EffectView) {
    failed(s, FailureKind::Protocol, "the session was not waiting for this event"@)
}

/// The end of a chat session with the answer and the given commentary.
pub open spec fn answered(s: SessionView, comments: Option<Seq<Seq<char>>>) -> (
    SessionView,
    EffectView,
) {
    (
        finished(s),
        EffectView::Finish(
            OutcomeView::Chat(
                ChatResponseView { main_response: s.answer, character_comments: comments },
            ),
        ),
    )
}

/// The step of a session that waits for the cooldown stamp: a stamp within
/// its six hours ends the session at once with the time left; else the
/// credential is asked for.
pub open spec fn after_cooldown(s: SessionView, e: EventView) -> (SessionView, EffectView) {
    match e {
        EventView::Cooldown { stored: Ok(stored), now } => {
            let status = status_at(state_of(stored), now.epoch_seconds);
            if status.blocked {
                (
                    finished(s),
                    EffectView::Finish(
                        OutcomeView::Analysis(
                            DeepResearchResponseView {
                                on_cooldown: true,
                                remaining_seconds: status.remaining_seconds,
                                main_response: Seq::empty(),
                            },
                        ),
                    ),
                )
            } else {
                (
                    SessionView { phase: Phase::Credential, asked_at: now.epoch_seconds, ..s },
                    EffectView::LoadCredential,
                )
            }
        },
        EventView::Cooldown { stored: Err(reason), .. } => failed(s, FailureKind::Storage, reason),
        _ => unexpected(s),
    }
}

/// The step of a session that waits for the credential: without one the
/// session fails before anything is sent.
pub open spec fn after_credential(s: SessionView, e: EventView) -> (SessionView, EffectView) {
    match e {
        EventView::Credential(Ok(Some(stored))) => (
            SessionView { phase: Phase::Instruction, credential: trimmed(stored), ..s },
            EffectView::LoadInstruction(opening_instruction(s)),
        ),
        EventView::Credential(Ok(None)) => failed(s, FailureKind::Auth, Seq::empty()),
        EventView::Credential(Err(reason)) => failed(s, FailureKind::Storage, reason),
        _ => unexpected(s),
    }
}

/// The step of a session that waits for its opening instruction.
pub open spec fn after_instruction(s: SessionView, e: EventView) -> (SessionView, EffectView) {
    match e {
        EventView::Instruction(Ok(configured)) => {
            let instruction = opening_instruction(s).resolved(configured);
            if takes_screenshot(s) {
                (
                    SessionView { phase: Phase::Screenshot, instruction, ..s },
                    EffectView::CaptureScreenshot,
                )
            } else {
                (
                    SessionView { phase: Phase::History, instruction, ..s },
                    EffectView::ReadHistory(history_limit(s.operation)),
                )
            }
        },
        EventView::Instruction(Err(reason)) => failed(s, FailureKind::Storage, reason),
        _ => unexpected(s),
    }
}

/// The step of a session that waits for the screenshot.
pub open spec fn after_screenshot(s: SessionView, e: EventView) -> (SessionView, EffectView) {
    match e {
        EventView::Screenshot(Ok(image)) => if encodable(image.len()) {
            (
                SessionView {
                    phase: Phase::History,
                    image_url: Some(png_data_url_text(image)),
                    ..s
                },
                EffectView::ReadHistory(history_limit(s.operation)),
            )
        } else {
            failed(s, FailureKind::Limit, "the screenshot is too large"@)
        },
        EventView::Screenshot(Err(reason)) => failed(s, FailureKind::Storage, reason),
        _ => unexpected(s),
    }
}

/// The request that a session sends once it has read the history.
pub open spec fn opening_request(
    s: SessionView,
    history: Seq<ChatMessageView>,
) -> CompletionRequestView {
    match s.operation {
        Operation::Chat => primary_request_of(
            s.level,
            s.instruction,
            history,
            s.input,
            s.image_url,
        ),
        Operation::DeepAnalysis => analysis_request_of(s.instruction, history),
    }
}

/// The step of a session that waits for the history.
pub open spec fn after_history(s: SessionView, e: EventView) -> (SessionView, EffectView) {
    match e {
        EventView::History(Ok(history)) => (
            SessionView { phase: Phase::Answer, ..s },
            EffectView::Send { credential: s.credential, request: opening_request(s, history) },
        ),
        EventView::History(Err(reason)) => failed(s, FailureKind::Storage, reason),
        _ => unexpected(s),
    }
}

/// The turns that the answer of a session leaves in the log.
pub open spec fn answer_records(
    s: SessionView,
    timestamp: Seq<char>,
    answer: Seq<char>,
) -> Seq<ChatMessageView> {
    match s.operation {
        Operation::Chat => chat_records(s.level, timestamp, s.input, answer),
        Operation::DeepAnalysis => analysis_records(timestamp, answer),
    }
}

/// The step of a session that waits for the primary answer: a failed reply
/// ends the session, with nothing recorded; an answer is recorded under the
/// time at which it came in.
pub open spec fn after_answer(s: SessionView, e: EventView) -> (SessionView, EffectView) {
    match e {
        EventView::Reply { reply, at } => match interpreted(reply, placeholder_of(s.operation)) {
            Err(failure) => failed(s, failure.kind, failure.detail),
            Ok(answer) => match at.timestamp_text() {
                None => failed(s, FailureKind::Limit, "the time of the reply is out of range"@),
                Some(timestamp) => (
                    SessionView { phase: Phase::AnswerStored, answer, timestamp, ..s },
                    EffectView::Persist(answer_records(s, timestamp, answer)),
                ),
            },
        },
        _ => unexpected(s),
    }
}

/// The step of a session that waits for its answer to be recorded: a
/// message at the default level goes on to the commentary, a message at
/// another level is done, and a deep analysis stamps the cooldown.
pub open spec fn after_answer_stored(s: SessionView, e: EventView) -> (SessionView, EffectView) {
    match e {
        EventView::Persisted(Ok(())) => match s.operation {
            Operation::Chat => if s.level == ConversationLevel::Default {
                (
                    SessionView { phase: Phase::CommentaryInstruction, ..s },
                    EffectView::LoadInstruction(InstructionKind::Character),
                )
            } else {
                answered(s, None)
            },
            Operation::DeepAnalysis => (
                SessionView { phase: Phase::Stamp, ..s },
                EffectView::StampCooldown(decimal_digits(s.asked_at as nat)),
            ),
        },
        EventView::Persisted(Err(reason)) => failed(s, FailureKind::Storage, reason),
        _ => unexpected(s),
    }
}

/// The step of a session that waits for the commentary instruction.
pub open spec fn after_commentary_instruction(s: SessionView, e: EventView) -> (
    SessionView,
    EffectView,
) {
    match e {
        EventView::Instruction(Ok(configured)) => {
            let instruction = InstructionKind::Character.resolved(configured);
            (
                SessionView { phase: Phase::Commentary, instruction, ..s },
                EffectView::Send {
                    credential: s.credential,
                    request: commentary_request_of(instruction, s.answer),
                },
            )
        },
        EventView::Instruction(Err(reason)) => failed(s, FailureKind::Storage, reason),
        _ => unexpected(s),
    }
}

/// The step of a session that waits for the commentary: a commentary that
/// is not empty is recorded; a failed reply or an empty commentary ends the
/// session with the answer alone, and never in failure.
pub open spec fn after_commentary(s: SessionView, e: EventView) -> (SessionView, EffectView) {
    match e {
        EventView::Reply { reply, at } => match interpreted(reply, Seq::empty()) {
            Ok(commentary) => if commentary.len() > 0 {
                (
                    SessionView { phase: Phase::CommentaryStored, commentary, ..s },
                    EffectView::Persist(commentary_records(s.timestamp, commentary)),
                )
            } else {
                answered(s, None)
            },
            Err(_) => answered(s, None),
        },
        _ => unexpected(s),
    }
}

/// The step of a session that waits for the commentary to be recorded.
pub open spec fn after_commentary_stored(s: SessionView, e: EventView) -> (
    SessionView,
    EffectView,
) {
    match e {
        EventView::Persisted(Ok(())) => answered(s, Some(seq![trimmed(s.commentary)])),
        EventView::Persisted(Err(reason)) => failed(s, FailureKind::Storage, reason),
        _ => unexpected(s),
    }
}

/// The step of a session that waits for the cooldown stamp to be written.
pub open spec fn after_stamp(s: SessionView, e: EventView) -> (SessionView, EffectView) {
    match e {
        EventView::Stamped(Ok(())) => (
            finished(s),
            EffectView::Finish(
                OutcomeView::Analysis(
                    DeepResearchResponseView {
                        on_cooldown: false,
                        remaining_seconds: 0,
                        main_response: s.answer,
                    },
                ),
            ),
        ),
        EventView::Stamped(Err(reason)) => failed(s, FailureKind::Storage, reason),
        _ => unexpected(s),
    }
}

/// The step of a session: from what it holds and the event that came in to
/// what it holds next and the effect it asks for.
pub open spec fn next(s: SessionView, e: EventView) -> (SessionView, EffectView) {
    match s.phase {
        Phase::Cooldown => after_cooldown(s, e),
        Phase::Credential => after_credential(s, e),
        Phase::Instruction => after_instruction(s, e),
        Phase::Screenshot => after_screenshot(s, e),
        Phase::History => after_history(s, e),
        Phase::Answer => after_answer(s, e),
        Phase::AnswerStored => after_answer_stored(s, e),
        Phase::CommentaryInstruction => after_commentary_instruction(s, e),
        Phase::Commentary => after_commentary(s, e),
        Phase::CommentaryStored => after_commentary_stored(s, e),
        Phase::Stamp => after_stamp(s, e),
        Phase::Done => unexpected(s),
    }
}

/// A session at its start, with nothing gathered yet.
pub open spec fn fresh(
    operation: Operation,
    phase: Phase,
    level: ConversationLevel,
    input: Seq<char>,
    wants_screenshot: bool,
) -> SessionView {
    SessionView {
        operation,
        phase,
        level,
        input,
        wants_screenshot,
        credential: Seq::empty(),
        instruction: Seq::empty(),
        image_url: None,
        asked_at: 0,
        timestamp: Seq::empty(),
        answer: Seq::empty(),
        commentary: Seq::empty(),
    }
}

fn one_turn(turn: ChatMessage) -> (r: Vec<ChatMessage>)
    ensures
        message_views(r@) == seq![turn@],
{
    let mut turns: Vec<ChatMessage> = Vec::new();
    turns.push(turn);
    assert(message_views(turns@) =~= seq![turn@]);
    turns
}

/// The turns to record for an answered message of the user: the message,
/// then the answer under the role of the level.
pub fn chat_turns(level: ConversationLevel, timestamp: &str, input: &str, answer: &str) -> (r: Vec<
    ChatMessage,
>)
    ensures
        message_views(r@) == chat_records(level, timestamp@, input@, answer@),
{
    let asked = ChatMessage {
        timestamp: String::from_str(timestamp),
        role: Role::User,
        content: String::from_str(input),
        level,
    };
    let told = ChatMessage {
        timestamp: String::from_str(timestamp),
        role: role_of_answer(level),
        content: String::from_str(answer),
        level,
    };
    let mut turns: Vec<ChatMessage> = Vec::new();
    turns.push(asked);
    turns.push(told);
    assert(message_views(turns@) =~= seq![asked@, told@]);
    turns
}

/// The turn to record for a deep analysis.
pub fn analysis_turns(timestamp: &str, insights: &str) -> (r: Vec<ChatMessage>)
    ensures
        message_views(r@) == analysis_records(timestamp@, insights@),
{
    one_turn(
        ChatMessage {
            timestamp: String::from_str(timestamp),
            role: Role::Analyst,
            content: String::from_str(insights),
            level: ConversationLevel::Analysis,
        },
    )
}

/// The turn to record for a commentary.
pub fn commentary_turns(timestamp: &str, commentary: &str) -> (r: Vec<ChatMessage>)
    ensures
        message_views(r@) == commentary_records(timestamp@, commentary@),
{
    one_turn(
        ChatMessage {
            timestamp: String::from_str(timestamp),
            role: Role::Persona,
            content: String::from_str(commentary),
            level: ConversationLevel::Default,
        },
    )
}

fn one_comment(comment: String) -> (r: Vec<String>)
    ensures
        text_views(r@) == seq![comment@],
{
    let mut comments: Vec<String> = Vec::new();
    comments.push(comment);
    assert(text_views(comments@) =~= seq![comment@]);
    comments
}

/// The role under which the primary answer of a level is recorded.
pub fn role_of_answer(level: ConversationLevel) -> (r: Role)
    ensures
        r == answer_role(level),
{
    match level {
        ConversationLevel::Default => Role::Assistant,
        ConversationLevel::Dialogue => Role::Persona,
        ConversationLevel::Analysis => Role::Analyst,
    }
}

impl Session {
    /// Begins the handling of a message of the user. The first effect to
    /// perform is the reading of the credential.
    pub fn chat(input: String, wants_screenshot: bool, level: ConversationLevel) -> (r: (
        Session,
        Effect,
    ))
        ensures
            r.0@ == fresh(Operation::Chat, Phase::Credential, level, input@, wants_screenshot),
            r.1@ == EffectView::LoadCredential,
            well_formed(r.0@),
    {
        let session = Session {
            operation: Operation::Chat,
            phase: Phase::Credential,
            level,
            input,
            wants_screenshot,
            credential: String::new(),
            instruction: String::new(),
            image_url: None,
            asked_at: 0,
            timestamp: String::new(),
            answer: String::new(),
            commentary: String::new(),
        };
        (session, Effect::LoadCredential)
    }

    /// Begins a deep analysis. The first effect to perform is the reading of
    /// the cooldown stamp.
    pub fn deep_analysis() -> (r: (Session, Effect))
        ensures
            r.0@ == fresh(
                Operation::DeepAnalysis,
                Phase::Cooldown,
                ConversationLevel::Analysis,
                Seq::empty(),
                false,
            ),
            r.1@ == EffectView::LoadCooldown,
            well_formed(r.0@),
    {
        let session = Session {
            operation: Operation::DeepAnalysis,
            phase: Phase::Cooldown,
            level: ConversationLevel::Analysis,
            input: String::new(),
            wants_screenshot: false,
            credential: String::new(),
            instruction: String::new(),
            image_url: None,
            asked_at: 0,
            timestamp: String::new(),
            answer: String::new(),
            commentary: String::new(),
        };
        (session, Effect::LoadCooldown)
    }

    /// What the session is waiting for.
    pub fn phase(&self) -> (r: Phase)
        ensures
            r == self@.phase,
    {
        self.phase
    }

    /// Whether the session has finished.
    pub fn is_done(&self) -> (r: bool)
        ensures
            r == (self@.phase == Phase::Done),
    {
        matches!(self.phase, Phase::Done)
    }

    fn fail(self, kind: FailureKind, detail: String) -> (r: (Session, Effect))
        ensures
            (r.0@, r.1@) == failed(self@, kind, detail@),
    {
        (
            Session { phase: Phase::Done, ..self },
            Effect::Finish(Outcome::Failed(Failure::new(kind, detail))),
        )
    }

    fn fail_with(self, kind: FailureKind, detail: &str) -> (r: (Session, Effect))
        ensures
            (r.0@, r.1@) == failed(self@, kind, detail@),
    {
        self.fail(kind, String::from_str(detail))
    }

    fn reject(self) -> (r: (Session, Effect))
        ensures
            (r.0@, r.1@) == unexpected(self@),
    {
        self.fail_with(FailureKind::Protocol, "the session was not waiting for this event")
    }

    fn answer_with(self, comments: Option<Vec<String>>) -> (r: (Session, Effect))
        ensures
            (r.0@, r.1@) == answered(
                self@,
                match comments {
                    Some(list) => Some(text_views(list@)),
                    None => None,
                },
            ),
    {
        let response = ChatResponse {
            main_response: self.answer.clone(),
            character_comments: comments,
        };
        (Session { phase: Phase::Done, ..self }, Effect::Finish(Outcome::Chat(response)))
    }

    fn opening_kind(&self) -> (r: InstructionKind)
        ensures
            r == opening_instruction(self@),
    {
        match self.operation {
            Operation::Chat => InstructionKind::for_level(self.level),
            Operation::DeepAnalysis => InstructionKind::DeepResearch,
        }
    }

    fn limit(&self) -> (r: usize)
        ensures
            r == history_limit(self@.operation),
    {
        match self.operation {
            Operation::Chat => CHAT_HISTORY_LIMIT,
            Operation::DeepAnalysis => ANALYSIS_HISTORY_LIMIT,
        }
    }

    fn on_cooldown(self, event: Event) -> (r: (Session, Effect))
        ensures
            (r.0@, r.1@) == after_cooldown(self@, event@),
    {
        match event {
            Event::Cooldown { stored: Ok(stored), now } => {
                let state = match &stored {
                    Some(text) => CooldownState::from_stored(Some(text.as_str())),
                    None => CooldownState::from_stored(None),
                };
                let status = state.check(now.epoch_seconds);
                if status.blocked {
                    let response = DeepResearchResponse {
                        on_cooldown: true,
                        remaining_seconds: status.remaining_seconds,
                        main_response: String::new(),
                    };
                    (
                        Session { phase: Phase::Done, ..self },
                        Effect::Finish(Outcome::Analysis(response)),
                    )
                } else {
                    (
                        Session { phase: Phase::Credential, asked_at: now.epoch_seconds, ..self },
                        Effect::LoadCredential,
                    )
                }
            },
            Event::Cooldown { stored: Err(reason), now: _ } => self.fail(
                FailureKind::Storage,
                reason,
            ),
            _ => self.reject(),
        }
    }

    fn on_credential(self, event: Event) -> (r: (Session, Effect))
        ensures
            (r.0@, r.1@) == after_credential(self@, event@),
    {
        match event {
            Event::Credential(Ok(Some(stored))) => {
                let kind = self.opening_kind();
                let credential = trim_text(stored.as_str());
                (
                    Session { phase: Phase::Instruction, credential, ..self },
                    Effect::LoadInstruction(kind),
                )
            },
            Event::Credential(Ok(None)) => self.fail(FailureKind::Auth, String::new()),
            Event::Credential(Err(reason)) => self.fail(FailureKind::Storage, reason),
            _ => self.reject(),
        }
    }

    fn on_instruction(self, event: Event) -> (r: (Session, Effect))
        ensures
            (r.0@, r.1@) == after_instruction(self@, event@),
    {
        match event {
            Event::Instruction(Ok(configured)) => {
                let kind = self.opening_kind();
                let instruction = match &configured {
                    Some(text) => kind.resolve(Some(text.as_str())),
                    None => kind.resolve(None),
                };
                let capture = matches!(self.operation, Operation::Chat) && self.wants_screenshot
                    && matches!(self.level, ConversationLevel::Default);
                if capture {
                    (
                        Session { phase: Phase::Screenshot, instruction, ..self },
                        Effect::CaptureScreenshot,
                    )
                } else {
                    let limit = self.limit();
                    (
                        Session { phase: Phase::History, instruction, ..self },
                        Effect::ReadHistory(limit),
                    )
                }
            },
            Event::Instruction(Err(reason)) => self.fail(FailureKind::Storage, reason),
            _ => self.reject(),
        }
    }

    fn on_screenshot(self, event: Event) -> (r: (Session, Effect))
        ensures
            (r.0@, r.1@) == after_screenshot(self@, event@),
    {
        match event {
            Event::Screenshot(Ok(image)) => {
                match try_png_data_url(image.as_slice()) {
                    Some(url) => {
                        let limit = self.limit();
                        (
                            Session { phase: Phase::History, image_url: Some(url), ..self },
                            Effect::ReadHistory(limit),
                        )
                    },
                    None => self.fail_with(FailureKind::Limit, "the screenshot is too large"),
                }
            },
            Event::Screenshot(Err(reason)) => self.fail(FailureKind::Storage, reason),
            _ => self.reject(),
        }
    }

    fn on_history(self, event: Event) -> (r: (Session, Effect))
        ensures
            (r.0@, r.1@) == after_history(self@, event@),
    {
        match event {
            Event::History(Ok(history)) => {
                let request = match self.operation {
                    Operation::Chat => primary_request(
                        self.level,
                        self.instruction.as_str(),
                        &history,
                        self.input.as_str(),
                        self.image_url.clone(),
                    ),
                    Operation::DeepAnalysis => analysis_request(
                        self.instruction.as_str(),
                        &history,
                    ),
                };
                let credential = self.credential.clone();
                (Session { phase: Phase::Answer, ..self }, Effect::Send { credential, request })
            },
            Event::History(Err(reason)) => self.fail(FailureKind::Storage, reason),
            _ => self.reject(),
        }
    }

    fn records(&self, timestamp: &String, answer: &String) -> (r: Vec<ChatMessage>)
        ensures
            message_views(r@) == answer_records(self@, timestamp@, answer@),
    {
        match self.operation {
            Operation::Chat => chat_turns(
                self.level,
                timestamp.as_str(),
                self.input.as_str(),
                answer.as_str(),
            ),
            Operation::DeepAnalysis => analysis_turns(timestamp.as_str(), answer.as_str()),
        }
    }

    fn on_answer(self, event: Event) -> (r: (Session, Effect))
        ensures
            (r.0@, r.1@) == after_answer(self@, event@),
    {
        match event {
            Event::Reply { reply, at } => {
                let placeholder = match self.operation {
                    Operation::Chat => "No response",
                    Operation::DeepAnalysis => "No insights generated",
                };
                match interpret(reply, placeholder) {
                    Err(failure) => self.fail(failure.kind, failure.detail),
                    Ok(answer) => match at.timestamp() {
                        None => self.fail_with(
                            FailureKind::Limit,
                            "the time of the reply is out of range",
                        ),
                        Some(timestamp) => {
                            let turns = self.records(&timestamp, &answer);
                            (
                                Session { phase: Phase::AnswerStored, answer, timestamp, ..self },
                                Effect::Persist(turns),
                            )
                        },
                    },
                }
            },
            _ => self.reject(),
        }
    }

    fn on_answer_stored(self, event: Event) -> (r: (Session, Effect))
        ensures
            (r.0@, r.1@) == after_answer_stored(self@, event@),
    {
        match event {
            Event::Persisted(Ok(())) => match self.operation {
                Operation::Chat => match self.level {
                    ConversationLevel::Default => (
                        Session { phase: Phase::CommentaryInstruction, ..self },
                        Effect::LoadInstruction(InstructionKind::Character),
                    ),
                    _ => self.answer_with(None),
                },
                Operation::DeepAnalysis => {
                    let stamp = stamp_text(self.asked_at);
                    (Session { phase: Phase::Stamp, ..self }, Effect::StampCooldown(stamp))
                },
            },
            Event::Persisted(Err(reason)) => self.fail(FailureKind::Storage, reason),
            _ => self.reject(),
        }
    }

    fn on_commentary_instruction(self, event: Event) -> (r: (Session, Effect))
        ensures
            (r.0@, r.1@) == after_commentary_instruction(self@, event@),
    {
        match event {
            Event::Instruction(Ok(configured)) => {
                let instruction = match &configured {
                    Some(text) => InstructionKind::Character.resolve(Some(text.as_str())),
                    None => InstructionKind::Character.resolve(None),
                };
                let request = commentary_request(instruction.as_str(), self.answer.as_str());
                let credential = self.credential.clone();
                (
                    Session { phase: Phase::Commentary, instruction, ..self },
                    Effect::Send { credential, request },
                )
            },
            Event::Instruction(Err(reason)) => self.fail(FailureKind::Storage, reason),
            _ => self.reject(),
        }
    }

    fn on_commentary(self, event: Event) -> (r: (Session, Effect))
        ensures
            (r.0@, r.1@) == after_commentary(self@, event@),
    {
        match event {
            Event::Reply { reply, at: _ } => {
                proof {
                    reveal_strlit("");
                }
                assert(""@ =~= Seq::<char>::empty());
                match interpret(reply, "") {
                    Ok(commentary) => {
                        if commentary.as_str().is_empty() {
                            self.answer_with(None)
                        } else {
                            let turns = commentary_turns(
                                self.timestamp.as_str(),
                                commentary.as_str(),
                            );
                            (
                                Session { phase: Phase::CommentaryStored, commentary, ..self },
                                Effect::Persist(turns),
                            )
                        }
                    },
                    Err(_) => self.answer_with(None),
                }
            },
            _ => self.reject(),
        }
    }

    fn on_commentary_stored(self, event: Event) -> (r: (Session, Effect))
        ensures
            (r.0@, r.1@) == after_commentary_stored(self@, event@),
    {
        match event {
            Event::Persisted(Ok(())) => {
                let comment = trim_text(self.commentary.as_str());
                self.answer_with(Some(one_comment(comment)))
            },
            Event::Persisted(Err(reason)) => self.fail(FailureKind::Storage, reason),
            _ => self.reject(),
        }
    }

    fn on_stamp(self, event: Event) -> (r: (Session, Effect))
        ensures
            (r.0@, r.1@) == after_stamp(self@, event@),
    {
        match event {
            Event::Stamped(Ok(())) => {
                let response = DeepResearchResponse {
                    on_cooldown: false,
                    remaining_seconds: 0,
                    main_response: self.answer.clone(),
                };
                (
                    Session { phase: Phase::Done, ..self },
                    Effect::Finish(Outcome::Analysis(response)),
                )
            },
            Event::Stamped(Err(reason)) => self.fail(FailureKind::Storage, reason),
            _ => self.reject(),
        }
    }

    /// Takes the event that reports how the last effect went, and answers
    /// with the session as it stands then and the next effect to perform:
    /// see [`next`]. An event that the session was not waiting for ends it in
    /// failure.
    pub fn step(self, event: Event) -> (r: (Session, Effect))
        ensures
            (r.0@, r.1@) == next(self@, event@),
            well_formed(self@) ==> well_formed(r.0@),
    {
        match self.phase {
            Phase::Cooldown => self.on_cooldown(event),
            Phase::Credential => self.on_credential(event),
            Phase::Instruction => self.on_instruction(event),
            Phase::Screenshot => self.on_screenshot(event),
            Phase::History => self.on_history(event),
            Phase::Answer => self.on_answer(event),
            Phase::AnswerStored => self.on_answer_stored(event),
            Phase::CommentaryInstruction => self.on_commentary_instruction(event),
            Phase::Commentary => self.on_commentary(event),
            Phase::CommentaryStored => self.on_commentary_stored(event),
            Phase::Stamp => self.on_stamp(event),
            Phase::Done => self.reject(),
        }
    }
}

/// A step keeps a session well formed.
pub proof fn lemma_step_keeps_well_formed(s: SessionView, e: EventView)
    requires
        well_formed(s),
    ensures
        well_formed(next(s, e).0),
{
}

/// How far a session has come: the phases in the order in which a session
/// passes them.
pub open spec fn progress(phase: Phase) -> nat {
    match phase {
        Phase::Cooldown => 0,
        Phase::Credential => 1,
        Phase::Instruction => 2,
        Phase::Screenshot => 3,
        Phase::History => 4,
        Phase::Answer => 5,
        Phase::AnswerStored => 6,
        Phase::CommentaryInstruction => 7,
        Phase::Commentary => 8,
        Phase::CommentaryStored => 9,
        Phase::Stamp => 10,
        Phase::Done => 11,
    }
}

/// The session after a sequence of events, each answered by a step.
pub open spec fn after_events(s: SessionView, events: Seq<EventView>) -> SessionView
    decreases events.len(),
{
    if events.len() == 0 {
        s
    } else {
        after_events(next(s, events[0]).0, events.drop_first())
    }
}

/// Every step takes a session further: no phase is passed twice, so that no
/// effect is asked for again once its event has come in.
pub proof fn lemma_step_advances(s: SessionView, e: EventView)
    requires
        s.phase != Phase::Done,
    ensures
        progress(next(s, e).0.phase) > progress(s.phase),
{
}

/// Every session comes to its end: whatever the events are, it has finished
/// after as many of them as there are phases ahead of it.
pub proof fn lemma_session_ends(s: SessionView, events: Seq<EventView>)
    requires
        events.len() + progress(s.phase) >= progress(Phase::Done),
    ensures
        after_events(s, events).phase == Phase::Done,
    decreases events.len(),
{
    if events.len() == 0 {
    } else {
        if s.phase != Phase::Done {
            lemma_step_advances(s, events[0]);
        }
        lemma_session_ends(next(s, events[0]).0, events.drop_first());
    }
}

/// What a session is about never changes: a step keeps the operation, the
/// level, the input and the wish for a screenshot.
pub proof fn lemma_step_keeps_subject(s: SessionView, e: EventView)
    ensures
        next(s, e).0.operation == s.operation,
        next(s, e).0.level == s.level,
        next(s, e).0.input == s.input,
        next(s, e).0.wants_screenshot == s.wants_screenshot,
{
}

/// The turns that a session records carry its level, and the input as the
/// user's turn: a chat session records the input and the answer at its own
/// level, a deep analysis records one turn of the analyst.
pub proof fn lemma_recorded_turns_carry_the_level(s: SessionView, e: EventView)
    requires
        s.phase == Phase::Answer,
        next(s, e).1 is Persist,
    ensures
        s.operation == Operation::Chat ==> {
            let turns = next(s, e).1->Persist_0;
            &&& turns.len() == 2
            &&& turns[0].role == Role::User && turns[0].content == s.input
            &&& turns[1].role == answer_role(s.level)
            &&& turns[0].level == s.level && turns[1].level == s.level
            &&& turns[0].timestamp == turns[1].timestamp
        },
        s.operation == Operation::DeepAnalysis ==> {
            let turns = next(s, e).1->Persist_0;
            &&& turns.len() == 1
            &&& turns[0].role == Role::Analyst
            &&& turns[0].level == ConversationLevel::Analysis
        },
{
}

/// A session is over exactly when it hands out its outcome, and a session
/// that is over answers every further event with a failure.
pub proof fn lemma_finish_is_final(s: SessionView, e: EventView)
    ensures
        next(s, e).1 is Finish <==> next(s, e).0.phase == Phase::Done,
        s.phase == Phase::Done ==> next(s, e) == unexpected(s),
{
}

/// While a session waits for its primary answer, a reply that does not come
/// to an answer ends it in that failure: no turn is recorded and no further
/// request is sent.
pub proof fn lemma_failed_answer_ends_session(
    s: SessionView,
    reply: CompletionReplyView,
    at: Moment,
)
    requires
        s.phase == Phase::Answer,
        interpreted(reply, placeholder_of(s.operation)) is Err,
    ensures
        next(s, EventView::Reply { reply, at }) == (
            finished(s),
            EffectView::Finish(
                OutcomeView::Failed(interpreted(reply, placeholder_of(s.operation))->Err_0),
            ),
        ),
{
}

/// While a session waits for the commentary, no reply makes it fail: the
/// commentary is recorded, or the session ends with the answer and without
/// a commentary. A reply that does not come to a text ends it so.
pub proof fn lemma_commentary_is_best_effort(
    s: SessionView,
    reply: CompletionReplyView,
    at: Moment,
)
    requires
        s.phase == Phase::Commentary,
    ensures
        next(s, EventView::Reply { reply, at }).1 is Persist || next(
            s,
            EventView::Reply { reply, at },
        ) == answered(s, None),
        interpreted(reply, Seq::empty()) is Err ==> next(s, EventView::Reply { reply, at })
            == answered(s, None),
{
}

/// Turns are recorded only on a reply that came to a text: the answer of the
/// primary request, or a commentary that is not empty.
pub proof fn lemma_recording_follows_an_answer(s: SessionView, e: EventView)
    requires
        next(s, e).1 is Persist,
    ensures
        e is Reply,
        s.phase == Phase::Answer || s.phase == Phase::Commentary,
        s.phase == Phase::Answer ==> interpreted(e->reply, placeholder_of(s.operation)) is Ok,
        s.phase == Phase::Commentary ==> interpreted(e->reply, Seq::empty()) is Ok,
{
}

/// A request is sent only once the credential is there: after the history
/// has been read, or after the commentary instruction has been.
pub proof fn lemma_request_follows_reading(s: SessionView, e: EventView)
    requires
        next(s, e).1 is Send,
    ensures
        (s.phase == Phase::History && e is History) || (s.phase == Phase::CommentaryInstruction
            && e is Instruction),
        next(s, e).1->credential == s.credential,
{
}

/// The cooldown is stamped only after the analysis has been recorded, and
/// with the time at which the cooldown was asked: a failure before that leaves
/// the cooldown as it was.
pub proof fn lemma_stamp_follows_recording(s: SessionView, e: EventView)
    requires
        next(s, e).1 is StampCooldown,
    ensures
        s.operation == Operation::DeepAnalysis,
        s.phase == Phase::AnswerStored,
        e is Persisted && e->Persisted_0 is Ok,
        next(s, e).1 == EffectView::StampCooldown(decimal_digits(s.asked_at as nat)),
{
}

/// A deep analysis that finds the cooldown active ends at once, with the time
/// left to wait: nothing is read, sent, recorded or stamped.
pub proof fn lemma_blocked_analysis_ends_at_once(
    s: SessionView,
    stored: Option<Seq<char>>,
    now: Moment,
)
    requires
        s.phase == Phase::Cooldown,
        status_at(state_of(stored), now.epoch_seconds).blocked,
    ensures
        next(s, EventView::Cooldown { stored: Ok(stored), now }) == (
            finished(s),
            EffectView::Finish(
                OutcomeView::Analysis(
                    DeepResearchResponseView {
                        on_cooldown: true,
                        remaining_seconds: status_at(
                            state_of(stored),
                            now.epoch_seconds,
                        ).remaining_seconds,
                        main_response: Seq::empty(),
                    },
                ),
            ),
        ),
{
}

/// The stamp that a deep analysis leaves blocks the next one:
/// a session that asks the cooldown less than six hours after the analysis was
/// admitted is refused, with what is left of the six hours.
pub proof fn lemma_stamp_blocks_next_analysis(first: SessionView, second: SessionView, now: Moment)
    requires
        first.operation == Operation::DeepAnalysis,
        first.phase == Phase::AnswerStored,
        second.phase == Phase::Cooldown,
        first.asked_at <= now.epoch_seconds < first.asked_at + COOLDOWN_SECONDS,
    ensures
        next(first, EventView::Persisted(Ok(()))).1 is StampCooldown,
        next(
            second,
            EventView::Cooldown {
                stored: Ok(Some(next(first, EventView::Persisted(Ok(()))).1->StampCooldown_0)),
                now,
            },
        ).1 == EffectView::Finish(
            OutcomeView::Analysis(
                DeepResearchResponseView {
                    on_cooldown: true,
                    remaining_seconds: (COOLDOWN_SECONDS - (now.epoch_seconds
                        - first.asked_at)) as u64,
                    main_response: Seq::empty(),
                },
            ),
        ),
{
    lemma_numeral_round_trip(first.asked_at);
}

} // verus!
