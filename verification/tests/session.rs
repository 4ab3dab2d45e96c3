use conversation_engine::clock::Moment;
use conversation_engine::completion::{ApiMessage, ApiRole, CompletionReply, CompletionRequest};
use conversation_engine::failure::{Failure, FailureKind, Operation};
use conversation_engine::instruction::{
    InstructionKind, DEFAULT_CHARACTER_PROMPT, DEFAULT_DEEP_RESEARCH_PROMPT,
    DEFAULT_DIALOGUE_PROMPT, DEFAULT_SYSTEM_PROMPT,
};
use conversation_engine::message::{ChatMessage, ConversationLevel, Role};
use conversation_engine::session::{
    analysis_turns, chat_turns, commentary_turns, role_of_answer, ChatResponse,
    DeepResearchResponse, Effect, Event, Outcome, Phase, Session,
};
use conversation_engine::store::MessageStore;

/// Stands in for everything around the engine: the stored texts, the
/// screen, the clock, the message store and the completion service.
struct World {
    credential: Option<String>,
    instructions: Vec<(InstructionKind, String)>,
    screenshot: Result<Vec<u8>, String>,
    cooldown: Option<String>,
    clock: Moment,
    store: MessageStore,
    store_fails: bool,
    replies: Vec<CompletionReply>,
    sent: Vec<(String, CompletionRequest)>,
    performed: Vec<&'static str>,
}

impl World {
    fn new() -> World {
        World {
            credential: Some("sk-test".to_string()),
            instructions: Vec::new(),
            screenshot: Ok(b"png".to_vec()),
            cooldown: None,
            clock: Moment { epoch_seconds: 1_700_000_000, subsec_nanos: 0 },
            store: MessageStore::new(),
            store_fails: false,
            replies: Vec::new(),
            sent: Vec::new(),
            performed: Vec::new(),
        }
    }

    fn perform(&mut self, effect: Effect) -> Result<Event, Outcome> {
        Ok(match effect {
            Effect::LoadCooldown => {
                self.performed.push("load-cooldown");
                Event::Cooldown { stored: Ok(self.cooldown.clone()), now: self.clock }
            }
            Effect::LoadCredential => {
                self.performed.push("load-credential");
                Event::Credential(Ok(self.credential.clone()))
            }
            Effect::LoadInstruction(kind) => {
                self.performed.push("load-instruction");
                let found = self.instructions.iter().find(|(k, _)| *k == kind);
                Event::Instruction(Ok(found.map(|(_, text)| text.clone())))
            }
            Effect::CaptureScreenshot => {
                self.performed.push("screenshot");
                Event::Screenshot(self.screenshot.clone())
            }
            Effect::ReadHistory(limit) => {
                self.performed.push("read-history");
                Event::History(Ok(self.store.recent(limit)))
            }
            Effect::Send { credential, request } => {
                self.performed.push("send");
                self.sent.push((credential, request));
                let reply = if self.replies.is_empty() {
                    CompletionReply::Unreachable { detail: "no reply scripted".to_string() }
                } else {
                    self.replies.remove(0)
                };
                Event::Reply { reply, at: self.clock }
            }
            Effect::Persist(turns) => {
                self.performed.push("persist");
                if self.store_fails {
                    Event::Persisted(Err("database is locked".to_string()))
                } else {
                    let mut written = Ok(());
                    for turn in turns {
                        if let Err(failure) = self.store.append(turn) {
                            written = Err(failure.detail);
                            break;
                        }
                    }
                    Event::Persisted(written)
                }
            }
            Effect::StampCooldown(text) => {
                self.performed.push("stamp");
                self.cooldown = Some(text);
                Event::Stamped(Ok(()))
            }
            Effect::Finish(outcome) => return Err(outcome),
        })
    }

    fn run(&mut self, start: (Session, Effect)) -> Outcome {
        let (mut session, mut effect) = start;
        loop {
            match self.perform(effect) {
                Ok(event) => {
                    let (next_session, next_effect) = session.step(event);
                    session = next_session;
                    effect = next_effect;
                }
                Err(outcome) => {
                    assert!(session.is_done());
                    return outcome;
                }
            }
        }
    }

    fn chat(&mut self, text: &str, wants_screenshot: bool, level: ConversationLevel) -> Outcome {
        self.run(Session::chat(text.to_string(), wants_screenshot, level))
    }

    fn analyse(&mut self) -> Outcome {
        self.run(Session::deep_analysis())
    }

    fn log(&self) -> Vec<(Role, String, ConversationLevel)> {
        self.store.recent(1000).into_iter().map(|m| (m.role, m.content, m.level)).collect()
    }
}

fn completion(text: &str) -> CompletionReply {
    let body = format!(
        "{{\"choices\":[{{\"message\":{{\"role\":\"assistant\",\"content\":{:?}}}}}]}}",
        text
    );
    CompletionReply::Answered { status: 200, body }
}

fn rejected(status: u16, body: &str) -> CompletionReply {
    CompletionReply::Answered { status, body: body.to_string() }
}

fn failed(kind: FailureKind, detail: &str) -> Outcome {
    Outcome::Failed(Failure { kind, detail: detail.to_string() })
}

fn entry(role: ApiRole, text: &str) -> ApiMessage {
    ApiMessage { role, text: text.to_string(), image_url: None }
}

const STAMP: &str = "2023-11-14T22:13:20+00:00";

#[test]
fn default_level_turn_with_commentary() {
    let mut world = World::new();
    world.replies = vec![completion("The answer."), completion("  So cool!  ")];
    let outcome = world.chat("What is it?", false, ConversationLevel::Default);
    assert_eq!(
        outcome,
        Outcome::Chat(ChatResponse {
            main_response: "The answer.".to_string(),
            character_comments: Some(vec!["So cool!".to_string()]),
        })
    );
    assert_eq!(
        world.log(),
        vec![
            (Role::User, "What is it?".to_string(), ConversationLevel::Default),
            (Role::Assistant, "The answer.".to_string(), ConversationLevel::Default),
            (Role::Persona, "  So cool!  ".to_string(), ConversationLevel::Default),
        ]
    );
    assert!(world.store.recent(10).iter().all(|m| m.timestamp == STAMP));
    assert_eq!(
        world.performed,
        vec![
            "load-credential",
            "load-instruction",
            "read-history",
            "send",
            "persist",
            "load-instruction",
            "send",
            "persist"
        ]
    );
    assert_eq!(world.sent.len(), 2);
    assert_eq!(world.sent[0].0, "sk-test");
    assert_eq!(
        world.sent[0].1,
        CompletionRequest {
            model: "gpt-4.1-2025-04-14".to_string(),
            messages: vec![
                entry(ApiRole::System, DEFAULT_SYSTEM_PROMPT),
                entry(ApiRole::User, "What is it?")
            ],
            max_tokens: Some(1000),
        }
    );
    assert_eq!(
        world.sent[1].1,
        CompletionRequest {
            model: "gpt-4.1-2025-04-14".to_string(),
            messages: vec![
                entry(ApiRole::System, DEFAULT_CHARACTER_PROMPT),
                entry(ApiRole::User, "Here is the AI response to comment on:\n\nThe answer."),
            ],
            max_tokens: Some(500),
        }
    );
}

#[test]
fn failed_primary_call_persists_nothing_and_skips_commentary() {
    let mut world = World::new();
    world.replies = vec![rejected(500, "upstream exploded"), completion("never used")];
    let outcome = world.chat("hello?", false, ConversationLevel::Default);
    assert_eq!(outcome, failed(FailureKind::Rejected, "upstream exploded"));
    assert_eq!(world.store.len(), 0);
    assert_eq!(world.sent.len(), 1);
    assert!(!world.performed.contains(&"persist"));
    assert_eq!(world.replies.len(), 1);
    if let Outcome::Failed(failure) = outcome {
        assert_eq!(failure.message(Operation::Chat), "API error: upstream exploded");
    }
}

#[test]
fn unreachable_service_persists_nothing() {
    let mut world = World::new();
    world.replies = vec![CompletionReply::Unreachable { detail: "dns error".to_string() }];
    for level in
        [ConversationLevel::Default, ConversationLevel::Dialogue, ConversationLevel::Analysis]
    {
        world.replies = vec![CompletionReply::Unreachable { detail: "dns error".to_string() }];
        assert_eq!(world.chat("x", false, level), failed(FailureKind::Network, "dns error"));
    }
    assert_eq!(world.store.len(), 0);
    assert_eq!(world.sent.len(), 3);
}

#[test]
fn unparseable_primary_reply_is_a_hard_failure() {
    let mut world = World::new();
    world.replies = vec![rejected(200, "<html>oops</html>")];
    match world.chat("x", false, ConversationLevel::Default) {
        Outcome::Failed(failure) => {
            assert_eq!(failure.kind, FailureKind::Parse);
            assert!(failure.message(Operation::Chat).starts_with("Failed to parse response: "));
        }
        other => panic!("{:?}", other),
    }
    assert_eq!(world.store.len(), 0);
    assert_eq!(world.sent.len(), 1);
}

#[test]
fn failed_commentary_call_keeps_the_answer_and_reports_success() {
    let mut world = World::new();
    world.replies = vec![completion("The answer."), rejected(429, "slow down")];
    let outcome = world.chat("q", false, ConversationLevel::Default);
    assert_eq!(
        outcome,
        Outcome::Chat(ChatResponse {
            main_response: "The answer.".to_string(),
            character_comments: None
        })
    );
    assert_eq!(
        world.log(),
        vec![
            (Role::User, "q".to_string(), ConversationLevel::Default),
            (Role::Assistant, "The answer.".to_string(), ConversationLevel::Default),
        ]
    );
    assert_eq!(world.sent.len(), 2);
}

#[test]
fn commentary_that_cannot_be_used_is_dropped() {
    let unusable = vec![
        CompletionReply::Unreachable { detail: "reset".to_string() },
        rejected(200, "not json"),
        rejected(200, "{}"),
        rejected(200, r#"{"choices":[{"message":{"content":null}}]}"#),
        completion(""),
    ];
    for reply in unusable {
        let mut world = World::new();
        world.replies = vec![completion("A"), reply];
        let outcome = world.chat("q", false, ConversationLevel::Default);
        assert_eq!(
            outcome,
            Outcome::Chat(ChatResponse { main_response: "A".to_string(), character_comments: None })
        );
        assert_eq!(world.store.len(), 2);
    }
}

#[test]
fn missing_answer_in_primary_reply_gives_the_placeholder() {
    let mut world = World::new();
    world.replies = vec![rejected(200, r#"{"choices":[]}"#), completion("hm")];
    let outcome = world.chat("q", false, ConversationLevel::Default);
    assert_eq!(
        outcome,
        Outcome::Chat(ChatResponse {
            main_response: "No response".to_string(),
            character_comments: Some(vec!["hm".to_string()]),
        })
    );
    assert_eq!(world.log()[1], (Role::Assistant, "No response".to_string(), ConversationLevel::Default));
}

#[test]
fn dialogue_level_answers_as_persona_without_commentary() {
    let mut world = World::new();
    world
        .store
        .append(ChatMessage {
            timestamp: "t0".to_string(),
            role: Role::Analyst,
            content: "hidden".to_string(),
            level: ConversationLevel::Analysis,
        })
        .unwrap();
    world
        .store
        .append(ChatMessage {
            timestamp: "t1".to_string(),
            role: Role::Assistant,
            content: "fact".to_string(),
            level: ConversationLevel::Default,
        })
        .unwrap();
    world.replies = vec![completion("Ne~ hello!")];
    let outcome = world.chat("hi you", true, ConversationLevel::Dialogue);
    assert_eq!(
        outcome,
        Outcome::Chat(ChatResponse {
            main_response: "Ne~ hello!".to_string(),
            character_comments: None
        })
    );
    assert_eq!(world.sent.len(), 1);
    assert_eq!(
        world.sent[0].1.messages,
        vec![
            entry(ApiRole::System, DEFAULT_DIALOGUE_PROMPT),
            entry(ApiRole::Assistant, "[AI Assistant Response]: fact"),
            entry(ApiRole::User, "hi you"),
        ]
    );
    assert!(!world.performed.contains(&"screenshot"));
    let log = world.log();
    assert_eq!(log[2], (Role::User, "hi you".to_string(), ConversationLevel::Dialogue));
    assert_eq!(log[3], (Role::Persona, "Ne~ hello!".to_string(), ConversationLevel::Dialogue));
    assert_eq!(log.len(), 4);
}

#[test]
fn analysis_level_answers_as_analyst_without_commentary() {
    let mut world = World::new();
    world.instructions.push((InstructionKind::DeepResearch, "  Reflect.  ".to_string()));
    world.replies = vec![completion("I noticed.")];
    let outcome = world.chat("think", false, ConversationLevel::Analysis);
    assert_eq!(
        outcome,
        Outcome::Chat(ChatResponse {
            main_response: "I noticed.".to_string(),
            character_comments: None
        })
    );
    assert_eq!(
        world.sent[0].1.messages,
        vec![entry(ApiRole::System, "Reflect."), entry(ApiRole::User, "think")]
    );
    assert_eq!(
        world.log(),
        vec![
            (Role::User, "think".to_string(), ConversationLevel::Analysis),
            (Role::Analyst, "I noticed.".to_string(), ConversationLevel::Analysis),
        ]
    );
}

#[test]
fn answer_roles_by_level() {
    assert_eq!(role_of_answer(ConversationLevel::Default), Role::Assistant);
    assert_eq!(role_of_answer(ConversationLevel::Dialogue), Role::Persona);
    assert_eq!(role_of_answer(ConversationLevel::Analysis), Role::Analyst);
}

#[test]
fn screenshot_is_attached_at_default_level_when_asked_for() {
    let mut world = World::new();
    world.screenshot = Ok(b"Man".to_vec());
    world.replies = vec![completion("I see."), completion("wow")];
    world.chat("look", true, ConversationLevel::Default);
    assert_eq!(world.performed[..4], ["load-credential", "load-instruction", "screenshot", "read-history"]);
    assert_eq!(
        world.sent[0].1.messages.last().unwrap(),
        &ApiMessage {
            role: ApiRole::User,
            text: "look".to_string(),
            image_url: Some("data:image/png;base64,TWFu".to_string()),
        }
    );
    assert_eq!(world.log()[0], (Role::User, "look".to_string(), ConversationLevel::Default));
}

#[test]
fn failed_screenshot_fails_the_turn_before_any_request() {
    let mut world = World::new();
    world.screenshot = Err("Screen recording permission required".to_string());
    let outcome = world.chat("look", true, ConversationLevel::Default);
    assert_eq!(outcome, failed(FailureKind::Storage, "Screen recording permission required"));
    assert!(world.sent.is_empty());
    assert_eq!(world.store.len(), 0);
}

#[test]
fn missing_credential_fails_fast() {
    let mut world = World::new();
    world.credential = None;
    let outcome = world.chat("hi", true, ConversationLevel::Default);
    assert_eq!(outcome, failed(FailureKind::Auth, ""));
    assert_eq!(world.performed, vec!["load-credential"]);
    if let Outcome::Failed(failure) = outcome {
        assert_eq!(failure.message(Operation::Chat), "API key not configured");
    }
    world.cooldown = None;
    assert_eq!(world.analyse(), failed(FailureKind::Auth, ""));
    assert!(world.sent.is_empty());
}

#[test]
fn credential_is_sent_without_the_space_around_it() {
    let mut world = World::new();
    world.credential = Some(" sk-padded\n".to_string());
    world.replies = vec![completion("a")];
    world.chat("q", false, ConversationLevel::Dialogue);
    assert_eq!(world.sent[0].0, "sk-padded");
}

#[test]
fn chat_reads_ten_turns_of_history() {
    let mut world = World::new();
    for i in 0..25 {
        world
            .store
            .append(ChatMessage {
                timestamp: format!("t{}", i),
                role: Role::User,
                content: format!("m{}", i),
                level: ConversationLevel::Default,
            })
            .unwrap();
    }
    world.replies = vec![completion("a")];
    world.chat("q", false, ConversationLevel::Dialogue);
    let texts: Vec<&str> = world.sent[0].1.messages.iter().map(|m| m.text.as_str()).collect();
    assert_eq!(texts.len(), 12);
    assert_eq!(texts[1], "m15");
    assert_eq!(texts[10], "m24");
    assert_eq!(texts[11], "q");
}

#[test]
fn storage_failure_after_the_answer_fails_the_turn() {
    let mut world = World::new();
    world.store_fails = true;
    world.replies = vec![completion("The answer."), completion("unused")];
    let outcome = world.chat("q", false, ConversationLevel::Default);
    assert_eq!(outcome, failed(FailureKind::Storage, "database is locked"));
    assert_eq!(world.sent.len(), 1);
}

#[test]
fn empty_user_text_is_refused_by_the_store() {
    let mut world = World::new();
    world.replies = vec![completion("The answer.")];
    let outcome = world.chat("", false, ConversationLevel::Dialogue);
    assert_eq!(outcome, failed(FailureKind::Storage, "message content is empty"));
}

#[test]
fn deep_analysis_runs_records_and_stamps() {
    let mut world = World::new();
    for (role, text) in [(Role::User, "hi"), (Role::Assistant, "hello"), (Role::Persona, "yay")] {
        world
            .store
            .append(ChatMessage {
                timestamp: "t".to_string(),
                role,
                content: text.to_string(),
                level: ConversationLevel::Default,
            })
            .unwrap();
    }
    world.replies = vec![completion("You light up when...")];
    let outcome = world.analyse();
    assert_eq!(
        outcome,
        Outcome::Analysis(DeepResearchResponse {
            on_cooldown: false,
            remaining_seconds: 0,
            main_response: "You light up when...".to_string(),
        })
    );
    assert_eq!(
        world.performed,
        vec![
            "load-cooldown",
            "load-credential",
            "load-instruction",
            "read-history",
            "send",
            "persist",
            "stamp"
        ]
    );
    assert_eq!(world.cooldown, Some("1700000000".to_string()));
    assert_eq!(
        world.sent[0].1,
        CompletionRequest {
            model: "gpt-4o".to_string(),
            messages: vec![
                entry(ApiRole::System, DEFAULT_DEEP_RESEARCH_PROMPT),
                entry(
                    ApiRole::User,
                    "Analyze this conversation history:\n\n[user]: hi\n\n[assistant]: hello\n\n[persona]: yay"
                ),
            ],
            max_tokens: None,
        }
    );
    assert_eq!(
        world.log()[3],
        (Role::Analyst, "You light up when...".to_string(), ConversationLevel::Analysis)
    );
    assert_eq!(world.store.recent(1)[0].timestamp, STAMP);
}

#[test]
fn second_deep_analysis_within_a_second_is_blocked() {
    let mut world = World::new();
    world.replies = vec![completion("first insights"), completion("must not be asked for")];
    let first = world.analyse();
    assert!(matches!(first, Outcome::Analysis(DeepResearchResponse { on_cooldown: false, .. })));
    let turns_after_first = world.store.len();
    world.clock.epoch_seconds += 1;
    world.performed.clear();
    let second = world.analyse();
    assert_eq!(
        second,
        Outcome::Analysis(DeepResearchResponse {
            on_cooldown: true,
            remaining_seconds: 21_599,
            main_response: String::new(),
        })
    );
    assert_eq!(world.sent.len(), 1);
    assert_eq!(world.performed, vec!["load-cooldown"]);
    assert_eq!(world.store.len(), turns_after_first);
    assert_eq!(world.cooldown, Some("1700000000".to_string()));
}

#[test]
fn deep_analysis_is_admitted_again_after_six_hours() {
    let mut world = World::new();
    world.cooldown = Some("1700000000".to_string());
    world.clock.epoch_seconds = 1_700_000_000 + 21_599;
    assert_eq!(
        world.analyse(),
        Outcome::Analysis(DeepResearchResponse {
            on_cooldown: true,
            remaining_seconds: 1,
            main_response: String::new(),
        })
    );
    world.clock.epoch_seconds = 1_700_000_000 + 21_600;
    world.replies = vec![completion("again")];
    assert_eq!(
        world.analyse(),
        Outcome::Analysis(DeepResearchResponse {
            on_cooldown: false,
            remaining_seconds: 0,
            main_response: "again".to_string(),
        })
    );
    assert_eq!(world.cooldown, Some("1700021600".to_string()));
}

#[test]
fn unreadable_stamp_does_not_block() {
    let mut world = World::new();
    world.cooldown = Some("yesterday".to_string());
    world.replies = vec![completion("insights")];
    assert!(matches!(
        world.analyse(),
        Outcome::Analysis(DeepResearchResponse { on_cooldown: false, .. })
    ));
}

#[test]
fn failed_deep_analysis_does_not_stamp() {
    for reply in [
        rejected(500, "boom"),
        rejected(200, "not json"),
        CompletionReply::Unreachable { detail: "offline".to_string() },
    ] {
        let mut world = World::new();
        world.replies = vec![reply];
        assert!(matches!(world.analyse(), Outcome::Failed(_)));
        assert_eq!(world.cooldown, None);
        assert_eq!(world.store.len(), 0);
        assert!(!world.performed.contains(&"stamp"));
    }
    let mut world = World::new();
    world.store_fails = true;
    world.replies = vec![completion("insights")];
    assert_eq!(world.analyse(), failed(FailureKind::Storage, "database is locked"));
    assert_eq!(world.cooldown, None);
}

#[test]
fn rejected_deep_analysis_names_the_body() {
    let mut world = World::new();
    world.replies = vec![rejected(403, "forbidden")];
    match world.analyse() {
        Outcome::Failed(failure) => {
            assert_eq!(failure.message(Operation::DeepAnalysis), "API request failed: forbidden")
        }
        other => panic!("{:?}", other),
    }
}

#[test]
fn missing_insights_give_the_placeholder() {
    let mut world = World::new();
    world.replies = vec![rejected(200, "{}")];
    assert_eq!(
        world.analyse(),
        Outcome::Analysis(DeepResearchResponse {
            on_cooldown: false,
            remaining_seconds: 0,
            main_response: "No insights generated".to_string(),
        })
    );
}

#[test]
fn deep_analysis_reads_fifty_turns() {
    let mut world = World::new();
    for i in 0..60 {
        world
            .store
            .append(ChatMessage {
                timestamp: "t".to_string(),
                role: Role::User,
                content: format!("m{}", i),
                level: ConversationLevel::Default,
            })
            .unwrap();
    }
    world.replies = vec![completion("ok")];
    world.analyse();
    let task = &world.sent[0].1.messages[1].text;
    assert!(task.starts_with("Analyze this conversation history:\n\n[user]: m10\n\n[user]: m11"));
    assert!(task.ends_with("[user]: m59"));
    assert!(!task.contains("m9\n"));
}

#[test]
fn event_out_of_turn_ends_the_session() {
    let (session, effect) = Session::chat("q".to_string(), false, ConversationLevel::Default);
    assert_eq!(effect, Effect::LoadCredential);
    assert_eq!(session.phase(), Phase::Credential);
    let (session, effect) = session.step(Event::Persisted(Ok(())));
    assert_eq!(
        effect,
        Effect::Finish(failed(FailureKind::Protocol, "the session was not waiting for this event"))
    );
    assert!(session.is_done());
    let (session, effect) = session.step(Event::Credential(Ok(Some("k".to_string()))));
    assert!(matches!(effect, Effect::Finish(Outcome::Failed(_))));
    assert_eq!(session.phase(), Phase::Done);
}

#[test]
fn moment_out_of_range_fails_before_recording() {
    let mut world = World::new();
    world.clock = Moment { epoch_seconds: u64::MAX, subsec_nanos: 0 };
    world.replies = vec![completion("a")];
    let outcome = world.chat("q", false, ConversationLevel::Dialogue);
    assert_eq!(outcome, failed(FailureKind::Limit, "the time of the reply is out of range"));
    assert_eq!(world.store.len(), 0);
}

#[test]
fn turns_of_an_answered_message() {
    let turns = chat_turns(ConversationLevel::Dialogue, "2024-01-01T00:00:00+00:00", "in", "out");
    assert_eq!(
        turns,
        vec![
            ChatMessage {
                timestamp: "2024-01-01T00:00:00+00:00".to_string(),
                role: Role::User,
                content: "in".to_string(),
                level: ConversationLevel::Dialogue,
            },
            ChatMessage {
                timestamp: "2024-01-01T00:00:00+00:00".to_string(),
                role: Role::Persona,
                content: "out".to_string(),
                level: ConversationLevel::Dialogue,
            },
        ]
    );
}

#[test]
fn turn_of_an_analysis_and_of_a_commentary() {
    assert_eq!(
        analysis_turns("t1", "insight"),
        vec![ChatMessage {
            timestamp: "t1".to_string(),
            role: Role::Analyst,
            content: "insight".to_string(),
            level: ConversationLevel::Analysis,
        }]
    );
    assert_eq!(
        commentary_turns("t2", " hm "),
        vec![ChatMessage {
            timestamp: "t2".to_string(),
            role: Role::Persona,
            content: " hm ".to_string(),
            level: ConversationLevel::Default,
        }]
    );
}

#[test]
fn every_session_ends_within_eleven_events() {
    let events = || {
        vec![
            Event::Cooldown {
                stored: Ok(None),
                now: Moment { epoch_seconds: 10, subsec_nanos: 0 },
            },
            Event::Credential(Ok(Some("k".to_string()))),
            Event::Instruction(Ok(None)),
            Event::Screenshot(Ok(vec![1, 2, 3])),
            Event::History(Ok(Vec::new())),
            Event::Reply { reply: completion("a"), at: Moment { epoch_seconds: 10, subsec_nanos: 0 } },
            Event::Persisted(Ok(())),
            Event::Instruction(Ok(Some("c".to_string()))),
            Event::Reply { reply: completion("b"), at: Moment { epoch_seconds: 11, subsec_nanos: 0 } },
            Event::Persisted(Ok(())),
            Event::Stamped(Ok(())),
        ]
    };
    let starts = vec![
        Session::chat("q".to_string(), true, ConversationLevel::Default),
        Session::chat("q".to_string(), false, ConversationLevel::Dialogue),
        Session::deep_analysis(),
    ];
    for (mut session, _) in starts {
        let mut finishes = 0;
        for event in events() {
            let (next_session, effect) = session.step(event);
            session = next_session;
            if matches!(effect, Effect::Finish(_)) {
                finishes += 1;
                assert!(session.is_done());
            } else {
                assert!(!session.is_done());
            }
        }
        assert!(session.is_done());
        assert!(finishes >= 1);
    }
}
