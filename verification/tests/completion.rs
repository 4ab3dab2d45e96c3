use conversation_engine::completion::{
    answer_steps, interpret, settle, status_is_success, ApiRole, CompletionReply,
};
use conversation_engine::failure::{Failure, FailureKind};
use conversation_engine::json::PathStep;

fn answered(status: u16, body: &str) -> CompletionReply {
    CompletionReply::Answered { status, body: body.to_string() }
}

fn failure(kind: FailureKind, detail: &str) -> Failure {
    Failure { kind, detail: detail.to_string() }
}

#[test]
fn success_is_any_status_from_200_to_299() {
    assert!(!status_is_success(0));
    assert!(!status_is_success(199));
    assert!(status_is_success(200));
    assert!(status_is_success(204));
    assert!(status_is_success(299));
    assert!(!status_is_success(300));
    assert!(!status_is_success(401));
    assert!(!status_is_success(500));
    assert!(!status_is_success(u16::MAX));
}

#[test]
fn answer_stands_at_choices_0_message_content() {
    assert_eq!(
        answer_steps(),
        vec![
            PathStep::Member("choices".to_string()),
            PathStep::Element(0),
            PathStep::Member("message".to_string()),
            PathStep::Member("content".to_string()),
        ]
    );
}

#[test]
fn answer_is_read_from_a_successful_reply() {
    let body = r#"{"id":"x","choices":[{"index":0,"message":{"role":"assistant","content":"Hello there"}}]}"#;
    assert_eq!(interpret(answered(200, body), "No response"), Ok("Hello there".to_string()));
}

#[test]
fn first_choice_is_the_answer() {
    let body = r#"{"choices":[{"message":{"content":"one"}},{"message":{"content":"two"}}]}"#;
    assert_eq!(interpret(answered(201, body), "No response"), Ok("one".to_string()));
}

#[test]
fn escapes_in_the_answer_are_decoded() {
    let body = r#"{"choices":[{"message":{"content":"line\nbreak \"quoted\" é"}}]}"#;
    assert_eq!(interpret(answered(200, body), "-"), Ok("line\nbreak \"quoted\" é".to_string()));
}

#[test]
fn other_status_is_a_failure_with_the_body() {
    assert_eq!(
        interpret(answered(401, r#"{"error":"bad key"}"#), "No response"),
        Err(failure(FailureKind::Rejected, r#"{"error":"bad key"}"#))
    );
    assert_eq!(
        interpret(answered(500, "upstream down"), "No response"),
        Err(failure(FailureKind::Rejected, "upstream down"))
    );
    let good = r#"{"choices":[{"message":{"content":"ignored"}}]}"#;
    assert_eq!(interpret(answered(404, good), "No response"), Err(failure(FailureKind::Rejected, good)));
    assert_eq!(interpret(answered(199, good), "No response"), Err(failure(FailureKind::Rejected, good)));
    assert_eq!(interpret(answered(300, good), "No response"), Err(failure(FailureKind::Rejected, good)));
}

#[test]
fn missing_answer_gives_the_placeholder() {
    for body in [
        "{}",
        "null",
        "[]",
        "17",
        r#""text""#,
        r#"{"choices":[]}"#,
        r#"{"choices":{}}"#,
        r#"{"choices":[{}]}"#,
        r#"{"choices":[{"message":{}}]}"#,
        r#"{"choices":[{"message":{"content":null}}]}"#,
        r#"{"choices":[{"message":{"content":5}}]}"#,
        r#"{"choices":[{"message":{"content":["a"]}}]}"#,
        r#"{"choices":{"0":{"message":{"content":"keyed, not indexed"}}}}"#,
        r#"{"choices":[[{"message":{"content":"nested"}}]]}"#,
        r#"{"Choices":[{"message":{"content":"wrong case"}}]}"#,
    ] {
        assert_eq!(
            interpret(answered(200, body), "No response"),
            Ok("No response".to_string()),
            "{}",
            body
        );
    }
}

#[test]
fn empty_answer_is_an_answer() {
    let body = r#"{"choices":[{"message":{"content":""}}]}"#;
    assert_eq!(interpret(answered(200, body), "No response"), Ok(String::new()));
}

#[test]
fn body_that_is_not_json_is_a_parse_failure() {
    for body in ["", "not json", "{", r#"{"choices":"#, "{} trailing"] {
        match interpret(answered(200, body), "No response") {
            Err(f) => {
                assert_eq!(f.kind, FailureKind::Parse, "{:?}", body);
                assert!(!f.detail.is_empty());
                assert_ne!(f.detail, body);
            }
            other => panic!("{:?} gave {:?}", body, other),
        }
    }
    assert_eq!(
        interpret(answered(200, ""), "x"),
        Err(failure(FailureKind::Parse, "EOF while parsing a value at line 1 column 0"))
    );
}

#[test]
fn unreachable_service_is_a_network_failure() {
    assert_eq!(
        interpret(CompletionReply::Unreachable { detail: "connection refused".to_string() }, "x"),
        Err(failure(FailureKind::Network, "connection refused"))
    );
}

#[test]
fn settle_goes_by_status_first_then_by_the_reading() {
    let body = || "the body".to_string();
    assert_eq!(
        settle(503, body(), Ok(Some("answer".to_string())), "ph"),
        Err(failure(FailureKind::Rejected, "the body"))
    );
    assert_eq!(
        settle(503, body(), Err("bad".to_string()), "ph"),
        Err(failure(FailureKind::Rejected, "the body"))
    );
    assert_eq!(
        settle(200, body(), Err("expected value".to_string()), "ph"),
        Err(failure(FailureKind::Parse, "expected value"))
    );
    assert_eq!(settle(200, body(), Ok(None), "ph"), Ok("ph".to_string()));
    assert_eq!(settle(200, body(), Ok(None), ""), Ok(String::new()));
    assert_eq!(settle(200, body(), Ok(Some("answer".to_string())), "ph"), Ok("answer".to_string()));
    assert_eq!(settle(299, body(), Ok(Some(String::new())), "ph"), Ok(String::new()));
}

#[test]
fn wire_names_of_roles() {
    assert_eq!(ApiRole::System.name(), "system");
    assert_eq!(ApiRole::User.name(), "user");
    assert_eq!(ApiRole::Assistant.name(), "assistant");
}
