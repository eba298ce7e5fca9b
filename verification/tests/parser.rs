use context_tracker::parser::{parse_conversation_log, ConversationLog, Message, PipelineError};

fn msg(role: &str, content: &str) -> Message {
    Message { role: role.to_string(), content: content.to_string() }
}

#[test]
fn parse_reads_roles_and_contents() {
    let text = r#"{
        "conversation_id": "abc-123",
        "messages": [
            {"role": "user", "content": "Hi"},
            {"role": "assistant", "content": "Hello"}
        ]
    }"#;
    let log = parse_conversation_log(text).unwrap();
    assert_eq!(log.conversation_id.as_deref(), Some("abc-123"));
    assert_eq!(log.messages.len(), 2);
    assert_eq!(log.messages[0].role, "user");
    assert_eq!(log.messages[1].content, "Hello");
}

#[test]
fn parse_allows_missing_or_null_conversation_id() {
    let log = parse_conversation_log(r#"{"messages": []}"#).unwrap();
    assert_eq!(log.conversation_id, None);
    let log = parse_conversation_log(r#"{"conversation_id": null, "messages": []}"#).unwrap();
    assert_eq!(log.conversation_id, None);
}

#[test]
fn parse_rejects_bad_documents() {
    assert_eq!(parse_conversation_log("not json").unwrap_err(), PipelineError::MalformedLog);
    assert_eq!(parse_conversation_log("{}").unwrap_err(), PipelineError::MalformedLog);
    assert_eq!(
        parse_conversation_log(r#"{"messages": "nope"}"#).unwrap_err(),
        PipelineError::MalformedLog
    );
    assert_eq!(
        parse_conversation_log(r#"{"messages": [{"role": "user"}]}"#).unwrap_err(),
        PipelineError::MalformedLog
    );
    assert_eq!(
        parse_conversation_log(r#"{"messages": [{"role": 3, "content": "x"}]}"#).unwrap_err(),
        PipelineError::MalformedLog
    );
}

#[test]
fn test_token_estimate_is_total_chars_over_four() {
    let log = ConversationLog {
        conversation_id: None,
        messages: vec![msg("user", &"a".repeat(40)), msg("assistant", &"b".repeat(8))],
    };
    assert_eq!(log.estimate_tokens(), 12);
}

#[test]
fn token_estimate_rounds_down_and_handles_empty() {
    let empty = ConversationLog { conversation_id: None, messages: vec![] };
    assert_eq!(empty.estimate_tokens(), 0);
    let log = ConversationLog {
        conversation_id: None,
        messages: vec![msg("user", "abcde"), msg("assistant", "fg")],
    };
    assert_eq!(log.estimate_tokens(), 1);
}
