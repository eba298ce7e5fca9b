use context_tracker::extractor::FactExtractor;
use context_tracker::fact::{ExtractedFact, FactType};
use context_tracker::parser::parse_conversation_log;
use context_tracker::pipeline::{
    extract_log_facts, is_log_file_path, paths_to_process, session_payload_for_log,
    session_summary, stale_fact_ids, WatchEventKind,
};

const LOG_TEXT: &str = r#"{
    "conversation_id": "conv-1",
    "messages": [
        {"role": "user", "content": "Please pick a database"},
        {"role": "assistant", "content": "I decided to use SQLite.\nTODO: add migrations."},
        {"role": "user", "content": "decided to ignore this user line"}
    ]
}"#;

#[test]
fn extract_log_facts_reads_assistant_messages_only() {
    let log = parse_conversation_log(LOG_TEXT).unwrap();
    let extractor = FactExtractor::new("proj".to_string());
    let facts = extract_log_facts(&extractor, &log, "sess-9");
    assert_eq!(facts.len(), 2);
    assert_eq!(facts[0].fact_type, FactType::Decision);
    assert_eq!(facts[1].fact_type, FactType::Todo);
    assert!(facts.iter().all(|f| f.session.as_deref() == Some("sess-9")));
    assert!(facts.iter().all(|f| f.project == "proj"));
}

#[test]
fn test_reprocessing_a_file_duplicates_sessions_and_facts() {
    // The catch-up pass is deliberately not idempotent: running it twice
    // over the same file builds a second session payload and the same fact
    // set again, so both get persisted anew.
    let extractor = FactExtractor::new("proj".to_string());

    let log_one = parse_conversation_log(LOG_TEXT).unwrap();
    let session_one = session_payload_for_log(&log_one, "proj");
    let facts_one = extract_log_facts(&extractor, &log_one, "sess-a");

    let log_two = parse_conversation_log(LOG_TEXT).unwrap();
    let session_two = session_payload_for_log(&log_two, "proj");
    let facts_two = extract_log_facts(&extractor, &log_two, "sess-b");

    assert_eq!(session_one.summary, session_two.summary);
    assert_eq!(session_one.token_count, session_two.token_count);
    assert_eq!(facts_one.len(), facts_two.len());
    for (a, b) in facts_one.iter().zip(facts_two.iter()) {
        assert_eq!(a.fact_type, b.fact_type);
        assert_eq!(a.content, b.content);
        assert_eq!(a.importance, b.importance);
    }
}

#[test]
fn session_summary_uses_first_user_message() {
    let log = parse_conversation_log(LOG_TEXT).unwrap();
    assert_eq!(session_summary(&log), "Please pick a database");
}

#[test]
fn session_summary_fallbacks() {
    let empty = parse_conversation_log(r#"{"messages": []}"#).unwrap();
    assert_eq!(session_summary(&empty), "Empty conversation");
    let no_user = parse_conversation_log(
        r#"{"messages": [{"role": "assistant", "content": "hi"}]}"#,
    )
    .unwrap();
    assert_eq!(session_summary(&no_user), "Conversation");
}

#[test]
fn session_summary_truncates_long_first_message() {
    let long = "z".repeat(150);
    let text = format!(
        r#"{{"messages": [{{"role": "user", "content": "{}"}}]}}"#,
        long
    );
    let log = parse_conversation_log(&text).unwrap();
    let summary = session_summary(&log);
    assert_eq!(summary.len(), 100);
    assert!(summary.ends_with("..."));
}

#[test]
fn session_payload_counts_tokens() {
    let log = parse_conversation_log(LOG_TEXT).unwrap();
    let payload = session_payload_for_log(&log, "proj");
    assert_eq!(payload.project, "proj");
    assert_eq!(payload.facts_extracted, Some(0));
    let expected = ("Please pick a database".len()
        + "I decided to use SQLite.\nTODO: add migrations.".len()
        + "decided to ignore this user line".len()) as i64
        / 4;
    assert_eq!(payload.token_count, Some(expected));
    assert_eq!(payload.session_end, None);
}

#[test]
fn stale_fact_ids_picks_only_stale_facts() {
    let mk = |id: &str, fact_type, content: &str, created| ExtractedFact {
        id: id.to_string(),
        project: "p".to_string(),
        session: None,
        fact_type,
        content: content.to_string(),
        importance: 3,
        stale: false,
        created,
        updated: created,
    };
    let now = 100 * 86400;
    let facts = vec![
        mk("keep", FactType::Decision, "we use rust", now - 86400),
        mk("old-blocker", FactType::Blocker, "stuck on ci", now - 4 * 86400),
        mk("resolved", FactType::Todo, "TODO resolved already", now),
    ];
    let ids = stale_fact_ids(&facts, now);
    assert_eq!(ids, vec!["old-blocker".to_string(), "resolved".to_string()]);
}

#[test]
fn log_file_paths_need_a_json_extension() {
    assert!(is_log_file_path("/home/u/logs/session.json"));
    assert!(is_log_file_path("relative/a.b.json"));
    assert!(!is_log_file_path("/home/u/logs/session.txt"));
    assert!(!is_log_file_path("/home/u/logs/.json"));
    assert!(!is_log_file_path("/home/u/logs/json"));
    assert!(!is_log_file_path("/home/u/archive.json/readme"));
}

#[test]
fn watch_events_filter_paths() {
    let paths = vec![
        "/logs/a.json".to_string(),
        "/logs/notes.txt".to_string(),
        "/logs/b.json".to_string(),
    ];
    let picked = paths_to_process(WatchEventKind::Modify, &paths);
    assert_eq!(picked, vec!["/logs/a.json".to_string(), "/logs/b.json".to_string()]);
    assert!(paths_to_process(WatchEventKind::Other, &paths).is_empty());
    assert_eq!(paths_to_process(WatchEventKind::Create, &paths).len(), 2);
}
