use context_tracker::extractor::FactExtractor;
use context_tracker::fact::FactType;

#[test]
fn test_extract_decision() {
    let extractor = FactExtractor::new("test-project".to_string());
    let facts = extractor.extract_from_message("I decided to use Rust for this project", None);
    assert_eq!(facts.len(), 1);
    assert_eq!(facts[0].fact_type, FactType::Decision);
    assert_eq!(facts[0].importance, 4);
}

#[test]
fn test_extract_blocker() {
    let extractor = FactExtractor::new("test-project".to_string());
    let facts = extractor.extract_from_message("Error: failed to connect to database", None);
    assert_eq!(facts.len(), 1);
    assert_eq!(facts[0].fact_type, FactType::Blocker);
    assert_eq!(facts[0].importance, 5);
}

#[test]
fn test_extract_todo() {
    let extractor = FactExtractor::new("test-project".to_string());
    let facts = extractor.extract_from_message("TODO: implement error handling", None);
    assert_eq!(facts.len(), 1);
    assert_eq!(facts[0].fact_type, FactType::Todo);
}

#[test]
fn test_extract_file_change() {
    let extractor = FactExtractor::new("test-project".to_string());
    let facts = extractor.extract_from_message("Created new file: src/main.rs", None);
    assert_eq!(facts.len(), 1);
    assert_eq!(facts[0].fact_type, FactType::FileChange);
}

#[test]
fn test_extract_multiple() {
    let extractor = FactExtractor::new("test-project".to_string());
    let facts = extractor.extract_from_message(
        "I decided to use SQLite. TODO: add migrations. Created database.rs file.",
        None,
    );
    assert_eq!(facts.len(), 3);
}

#[test]
fn extract_multiple_keeps_category_order() {
    let extractor = FactExtractor::new("p".to_string());
    let facts = extractor.extract_from_message(
        "I decided to use SQLite. TODO: add migrations. Created database.rs file.",
        None,
    );
    assert_eq!(facts[0].fact_type, FactType::Decision);
    assert_eq!(facts[1].fact_type, FactType::Todo);
    assert_eq!(facts[2].fact_type, FactType::FileChange);
}

#[test]
fn extract_nothing_from_plain_text() {
    let extractor = FactExtractor::new("p".to_string());
    let facts = extractor.extract_from_message("The weather was nice today.", None);
    assert_eq!(facts.len(), 0);
}

#[test]
fn extract_is_case_insensitive() {
    let extractor = FactExtractor::new("p".to_string());
    let facts = extractor.extract_from_message("we DECIDED TO ship it", None);
    assert_eq!(facts.len(), 1);
    assert_eq!(facts[0].fact_type, FactType::Decision);
}

#[test]
fn extract_splits_lines_and_skips_blanks() {
    let extractor = FactExtractor::new("p".to_string());
    let facts = extractor.extract_from_message(
        "  decided to use serde  \n\n   \nerror: it broke\n",
        None,
    );
    assert_eq!(facts.len(), 2);
    assert_eq!(facts[0].fact_type, FactType::Decision);
    assert_eq!(facts[0].content, "  decided to use serde  ");
    assert_eq!(facts[1].fact_type, FactType::Blocker);
    assert_eq!(facts[1].content, "error: it broke");
}

#[test]
fn extract_keeps_the_full_original_line() {
    let extractor = FactExtractor::new("p".to_string());
    let facts = extractor.extract_from_message(" decided to use serde", None);
    assert_eq!(facts.len(), 1);
    assert_eq!(facts[0].content, " decided to use serde");
    let facts = extractor.extract_from_message("decided to use serde\r\nTODO: docs\r\n", None);
    assert_eq!(facts.len(), 2);
    assert_eq!(facts[0].content, "decided to use serde");
    assert_eq!(facts[1].content, "TODO: docs");
}

#[test]
fn extract_carries_project_and_session() {
    let extractor = FactExtractor::new("proj-7".to_string());
    let facts = extractor.extract_from_message("chose to go with tokio", Some("sess-1".to_string()));
    assert_eq!(facts.len(), 1);
    assert_eq!(facts[0].project, "proj-7");
    assert_eq!(facts[0].session.as_deref(), Some("sess-1"));
    assert_eq!(facts[0].stale, None);
}

#[test]
fn file_change_needs_verb_and_extension() {
    let extractor = FactExtractor::new("p".to_string());
    assert_eq!(extractor.extract_from_message("main.rs is nice", None).len(), 0);
    assert_eq!(extractor.extract_from_message("updated the roadmap", None).len(), 0);
    let facts = extractor.extract_from_message("deleted old helpers.py today", None);
    assert_eq!(facts.len(), 1);
    assert_eq!(facts[0].fact_type, FactType::FileChange);
}

#[test]
fn try_extract_dependency_matches_tool_invocations() {
    let extractor = FactExtractor::new("p".to_string());
    let fact = extractor.try_extract_dependency("ran cargo add serde for this", None);
    assert!(fact.is_some());
    assert_eq!(fact.unwrap().importance, 4);
    assert!(extractor.try_extract_dependency("nothing here", None).is_none());
}

#[test]
fn try_extract_insight_matches_discoveries() {
    let extractor = FactExtractor::new("p".to_string());
    let fact = extractor.try_extract_insight("I discovered a race in the cache", None);
    assert!(fact.is_some());
    assert_eq!(fact.unwrap().fact_type, FactType::Insight);
}
