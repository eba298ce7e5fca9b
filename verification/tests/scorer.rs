use context_tracker::fact::{ExtractedFact, FactType};
use context_tracker::scorer::{ImportanceScorer, StalenessDetector};

fn fact_with(fact_type: FactType, content: &str, created: i64) -> ExtractedFact {
    ExtractedFact {
        id: "test".to_string(),
        project: "proj".to_string(),
        session: None,
        fact_type,
        content: content.to_string(),
        importance: 0,
        stale: false,
        created,
        updated: created,
    }
}

#[test]
fn test_blocker_has_high_score() {
    let now = chrono::Utc::now().timestamp();
    let fact = fact_with(FactType::Blocker, "Error in production", now);
    let score = ImportanceScorer::calculate_score(&fact);
    assert!(score >= 4, "Blockers should have high score");
}

#[test]
fn test_critical_keyword_bonus() {
    let now = chrono::Utc::now().timestamp();
    let fact = fact_with(FactType::Todo, "CRITICAL: Fix security vulnerability", now);
    let score = ImportanceScorer::calculate_score(&fact);
    assert!(score >= 4, "Critical todos should get bonus");
}

#[test]
fn test_old_blocker_is_stale() {
    let now = chrono::Utc::now().timestamp();
    let fact = fact_with(FactType::Blocker, "Some old blocker", now - 5 * 86400);
    assert!(StalenessDetector::is_stale(&fact), "Old blocker should be stale");
}

#[test]
fn test_resolved_is_stale() {
    let now = chrono::Utc::now().timestamp();
    let fact = fact_with(FactType::Todo, "TODO: Fix bug - RESOLVED", now);
    assert!(StalenessDetector::is_stale(&fact), "Resolved fact should be stale");
}

#[test]
fn score_is_deterministic_at_an_instant() {
    let fact = fact_with(FactType::Decision, "decided to rewrite the slow parser", 1_000_000);
    let now = 1_000_100;
    let first = ImportanceScorer::score_at(&fact, now);
    let second = ImportanceScorer::score_at(&fact, now);
    assert_eq!(first, second);
    assert!((1..=5).contains(&first));
}

#[test]
fn content_bonus_is_capped_at_two() {
    let mut content = String::from("critical breaking slow ");
    while content.len() <= 200 {
        content.push('x');
    }
    let bonus = ImportanceScorer::analyze_content(&content);
    assert_eq!(bonus, 2, "four firing rules must still give only +2");
    let fact = fact_with(FactType::Todo, &content, 0);
    assert_eq!(ImportanceScorer::score_at(&fact, 0), 5);
}

#[test]
fn score_at_exact_values() {
    let fresh = fact_with(FactType::Todo, "need to write docs", 10_000);
    assert_eq!(ImportanceScorer::score_at(&fresh, 10_000), 4);
    let today = fact_with(FactType::Todo, "need to write docs", 10_000);
    assert_eq!(ImportanceScorer::score_at(&today, 10_000 + 7200), 3);
    let old = fact_with(FactType::Blocker, "blocked by review", 0);
    assert_eq!(ImportanceScorer::score_at(&old, 2 * 86400), 4);
}

#[test]
fn fresh_blocker_scores_at_least_four() {
    let fact = fact_with(FactType::Blocker, "cannot continue, db is down", 500);
    let score = ImportanceScorer::score_at(&fact, 500);
    assert!(score >= 4);
}

#[test]
fn base_scores_follow_the_category_table() {
    assert_eq!(ImportanceScorer::base_score_for_type(FactType::Blocker), 5);
    assert_eq!(ImportanceScorer::base_score_for_type(FactType::Decision), 4);
    assert_eq!(ImportanceScorer::base_score_for_type(FactType::Dependency), 4);
    assert_eq!(ImportanceScorer::base_score_for_type(FactType::FileChange), 3);
    assert_eq!(ImportanceScorer::base_score_for_type(FactType::Todo), 3);
    assert_eq!(ImportanceScorer::base_score_for_type(FactType::Insight), 3);
}

#[test]
fn resolved_is_stale_at_every_age_and_category() {
    let fresh = fact_with(FactType::Decision, "the flaky test was resolved", 0);
    assert!(StalenessDetector::is_stale_at(&fresh, 0));
    let old = fact_with(FactType::Insight, "Resolved: cache invalidation", 0);
    assert!(StalenessDetector::is_stale_at(&old, 400 * 86400));
}

#[test]
fn blocker_staleness_horizon_is_three_days() {
    let fact = fact_with(FactType::Blocker, "waiting on upstream", 0);
    assert!(!StalenessDetector::is_stale_at(&fact, 2 * 86400));
    assert!(StalenessDetector::is_stale_at(&fact, 4 * 86400));
}

#[test]
fn staleness_horizons_per_category() {
    let todo = fact_with(FactType::Todo, "need input", 0);
    assert!(!StalenessDetector::is_stale_at(&todo, 13 * 86400));
    assert!(StalenessDetector::is_stale_at(&todo, 15 * 86400));
    let decision = fact_with(FactType::Decision, "we pick postgres", 0);
    assert!(!StalenessDetector::is_stale_at(&decision, 179 * 86400));
    assert!(StalenessDetector::is_stale_at(&decision, 181 * 86400));
}

#[test]
fn completion_keywords_are_detected() {
    assert!(StalenessDetector::has_completion_keywords("it is DONE now"));
    assert!(StalenessDetector::has_completion_keywords("merged the branch"));
    assert!(!StalenessDetector::has_completion_keywords("still waiting"));
}
