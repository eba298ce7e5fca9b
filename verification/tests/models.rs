use context_tracker::fact::{ExtractedFact, FactStats, FactType};
use context_tracker::project::{Project, ProjectStatus};
use context_tracker::section::{ContextSection, SectionType};

fn plain_fact(id: &str, fact_type: FactType, importance: i32, stale: bool) -> ExtractedFact {
    ExtractedFact {
        id: id.to_string(),
        project: "test".to_string(),
        session: None,
        fact_type,
        content: "Test".to_string(),
        importance,
        stale,
        created: 0,
        updated: 0,
    }
}

#[test]
fn test_importance_stars() {
    let mut fact = ExtractedFact::new("test".to_string(), FactType::Decision, "Test".to_string());

    fact.importance = 5;
    assert_eq!(fact.importance_stars(), "★★★★★");

    fact.importance = 3;
    assert_eq!(fact.importance_stars(), "★★★☆☆");

    fact.importance = 1;
    assert_eq!(fact.importance_stars(), "★☆☆☆☆");
}

#[test]
fn test_fact_stats() {
    let facts = vec![
        plain_fact("1", FactType::Decision, 5, false),
        plain_fact("2", FactType::Blocker, 4, true),
    ];

    let stats = FactStats::from_facts(&facts);
    assert_eq!(stats.total, 2);
    assert_eq!(stats.high_importance, 2);
    assert_eq!(stats.stale, 1);
    assert_eq!(stats.count_for_type(FactType::Decision), 1);
    assert_eq!(stats.count_for_type(FactType::Todo), 0);
}

#[test]
fn fact_type_names() {
    assert_eq!(FactType::FileChange.as_str(), "file_change");
    assert_eq!(FactType::FileChange.display_name(), "File Change");
    assert_eq!(FactType::Blocker.icon_name(), "dialog-error-symbolic");
    assert_eq!(FactType::Decision.color_class(), "success");
    assert_eq!(FactType::all().len(), 6);
    assert_eq!(FactType::default(), FactType::Insight);
}

#[test]
fn enum_identifiers_round_trip() {
    for fact_type in FactType::all() {
        assert_eq!(FactType::from_str(fact_type.as_str()), fact_type);
    }
    for status in ProjectStatus::all() {
        assert_eq!(ProjectStatus::from_str(status.as_str()), status);
    }
    for section_type in SectionType::all() {
        assert_eq!(SectionType::from_str(section_type.as_str()), section_type);
    }
}

#[test]
fn unknown_identifiers_fall_back() {
    assert_eq!(FactType::from_str("mystery"), FactType::Insight);
    assert_eq!(ProjectStatus::from_str("mystery"), ProjectStatus::Active);
    assert_eq!(SectionType::from_str("mystery"), SectionType::Custom);
}

#[test]
fn fact_importance_bands() {
    let high = plain_fact("1", FactType::Decision, 4, false);
    assert!(high.is_high_importance());
    assert!(!high.is_low_importance());
    let low = plain_fact("2", FactType::Todo, 2, false);
    assert!(low.is_low_importance());
}

#[test]
fn fact_content_preview_truncates() {
    let mut fact = plain_fact("1", FactType::Insight, 3, false);
    fact.content = "x".repeat(81);
    let preview = fact.content_preview();
    assert_eq!(preview.len(), 80);
    assert!(preview.ends_with("..."));
    fact.content = "short".to_string();
    assert_eq!(fact.content_preview(), "short");
}

#[test]
fn fact_age_words() {
    assert_eq!(ExtractedFact::age_words(0), "Today");
    assert_eq!(ExtractedFact::age_words(1), "Yesterday");
    assert_eq!(ExtractedFact::age_words(3), "3 days ago");
    assert_eq!(ExtractedFact::age_words(10), "1 week ago");
    assert_eq!(ExtractedFact::age_words(15), "2 weeks ago");
    assert_eq!(ExtractedFact::age_words(45), "1 month ago");
    assert_eq!(ExtractedFact::age_words(90), "3 months ago");
}

#[test]
fn fact_age_days_at_counts_whole_days() {
    let fact = plain_fact("1", FactType::Todo, 3, false);
    assert_eq!(fact.age_days_at(86399), 0);
    assert_eq!(fact.age_days_at(86400), 1);
    assert_eq!(fact.age_days_at(7 * 86400 + 5), 7);
}

#[test]
fn project_new_derives_slug() {
    let project = Project::new("My Cool Project".to_string());
    assert_eq!(project.slug, "my-cool-project");
    assert_eq!(project.status, ProjectStatus::Active);
    assert_eq!(project.priority, 0);
    assert!(project.tech_stack.is_empty());
}

#[test]
fn project_tech_stack_display_joins() {
    let mut project = Project::new("P".to_string());
    assert_eq!(project.tech_stack_display(), "No tech stack specified");
    project.tech_stack = vec!["Rust".to_string(), "GTK4".to_string()];
    assert_eq!(project.tech_stack_display(), "Rust, GTK4");
}

#[test]
fn project_status_names() {
    assert_eq!(ProjectStatus::Paused.as_str(), "paused");
    assert_eq!(ProjectStatus::Idea.display_name(), "Idea");
    assert_eq!(ProjectStatus::all().len(), 4);
    assert_eq!(ProjectStatus::default(), ProjectStatus::Active);
    let mut project = Project::new("P".to_string());
    project.status = ProjectStatus::Archived;
    assert_eq!(project.status_color(), "error");
}

#[test]
fn section_type_names() {
    assert_eq!(SectionType::CurrentState.as_str(), "current_state");
    assert_eq!(SectionType::NextSteps.display_name(), "Next Steps");
    assert_eq!(SectionType::Gotchas.icon_name(), "dialog-warning-symbolic");
    assert_eq!(SectionType::all().len(), 6);
    assert_eq!(SectionType::default(), SectionType::Custom);
}

#[test]
fn section_markdown_and_preview() {
    let mut section = ContextSection::new(
        "proj".to_string(),
        SectionType::Architecture,
        "Architecture".to_string(),
    );
    section.content = "Layered.".to_string();
    assert_eq!(section.to_markdown(), "## Architecture\n\nLayered.\n\n");
    assert_eq!(section.content_preview(), "Layered.");
    section.content = "y".repeat(101);
    assert_eq!(section.content_preview().len(), 100);
}

#[test]
fn payload_conversions_copy_fields() {
    let mut fact = plain_fact("1", FactType::Todo, 3, true);
    fact.session = Some("s".to_string());
    let payload = fact.to_payload();
    assert_eq!(payload.project, "test");
    assert_eq!(payload.session.as_deref(), Some("s"));
    assert_eq!(payload.importance, 3);
    assert_eq!(payload.stale, Some(true));

    let section = ContextSection::new("proj".to_string(), SectionType::Custom, "T".to_string());
    let section_payload = section.to_payload();
    assert_eq!(section_payload.auto_extracted, Some(false));

    let project = Project::new("Name Here".to_string());
    let project_payload = project.to_payload();
    assert_eq!(project_payload.slug, "name-here");
}
