use context_tracker::markdown::{generate_claude_md, generate_claude_md_at};
use context_tracker::project::{Project, ProjectStatus};
use context_tracker::section::{ContextSection, SectionType};

fn test_project() -> Project {
    Project {
        id: "test".to_string(),
        name: "Test Project".to_string(),
        slug: "test-project".to_string(),
        repo_path: None,
        status: ProjectStatus::Active,
        priority: 0,
        tech_stack: vec!["Rust".to_string(), "GTK4".to_string()],
        description: Some("A test project".to_string()),
        created: 0,
        updated: 0,
    }
}

fn section(title: &str, content: &str, order: i32) -> ContextSection {
    ContextSection {
        id: title.to_string(),
        project: "test".to_string(),
        section_type: SectionType::Architecture,
        title: title.to_string(),
        content: content.to_string(),
        order,
        auto_extracted: false,
        created: 0,
        updated: 0,
    }
}

#[test]
fn test_generate_claude_md() {
    let project = test_project();
    let sections = vec![section("Architecture", "Test architecture content", 0)];

    let md = generate_claude_md(&project, &sections);

    assert!(md.contains("# Test Project"));
    assert!(md.contains("## Tech Stack"));
    assert!(md.contains("- Rust"));
    assert!(md.contains("## Architecture"));
    assert!(md.contains("Test architecture content"));
}

#[test]
fn generate_claude_md_at_is_exact() {
    let project = test_project();
    let sections = vec![section("Architecture", "Layered.", 0)];
    let md = generate_claude_md_at(&project, &sections, "2024-01-02 03:04 UTC");
    assert_eq!(
        md,
        "# Test Project\n\n## Project Overview\nA test project\n\n\
         ## Tech Stack\n- Rust\n- GTK4\n\n\
         ## Architecture\n\nLayered.\n\n\
         ---\n_Last updated: 2024-01-02 03:04 UTC_\n"
    );
}

#[test]
fn generate_claude_md_sorts_sections_by_order() {
    let project = test_project();
    let sections = vec![
        section("Second", "b", 5),
        section("First", "a", 1),
        section("Third", "c", 9),
    ];
    let md = generate_claude_md_at(&project, &sections, "ts");
    let first = md.find("## First").unwrap();
    let second = md.find("## Second").unwrap();
    let third = md.find("## Third").unwrap();
    assert!(first < second && second < third);
}

#[test]
fn generate_claude_md_skips_empty_parts() {
    let mut project = test_project();
    project.description = None;
    project.tech_stack = vec![];
    let md = generate_claude_md_at(&project, &vec![], "ts");
    assert_eq!(md, "# Test Project\n\n## Project Overview\n---\n_Last updated: ts_\n");
}
