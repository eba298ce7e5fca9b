use context_tracker::session::{format_number_with_separator, SessionHistory};

#[test]
fn test_format_number() {
    assert_eq!(format_number_with_separator(1000), "1,000");
    assert_eq!(format_number_with_separator(100000), "100,000");
    assert_eq!(format_number_with_separator(1234567), "1,234,567");
}

#[test]
fn format_number_small_and_negative() {
    assert_eq!(format_number_with_separator(0), "0");
    assert_eq!(format_number_with_separator(999), "999");
    assert_eq!(format_number_with_separator(-1234), "-1,234");
    assert_eq!(format_number_with_separator(-100000), "-100,000");
    assert_eq!(format_number_with_separator(-1234567), "-1,234,567");
}

#[test]
fn session_new_is_open() {
    let session = SessionHistory::new("proj".to_string(), "Doing things".to_string());
    assert_eq!(session.project, "proj");
    assert_eq!(session.summary, "Doing things");
    assert_eq!(session.facts_extracted, 0);
    assert_eq!(session.token_count, 0);
    assert!(session.is_active());
    assert_eq!(session.duration_display(), "In progress");
}

#[test]
fn session_duration_words() {
    let mut session = SessionHistory::new("p".to_string(), "s".to_string());
    session.session_start = 1000;
    session.session_end = Some(1000 + 90 * 60);
    assert_eq!(session.duration_display(), "1h 30m");
    session.session_end = Some(1000 + 25 * 60);
    assert_eq!(session.duration_display(), "25m");
    assert!(!session.is_active());
}

#[test]
fn session_near_limit_boundary() {
    let mut session = SessionHistory::new("p".to_string(), "s".to_string());
    session.token_count = 170_000;
    assert!(!session.is_near_limit());
    session.token_count = 170_001;
    assert!(session.is_near_limit());
}

#[test]
fn session_token_count_display_groups_thousands() {
    let mut session = SessionHistory::new("p".to_string(), "s".to_string());
    session.token_count = 54_321;
    assert_eq!(session.token_count_display(), "54,321");
}

#[test]
fn session_to_payload_copies_fields() {
    let mut session = SessionHistory::new("p".to_string(), "sum".to_string());
    session.facts_extracted = 7;
    session.token_count = 1234;
    let payload = session.to_payload();
    assert_eq!(payload.project, "p");
    assert_eq!(payload.summary, "sum");
    assert_eq!(payload.facts_extracted, Some(7));
    assert_eq!(payload.token_count, Some(1234));
    assert_eq!(payload.session_end, None);
}
