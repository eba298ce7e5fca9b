//! Desktop notifications about pipeline events. Each function here composes
//! the notification's text in verified code; showing it is a side effect on
//! the desktop, done by one trusted wrapper, and nothing is promised of it.

use vstd::prelude::*;
use vstd::string::StringExecFns;

use crate::text::format_u64;

verus! {

/// Relies on notify_rust's `Notification`: shows a desktop notification
/// with the given summary and body, the application icon and a five-second
/// timeout. A failure to show it is ignored. `Notification::new` reads the
/// current executable's name for the default application name and panics
/// when that path is absent or not UTF-8; the crate's API offers no way
/// around that read.
#[verifier::external_body]
fn send_notification(summary: &str, body: &str) {
    let _ = notify_rust::Notification::new()
        .summary(summary)
        .body(body)
        .icon("com.github.contexttracker")
        .timeout(notify_rust::Timeout::Milliseconds(5000))
        .show();
}

/// Relies on notify_rust's `Notification`: whether a notification can be
/// shown on this system, tried by showing an empty one. The same
/// executable-name read as above applies.
#[verifier::external_body]
pub fn notifications_supported() -> bool {
    notify_rust::Notification::new()
        .summary("")
        .body("")
        .timeout(notify_rust::Timeout::Milliseconds(0))
        .show()
        .is_ok()
}

/// Announces newly extracted facts for a project.
pub fn notify_facts_extracted(project_name: &str, fact_count: usize) {
    let mut summary = "Facts Extracted: ".to_owned();
    summary.append(project_name);
    let mut body = "Extracted ".to_owned();
    body.append(format_u64(fact_count as u64).as_str());
    body.append(" new fact");
    if fact_count != 1 {
        body.append("s");
    }
    body.append(" from the assistant conversation");
    send_notification(summary.as_str(), body.as_str());
}

/// Announces that a session's token count passed the configured threshold.
pub fn notify_token_threshold(project_name: &str, current_tokens: usize, threshold: usize) {
    let mut summary = "\u{26a0} Token Threshold: ".to_owned();
    summary.append(project_name);
    let mut body = "Context size is ".to_owned();
    body.append(format_u64(current_tokens as u64).as_str());
    body.append(" tokens (threshold: ");
    body.append(format_u64(threshold as u64).as_str());
    body.append(")\nConsider compacting or exporting context");
    send_notification(summary.as_str(), body.as_str());
}

/// Announces that background monitoring started for a project.
pub fn notify_monitoring_started(project_name: &str) {
    let mut body = "Now monitoring assistant logs for \"".to_owned();
    body.append(project_name);
    body.append("\"");
    send_notification("Monitoring Started", body.as_str());
}

/// Announces that background monitoring was disabled.
pub fn notify_monitoring_stopped() {
    send_notification("Monitoring Stopped", "Background monitoring has been disabled");
}

/// Announces that a project's context was exported to a file.
pub fn notify_context_pulled(project_name: &str, output_path: Option<&str>) {
    let mut summary = "Context Pulled: ".to_owned();
    summary.append(project_name);
    let body = match output_path {
        Some(path) => {
            let mut b = "Exported to ".to_owned();
            b.append(path);
            b
        },
        None => "Exported to the default context file".to_owned(),
    };
    send_notification(summary.as_str(), body.as_str());
}

/// Announces that a session summary was saved for a project.
pub fn notify_context_pushed(project_name: &str, tokens: Option<usize>) {
    let mut summary = "Context Saved: ".to_owned();
    summary.append(project_name);
    let body = match tokens {
        Some(token_count) => {
            let mut b = "Session saved with ".to_owned();
            b.append(format_u64(token_count as u64).as_str());
            b.append(" tokens");
            b
        },
        None => "Session summary saved".to_owned(),
    };
    send_notification(summary.as_str(), body.as_str());
}

/// Announces a newly created project.
pub fn notify_project_created(project_name: &str) {
    let mut body = "New project \"".to_owned();
    body.append(project_name);
    body.append("\" ready to track");
    send_notification("Project Created", body.as_str());
}

/// Announces a finished export.
pub fn notify_export_complete(project_name: &str, format_name: &str) {
    let mut summary = "Export Complete: ".to_owned();
    summary.append(project_name);
    let mut body = "Exported to ".to_owned();
    body.append(format_name);
    body.append(" format");
    send_notification(summary.as_str(), body.as_str());
}

/// Announces an error.
pub fn notify_error(title: &str, message: &str) {
    let mut summary = "\u{26a0} Error: ".to_owned();
    summary.append(title);
    send_notification(summary.as_str(), message);
}

} // verus!
