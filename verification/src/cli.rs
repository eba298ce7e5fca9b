//! The command-line surface, as plain data. The host's front end parses the
//! process arguments into these types and acts on them; nothing here touches
//! the process environment.

use vstd::prelude::*;

verus! {

/// A parsed command line: at most one command; none means the graphical
/// shell.
#[derive(Debug, Clone)]
pub struct Cli {
    pub command: Option<Commands>,
}

/// Every command the front end accepts, with its arguments.
#[derive(Debug, Clone)]
pub enum Commands {
    /// Export a project's context to a markdown file.
    Pull { project: String, output: Option<String> },
    /// Save a session summary to a project's history.
    Push { project: String, summary: String, tokens: Option<i64> },
    /// Show a project's status and token usage, or all projects'.
    Status { project: Option<String> },
    /// Switch the active project.
    Switch { project: String },
    /// Show the difference between two sessions.
    Diff { project: String, from: Option<String>, to: Option<String> },
    /// List all projects, optionally filtered by status.
    List { status: Option<String> },
    /// Create a new project.
    New { name: String, repo: Option<String>, tech: Option<String>, description: Option<String> },
    /// Start the background monitoring daemon for a project.
    Monitor { project: String, logs_dir: Option<String> },
    /// Launch the graphical shell.
    Gui,
}

} // verus!
