//! Structured context sections of a project, rendered to markdown when a
//! context file is generated.

use vstd::prelude::*;
use vstd::string::StrSliceExecFns;
use vstd::string::StringExecFns;

verus! {

/// The kind of a context section.
#[derive(Debug, Clone, Copy, PartialEq, Eq, Structural)]
pub enum SectionType {
    Architecture,
    CurrentState,
    NextSteps,
    Gotchas,
    Decisions,
    Custom,
}

impl SectionType {
    /// The storage identifier of each kind.
    pub open spec fn spec_str(self) -> Seq<char> {
        match self {
            SectionType::Architecture => "architecture"@,
            SectionType::CurrentState => "current_state"@,
            SectionType::NextSteps => "next_steps"@,
            SectionType::Gotchas => "gotchas"@,
            SectionType::Decisions => "decisions"@,
            SectionType::Custom => "custom"@,
        }
    }

    /// The human-readable name of each kind.
    pub open spec fn spec_display_name(self) -> Seq<char> {
        match self {
            SectionType::Architecture => "Architecture"@,
            SectionType::CurrentState => "Current State"@,
            SectionType::NextSteps => "Next Steps"@,
            SectionType::Gotchas => "Gotchas"@,
            SectionType::Decisions => "Decisions"@,
            SectionType::Custom => "Custom"@,
        }
    }

    /// The icon of each kind.
    pub open spec fn spec_icon_name(self) -> Seq<char> {
        match self {
            SectionType::Architecture => "builder-build-symbolic"@,
            SectionType::CurrentState => "view-list-symbolic"@,
            SectionType::NextSteps => "go-next-symbolic"@,
            SectionType::Gotchas => "dialog-warning-symbolic"@,
            SectionType::Decisions => "emblem-ok-symbolic"@,
            SectionType::Custom => "text-editor-symbolic"@,
        }
    }

    pub fn as_str(&self) -> (r: &str)
        ensures
            r@ == self.spec_str(),
    {
        match self {
            SectionType::Architecture => "architecture",
            SectionType::CurrentState => "current_state",
            SectionType::NextSteps => "next_steps",
            SectionType::Gotchas => "gotchas",
            SectionType::Decisions => "decisions",
            SectionType::Custom => "custom",
        }
    }

    pub fn display_name(&self) -> (r: &str)
        ensures
            r@ == self.spec_display_name(),
    {
        match self {
            SectionType::Architecture => "Architecture",
            SectionType::CurrentState => "Current State",
            SectionType::NextSteps => "Next Steps",
            SectionType::Gotchas => "Gotchas",
            SectionType::Decisions => "Decisions",
            SectionType::Custom => "Custom",
        }
    }

    pub fn icon_name(&self) -> (r: &str)
        ensures
            r@ == self.spec_icon_name(),
    {
        match self {
            SectionType::Architecture => "builder-build-symbolic",
            SectionType::CurrentState => "view-list-symbolic",
            SectionType::NextSteps => "go-next-symbolic",
            SectionType::Gotchas => "dialog-warning-symbolic",
            SectionType::Decisions => "emblem-ok-symbolic",
            SectionType::Custom => "text-editor-symbolic",
        }
    }

    /// The kind a storage identifier names; anything unknown falls back to
    /// `Custom`.
    pub open spec fn spec_from_str(s: Seq<char>) -> SectionType {
        if s == "architecture"@ {
            SectionType::Architecture
        } else if s == "current_state"@ {
            SectionType::CurrentState
        } else if s == "next_steps"@ {
            SectionType::NextSteps
        } else if s == "gotchas"@ {
            SectionType::Gotchas
        } else if s == "decisions"@ {
            SectionType::Decisions
        } else {
            SectionType::Custom
        }
    }

    /// Reads a kind back from its storage identifier.
    pub fn from_str(s: &str) -> (r: SectionType)
        ensures
            r == Self::spec_from_str(s@),
    {
        if crate::text::str_eq(s, "architecture") {
            SectionType::Architecture
        } else if crate::text::str_eq(s, "current_state") {
            SectionType::CurrentState
        } else if crate::text::str_eq(s, "next_steps") {
            SectionType::NextSteps
        } else if crate::text::str_eq(s, "gotchas") {
            SectionType::Gotchas
        } else if crate::text::str_eq(s, "decisions") {
            SectionType::Decisions
        } else {
            SectionType::Custom
        }
    }

    /// Every kind once, in display order.
    pub fn all() -> (r: Vec<SectionType>)
        ensures
            r@ == seq![
                SectionType::Architecture,
                SectionType::CurrentState,
                SectionType::NextSteps,
                SectionType::Gotchas,
                SectionType::Decisions,
                SectionType::Custom,
            ],
    {
        let r = vec![
            SectionType::Architecture,
            SectionType::CurrentState,
            SectionType::NextSteps,
            SectionType::Gotchas,
            SectionType::Decisions,
            SectionType::Custom,
        ];
        proof {
            assert(r@ =~= seq![
                SectionType::Architecture,
                SectionType::CurrentState,
                SectionType::NextSteps,
                SectionType::Gotchas,
                SectionType::Decisions,
                SectionType::Custom,
            ]);
        }
        r
    }
}

/// Reading a kind's storage identifier back yields the kind: the
/// identifiers round-trip.
pub proof fn lemma_section_identifier_round_trip(s: SectionType)
    ensures
        SectionType::spec_from_str(s.spec_str()) == s,
{
    reveal_strlit("architecture");
    reveal_strlit("current_state");
    reveal_strlit("next_steps");
    reveal_strlit("gotchas");
    reveal_strlit("decisions");
    reveal_strlit("custom");
    assert("architecture"@.len() == 12);
    assert("current_state"@.len() == 13);
    assert("next_steps"@.len() == 10);
    assert("gotchas"@.len() == 7);
    assert("decisions"@.len() == 9);
    assert("custom"@.len() == 6);
    assert(SectionType::spec_from_str("architecture"@) == SectionType::Architecture);
    assert(SectionType::spec_from_str("current_state"@) == SectionType::CurrentState);
    assert(SectionType::spec_from_str("next_steps"@) == SectionType::NextSteps);
    assert(SectionType::spec_from_str("gotchas"@) == SectionType::Gotchas);
    assert(SectionType::spec_from_str("decisions"@) == SectionType::Decisions);
    assert(SectionType::spec_from_str("custom"@) == SectionType::Custom);
}

impl Default for SectionType {
    fn default() -> (r: Self)
        ensures
            r == SectionType::Custom,
    {
        SectionType::Custom
    }
}

/// A structured context section of a project. Instants are whole seconds
/// since the Unix epoch.
#[derive(Debug, Clone)]
pub struct ContextSection {
    pub id: String,
    pub project: String,
    pub section_type: SectionType,
    pub title: String,
    pub content: String,
    pub order: i32,
    pub auto_extracted: bool,
    pub created: i64,
    pub updated: i64,
}

/// The markdown form of a section: a second-level heading with the title,
/// then the content, each followed by a blank line.
pub open spec fn spec_section_markdown(title: Seq<char>, content: Seq<char>) -> Seq<char> {
    "## "@ + title + "\n\n"@ + content + "\n\n"@
}

impl ContextSection {
    /// A fresh empty section created at the current instant. The identifier
    /// is left empty for the repository to fill.
    pub fn new(project_id: String, section_type: SectionType, title: String) -> (r: Self)
        ensures
            r.id@.len() == 0,
            r.project@ == project_id@,
            r.section_type == section_type,
            r.title@ == title@,
            r.content@.len() == 0,
            r.order == 0,
            r.auto_extracted == false,
            r.created == r.updated,
    {
        let now = crate::clock::now_unix();
        ContextSection {
            id: String::new(),
            project: project_id,
            section_type,
            title,
            content: String::new(),
            order: 0,
            auto_extracted: false,
            created: now,
            updated: now,
        }
    }

    /// The markdown form of the section.
    pub fn to_markdown(&self) -> (r: String)
        ensures
            r@ == spec_section_markdown(self.title@, self.content@),
    {
        let mut r = "## ".to_owned();
        r.append(self.title.as_str());
        r.append("\n\n");
        r.append(self.content.as_str());
        r.append("\n\n");
        r
    }

    /// The content itself when it has at most one hundred characters, and
    /// its first ninety-seven characters followed by an ellipsis otherwise.
    pub fn content_preview(&self) -> (r: String)
        ensures
            self.content@.len() <= 100 ==> r@ == self.content@,
            self.content@.len() > 100 ==> r@ == self.content@.subrange(0, 97) + "..."@,
    {
        let n = self.content.as_str().unicode_len();
        if n <= 100 {
            self.content.clone()
        } else {
            let mut r = self.content.as_str().substring_char(0, 97).to_owned();
            r.append("...");
            r
        }
    }

    /// The section as a repository payload.
    pub fn to_payload(&self) -> (r: ContextSectionPayload)
        ensures
            r.project@ == self.project@,
            r.section_type == self.section_type,
            r.title@ == self.title@,
            r.content@ == self.content@,
            r.order == self.order,
            r.auto_extracted == Some(self.auto_extracted),
    {
        ContextSectionPayload {
            project: self.project.clone(),
            section_type: self.section_type,
            title: self.title.clone(),
            content: self.content.clone(),
            order: self.order,
            auto_extracted: Some(self.auto_extracted),
        }
    }
}

/// The shape of a section handed to the repository when a section is created
/// or updated.
#[derive(Debug, Clone)]
pub struct ContextSectionPayload {
    pub project: String,
    pub section_type: SectionType,
    pub title: String,
    pub content: String,
    pub order: i32,
    pub auto_extracted: Option<bool>,
}

} // verus!
