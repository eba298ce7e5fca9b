//! Tracked projects: name, slug, status and technology stack.

use vstd::prelude::*;
use vstd::string::StringExecFns;

verus! {

/// The lifecycle state of a project.
#[derive(Debug, Clone, Copy, PartialEq, Eq, Structural)]
pub enum ProjectStatus {
    Active,
    Paused,
    Idea,
    Archived,
}

impl ProjectStatus {
    /// The storage identifier of each status.
    pub open spec fn spec_str(self) -> Seq<char> {
        match self {
            ProjectStatus::Active => "active"@,
            ProjectStatus::Paused => "paused"@,
            ProjectStatus::Idea => "idea"@,
            ProjectStatus::Archived => "archived"@,
        }
    }

    /// The human-readable name of each status.
    pub open spec fn spec_display_name(self) -> Seq<char> {
        match self {
            ProjectStatus::Active => "Active"@,
            ProjectStatus::Paused => "Paused"@,
            ProjectStatus::Idea => "Idea"@,
            ProjectStatus::Archived => "Archived"@,
        }
    }

    pub fn as_str(&self) -> (r: &str)
        ensures
            r@ == self.spec_str(),
    {
        match self {
            ProjectStatus::Active => "active",
            ProjectStatus::Paused => "paused",
            ProjectStatus::Idea => "idea",
            ProjectStatus::Archived => "archived",
        }
    }

    pub fn display_name(&self) -> (r: &str)
        ensures
            r@ == self.spec_display_name(),
    {
        match self {
            ProjectStatus::Active => "Active",
            ProjectStatus::Paused => "Paused",
            ProjectStatus::Idea => "Idea",
            ProjectStatus::Archived => "Archived",
        }
    }

    /// The status a storage identifier names; anything unknown falls back
    /// to `Active`.
    pub open spec fn spec_from_str(s: Seq<char>) -> ProjectStatus {
        if s == "active"@ {
            ProjectStatus::Active
        } else if s == "paused"@ {
            ProjectStatus::Paused
        } else if s == "idea"@ {
            ProjectStatus::Idea
        } else if s == "archived"@ {
            ProjectStatus::Archived
        } else {
            ProjectStatus::Active
        }
    }

    /// Reads a status back from its storage identifier.
    pub fn from_str(s: &str) -> (r: ProjectStatus)
        ensures
            r == Self::spec_from_str(s@),
    {
        if crate::text::str_eq(s, "active") {
            ProjectStatus::Active
        } else if crate::text::str_eq(s, "paused") {
            ProjectStatus::Paused
        } else if crate::text::str_eq(s, "idea") {
            ProjectStatus::Idea
        } else if crate::text::str_eq(s, "archived") {
            ProjectStatus::Archived
        } else {
            ProjectStatus::Active
        }
    }

    /// Every status once, in display order.
    pub fn all() -> (r: Vec<ProjectStatus>)
        ensures
            r@ == seq![
                ProjectStatus::Active,
                ProjectStatus::Paused,
                ProjectStatus::Idea,
                ProjectStatus::Archived,
            ],
    {
        let r = vec![
            ProjectStatus::Active,
            ProjectStatus::Paused,
            ProjectStatus::Idea,
            ProjectStatus::Archived,
        ];
        proof {
            assert(r@ =~= seq![
                ProjectStatus::Active,
                ProjectStatus::Paused,
                ProjectStatus::Idea,
                ProjectStatus::Archived,
            ]);
        }
        r
    }
}

/// Reading a status's storage identifier back yields the status: the
/// identifiers round-trip.
pub proof fn lemma_status_identifier_round_trip(s: ProjectStatus)
    ensures
        ProjectStatus::spec_from_str(s.spec_str()) == s,
{
    reveal_strlit("active");
    reveal_strlit("paused");
    reveal_strlit("idea");
    reveal_strlit("archived");
    assert("active"@.len() == 6);
    assert("paused"@.len() == 6);
    assert("idea"@.len() == 4);
    assert("archived"@.len() == 8);
    assert(("active"@)[0] != ("paused"@)[0]);
    assert(ProjectStatus::spec_from_str("active"@) == ProjectStatus::Active);
    assert(ProjectStatus::spec_from_str("paused"@) == ProjectStatus::Paused);
    assert(ProjectStatus::spec_from_str("idea"@) == ProjectStatus::Idea);
    assert(ProjectStatus::spec_from_str("archived"@) == ProjectStatus::Archived);
}

impl Default for ProjectStatus {
    fn default() -> (r: Self)
        ensures
            r == ProjectStatus::Active,
    {
        ProjectStatus::Active
    }
}

/// A project's slug character: spaces become hyphens and ASCII upper-case
/// letters fold to lower case.
pub open spec fn slug_char(c: char) -> char {
    if c == ' ' {
        '-'
    } else if 65 <= c as u32 && c as u32 <= 90 {
        ((c as u32 + 32) as u8) as char
    } else {
        c
    }
}

/// The slug derived from a project name.
pub open spec fn slug_of(name: Seq<char>) -> Seq<char> {
    name.map_values(|c: char| slug_char(c))
}

/// A tracked development project. Instants are whole seconds since the Unix
/// epoch.
#[derive(Debug, Clone)]
pub struct Project {
    pub id: String,
    pub name: String,
    pub slug: String,
    pub repo_path: Option<String>,
    pub status: ProjectStatus,
    pub priority: i32,
    pub tech_stack: Vec<String>,
    pub description: Option<String>,
    pub created: i64,
    pub updated: i64,
}

impl Project {
    /// A fresh active project created at the current instant, with a slug
    /// derived from the name. The identifier is left empty for the
    /// repository to fill.
    pub fn new(name: String) -> (r: Self)
        ensures
            r.id@.len() == 0,
            r.name@ == name@,
            r.slug@ == slug_of(name@),
            r.repo_path is None,
            r.status == ProjectStatus::Active,
            r.priority == 0,
            r.tech_stack@.len() == 0,
            r.description is None,
            r.created == r.updated,
    {
        let chars = crate::text::str_to_chars(name.as_str());
        let n = chars.len();
        let mut slug = String::new();
        let mut i: usize = 0;
        while i < n
            invariant
                n == chars@.len(),
                i <= n,
                slug@ =~= chars@.take(i as int).map_values(|c: char| slug_char(c)),
            decreases n - i,
        {
            let c = chars[i];
            let u = c as u32;
            if c == ' ' {
                crate::text::push_char(&mut slug, '-');
            } else if 65 <= u && u <= 90 {
                let lowered = ((u + 32) as u8) as char;
                crate::text::push_char(&mut slug, lowered);
            } else {
                crate::text::push_char(&mut slug, c);
            }
            proof {
                assert(slug@ =~= chars@.take(i as int + 1).map_values(|c: char| slug_char(c)));
            }
            i = i + 1;
        }
        proof {
            assert(chars@.take(n as int) =~= chars@);
            assert(slug@ =~= slug_of(name@));
        }
        let now = crate::clock::now_unix();
        Project {
            id: String::new(),
            name,
            slug,
            repo_path: None,
            status: ProjectStatus::Active,
            priority: 0,
            tech_stack: Vec::new(),
            description: None,
            created: now,
            updated: now,
        }
    }

    /// The technology stack as one comma-separated line, or a note that none
    /// was given.
    pub fn tech_stack_display(&self) -> (r: String)
        ensures
            self.tech_stack@.len() == 0 ==> r@ == "No tech stack specified"@,
            self.tech_stack@.len() > 0 ==> r@ == spec_joined(self.tech_stack@),
    {
        if self.tech_stack.len() == 0 {
            "No tech stack specified".to_owned()
        } else {
            let mut r = self.tech_stack[0].clone();
            let n = self.tech_stack.len();
            let mut i: usize = 1;
            while i < n
                invariant
                    n == self.tech_stack@.len(),
                    1 <= i <= n,
                    r@ =~= spec_joined(self.tech_stack@.take(i as int)),
                decreases n - i,
            {
                r.append(", ");
                r.append(self.tech_stack[i].as_str());
                proof {
                    assert(self.tech_stack@.take(i as int + 1).drop_last() =~= self.tech_stack@.take(
                        i as int,
                    ));
                }
                i = i + 1;
            }
            proof {
                assert(self.tech_stack@.take(n as int) =~= self.tech_stack@);
            }
            r
        }
    }

    /// The badge color for each status.
    pub fn status_color(&self) -> (r: &str)
        ensures
            r@ == spec_status_color(self.status),
    {
        match self.status {
            ProjectStatus::Active => "success",
            ProjectStatus::Paused => "warning",
            ProjectStatus::Idea => "accent",
            ProjectStatus::Archived => "error",
        }
    }

    /// The project as a repository payload.
    pub fn to_payload(&self) -> (r: ProjectPayload)
        ensures
            r.name@ == self.name@,
            r.slug@ == self.slug@,
            r.status == self.status,
            r.priority == self.priority,
            r.tech_stack@.len() == self.tech_stack@.len(),
            forall|j: int| 0 <= j < self.tech_stack@.len() ==> r.tech_stack@[j]@
                == self.tech_stack@[j]@,
            r.repo_path is Some <==> self.repo_path is Some,
            r.description is Some <==> self.description is Some,
    {
        ProjectPayload {
            name: self.name.clone(),
            slug: self.slug.clone(),
            repo_path: clone_opt_string(&self.repo_path),
            status: self.status,
            priority: self.priority,
            tech_stack: clone_string_vec(&self.tech_stack),
            description: clone_opt_string(&self.description),
        }
    }
}

/// The badge color for each status.
pub open spec fn spec_status_color(s: ProjectStatus) -> Seq<char> {
    match s {
        ProjectStatus::Active => "success"@,
        ProjectStatus::Paused => "warning"@,
        ProjectStatus::Idea => "accent"@,
        ProjectStatus::Archived => "error"@,
    }
}

/// The entries of `parts` joined with a comma and a space.
pub open spec fn spec_joined(parts: Seq<String>) -> Seq<char>
    decreases parts.len(),
{
    if parts.len() == 0 {
        Seq::empty()
    } else if parts.len() == 1 {
        parts[0]@
    } else {
        spec_joined(parts.drop_last()) + ", "@ + parts.last()@
    }
}

/// A clone of an optional string, equal in view.
pub fn clone_opt_string(o: &Option<String>) -> (r: Option<String>)
    ensures
        r is Some <==> o is Some,
        o is Some ==> r->0@ == o->0@,
{
    match o {
        Some(s) => Some(s.clone()),
        None => None,
    }
}

/// A clone of a string list, equal in views.
pub fn clone_string_vec(v: &Vec<String>) -> (r: Vec<String>)
    ensures
        r@.len() == v@.len(),
        forall|j: int| 0 <= j < v@.len() ==> r@[j]@ == v@[j]@,
{
    let mut r: Vec<String> = Vec::new();
    let n = v.len();
    let mut i: usize = 0;
    while i < n
        invariant
            n == v@.len(),
            i <= n,
            r@.len() == i,
            forall|j: int| 0 <= j < i ==> r@[j]@ == v@[j]@,
        decreases n - i,
    {
        r.push(v[i].clone());
        i = i + 1;
    }
    r
}

/// The shape of a project handed to the repository when a project is created
/// or updated.
#[derive(Debug, Clone)]
pub struct ProjectPayload {
    pub name: String,
    pub slug: String,
    pub repo_path: Option<String>,
    pub status: ProjectStatus,
    pub priority: i32,
    pub tech_stack: Vec<String>,
    pub description: Option<String>,
}

} // verus!
