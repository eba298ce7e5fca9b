//! The rule-based fact classifier: it reads a message line by line and emits
//! one candidate fact for every trigger family that matches, in a fixed
//! category order.

use vstd::prelude::*;
use vstd::string::StrSliceExecFns;

use crate::fact::{base_importance, ExtractedFactPayload, FactType};
use crate::project::clone_opt_string;
use crate::text::{contains_ci, first_nl, is_ws, lower_code, match_at, split_lines, strip_cr, trimmed};
use crate::text::{contains_lit, is_ws_exec, lower, match_at_exec, str_to_chars, trim_range};
use crate::text::lemma_first_nl_is;

verus! {

/// A decision was taken on the line.
pub open spec fn is_decision_line(line: Seq<char>) -> bool {
    ||| contains_ci(line, "decided to"@)
    ||| contains_ci(line, "chose to"@)
    ||| contains_ci(line, "going with"@)
    ||| contains_ci(line, "will use"@)
    ||| contains_ci(line, "opted for"@)
}

/// The line reports something blocking progress.
pub open spec fn is_blocker_line(line: Seq<char>) -> bool {
    ||| contains_ci(line, "blocked by"@)
    ||| contains_ci(line, "can't proceed"@)
    ||| contains_ci(line, "cannot continue"@)
    ||| contains_ci(line, "error:"@)
    ||| contains_ci(line, "failed to"@)
    ||| contains_ci(line, "exception"@)
}

/// The line records something left to do.
pub open spec fn is_todo_line(line: Seq<char>) -> bool {
    ||| contains_ci(line, "TODO:"@)
    ||| contains_ci(line, "FIXME:"@)
    ||| contains_ci(line, "need to"@)
    ||| contains_ci(line, "should"@)
    ||| contains_ci(line, "must"@)
    ||| contains_ci(line, "have to"@)
}

/// The line mentions a new or changed dependency.
pub open spec fn is_dependency_line(line: Seq<char>) -> bool {
    ||| contains_ci(line, "installed"@)
    ||| contains_ci(line, "added"@)
    ||| contains_ci(line, "npm install"@)
    ||| contains_ci(line, "cargo add"@)
    ||| contains_ci(line, "pip install"@)
    ||| contains_ci(line, "go get"@)
}

/// The line records something learned.
pub open spec fn is_insight_line(line: Seq<char>) -> bool {
    ||| contains_ci(line, "discovered"@)
    ||| contains_ci(line, "found that"@)
    ||| contains_ci(line, "learned that"@)
    ||| contains_ci(line, "note that"@)
    ||| contains_ci(line, "important:"@)
}

/// A known source-file extension starts at position `p`.
pub open spec fn ext_at(line: Seq<char>, p: int) -> bool {
    ||| match_at(line, "rs"@, p)
    ||| match_at(line, "ts"@, p)
    ||| match_at(line, "tsx"@, p)
    ||| match_at(line, "js"@, p)
    ||| match_at(line, "jsx"@, p)
    ||| match_at(line, "py"@, p)
    ||| match_at(line, "go"@, p)
    ||| match_at(line, "java"@, p)
    ||| match_at(line, "cpp"@, p)
    ||| match_at(line, "h"@, p)
    ||| match_at(line, "c"@, p)
    ||| match_at(line, "cs"@, p)
}

/// A dot followed by a known source-file extension stands at position `d`.
pub open spec fn dot_ext_at(line: Seq<char>, d: int) -> bool {
    &&& 0 <= d < line.len()
    &&& line[d] == '.'
    &&& ext_at(line, d + 1)
}

/// A change verb that ends at position `e` leaves room for a file name whose
/// dot stands at `d`: the verb may take a trailing `d`, and at least one
/// whitespace character must separate verb and name.
pub open spec fn after_verb_ok(line: Seq<char>, e: int, d: int) -> bool {
    ||| (e < line.len() && is_ws(line[e]) && d >= e + 1)
    ||| (e + 1 < line.len() && lower_code(line[e]) == 'd' as u32 && is_ws(line[e + 1]) && d >= e
        + 2)
}

/// Some occurrence of the verb stem `pat` is placed so that a file name with
/// its dot at `d` can follow it.
pub open spec fn verb_allows(line: Seq<char>, pat: Seq<char>, d: int) -> bool {
    exists|i: int| match_at(line, pat, i) && after_verb_ok(line, i + pat.len(), d)
}

/// Some change verb is placed so that a file name with its dot at `d` can
/// follow it.
pub open spec fn any_verb_allows(line: Seq<char>, d: int) -> bool {
    ||| verb_allows(line, "create"@, d)
    ||| verb_allows(line, "modifie"@, d)
    ||| verb_allows(line, "update"@, d)
    ||| verb_allows(line, "delete"@, d)
    ||| verb_allows(line, "remove"@, d)
}

/// The line mentions a create, modify, update, delete or remove verb
/// followed by a token ending in a known source-file extension.
pub open spec fn is_file_change_line(line: Seq<char>) -> bool {
    exists|d: int| dot_ext_at(line, d) && any_verb_allows(line, d)
}

/// The categories a line yields, each carrying the full original line as
/// its content — no sub-span is cut out — in the fixed category order. A
/// blank line (nothing but whitespace) yields nothing.
pub open spec fn line_entries(t: Seq<char>) -> Seq<(FactType, Seq<char>)> {
    if trimmed(t).len() == 0 {
        seq![]
    } else {
        (if is_decision_line(t) {
            seq![(FactType::Decision, t)]
        } else {
            seq![]
        }) + (if is_blocker_line(t) {
            seq![(FactType::Blocker, t)]
        } else {
            seq![]
        }) + (if is_todo_line(t) {
            seq![(FactType::Todo, t)]
        } else {
            seq![]
        }) + (if is_file_change_line(t) {
            seq![(FactType::FileChange, t)]
        } else {
            seq![]
        }) + (if is_dependency_line(t) {
            seq![(FactType::Dependency, t)]
        } else {
            seq![]
        }) + (if is_insight_line(t) {
            seq![(FactType::Insight, t)]
        } else {
            seq![]
        })
    }
}

/// The entries of every line in order.
pub open spec fn lines_entries(ls: Seq<Seq<char>>) -> Seq<(FactType, Seq<char>)>
    decreases ls.len(),
{
    if ls.len() == 0 {
        seq![]
    } else {
        line_entries(ls[0]) + lines_entries(ls.drop_first())
    }
}

/// Every fact a whole message yields: its lines in order, each matched
/// against every trigger family, blank lines skipped.
pub open spec fn message_entries(content: Seq<char>) -> Seq<(FactType, Seq<char>)> {
    lines_entries(split_lines(content))
}

/// The view of an optional string.
pub open spec fn opt_str_view(o: Option<String>) -> Option<Seq<char>> {
    match o {
        None => None,
        Some(s) => Some(s@),
    }
}

/// The payload `p` is the candidate fact for content `content` of category
/// `t`, bound to the given project and session, at base importance.
pub open spec fn payload_matches(
    p: ExtractedFactPayload,
    project: Seq<char>,
    session: Option<Seq<char>>,
    t: FactType,
    content: Seq<char>,
) -> bool {
    &&& p.project@ == project
    &&& opt_str_view(p.session) == session
    &&& p.fact_type == t
    &&& p.content@ == content
    &&& p.importance as int == base_importance(t)
    &&& p.stale is None
}

/// The payloads `ps` are exactly the candidate facts for the entries `es`.
pub open spec fn payloads_match(
    ps: Seq<ExtractedFactPayload>,
    project: Seq<char>,
    session: Option<Seq<char>>,
    es: Seq<(FactType, Seq<char>)>,
) -> bool {
    &&& ps.len() == es.len()
    &&& forall|k: int|
        0 <= k < es.len() ==> payload_matches(#[trigger] ps[k], project, session, es[k].0, es[k].1)
}

proof fn lemma_payloads_match_push(
    ps: Seq<ExtractedFactPayload>,
    project: Seq<char>,
    session: Option<Seq<char>>,
    es: Seq<(FactType, Seq<char>)>,
    p: ExtractedFactPayload,
    t: FactType,
    content: Seq<char>,
)
    requires
        payloads_match(ps, project, session, es),
        payload_matches(p, project, session, t, content),
    ensures
        payloads_match(ps.push(p), project, session, es.push((t, content))),
{
    let ps2 = ps.push(p);
    let es2 = es.push((t, content));
    assert forall|k: int| 0 <= k < es2.len() implies payload_matches(
        #[trigger] ps2[k],
        project,
        session,
        es2[k].0,
        es2[k].1,
    ) by {
        if k < es.len() {
            assert(ps2[k] == ps[k]);
            assert(es2[k] == es[k]);
        } else {
            assert(ps2[k] == p);
            assert(es2[k] == (t, content));
        }
    }
}

/// Whether a decision trigger occurs in the line.
pub fn is_decision_exec(chars: &Vec<char>) -> (r: bool)
    ensures
        r == is_decision_line(chars@),
{
    contains_lit(chars, "decided to") || contains_lit(chars, "chose to") || contains_lit(
        chars,
        "going with",
    ) || contains_lit(chars, "will use") || contains_lit(chars, "opted for")
}

/// Whether a blocker trigger occurs in the line.
pub fn is_blocker_exec(chars: &Vec<char>) -> (r: bool)
    ensures
        r == is_blocker_line(chars@),
{
    contains_lit(chars, "blocked by") || contains_lit(chars, "can't proceed") || contains_lit(
        chars,
        "cannot continue",
    ) || contains_lit(chars, "error:") || contains_lit(chars, "failed to") || contains_lit(
        chars,
        "exception",
    )
}

/// Whether a todo trigger occurs in the line.
pub fn is_todo_exec(chars: &Vec<char>) -> (r: bool)
    ensures
        r == is_todo_line(chars@),
{
    contains_lit(chars, "TODO:") || contains_lit(chars, "FIXME:") || contains_lit(
        chars,
        "need to",
    ) || contains_lit(chars, "should") || contains_lit(chars, "must") || contains_lit(
        chars,
        "have to",
    )
}

/// Whether a dependency trigger occurs in the line.
pub fn is_dependency_exec(chars: &Vec<char>) -> (r: bool)
    ensures
        r == is_dependency_line(chars@),
{
    contains_lit(chars, "installed") || contains_lit(chars, "added") || contains_lit(
        chars,
        "npm install",
    ) || contains_lit(chars, "cargo add") || contains_lit(chars, "pip install") || contains_lit(
        chars,
        "go get",
    )
}

/// Whether an insight trigger occurs in the line.
pub fn is_insight_exec(chars: &Vec<char>) -> (r: bool)
    ensures
        r == is_insight_line(chars@),
{
    contains_lit(chars, "discovered") || contains_lit(chars, "found that") || contains_lit(
        chars,
        "learned that",
    ) || contains_lit(chars, "note that") || contains_lit(chars, "important:")
}

/// Whether the literal `pat` occurs at position `p`, compared
/// case-insensitively.
fn match_lit_at(line: &Vec<char>, pat: &str, p: usize) -> (r: bool)
    requires
        p <= line@.len(),
    ensures
        r == match_at(line@, pat@, p as int),
{
    let pv = str_to_chars(pat);
    if pv.len() > line.len() - p {
        false
    } else {
        match_at_exec(line, &pv, p)
    }
}

/// Whether a known source-file extension starts at position `p`.
fn ext_at_exec(line: &Vec<char>, p: usize) -> (r: bool)
    requires
        p <= line@.len(),
    ensures
        r == ext_at(line@, p as int),
{
    match_lit_at(line, "rs", p) || match_lit_at(line, "ts", p) || match_lit_at(line, "tsx", p)
        || match_lit_at(line, "js", p) || match_lit_at(line, "jsx", p) || match_lit_at(
        line,
        "py",
        p,
    ) || match_lit_at(line, "go", p) || match_lit_at(line, "java", p) || match_lit_at(
        line,
        "cpp",
        p,
    ) || match_lit_at(line, "h", p) || match_lit_at(line, "c", p) || match_lit_at(line, "cs", p)
}

/// Whether a verb ending at `e` leaves room for a file name with its dot at
/// `d`.
fn after_verb_ok_exec(line: &Vec<char>, e: usize, d: usize) -> (r: bool)
    requires
        e <= line@.len(),
    ensures
        r == after_verb_ok(line@, e as int, d as int),
{
    let n = line.len();
    (e < n && is_ws_exec(line[e]) && d >= e + 1) || (e < n && e + 1 < n && lower(line[e]) == 100
        && is_ws_exec(line[e + 1]) && d >= e + 2)
}

/// Whether some occurrence of the verb stem `pat` allows a dot at `d`.
fn verb_allows_exec(line: &Vec<char>, pat: &Vec<char>, d: usize) -> (r: bool)
    ensures
        r == verb_allows(line@, pat@, d as int),
{
    if pat.len() > line.len() {
        return false;
    }
    let n = line.len();
    let last = n - pat.len();
    let mut i: usize = 0;
    while i < last
        invariant
            n == line@.len(),
            pat@.len() <= line@.len(),
            last == line@.len() - pat@.len(),
            i <= last,
            forall|j: int|
                0 <= j < i ==> !(match_at(line@, pat@, j) && after_verb_ok(
                    line@,
                    j + pat@.len(),
                    d as int,
                )),
        decreases last - i,
    {
        if match_at_exec(line, pat, i) && after_verb_ok_exec(line, i + pat.len(), d) {
            return true;
        }
        i = i + 1;
    }
    if match_at_exec(line, pat, last) && after_verb_ok_exec(line, last + pat.len(), d) {
        return true;
    }
    false
}

/// Whether some change verb allows a dot at `d`.
fn any_verb_allows_exec(line: &Vec<char>, d: usize) -> (r: bool)
    ensures
        r == any_verb_allows(line@, d as int),
{
    let create = str_to_chars("create");
    let modifie = str_to_chars("modifie");
    let update = str_to_chars("update");
    let delete = str_to_chars("delete");
    let remove = str_to_chars("remove");
    verb_allows_exec(line, &create, d) || verb_allows_exec(line, &modifie, d) || verb_allows_exec(
        line,
        &update,
        d,
    ) || verb_allows_exec(line, &delete, d) || verb_allows_exec(line, &remove, d)
}

/// Whether a file-change trigger occurs in the line.
pub fn is_file_change_exec(chars: &Vec<char>) -> (r: bool)
    ensures
        r == is_file_change_line(chars@),
{
    let n = chars.len();
    let mut d: usize = 0;
    while d < n
        invariant
            n == chars@.len(),
            d <= n,
            forall|dd: int|
                0 <= dd < d ==> !(dot_ext_at(chars@, dd) && any_verb_allows(chars@, dd)),
        decreases n - d,
    {
        if chars[d] == '.' && ext_at_exec(chars, d + 1) {
            if any_verb_allows_exec(chars, d) {
                return true;
            }
        }
        d = d + 1;
    }
    false
}

/// The rule-based fact classifier for one project. The trigger families are
/// fixed data, so construction costs nothing and the classifier is stateless.
pub struct FactExtractor {
    pub project_id: String,
}

impl FactExtractor {
    /// A classifier whose candidate facts belong to the given project.
    pub fn new(project_id: String) -> (r: Self)
        ensures
            r.project_id@ == project_id@,
    {
        FactExtractor { project_id }
    }

    /// The candidate fact of category `t` for one line.
    fn payload_for(&self, t: FactType, line: &str, session_id: Option<String>) -> (p:
        ExtractedFactPayload)
        ensures
            payload_matches(p, self.project_id@, opt_str_view(session_id), t, line@),
    {
        let importance: i32 = match t {
            FactType::Blocker => 5,
            FactType::Decision => 4,
            FactType::Dependency => 4,
            FactType::FileChange => 3,
            FactType::Todo => 3,
            FactType::Insight => 3,
        };
        ExtractedFactPayload {
            project: self.project_id.clone(),
            session: session_id,
            fact_type: t,
            content: line.to_owned(),
            importance,
            stale: None,
        }
    }

    /// A decision candidate for the line, when a decision trigger matches.
    pub fn try_extract_decision(&self, line: &str, session_id: Option<String>) -> (r: Option<
        ExtractedFactPayload,
    >)
        ensures
            is_decision_line(line@) ==> (r matches Some(p) && payload_matches(
                p,
                self.project_id@,
                opt_str_view(session_id),
                FactType::Decision,
                line@,
            )),
            !is_decision_line(line@) ==> r is None,
    {
        let chars = str_to_chars(line);
        if is_decision_exec(&chars) {
            Some(self.payload_for(FactType::Decision, line, session_id))
        } else {
            None
        }
    }

    /// A blocker candidate for the line, when a blocker trigger matches.
    pub fn try_extract_blocker(&self, line: &str, session_id: Option<String>) -> (r: Option<
        ExtractedFactPayload,
    >)
        ensures
            is_blocker_line(line@) ==> (r matches Some(p) && payload_matches(
                p,
                self.project_id@,
                opt_str_view(session_id),
                FactType::Blocker,
                line@,
            )),
            !is_blocker_line(line@) ==> r is None,
    {
        let chars = str_to_chars(line);
        if is_blocker_exec(&chars) {
            Some(self.payload_for(FactType::Blocker, line, session_id))
        } else {
            None
        }
    }

    /// A todo candidate for the line, when a todo trigger matches.
    pub fn try_extract_todo(&self, line: &str, session_id: Option<String>) -> (r: Option<
        ExtractedFactPayload,
    >)
        ensures
            is_todo_line(line@) ==> (r matches Some(p) && payload_matches(
                p,
                self.project_id@,
                opt_str_view(session_id),
                FactType::Todo,
                line@,
            )),
            !is_todo_line(line@) ==> r is None,
    {
        let chars = str_to_chars(line);
        if is_todo_exec(&chars) {
            Some(self.payload_for(FactType::Todo, line, session_id))
        } else {
            None
        }
    }

    /// A file-change candidate for the line, when a file-change trigger
    /// matches.
    pub fn try_extract_file_change(&self, line: &str, session_id: Option<String>) -> (r: Option<
        ExtractedFactPayload,
    >)
        ensures
            is_file_change_line(line@) ==> (r matches Some(p) && payload_matches(
                p,
                self.project_id@,
                opt_str_view(session_id),
                FactType::FileChange,
                line@,
            )),
            !is_file_change_line(line@) ==> r is None,
    {
        let chars = str_to_chars(line);
        if is_file_change_exec(&chars) {
            Some(self.payload_for(FactType::FileChange, line, session_id))
        } else {
            None
        }
    }

    /// A dependency candidate for the line, when a dependency trigger
    /// matches.
    pub fn try_extract_dependency(&self, line: &str, session_id: Option<String>) -> (r: Option<
        ExtractedFactPayload,
    >)
        ensures
            is_dependency_line(line@) ==> (r matches Some(p) && payload_matches(
                p,
                self.project_id@,
                opt_str_view(session_id),
                FactType::Dependency,
                line@,
            )),
            !is_dependency_line(line@) ==> r is None,
    {
        let chars = str_to_chars(line);
        if is_dependency_exec(&chars) {
            Some(self.payload_for(FactType::Dependency, line, session_id))
        } else {
            None
        }
    }

    /// An insight candidate for the line, when an insight trigger matches.
    pub fn try_extract_insight(&self, line: &str, session_id: Option<String>) -> (r: Option<
        ExtractedFactPayload,
    >)
        ensures
            is_insight_line(line@) ==> (r matches Some(p) && payload_matches(
                p,
                self.project_id@,
                opt_str_view(session_id),
                FactType::Insight,
                line@,
            )),
            !is_insight_line(line@) ==> r is None,
    {
        let chars = str_to_chars(line);
        if is_insight_exec(&chars) {
            Some(self.payload_for(FactType::Insight, line, session_id))
        } else {
            None
        }
    }

    /// Every candidate fact of one non-blank trimmed line, in category
    /// order.
    fn classify_line(&self, line: &str, session_id: Option<String>) -> (facts: Vec<
        ExtractedFactPayload,
    >)
        requires
            trimmed(line@).len() > 0,
        ensures
            payloads_match(
                facts@,
                self.project_id@,
                opt_str_view(session_id),
                line_entries(line@),
            ),
    {
        let mut facts: Vec<ExtractedFactPayload> = Vec::new();
        let ghost mut done: Seq<(FactType, Seq<char>)> = Seq::empty();
        let ghost project = self.project_id@;
        let ghost session = opt_str_view(session_id);
        let ghost t = line@;
        if let Some(f) = self.try_extract_decision(line, clone_opt_string(&session_id)) {
            proof {
                lemma_payloads_match_push(facts@, project, session, done, f, FactType::Decision, t);
                done = done.push((FactType::Decision, t));
            }
            facts.push(f);
        }
        if let Some(f) = self.try_extract_blocker(line, clone_opt_string(&session_id)) {
            proof {
                lemma_payloads_match_push(facts@, project, session, done, f, FactType::Blocker, t);
                done = done.push((FactType::Blocker, t));
            }
            facts.push(f);
        }
        if let Some(f) = self.try_extract_todo(line, clone_opt_string(&session_id)) {
            proof {
                lemma_payloads_match_push(facts@, project, session, done, f, FactType::Todo, t);
                done = done.push((FactType::Todo, t));
            }
            facts.push(f);
        }
        if let Some(f) = self.try_extract_file_change(line, clone_opt_string(&session_id)) {
            proof {
                lemma_payloads_match_push(
                    facts@,
                    project,
                    session,
                    done,
                    f,
                    FactType::FileChange,
                    t,
                );
                done = done.push((FactType::FileChange, t));
            }
            facts.push(f);
        }
        if let Some(f) = self.try_extract_dependency(line, clone_opt_string(&session_id)) {
            proof {
                lemma_payloads_match_push(
                    facts@,
                    project,
                    session,
                    done,
                    f,
                    FactType::Dependency,
                    t,
                );
                done = done.push((FactType::Dependency, t));
            }
            facts.push(f);
        }
        if let Some(f) = self.try_extract_insight(line, clone_opt_string(&session_id)) {
            proof {
                lemma_payloads_match_push(facts@, project, session, done, f, FactType::Insight, t);
                done = done.push((FactType::Insight, t));
            }
            facts.push(f);
        }
        proof {
            assert(done =~= line_entries(t));
        }
        facts
    }

    /// Every candidate fact of a message: the message is split on line
    /// breaks, blank lines are skipped, and every trigger family that
    /// matches a line yields one candidate carrying the full original line,
    /// in category order.
    pub fn extract_from_message(&self, content: &str, session_id: Option<String>) -> (facts: Vec<
        ExtractedFactPayload,
    >)
        ensures
            payloads_match(
                facts@,
                self.project_id@,
                opt_str_view(session_id),
                message_entries(content@),
            ),
    {
        let chars = str_to_chars(content);
        let n = chars.len();
        let mut facts: Vec<ExtractedFactPayload> = Vec::new();
        let mut pos: usize = 0;
        let ghost mut done: Seq<(FactType, Seq<char>)> = Seq::empty();
        proof {
            assert(content@.skip(0) =~= content@);
        }
        loop
            invariant_except_break
                chars@ == content@,
                n == content@.len(),
                pos <= n,
                payloads_match(facts@, self.project_id@, opt_str_view(session_id), done),
                message_entries(content@) == done + lines_entries(
                    split_lines(content@.skip(pos as int)),
                ),
            ensures
                payloads_match(
                    facts@,
                    self.project_id@,
                    opt_str_view(session_id),
                    message_entries(content@),
                ),
            decreases n - pos,
        {
            let ghost rest = content@.skip(pos as int);
            let mut j: usize = pos;
            while j < n && chars[j] != '\n'
                invariant
                    chars@ == content@,
                    n == content@.len(),
                    pos <= j <= n,
                    forall|k: int| pos <= k < j ==> content@[k] != '\n',
                decreases n - j,
            {
                j = j + 1;
            }
            proof {
                assert(rest.len() == n - pos);
                assert forall|k: int| 0 <= k < j - pos implies rest[k] != '\n' by {
                    assert(rest[k] == content@[pos + k]);
                }
                if j < n {
                    assert(rest[j - pos] == content@[j as int]);
                }
                lemma_first_nl_is(rest, j - pos as int);
            }
            let ghost seg = rest.take(j - pos as int);
            let line_end: usize = if j < n && j > pos && chars[j - 1] == '\r' {
                j - 1
            } else {
                j
            };
            let ghost t = if j < n {
                strip_cr(seg)
            } else {
                seg
            };
            proof {
                assert(chars@.subrange(pos as int, j as int) =~= seg);
                if j < n && j > pos && content@[j - 1] == '\r' {
                    assert(seg.drop_last() =~= chars@.subrange(pos as int, line_end as int));
                } else {
                    assert(seg =~= chars@.subrange(pos as int, line_end as int));
                }
                assert(t =~= chars@.subrange(pos as int, line_end as int));
            }
            let (a, b) = trim_range(&chars, pos, line_end);
            if a < b {
                let line_str = content.substring_char(pos, line_end);
                proof {
                    assert(line_str@ == chars@.subrange(pos as int, line_end as int));
                    assert(line_str@ == t);
                    assert(trimmed(t).len() == b - a);
                }
                let mut line_facts = self.classify_line(line_str, clone_opt_string(&session_id));
                proof {
                    lemma_payloads_match_concat(
                        facts@,
                        line_facts@,
                        self.project_id@,
                        opt_str_view(session_id),
                        done,
                        line_entries(t),
                    );
                    done = done + line_entries(t);
                }
                facts.append(&mut line_facts);
            } else {
                proof {
                    assert(trimmed(t).len() == b - a);
                    assert(done =~= done + line_entries(t));
                }
            }
            if j == n {
                proof {
                    assert(first_nl(rest) == rest.len());
                    assert(split_lines(rest) =~= seq![rest]);
                    assert(seg =~= rest);
                    let ls = seq![rest];
                    assert(ls[0] == rest);
                    assert(ls.drop_first() =~= Seq::<Seq<char>>::empty());
                    assert(lines_entries(Seq::<Seq<char>>::empty()) =~= Seq::<(
                        FactType,
                        Seq<char>,
                    )>::empty());
                    assert(lines_entries(ls) =~= line_entries(rest));
                }
                break ;
            }
            proof {
                assert(first_nl(rest) == j - pos < rest.len());
                let tail = rest.skip(j - pos as int + 1);
                assert(split_lines(rest) =~= seq![t] + split_lines(tail));
                assert((seq![t] + split_lines(tail))[0] == t);
                assert((seq![t] + split_lines(tail)).drop_first() =~= split_lines(tail));
                assert(tail =~= content@.skip(j as int + 1));
            }
            pos = j + 1;
        }
        facts
    }
}

pub proof fn lemma_payloads_match_concat(
    ps1: Seq<ExtractedFactPayload>,
    ps2: Seq<ExtractedFactPayload>,
    project: Seq<char>,
    session: Option<Seq<char>>,
    es1: Seq<(FactType, Seq<char>)>,
    es2: Seq<(FactType, Seq<char>)>,
)
    requires
        payloads_match(ps1, project, session, es1),
        payloads_match(ps2, project, session, es2),
    ensures
        payloads_match(ps1 + ps2, project, session, es1 + es2),
{
    let ps = ps1 + ps2;
    let es = es1 + es2;
    assert forall|k: int| 0 <= k < es.len() implies payload_matches(
        #[trigger] ps[k],
        project,
        session,
        es[k].0,
        es[k].1,
    ) by {
        if k < es1.len() {
            assert(ps[k] == ps1[k]);
            assert(es[k] == es1[k]);
        } else {
            assert(ps[k] == ps2[k - es1.len()]);
            assert(es[k] == es2[k - es1.len()]);
        }
    }
}

} // verus!
