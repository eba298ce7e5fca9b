//! Fact categories and extracted facts: knowledge automatically pulled out of
//! conversation sessions, with an importance in `[1, 5]` and a staleness
//! flag.

use vstd::prelude::*;
use vstd::string::StrSliceExecFns;
use vstd::string::StringExecFns;

use crate::text::{dec_int, div_trunc, lemma_dec_int_chars};
use crate::text::{dec_chars_i64, number_chars_to_string};

verus! {

/// The closed set of fact categories. The category decides a fact's base
/// importance and its staleness horizon.
#[derive(Debug, Clone, Copy, PartialEq, Eq, Structural)]
pub enum FactType {
    Decision,
    Blocker,
    FileChange,
    Dependency,
    Todo,
    Insight,
}

impl FactType {
    /// The storage identifier of each category.
    pub open spec fn spec_str(self) -> Seq<char> {
        match self {
            FactType::Decision => "decision"@,
            FactType::Blocker => "blocker"@,
            FactType::FileChange => "file_change"@,
            FactType::Dependency => "dependency"@,
            FactType::Todo => "todo"@,
            FactType::Insight => "insight"@,
        }
    }

    /// The human-readable name of each category.
    pub open spec fn spec_display_name(self) -> Seq<char> {
        match self {
            FactType::Decision => "Decision"@,
            FactType::Blocker => "Blocker"@,
            FactType::FileChange => "File Change"@,
            FactType::Dependency => "Dependency"@,
            FactType::Todo => "Todo"@,
            FactType::Insight => "Insight"@,
        }
    }

    /// The icon of each category.
    pub open spec fn spec_icon_name(self) -> Seq<char> {
        match self {
            FactType::Decision => "emblem-ok-symbolic"@,
            FactType::Blocker => "dialog-error-symbolic"@,
            FactType::FileChange => "document-edit-symbolic"@,
            FactType::Dependency => "package-x-generic-symbolic"@,
            FactType::Todo => "checkbox-symbolic"@,
            FactType::Insight => "dialog-information-symbolic"@,
        }
    }

    /// The style class of each category.
    pub open spec fn spec_color_class(self) -> Seq<char> {
        match self {
            FactType::Decision => "success"@,
            FactType::Blocker => "error"@,
            FactType::FileChange => "accent"@,
            FactType::Dependency => "warning"@,
            FactType::Todo => "default"@,
            FactType::Insight => "accent"@,
        }
    }

    pub fn as_str(&self) -> (r: &str)
        ensures
            r@ == self.spec_str(),
    {
        match self {
            FactType::Decision => "decision",
            FactType::Blocker => "blocker",
            FactType::FileChange => "file_change",
            FactType::Dependency => "dependency",
            FactType::Todo => "todo",
            FactType::Insight => "insight",
        }
    }

    pub fn display_name(&self) -> (r: &str)
        ensures
            r@ == self.spec_display_name(),
    {
        match self {
            FactType::Decision => "Decision",
            FactType::Blocker => "Blocker",
            FactType::FileChange => "File Change",
            FactType::Dependency => "Dependency",
            FactType::Todo => "Todo",
            FactType::Insight => "Insight",
        }
    }

    pub fn icon_name(&self) -> (r: &str)
        ensures
            r@ == self.spec_icon_name(),
    {
        match self {
            FactType::Decision => "emblem-ok-symbolic",
            FactType::Blocker => "dialog-error-symbolic",
            FactType::FileChange => "document-edit-symbolic",
            FactType::Dependency => "package-x-generic-symbolic",
            FactType::Todo => "checkbox-symbolic",
            FactType::Insight => "dialog-information-symbolic",
        }
    }

    pub fn color_class(&self) -> (r: &str)
        ensures
            r@ == self.spec_color_class(),
    {
        match self {
            FactType::Decision => "success",
            FactType::Blocker => "error",
            FactType::FileChange => "accent",
            FactType::Dependency => "warning",
            FactType::Todo => "default",
            FactType::Insight => "accent",
        }
    }

    /// The category a storage identifier names; anything unknown falls back
    /// to `Insight`.
    pub open spec fn spec_from_str(s: Seq<char>) -> FactType {
        if s == "decision"@ {
            FactType::Decision
        } else if s == "blocker"@ {
            FactType::Blocker
        } else if s == "file_change"@ {
            FactType::FileChange
        } else if s == "dependency"@ {
            FactType::Dependency
        } else if s == "todo"@ {
            FactType::Todo
        } else {
            FactType::Insight
        }
    }

    /// Reads a category back from its storage identifier.
    pub fn from_str(s: &str) -> (r: FactType)
        ensures
            r == Self::spec_from_str(s@),
    {
        if crate::text::str_eq(s, "decision") {
            FactType::Decision
        } else if crate::text::str_eq(s, "blocker") {
            FactType::Blocker
        } else if crate::text::str_eq(s, "file_change") {
            FactType::FileChange
        } else if crate::text::str_eq(s, "dependency") {
            FactType::Dependency
        } else if crate::text::str_eq(s, "todo") {
            FactType::Todo
        } else {
            FactType::Insight
        }
    }

    /// Every category once, in display order.
    pub fn all() -> (r: Vec<FactType>)
        ensures
            r@ == seq![
                FactType::Decision,
                FactType::Blocker,
                FactType::FileChange,
                FactType::Dependency,
                FactType::Todo,
                FactType::Insight,
            ],
    {
        let r = vec![
            FactType::Decision,
            FactType::Blocker,
            FactType::FileChange,
            FactType::Dependency,
            FactType::Todo,
            FactType::Insight,
        ];
        proof {
            assert(r@ =~= seq![
                FactType::Decision,
                FactType::Blocker,
                FactType::FileChange,
                FactType::Dependency,
                FactType::Todo,
                FactType::Insight,
            ]);
        }
        r
    }
}

/// Reading a category's storage identifier back yields the category: the
/// identifiers round-trip.
pub proof fn lemma_fact_type_identifier_round_trip(t: FactType)
    ensures
        FactType::spec_from_str(t.spec_str()) == t,
{
    reveal_strlit("decision");
    reveal_strlit("blocker");
    reveal_strlit("file_change");
    reveal_strlit("dependency");
    reveal_strlit("todo");
    reveal_strlit("insight");
    assert("decision"@.len() == 8);
    assert("blocker"@.len() == 7);
    assert("file_change"@.len() == 11);
    assert("dependency"@.len() == 10);
    assert("todo"@.len() == 4);
    assert("insight"@.len() == 7);
    assert(FactType::spec_from_str("decision"@) == FactType::Decision);
    assert(FactType::spec_from_str("blocker"@) == FactType::Blocker);
    assert(FactType::spec_from_str("file_change"@) == FactType::FileChange);
    assert(FactType::spec_from_str("dependency"@) == FactType::Dependency);
    assert(FactType::spec_from_str("todo"@) == FactType::Todo);
    assert(("blocker"@)[0] != ("insight"@)[0]);
    assert(FactType::spec_from_str("insight"@) == FactType::Insight);
}

impl Default for FactType {
    fn default() -> (r: Self)
        ensures
            r == FactType::Insight,
    {
        FactType::Insight
    }
}

/// The base importance of each category: blockers first, decisions and
/// dependencies next, everything else in the middle.
pub open spec fn base_importance(t: FactType) -> int {
    match t {
        FactType::Blocker => 5,
        FactType::Decision => 4,
        FactType::Dependency => 4,
        FactType::FileChange => 3,
        FactType::Todo => 3,
        FactType::Insight => 3,
    }
}

/// `x` clamped to the importance range `[1, 5]`.
pub open spec fn clamp_importance(x: int) -> int {
    if x < 1 {
        1
    } else if x > 5 {
        5
    } else {
        x
    }
}

/// Five stars, the first `n` filled.
pub open spec fn star_seq(n: int) -> Seq<char> {
    Seq::new(5, |i: int| if i < n { '\u{2605}' } else { '\u{2606}' })
}

/// A fact extracted from a conversation session. Instants are whole seconds
/// since the Unix epoch.
#[derive(Debug, Clone)]
pub struct ExtractedFact {
    pub id: String,
    pub project: String,
    pub session: Option<String>,
    pub fact_type: FactType,
    pub content: String,
    pub importance: i32,
    pub stale: bool,
    pub created: i64,
    pub updated: i64,
}

/// Days between two instants, truncated toward zero as a day count is.
pub open spec fn days_between(created: int, now: int) -> int {
    div_trunc(now - created, 86400)
}

/// The wording for an age of `days` days.
pub open spec fn spec_age_words(days: int) -> Seq<char> {
    if days == 0 {
        "Today"@
    } else if days == 1 {
        "Yesterday"@
    } else if 2 <= days <= 6 {
        dec_int(days) + " days ago"@
    } else if 7 <= days <= 13 {
        "1 week ago"@
    } else if 14 <= days <= 29 {
        dec_int(days / 7) + " weeks ago"@
    } else if 30 <= days <= 59 {
        "1 month ago"@
    } else {
        dec_int(div_trunc(days, 30)) + " months ago"@
    }
}

impl ExtractedFact {
    /// A fresh fact with default middle importance, created at the current
    /// instant. The identifier is left empty for the repository to fill.
    pub fn new(project_id: String, fact_type: FactType, content: String) -> (r: Self)
        ensures
            r.id@.len() == 0,
            r.project@ == project_id@,
            r.session is None,
            r.fact_type == fact_type,
            r.content@ == content@,
            r.importance == 3,
            r.stale == false,
            r.created == r.updated,
    {
        let now = crate::clock::now_unix();
        ExtractedFact {
            id: String::new(),
            project: project_id,
            session: None,
            fact_type,
            content,
            importance: 3,
            stale: false,
            created: now,
            updated: now,
        }
    }

    /// The importance as a five-star rating.
    pub fn importance_stars(&self) -> (r: String)
        ensures
            r@ == star_seq(clamp_importance(self.importance as int)),
    {
        let filled: u64 = if self.importance < 1 {
            1
        } else if self.importance > 5 {
            5
        } else {
            self.importance as u64
        };
        proof {
            reveal_strlit("\u{2605}");
            reveal_strlit("\u{2606}");
            assert("\u{2605}"@ =~= seq!['\u{2605}']);
            assert("\u{2606}"@ =~= seq!['\u{2606}']);
        }
        let mut r = String::new();
        let mut i: u64 = 0;
        while i < filled
            invariant
                1 <= filled <= 5,
                i <= filled,
                "\u{2605}"@ == seq!['\u{2605}'],
                r@ =~= Seq::new(i as nat, |j: int| '\u{2605}'),
            decreases filled - i,
        {
            r.append("\u{2605}");
            proof {
                assert(r@ =~= Seq::new(i as nat + 1, |j: int| '\u{2605}'));
            }
            i = i + 1;
        }
        while i < 5
            invariant
                1 <= filled <= i <= 5,
                "\u{2606}"@ == seq!['\u{2606}'],
                r@ =~= Seq::new(i as nat, |j: int| if j < filled { '\u{2605}' } else { '\u{2606}' }),
            decreases 5 - i,
        {
            r.append("\u{2606}");
            proof {
                assert(r@ =~= Seq::new(
                    i as nat + 1,
                    |j: int| if j < filled { '\u{2605}' } else { '\u{2606}' },
                ));
            }
            i = i + 1;
        }
        proof {
            assert(r@ =~= star_seq(clamp_importance(self.importance as int)));
        }
        r
    }

    /// The content itself when it has at most eighty characters, and its
    /// first seventy-seven characters followed by an ellipsis otherwise.
    pub fn content_preview(&self) -> (r: String)
        ensures
            self.content@.len() <= 80 ==> r@ == self.content@,
            self.content@.len() > 80 ==> r@ == self.content@.subrange(0, 77) + "..."@,
    {
        let n = self.content.as_str().unicode_len();
        if n <= 80 {
            self.content.clone()
        } else {
            let mut r = self.content.as_str().substring_char(0, 77).to_owned();
            r.append("...");
            r
        }
    }

    /// Whether the fact has high importance (four stars or more).
    pub fn is_high_importance(&self) -> (r: bool)
        ensures
            r == (self.importance >= 4),
    {
        self.importance >= 4
    }

    /// Whether the fact has low importance (two stars or fewer).
    pub fn is_low_importance(&self) -> (r: bool)
        ensures
            r == (self.importance <= 2),
    {
        self.importance <= 2
    }

    /// Days between the fact's creation and `now`.
    pub fn age_days_at(&self, now: i64) -> (r: i64)
        ensures
            r as int == days_between(self.created as int, now as int),
    {
        let diff: i128 = now as i128 - self.created as i128;
        if diff >= 0 {
            (diff / 86400) as i64
        } else {
            (-((-diff) / 86400)) as i64
        }
    }

    /// Days since the fact was created, measured against the wall clock; the
    /// value moves with the clock, so nothing more is promised of it.
    pub fn age_days(&self) -> i64 {
        self.age_days_at(crate::clock::now_unix())
    }

    /// The wording for an age of `days` days.
    pub fn age_words(days: i64) -> (r: String)
        ensures
            r@ == spec_age_words(days as int),
    {
        if days == 0 {
            proof {
                reveal_strlit("Today");
            }
            "Today".to_owned()
        } else if days == 1 {
            proof {
                reveal_strlit("Yesterday");
            }
            "Yesterday".to_owned()
        } else if 2 <= days && days <= 6 {
            let digits = dec_chars_i64(days);
            proof {
                lemma_dec_int_chars(days as int);
            }
            let mut r = number_chars_to_string(&digits);
            r.append(" days ago");
            r
        } else if 7 <= days && days <= 13 {
            proof {
                reveal_strlit("1 week ago");
            }
            "1 week ago".to_owned()
        } else if 14 <= days && days <= 29 {
            let digits = dec_chars_i64(days / 7);
            proof {
                lemma_dec_int_chars(days as int / 7);
            }
            let mut r = number_chars_to_string(&digits);
            r.append(" weeks ago");
            r
        } else if 30 <= days && days <= 59 {
            proof {
                reveal_strlit("1 month ago");
            }
            "1 month ago".to_owned()
        } else {
            let months: i64 = if days >= 0 {
                days / 30
            } else {
                -((-(days as i128) / 30) as i64)
            };
            let digits = dec_chars_i64(months);
            proof {
                lemma_dec_int_chars(months as int);
            }
            let mut r = number_chars_to_string(&digits);
            r.append(" months ago");
            r
        }
    }

    /// A human-readable age, measured against the wall clock; the value moves
    /// with the clock, so nothing more is promised of it.
    pub fn age_display(&self) -> String {
        Self::age_words(self.age_days())
    }

    /// The fact as a repository payload.
    pub fn to_payload(&self) -> (r: ExtractedFactPayload)
        ensures
            r.project@ == self.project@,
            crate::extractor::opt_str_view(r.session) == crate::extractor::opt_str_view(
                self.session,
            ),
            r.fact_type == self.fact_type,
            r.content@ == self.content@,
            r.importance == self.importance,
            r.stale == Some(self.stale),
    {
        ExtractedFactPayload {
            project: self.project.clone(),
            session: crate::project::clone_opt_string(&self.session),
            fact_type: self.fact_type,
            content: self.content.clone(),
            importance: self.importance,
            stale: Some(self.stale),
        }
    }
}

/// The shape of a fact handed to the repository when a fact is created or
/// updated.
#[derive(Debug, Clone)]
pub struct ExtractedFactPayload {
    pub project: String,
    pub session: Option<String>,
    pub fact_type: FactType,
    pub content: String,
    pub importance: i32,
    pub stale: Option<bool>,
}

/// Number of facts in `facts` of category `t`.
pub open spec fn count_type(facts: Seq<ExtractedFact>, t: FactType) -> nat
    decreases facts.len(),
{
    if facts.len() == 0 {
        0
    } else {
        count_type(facts.drop_last(), t) + if facts.last().fact_type == t {
            1nat
        } else {
            0nat
        }
    }
}

/// Number of facts in `facts` with importance four or more.
pub open spec fn count_high(facts: Seq<ExtractedFact>) -> nat
    decreases facts.len(),
{
    if facts.len() == 0 {
        0
    } else {
        count_high(facts.drop_last()) + if facts.last().importance >= 4 {
            1nat
        } else {
            0nat
        }
    }
}

/// Number of stale facts in `facts`.
pub open spec fn count_stale(facts: Seq<ExtractedFact>) -> nat
    decreases facts.len(),
{
    if facts.len() == 0 {
        0
    } else {
        count_stale(facts.drop_last()) + if facts.last().stale {
            1nat
        } else {
            0nat
        }
    }
}

pub proof fn lemma_count_type_bound(facts: Seq<ExtractedFact>, t: FactType)
    ensures
        count_type(facts, t) <= facts.len(),
    decreases facts.len(),
{
    if facts.len() > 0 {
        lemma_count_type_bound(facts.drop_last(), t);
    }
}

/// The slot of each category in the per-category counts.
pub open spec fn type_index(t: FactType) -> int {
    match t {
        FactType::Decision => 0,
        FactType::Blocker => 1,
        FactType::FileChange => 2,
        FactType::Dependency => 3,
        FactType::Todo => 4,
        FactType::Insight => 5,
    }
}

/// Counts over a list of facts: the total, a count per category, and how
/// many are highly important or stale.
#[derive(Debug, Clone)]
pub struct FactStats {
    pub total: usize,
    pub by_type: Vec<usize>,
    pub high_importance: usize,
    pub stale: usize,
}

impl FactStats {
    /// The per-category counts hold one slot per category.
    pub open spec fn wf(self) -> bool {
        self.by_type@.len() == 6
    }

    /// Statistics over `facts`.
    pub fn from_facts(facts: &Vec<ExtractedFact>) -> (r: FactStats)
        ensures
            r.wf(),
            r.total == facts@.len(),
            r.high_importance == count_high(facts@),
            r.stale == count_stale(facts@),
            forall|t: FactType| #[trigger] r.by_type@[type_index(t)] == count_type(facts@, t),
    {
        let mut by_type: Vec<usize> = vec![0, 0, 0, 0, 0, 0];
        let mut high_importance: usize = 0;
        let mut stale: usize = 0;
        let n = facts.len();
        let mut i: usize = 0;
        proof {
            assert(by_type@ =~= seq![0usize, 0usize, 0usize, 0usize, 0usize, 0usize]);
        }
        while i < n
            invariant
                n == facts@.len(),
                i <= n,
                by_type@.len() == 6,
                forall|t: FactType| #[trigger] by_type@[type_index(t)] == count_type(
                    facts@.take(i as int),
                    t,
                ),
                high_importance == count_high(facts@.take(i as int)),
                stale == count_stale(facts@.take(i as int)),
            decreases n - i,
        {
            let f = &facts[i];
            let idx = Self::type_slot(f.fact_type);
            proof {
                lemma_count_type_bound(facts@.take(i as int), f.fact_type);
                assert(facts@.take(i as int + 1).drop_last() =~= facts@.take(i as int));
                assert(count_high(facts@.take(i as int)) <= i) by {
                    lemma_count_high_bound(facts@.take(i as int));
                }
                assert(count_stale(facts@.take(i as int)) <= i) by {
                    lemma_count_stale_bound(facts@.take(i as int));
                }
            }
            by_type[idx] = by_type[idx] + 1;
            if f.importance >= 4 {
                high_importance = high_importance + 1;
            }
            if f.stale {
                stale = stale + 1;
            }
            proof {
                assert forall|t: FactType| #[trigger] by_type@[type_index(t)] == count_type(
                    facts@.take(i as int + 1),
                    t,
                ) by {
                    if type_index(t) != idx as int {
                        assert(t != facts@[i as int].fact_type);
                    }
                }
            }
            i = i + 1;
        }
        proof {
            assert(facts@.take(n as int) =~= facts@);
        }
        FactStats { total: n, by_type, high_importance, stale }
    }

    /// The slot of a category, as executable code.
    fn type_slot(t: FactType) -> (r: usize)
        ensures
            r as int == type_index(t),
            r < 6,
    {
        match t {
            FactType::Decision => 0,
            FactType::Blocker => 1,
            FactType::FileChange => 2,
            FactType::Dependency => 3,
            FactType::Todo => 4,
            FactType::Insight => 5,
        }
    }

    /// The count recorded for one category.
    pub fn count_for_type(&self, fact_type: FactType) -> (r: usize)
        requires
            self.wf(),
        ensures
            r == self.by_type@[type_index(fact_type)],
    {
        let idx = Self::type_slot(fact_type);
        self.by_type[idx]
    }
}

pub proof fn lemma_count_high_bound(facts: Seq<ExtractedFact>)
    ensures
        count_high(facts) <= facts.len(),
    decreases facts.len(),
{
    if facts.len() > 0 {
        lemma_count_high_bound(facts.drop_last());
    }
}

pub proof fn lemma_count_stale_bound(facts: Seq<ExtractedFact>)
    ensures
        count_stale(facts) <= facts.len(),
    decreases facts.len(),
{
    if facts.len() > 0 {
        lemma_count_stale_bound(facts.drop_last());
    }
}

} // verus!

