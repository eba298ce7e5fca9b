//! The importance scorer and the staleness detector.
//!
//! A fact's score is its category's base importance, raised by content
//! signals and recency and clamped to `[1, 5]`. A fact goes stale when its
//! content reports completion, or when it outlives its category's horizon.

use vstd::prelude::*;

use crate::fact::{base_importance, clamp_importance, ExtractedFact, FactType};
use crate::text::{contains_ci, str_to_chars};
use crate::text::contains_lit;

verus! {

/// The content names something critical: an urgent or security-related
/// signal.
pub open spec fn has_critical_signal(content: Seq<char>) -> bool {
    ||| contains_ci(content, "critical"@)
    ||| contains_ci(content, "urgent"@)
    ||| contains_ci(content, "blocker"@)
    ||| contains_ci(content, "security"@)
}

/// The content names a breaking change.
pub open spec fn has_breaking_signal(content: Seq<char>) -> bool {
    ||| contains_ci(content, "breaking"@)
    ||| contains_ci(content, "incompatible"@)
}

/// The content names a performance concern.
pub open spec fn has_performance_signal(content: Seq<char>) -> bool {
    ||| contains_ci(content, "slow"@)
    ||| contains_ci(content, "performance"@)
    ||| contains_ci(content, "optimization"@)
}

/// The content bonus: one point for each signal family that fires and one
/// for content longer than two hundred characters, capped at two points.
pub open spec fn content_bonus(content: Seq<char>) -> int {
    let raw = (if has_critical_signal(content) {
        1int
    } else {
        0int
    }) + (if has_breaking_signal(content) {
        1int
    } else {
        0int
    }) + (if has_performance_signal(content) {
        1int
    } else {
        0int
    }) + (if content.len() > 200 {
        1int
    } else {
        0int
    });
    if raw > 2 {
        2
    } else {
        raw
    }
}

/// The recency bonus at age `now - created` seconds: one point within the
/// first hour, nothing up to a day, one point off beyond that.
pub open spec fn recency_bonus(created: int, now: int) -> int {
    let age = now - created;
    if age < 3600 {
        1
    } else if age < 86400 {
        0
    } else {
        -1
    }
}

/// The full score: base importance plus content and recency bonuses,
/// clamped to `[1, 5]`.
pub open spec fn spec_score(t: FactType, content: Seq<char>, created: int, now: int) -> int {
    clamp_importance(base_importance(t) + content_bonus(content) + recency_bonus(created, now))
}

/// The importance scorer. The scoring tables are fixed data, so the scorer
/// itself is stateless.
pub struct ImportanceScorer;

impl ImportanceScorer {
    /// The base importance of a category.
    pub fn base_score_for_type(fact_type: FactType) -> (r: i32)
        ensures
            r as int == base_importance(fact_type),
    {
        match fact_type {
            FactType::Blocker => 5,
            FactType::Decision => 4,
            FactType::Dependency => 4,
            FactType::FileChange => 3,
            FactType::Todo => 3,
            FactType::Insight => 3,
        }
    }

    /// The content bonus of a content string.
    pub fn analyze_content(content: &str) -> (r: i32)
        ensures
            r as int == content_bonus(content@),
            0 <= r <= 2,
    {
        let chars = str_to_chars(content);
        let mut bonus: i32 = 0;
        if contains_lit(&chars, "critical") || contains_lit(&chars, "urgent") || contains_lit(
            &chars,
            "blocker",
        ) || contains_lit(&chars, "security") {
            bonus = bonus + 1;
        }
        if contains_lit(&chars, "breaking") || contains_lit(&chars, "incompatible") {
            bonus = bonus + 1;
        }
        if contains_lit(&chars, "slow") || contains_lit(&chars, "performance") || contains_lit(
            &chars,
            "optimization",
        ) {
            bonus = bonus + 1;
        }
        if chars.len() > 200 {
            bonus = bonus + 1;
        }
        if bonus > 2 {
            2
        } else {
            bonus
        }
    }

    /// The score of a fact as evaluated at instant `now`.
    pub fn score_at(fact: &ExtractedFact, now: i64) -> (r: i32)
        ensures
            r as int == spec_score(fact.fact_type, fact.content@, fact.created as int, now as int),
            1 <= r <= 5,
    {
        let base = Self::base_score_for_type(fact.fact_type);
        let bonus = Self::analyze_content(fact.content.as_str());
        let age: i128 = now as i128 - fact.created as i128;
        let recency: i32 = if age < 3600 {
            1
        } else if age < 86400 {
            0
        } else {
            -1
        };
        let total = base + bonus + recency;
        if total < 1 {
            1
        } else if total > 5 {
            5
        } else {
            total
        }
    }

    /// The score of a fact as evaluated now. The age bucket moves with the
    /// wall clock, so only the range is promised; at any one instant the
    /// score is the one `score_at` gives.
    pub fn calculate_score(fact: &ExtractedFact) -> (r: i32)
        ensures
            1 <= r <= 5,
    {
        Self::score_at(fact, crate::clock::now_unix())
    }
}

/// The content reports completion or resolution.
pub open spec fn has_completion_signal(content: Seq<char>) -> bool {
    ||| contains_ci(content, "resolved"@)
    ||| contains_ci(content, "fixed"@)
    ||| contains_ci(content, "done"@)
    ||| contains_ci(content, "completed"@)
    ||| contains_ci(content, "finished"@)
    ||| contains_ci(content, "merged"@)
    ||| contains_ci(content, "closed"@)
}

/// Each category's staleness horizon in days.
pub open spec fn staleness_horizon_days(t: FactType) -> int {
    match t {
        FactType::Blocker => 3,
        FactType::Todo => 14,
        FactType::FileChange => 30,
        FactType::Dependency => 90,
        FactType::Insight => 90,
        FactType::Decision => 180,
    }
}

/// A fact is stale at instant `now` when its content reports completion, or
/// when its age exceeds its category's horizon.
pub open spec fn spec_is_stale(t: FactType, content: Seq<char>, created: int, now: int) -> bool {
    ||| has_completion_signal(content)
    ||| now - created > staleness_horizon_days(t) * 86400
}

/// The staleness detector: a pure predicate over a fact snapshot, with no
/// side effects. The horizons are fixed data, so the detector is stateless.
pub struct StalenessDetector;

impl StalenessDetector {
    /// Whether the content reports completion or resolution.
    pub fn has_completion_keywords(content: &str) -> (r: bool)
        ensures
            r == has_completion_signal(content@),
    {
        let chars = str_to_chars(content);
        contains_lit(&chars, "resolved") || contains_lit(&chars, "fixed") || contains_lit(
            &chars,
            "done",
        ) || contains_lit(&chars, "completed") || contains_lit(&chars, "finished") || contains_lit(
            &chars,
            "merged",
        ) || contains_lit(&chars, "closed")
    }

    /// Whether the fact is stale as evaluated at instant `now`.
    pub fn is_stale_at(fact: &ExtractedFact, now: i64) -> (r: bool)
        ensures
            r == spec_is_stale(fact.fact_type, fact.content@, fact.created as int, now as int),
    {
        if Self::has_completion_keywords(fact.content.as_str()) {
            return true;
        }
        let horizon_days: i64 = match fact.fact_type {
            FactType::Blocker => 3,
            FactType::Todo => 14,
            FactType::FileChange => 30,
            FactType::Dependency => 90,
            FactType::Insight => 90,
            FactType::Decision => 180,
        };
        let age: i128 = now as i128 - fact.created as i128;
        age > horizon_days as i128 * 86400
    }

    /// Whether the fact is stale as evaluated now. A fact whose content
    /// reports completion is stale at every instant; for the rest the
    /// outcome moves with the wall clock, so only that much is promised
    /// here; at any one instant the outcome is the one `is_stale_at` gives.
    pub fn is_stale(fact: &ExtractedFact) -> (r: bool)
        ensures
            has_completion_signal(fact.content@) ==> r,
    {
        Self::is_stale_at(fact, crate::clock::now_unix())
    }
}

/// The content bonus never exceeds two points, however many of its rules
/// fire at once.
pub proof fn lemma_content_bonus_capped(content: Seq<char>)
    ensures
        0 <= content_bonus(content) <= 2,
{
}

/// Every score lies in `[1, 5]`, whatever the category, content and age;
/// with category, content and age bucket fixed, the score is one fixed
/// value, for `spec_score` is a function of them alone.
pub proof fn lemma_score_in_range(t: FactType, content: Seq<char>, created: int, now: int)
    ensures
        1 <= spec_score(t, content, created, now) <= 5,
{
}

/// A blocker evaluated within its first day scores at least four: its base
/// of five is lowered by nothing, for the recency bonus is not yet negative.
pub proof fn lemma_fresh_blocker_scores_high(content: Seq<char>, created: int, now: int)
    requires
        now - created < 86400,
    ensures
        spec_score(FactType::Blocker, content, created, now) >= 4,
{
}

/// A fact whose content contains "resolved" is stale at every instant,
/// whatever its category and age.
pub proof fn lemma_resolved_always_stale(t: FactType, content: Seq<char>, created: int, now: int)
    requires
        contains_ci(content, "resolved"@),
    ensures
        spec_is_stale(t, content, created, now),
{
}

/// A blocker older than three days is stale; one within the horizon and
/// without completion keywords is not.
pub proof fn lemma_blocker_staleness(content: Seq<char>, created: int, now: int)
    ensures
        now - created > 3 * 86400 ==> spec_is_stale(FactType::Blocker, content, created, now),
        !has_completion_signal(content) && now - created <= 3 * 86400 ==> !spec_is_stale(
            FactType::Blocker,
            content,
            created,
            now,
        ),
{
}

} // verus!
