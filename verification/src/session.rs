//! Session records: one per ingested conversation log, with a summary, a
//! fact count and a token count.

use vstd::prelude::*;
use vstd::string::StringExecFns;

use crate::text::{dec_int, div_trunc, grouped_dec_int, lemma_dec_nat_chars, lemma_grouped_chars};
use crate::text::{dec_chars_i64, group_chars, lemma_dec_int_chars, number_chars_to_string};
use crate::text::push_dec_u64;

verus! {

/// A conversation session. Instants are whole seconds since the Unix epoch;
/// an open session has no end instant.
#[derive(Debug, Clone)]
pub struct SessionHistory {
    pub id: String,
    pub project: String,
    pub summary: String,
    pub facts_extracted: i32,
    pub token_count: i64,
    pub session_start: i64,
    pub session_end: Option<i64>,
    pub created: i64,
    pub updated: i64,
}

/// Truncated remainder, as the `%` of machine integers.
pub open spec fn rem_trunc(a: int, b: int) -> int {
    a - div_trunc(a, b) * b
}

/// The wording for the span between `start` and `end`: hours and minutes
/// when at least one whole hour passed, minutes alone otherwise.
pub open spec fn spec_duration_words(start: int, end: int) -> Seq<char> {
    let hours = div_trunc(end - start, 3600);
    let minutes = rem_trunc(div_trunc(end - start, 60), 60);
    if hours > 0 {
        dec_int(hours) + "h "@ + dec_int(minutes) + "m"@
    } else {
        dec_int(minutes) + "m"@
    }
}

impl SessionHistory {
    /// A fresh open session starting at the current instant. The identifier
    /// is left empty for the repository to fill.
    pub fn new(project_id: String, summary: String) -> (r: Self)
        ensures
            r.id@.len() == 0,
            r.project@ == project_id@,
            r.summary@ == summary@,
            r.facts_extracted == 0,
            r.token_count == 0,
            r.session_end is None,
            r.session_start == r.created,
            r.created == r.updated,
    {
        let now = crate::clock::now_unix();
        SessionHistory {
            id: String::new(),
            project: project_id,
            summary,
            facts_extracted: 0,
            token_count: 0,
            session_start: now,
            session_end: None,
            created: now,
            updated: now,
        }
    }

    /// The session's duration in words, or a note that it is still open.
    pub fn duration_display(&self) -> (r: String)
        ensures
            match self.session_end {
                Some(end) => r@ == spec_duration_words(self.session_start as int, end as int),
                None => r@ == "In progress"@,
            },
    {
        match self.session_end {
            Some(end) => {
                let secs: i128 = end as i128 - self.session_start as i128;
                let neg = secs < 0;
                let abs_secs: u64 = if neg {
                    (-secs) as u64
                } else {
                    secs as u64
                };
                let hours_abs: u64 = abs_secs / 3600;
                let minutes_abs: u64 = (abs_secs / 60) % 60;
                let hours: i64 = if neg {
                    -(hours_abs as i64)
                } else {
                    hours_abs as i64
                };
                let minutes: i64 = if neg {
                    -(minutes_abs as i64)
                } else {
                    minutes_abs as i64
                };
                proof {
                    let s = secs as int;
                    lemma_rem_trunc_is_mod(div_trunc(s, 60), 60);
                    assert(hours as int == div_trunc(s, 3600));
                    assert(minutes as int == rem_trunc(div_trunc(s, 60), 60));
                }
                let minute_digits = dec_chars_i64(minutes);
                proof {
                    lemma_dec_int_chars(minutes as int);
                }
                let minute_str = number_chars_to_string(&minute_digits);
                if hours > 0 {
                    let hour_digits = dec_chars_i64(hours);
                    proof {
                        lemma_dec_int_chars(hours as int);
                    }
                    let mut r = number_chars_to_string(&hour_digits);
                    r.append("h ");
                    r.append(minute_str.as_str());
                    r.append("m");
                    r
                } else {
                    let mut r = minute_str;
                    r.append("m");
                    r
                }
            },
            None => "In progress".to_owned(),
        }
    }

    /// The token count with thousands separators.
    pub fn token_count_display(&self) -> (r: String)
        ensures
            r@ == grouped_dec_int(self.token_count as int),
    {
        format_number_with_separator(self.token_count)
    }

    /// Whether the session is close to a context window of two hundred
    /// thousand tokens: more than eighty-five per cent of it used.
    pub fn is_near_limit(&self) -> (r: bool)
        ensures
            r == (self.token_count > 170000),
    {
        self.token_count > 170000
    }

    /// Whether the session is still open.
    pub fn is_active(&self) -> (r: bool)
        ensures
            r == (self.session_end is None),
    {
        self.session_end.is_none()
    }

    /// The session as a repository payload.
    pub fn to_payload(&self) -> (r: SessionPayload)
        ensures
            r.project@ == self.project@,
            r.summary@ == self.summary@,
            r.facts_extracted == Some(self.facts_extracted),
            r.token_count == Some(self.token_count),
            r.session_start == Some(self.session_start),
            r.session_end == self.session_end,
    {
        SessionPayload {
            project: self.project.clone(),
            summary: self.summary.clone(),
            facts_extracted: Some(self.facts_extracted),
            token_count: Some(self.token_count),
            session_start: Some(self.session_start),
            session_end: self.session_end,
        }
    }
}

/// The shape of a session handed to the repository when a session is created
/// or updated. Fields left as `None` are not touched.
#[derive(Debug, Clone)]
pub struct SessionPayload {
    pub project: String,
    pub summary: String,
    pub facts_extracted: Option<i32>,
    pub token_count: Option<i64>,
    pub session_start: Option<i64>,
    pub session_end: Option<i64>,
}

/// `num` in decimal with a comma before every group of three digits,
/// counted from the right; the sign of a negative number stands outside
/// the grouping.
pub fn format_number_with_separator(num: i64) -> (r: String)
    ensures
        r@ == grouped_dec_int(num as int),
{
    let neg = num < 0;
    let magnitude: u64 = if neg {
        (-(num as i128)) as u64
    } else {
        num as u64
    };
    let mut digits: Vec<char> = Vec::new();
    push_dec_u64(&mut digits, magnitude);
    let mut grouped_digits = group_chars(&digits, digits.len());
    proof {
        lemma_dec_nat_chars(magnitude as nat);
        assert(digits@.take(digits@.len() as int) =~= digits@);
        lemma_grouped_chars(digits@);
    }
    let mut out: Vec<char> = Vec::new();
    if neg {
        out.push('-');
    }
    out.append(&mut grouped_digits);
    proof {
        assert(out@ =~= grouped_dec_int(num as int));
    }
    number_chars_to_string(&out)
}

proof fn lemma_rem_trunc_is_mod(a: int, b: int)
    requires
        b > 0,
    ensures
        a >= 0 ==> rem_trunc(a, b) == a % b,
        a < 0 ==> rem_trunc(a, b) == -((-a) % b),
{
    if a >= 0 {
        vstd::arithmetic::div_mod::lemma_fundamental_div_mod(a, b);
        let q = a / b;
        assert(a == b * q + a % b);
        assert(q * b == b * q) by (nonlinear_arith);
    } else {
        vstd::arithmetic::div_mod::lemma_fundamental_div_mod(-a, b);
        let q = (-a) / b;
        assert(-a == b * q + (-a) % b);
        assert((-q) * b == -(b * q)) by (nonlinear_arith);
        assert(div_trunc(a, b) == -q);
    }
}

} // verus!
