//! The pure decision steps of the ingestion pipeline. The host runs the
//! loop around them: it reads files and talks to the repository, and hands
//! every decision to the functions here as plain values.

use vstd::prelude::*;
use vstd::string::StrSliceExecFns;
use vstd::string::StringExecFns;

use crate::extractor::{message_entries, payloads_match, FactExtractor};
use crate::fact::{ExtractedFact, ExtractedFactPayload, FactType};
use crate::parser::{total_content_chars, ConversationLog, Message};
use crate::scorer::{spec_is_stale, StalenessDetector};
use crate::session::SessionPayload;
use crate::text::str_eq;

verus! {

/// Position of the first message with role `user`, or the message count if
/// there is none.
pub open spec fn first_user(msgs: Seq<Message>) -> nat
    decreases msgs.len(),
{
    if msgs.len() == 0 {
        0
    } else if msgs[0].role@ == "user"@ {
        0
    } else {
        1 + first_user(msgs.drop_first())
    }
}

pub proof fn lemma_first_user_is(msgs: Seq<Message>, e: int)
    requires
        0 <= e <= msgs.len(),
        forall|j: int| 0 <= j < e ==> (#[trigger] msgs[j]).role@ != "user"@,
        e < msgs.len() ==> msgs[e].role@ == "user"@,
    ensures
        first_user(msgs) == e,
    decreases msgs.len(),
{
    if e == 0 {
    } else {
        assert(msgs[0].role@ != "user"@);
        assert forall|j: int| 0 <= j < e - 1 implies (#[trigger] msgs.drop_first()[j]).role@
            != "user"@ by {
            assert(msgs.drop_first()[j] == msgs[j + 1]);
        }
        lemma_first_user_is(msgs.drop_first(), e - 1);
    }
}

/// The summary of a log: the first user message, shortened to its first
/// ninety-seven characters and an ellipsis when it is longer than one
/// hundred; fixed wording when the log is empty or has no user message.
pub open spec fn spec_summary(msgs: Seq<Message>) -> Seq<char> {
    if msgs.len() == 0 {
        "Empty conversation"@
    } else {
        let k = first_user(msgs);
        if k >= msgs.len() {
            "Conversation"@
        } else {
            let c = msgs[k as int].content@;
            if c.len() > 100 {
                c.take(97) + "..."@
            } else {
                c
            }
        }
    }
}

/// The summary the session record of this log gets.
pub fn session_summary(log: &ConversationLog) -> (r: String)
    ensures
        r@ == spec_summary(log.messages@),
{
    let n = log.messages.len();
    if n == 0 {
        return "Empty conversation".to_owned();
    }
    let mut i: usize = 0;
    while i < n && !str_eq(log.messages[i].role.as_str(), "user")
        invariant
            n == log.messages@.len(),
            i <= n,
            forall|j: int| 0 <= j < i ==> (#[trigger] log.messages@[j]).role@ != "user"@,
        decreases n - i,
    {
        i = i + 1;
    }
    proof {
        lemma_first_user_is(log.messages@, i as int);
    }
    if i == n {
        return "Conversation".to_owned();
    }
    let content = &log.messages[i].content;
    let len = content.as_str().unicode_len();
    if len > 100 {
        let mut r = content.as_str().substring_char(0, 97).to_owned();
        r.append("...");
        r
    } else {
        content.clone()
    }
}

/// The payload that creates this log's session record: the derived summary,
/// no facts yet, the estimated token count, and a start at the current
/// instant, left open.
pub fn session_payload_for_log(log: &ConversationLog, project_id: &str) -> (p: SessionPayload)
    ensures
        p.project@ == project_id@,
        p.summary@ == spec_summary(log.messages@),
        p.facts_extracted == Some(0i32),
        p.token_count matches Some(t) && t >= 0 && (total_content_chars(log.messages@) / 4
            <= i64::MAX ==> t == total_content_chars(log.messages@) / 4),
        p.session_start is Some,
        p.session_end is None,
{
    let summary = session_summary(log);
    let token_count = log.estimate_tokens();
    SessionPayload {
        project: project_id.to_owned(),
        summary,
        facts_extracted: Some(0),
        token_count: Some(token_count),
        session_start: Some(crate::clock::now_unix()),
        session_end: None,
    }
}

/// Every candidate fact of every assistant message, in message order.
pub open spec fn assistant_entries(msgs: Seq<Message>) -> Seq<(FactType, Seq<char>)>
    decreases msgs.len(),
{
    if msgs.len() == 0 {
        seq![]
    } else {
        assistant_entries(msgs.drop_last()) + if msgs.last().role@ == "assistant"@ {
            message_entries(msgs.last().content@)
        } else {
            seq![]
        }
    }
}

/// The classification pass over one parsed log: every assistant message is
/// classified and every candidate fact is bound to the given session.
pub fn extract_log_facts(extractor: &FactExtractor, log: &ConversationLog, session_id: &str) -> (
    facts: Vec<ExtractedFactPayload>)
    ensures
        payloads_match(
            facts@,
            extractor.project_id@,
            Some(session_id@),
            assistant_entries(log.messages@),
        ),
{
    let mut facts: Vec<ExtractedFactPayload> = Vec::new();
    let n = log.messages.len();
    let mut i: usize = 0;
    while i < n
        invariant
            n == log.messages@.len(),
            i <= n,
            payloads_match(
                facts@,
                extractor.project_id@,
                Some(session_id@),
                assistant_entries(log.messages@.take(i as int)),
            ),
        decreases n - i,
    {
        proof {
            assert(log.messages@.take(i as int + 1).drop_last() =~= log.messages@.take(i as int));
        }
        let msg = &log.messages[i];
        if str_eq(msg.role.as_str(), "assistant") {
            let mut message_facts = extractor.extract_from_message(
                msg.content.as_str(),
                Some(session_id.to_owned()),
            );
            proof {
                crate::extractor::lemma_payloads_match_concat(
                    facts@,
                    message_facts@,
                    extractor.project_id@,
                    Some(session_id@),
                    assistant_entries(log.messages@.take(i as int)),
                    message_entries(msg.content@),
                );
            }
            facts.append(&mut message_facts);
        }
        i = i + 1;
    }
    proof {
        assert(log.messages@.take(n as int) =~= log.messages@);
    }
    facts
}

/// The identifiers of the facts that are stale at instant `now`, in list
/// order.
pub open spec fn stale_ids(facts: Seq<ExtractedFact>, now: int) -> Seq<Seq<char>>
    decreases facts.len(),
{
    if facts.len() == 0 {
        seq![]
    } else {
        stale_ids(facts.drop_last(), now) + if spec_is_stale(
            facts.last().fact_type,
            facts.last().content@,
            facts.last().created as int,
            now,
        ) {
            seq![facts.last().id@]
        } else {
            seq![]
        }
    }
}

/// The staleness sweep's decision: which of the given facts are to be
/// marked stale as evaluated at instant `now`.
pub fn stale_fact_ids(facts: &Vec<ExtractedFact>, now: i64) -> (r: Vec<String>)
    ensures
        r@.len() == stale_ids(facts@, now as int).len(),
        forall|k: int|
            0 <= k < r@.len() ==> (#[trigger] r@[k])@ == stale_ids(facts@, now as int)[k],
{
    let mut r: Vec<String> = Vec::new();
    let n = facts.len();
    let mut i: usize = 0;
    while i < n
        invariant
            n == facts@.len(),
            i <= n,
            r@.len() == stale_ids(facts@.take(i as int), now as int).len(),
            forall|k: int|
                0 <= k < r@.len() ==> (#[trigger] r@[k])@ == stale_ids(
                    facts@.take(i as int),
                    now as int,
                )[k],
        decreases n - i,
    {
        proof {
            assert(facts@.take(i as int + 1).drop_last() =~= facts@.take(i as int));
        }
        if StalenessDetector::is_stale_at(&facts[i], now) {
            r.push(facts[i].id.clone());
        }
        i = i + 1;
    }
    proof {
        assert(facts@.take(n as int) =~= facts@);
    }
    r
}

/// Re-running an ingestion pass over the same parsed log yields a duplicate
/// fact set: any two classification passes bound to the same project and
/// session produce fact lists of the same length whose entries agree in
/// category, content, project, session and importance. Nothing deduplicates
/// them, and each pass gets a session record of its own from the host, so
/// processing a file twice stores everything twice; that is intended.
pub proof fn lemma_reingestion_duplicates_facts(
    ps1: Seq<ExtractedFactPayload>,
    ps2: Seq<ExtractedFactPayload>,
    project: Seq<char>,
    session: Option<Seq<char>>,
    es: Seq<(FactType, Seq<char>)>,
)
    requires
        crate::extractor::payloads_match(ps1, project, session, es),
        crate::extractor::payloads_match(ps2, project, session, es),
    ensures
        ps1.len() == ps2.len(),
        forall|k: int|
            0 <= k < ps1.len() ==> {
                &&& (#[trigger] ps1[k]).fact_type == ps2[k].fact_type
                &&& ps1[k].content@ == ps2[k].content@
                &&& ps1[k].project@ == ps2[k].project@
                &&& crate::extractor::opt_str_view(ps1[k].session) == crate::extractor::opt_str_view(
                    ps2[k].session,
                )
                &&& ps1[k].importance == ps2[k].importance
            },
{
}

/// Position just after the last occurrence of `c`, or zero if there is
/// none.
pub open spec fn after_last(s: Seq<char>, c: char) -> int
    decreases s.len(),
{
    if s.len() == 0 {
        0
    } else if s.last() == c {
        s.len() as int
    } else {
        after_last(s.drop_last(), c)
    }
}

pub proof fn lemma_after_last_is(s: Seq<char>, c: char, e: int)
    requires
        0 <= e <= s.len(),
        forall|j: int| e <= j < s.len() ==> s[j] != c,
        e > 0 ==> s[e - 1] == c,
    ensures
        after_last(s, c) == e,
    decreases s.len(),
{
    if s.len() > 0 {
        if e == s.len() {
        } else {
            assert(s.last() != c);
            assert forall|j: int| e <= j < s.drop_last().len() implies s.drop_last()[j] != c by {
                assert(s.drop_last()[j] == s[j]);
            }
            lemma_after_last_is(s.drop_last(), c, e);
        }
    }
}

/// The path names a file with extension `json`: its file name, the part
/// after the last slash, has a dot that is not its first character, and
/// what follows the last dot is exactly `json`.
pub open spec fn has_json_extension(path: Seq<char>) -> bool {
    let name_start = after_last(path, '/');
    let dot = after_last(path, '.');
    &&& dot > name_start + 1
    &&& path.skip(dot) == "json"@
}

/// Whether the path names a log file the pipeline should process.
pub fn is_log_file_path(path: &str) -> (r: bool)
    ensures
        r == has_json_extension(path@),
{
    let chars = crate::text::str_to_chars(path);
    let n = chars.len();
    let mut k: usize = n;
    while k > 0 && chars[k - 1] != '/'
        invariant
            chars@ == path@,
            n == path@.len(),
            k <= n,
            forall|j: int| k <= j < n ==> path@[j] != '/',
        decreases k,
    {
        k = k - 1;
    }
    proof {
        lemma_after_last_is(path@, '/', k as int);
    }
    let name_start = k;
    let mut d: usize = n;
    while d > 0 && chars[d - 1] != '.'
        invariant
            chars@ == path@,
            n == path@.len(),
            d <= n,
            forall|j: int| d <= j < n ==> path@[j] != '.',
        decreases d,
    {
        d = d - 1;
    }
    proof {
        lemma_after_last_is(path@, '.', d as int);
    }
    if d == 0 || d - 1 <= name_start {
        return false;
    }
    let ext = path.substring_char(d, n);
    proof {
        assert(ext@ =~= path@.skip(d as int));
    }
    str_eq(ext, "json")
}

/// A filesystem event kind as the pipeline sees it: a creation, a
/// modification, or anything else.
#[derive(Debug, Clone, Copy, PartialEq, Eq, Structural)]
pub enum WatchEventKind {
    Create,
    Modify,
    Other,
}

/// The paths among `paths` that name log files.
pub open spec fn log_paths(paths: Seq<String>) -> Seq<Seq<char>>
    decreases paths.len(),
{
    if paths.len() == 0 {
        seq![]
    } else {
        log_paths(paths.drop_last()) + if has_json_extension(paths.last()@) {
            seq![paths.last()@]
        } else {
            seq![]
        }
    }
}

/// The watcher's decision for one event: on a creation or modification,
/// process every affected path that names a log file, in event order; on
/// any other event, process nothing.
pub fn paths_to_process(kind: WatchEventKind, paths: &Vec<String>) -> (r: Vec<String>)
    ensures
        kind == WatchEventKind::Other ==> r@.len() == 0,
        kind != WatchEventKind::Other ==> r@.len() == log_paths(paths@).len() && forall|k: int|
            0 <= k < r@.len() ==> (#[trigger] r@[k])@ == log_paths(paths@)[k],
{
    match kind {
        WatchEventKind::Other => Vec::new(),
        _ => {
            let mut r: Vec<String> = Vec::new();
            let n = paths.len();
            let mut i: usize = 0;
            while i < n
                invariant
                    n == paths@.len(),
                    i <= n,
                    r@.len() == log_paths(paths@.take(i as int)).len(),
                    forall|k: int|
                        0 <= k < r@.len() ==> (#[trigger] r@[k])@ == log_paths(
                            paths@.take(i as int),
                        )[k],
                decreases n - i,
            {
                proof {
                    assert(paths@.take(i as int + 1).drop_last() =~= paths@.take(i as int));
                }
                if is_log_file_path(paths[i].as_str()) {
                    r.push(paths[i].clone());
                }
                i = i + 1;
            }
            proof {
                assert(paths@.take(n as int) =~= paths@);
            }
            r
        },
    }
}

} // verus!
