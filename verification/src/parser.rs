//! The log parser: it decodes one conversation log file into role-tagged
//! messages and estimates the log's token cost.
//!
//! The decoding itself is done by serde_json behind one trusted wrapper
//! whose result is named `parsed_log`; everything after it works on plain
//! values and is verified.

use vstd::prelude::*;
use vstd::string::StrSliceExecFns;

verus! {

/// One role-tagged message of a conversation log.
#[derive(Debug, Clone)]
pub struct Message {
    pub role: String,
    pub content: String,
}

/// A decoded conversation log: an optional conversation identifier and the
/// messages in order. It lives only for one ingestion pass.
#[derive(Debug)]
pub struct ConversationLog {
    pub conversation_id: Option<String>,
    pub messages: Vec<Message>,
}

/// Why a step of the ingestion pipeline failed: the log file was not a
/// well-formed log document, a repository call failed, or the watched
/// directory was unreachable at startup.
#[derive(Debug, Clone, Copy, PartialEq, Eq, Structural)]
pub enum PipelineError {
    MalformedLog,
    RepositoryError,
    WatchInitError,
}

/// The summed character count of every message's content.
pub open spec fn total_content_chars(msgs: Seq<Message>) -> int
    decreases msgs.len(),
{
    if msgs.len() == 0 {
        0
    } else {
        total_content_chars(msgs.drop_last()) + msgs.last().content@.len()
    }
}

impl ConversationLog {
    /// The log's estimated token cost: the summed character count of every
    /// message's content, divided by four. A deliberately crude
    /// approximation.
    pub fn estimate_tokens(&self) -> (t: i64)
        ensures
            t >= 0,
            total_content_chars(self.messages@) / 4 <= i64::MAX ==> t == total_content_chars(
                self.messages@,
            ) / 4,
            total_content_chars(self.messages@) / 4 > i64::MAX ==> t == i64::MAX,
    {
        let n = self.messages.len();
        let mut sum: u128 = 0;
        let mut i: usize = 0;
        while i < n
            invariant
                n == self.messages@.len(),
                i <= n,
                sum == total_content_chars(self.messages@.take(i as int)),
                sum <= i * 0xffff_ffff_ffff_ffff,
            decreases n - i,
        {
            let len = self.messages[i].content.as_str().unicode_len();
            proof {
                assert(self.messages@.take(i as int + 1).drop_last() =~= self.messages@.take(
                    i as int,
                ));
                assert((i + 1) * 0xffff_ffff_ffff_ffff == i * 0xffff_ffff_ffff_ffff
                    + 0xffff_ffff_ffff_ffff) by (nonlinear_arith);
                assert(i * 0xffff_ffff_ffff_ffff <= 0xffff_ffff_ffff_ffff
                    * 0xffff_ffff_ffff_ffff) by (nonlinear_arith)
                    requires i <= 0xffff_ffff_ffff_ffffu128,
                ;
            }
            sum = sum + len as u128;
            i = i + 1;
        }
        proof {
            assert(self.messages@.take(n as int) =~= self.messages@);
        }
        let quarter = sum / 4;
        if quarter <= i64::MAX as u128 {
            quarter as i64
        } else {
            i64::MAX
        }
    }
}

/// The conversation log that the raw text `s` decodes to, if it is a
/// well-formed log document; what a well-formed document decodes to is
/// decided by the JSON decoder, so the result carries a name instead of a
/// page-long statement. It is a function of the text alone: the same text
/// always decodes to the same log, or fails the same way.
pub uninterp spec fn parsed_log(s: Seq<char>) -> Option<ConversationLog>;

/// Relies on serde_json's `from_str` and the `Value` accessors `get`,
/// `as_str` and `as_array`: decodes the text as a JSON object
/// with an optional string field `conversation_id` (absent or null means
/// none) and a `messages` array whose elements carry string fields `role`
/// and `content`; anything else yields `None`. None of these calls panics:
/// the decoder returns an error past its recursion limit, and `get` returns
/// `None` on non-objects.
#[verifier::external_body]
fn decode_log(s: &str) -> (r: Option<ConversationLog>)
    ensures
        r == parsed_log(s@),
{
    let v: serde_json::Value = serde_json::from_str(s).ok()?;
    let conversation_id = match v.get("conversation_id") {
        None | Some(serde_json::Value::Null) => None,
        Some(id) => Some(id.as_str()?.to_owned()),
    };
    let mut messages = Vec::new();
    for m in v.get("messages")?.as_array()? {
        let role = m.get("role")?.as_str()?.to_owned();
        let content = m.get("content")?.as_str()?.to_owned();
        messages.push(Message { role, content });
    }
    Some(ConversationLog { conversation_id, messages })
}

/// Decodes one conversation log document, as `parsed_log` names it: the
/// decoded log on a well-formed document, and a malformed-log error on
/// anything else, if and only if.
pub fn parse_conversation_log(content: &str) -> (r: Result<ConversationLog, PipelineError>)
    ensures
        r matches Ok(log) ==> parsed_log(content@) == Some(log),
        r matches Err(e) ==> parsed_log(content@) is None && e == PipelineError::MalformedLog,
{
    match decode_log(content) {
        Some(log) => Ok(log),
        None => Err(PipelineError::MalformedLog),
    }
}

} // verus!
