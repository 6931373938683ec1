//! The records of an agent's log and where they are kept. Writing them is
//! the caller's.

use vstd::prelude::*;
use crate::agent::engine::traits::{opt_text, Params};
use crate::outside::{base64_bytes, base64_decode};
use crate::text::{
    begins_with, chars_of, decimal, matches_at, push_decimal, push_text, slice_chars, string_of,
};

verus! {

/// One message of a request, as the log keeps it.
#[derive(Debug, Clone, PartialEq, Eq)]
pub struct LogMessage {
    pub role: String,
    pub content: String,
}

/// The request of a step, as the log keeps it: the messages, and the path
/// of the file that holds the screenshot.
#[derive(Debug, Clone, PartialEq, Eq)]
pub struct LogRequest {
    pub messages: Vec<LogMessage>,
    pub screenshot_base64: Option<String>,
}

/// The outcome of an action, as the log keeps it.
#[derive(Debug, Clone, PartialEq, Eq)]
pub struct ActionResultLog {
    pub success: bool,
    pub message: String,
    pub duration_ms: u32,
}

/// The response of a step, as the log keeps it.
#[derive(Debug, Clone, PartialEq, Eq)]
pub struct LogResponse {
    pub model_response: String,
    pub thinking: Option<String>,
    pub action_type: String,
    pub action_parameters: Params,
    pub action_result: Option<ActionResultLog>,
    pub tokens_used: u32,
    pub duration_ms: u64,
}

/// One record of the log. `timestamp` is in milliseconds since the Unix
/// epoch.
#[derive(Debug, Clone, PartialEq, Eq)]
pub struct AgentLogEntry {
    pub timestamp: i64,
    pub agent_id: String,
    pub task_id: Option<String>,
    pub step_number: usize,
    pub request: LogRequest,
    pub response: LogResponse,
}

/// The prefix of an image given as a data address.
pub open spec fn data_prefix() -> Seq<char> {
    "data:image/png;base64,"@
}

/// A text without the data prefixes at its start.
pub open spec fn without_data_prefix(s: Seq<char>) -> Seq<char>
    decreases s.len(),
{
    if data_prefix().len() > 0 && begins_with(s, data_prefix()) {
        without_data_prefix(s.subrange(data_prefix().len() as int, s.len() as int))
    } else {
        s
    }
}

/// The log of an agent: where its records go, and the task under way.
#[derive(Debug, Clone, PartialEq, Eq)]
pub struct AgentLogger {
    pub agent_id: String,
    pub log_dir: String,
    pub current_task_id: Option<String>,
}

impl AgentLogger {
    /// The file that holds the records of `date` of this agent.
    pub open spec fn log_path(self, date: Seq<char>) -> Seq<char> {
        self.log_dir@ + "/agent_"@ + self.agent_id@ + "_"@ + date + ".jsonl"@
    }

    /// The directory that holds the screenshots.
    pub open spec fn screenshots_path(self) -> Seq<char> {
        self.log_dir@ + "/screenshots"@
    }

    /// The file that holds the screenshot taken at `stamp`.
    pub open spec fn screenshot_path(self, stamp: Seq<char>) -> Seq<char> {
        self.screenshots_path() + "/"@ + self.agent_id@ + "_step_"@ + stamp + ".png"@
    }

    /// The log of an agent in a directory, without a task.
    pub fn new(agent_id: &str, log_dir: &str) -> (r: Self)
        ensures
            r.agent_id@ == agent_id@,
            r.log_dir@ == log_dir@,
            r.current_task_id is None,
    {
        Self { agent_id: agent_id.to_owned(), log_dir: log_dir.to_owned(), current_task_id: None }
    }

    /// Sets the task under way.
    pub fn set_task_id(&mut self, task_id: String)
        ensures
            final(self).agent_id == old(self).agent_id,
            final(self).log_dir == old(self).log_dir,
            final(self).current_task_id == Some(task_id),
    {
        self.current_task_id = Some(task_id);
    }

    /// Forgets the task under way, as at the end of a task.
    pub fn clear_task_id(&mut self)
        ensures
            final(self).agent_id == old(self).agent_id,
            final(self).log_dir == old(self).log_dir,
            final(self).current_task_id is None,
    {
        self.current_task_id = None;
    }

    /// The file that holds the records of `date`, given as year, month and
    /// day.
    pub fn log_file_path(&self, date: &str) -> (r: String)
        ensures
            r@ == self.log_path(date@),
    {
        let mut v = chars_of(self.log_dir.as_str());
        push_text(&mut v, "/agent_");
        push_text(&mut v, self.agent_id.as_str());
        push_text(&mut v, "_");
        push_text(&mut v, date);
        push_text(&mut v, ".jsonl");
        string_of(v.as_slice())
    }

    /// The directory that holds the screenshots.
    pub fn screenshots_dir(&self) -> (r: String)
        ensures
            r@ == self.screenshots_path(),
    {
        crate::text::concat2(self.log_dir.as_str(), "/screenshots")
    }

    /// The file that holds the screenshot taken at `stamp`.
    pub fn screenshot_file_path(&self, stamp: &str) -> (r: String)
        ensures
            r@ == self.screenshot_path(stamp@),
    {
        let mut v = chars_of(self.log_dir.as_str());
        push_text(&mut v, "/screenshots");
        push_text(&mut v, "/");
        push_text(&mut v, self.agent_id.as_str());
        push_text(&mut v, "_step_");
        push_text(&mut v, stamp);
        push_text(&mut v, ".png");
        string_of(v.as_slice())
    }

    /// The identifier of a task begun at `timestamp`, in seconds since the
    /// Unix epoch and not before it.
    pub fn task_id_at(&self, timestamp: u64) -> (r: String)
        ensures
            r@ == self.agent_id@ + "_"@ + decimal(timestamp as nat),
    {
        let mut v = chars_of(self.agent_id.as_str());
        push_text(&mut v, "_");
        push_decimal(&mut v, timestamp);
        string_of(v.as_slice())
    }
}

/// The bytes of a screenshot given in base64, with or without the data
/// prefix; the error text where it is no base64.
pub fn screenshot_bytes(screenshot_base64: &str) -> (r: Result<Vec<u8>, String>)
    ensures
        match r {
            Ok(bytes) => base64_bytes(without_data_prefix(screenshot_base64@)) == Some(bytes@),
            Err(text) => base64_bytes(without_data_prefix(screenshot_base64@)) is None && text@
                == "Base64 解码失败"@,
        },
{
    let s = chars_of(screenshot_base64);
    let prefix = chars_of("data:image/png;base64,");
    let plen: usize = prefix.len();
    let n: usize = s.len();
    let mut from: usize = 0;
    proof {
        assert(s@.subrange(0, s@.len() as int) =~= s@);
    }
    if plen > 0 {
        while matches_at(s.as_slice(), prefix.as_slice(), from)
            invariant
                from <= s@.len(),
                n == s@.len(),
                plen == prefix@.len(),
                plen > 0,
                prefix@ == data_prefix(),
                s@ == screenshot_base64@,
                without_data_prefix(s@) == without_data_prefix(
                    s@.subrange(from as int, s@.len() as int),
                ),
            decreases s@.len() - from,
        {
            proof {
                let rest = s@.subrange(from as int, s@.len() as int);
                assert(rest.subrange(0, plen as int) =~= s@.subrange(from as int, from + plen));
                assert(rest.subrange(plen as int, rest.len() as int) =~= s@.subrange(
                    from + plen,
                    s@.len() as int,
                ));
            }
            from = from + plen;
        }
        proof {
            let rest = s@.subrange(from as int, s@.len() as int);
            if from + plen <= s@.len() {
                assert(rest.subrange(0, plen as int) =~= s@.subrange(from as int, from + plen));
            }
        }
    }
    let body = slice_chars(s.as_slice(), from, s.len());
    let text = string_of(body.as_slice());
    match base64_decode(text.as_str()) {
        Some(bytes) => Ok(bytes),
        None => Err("Base64 解码失败".to_owned()),
    }
}

} // verus!
