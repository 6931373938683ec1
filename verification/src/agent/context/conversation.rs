//! The bounded log of a run's conversation, kept for observation and for
//! building prompts.

use vstd::prelude::*;
use crate::agent::engine::traits::opt_text;
use crate::text::{chars_of, push_text, string_of};

verus! {

/// Who wrote a message of the log.
#[derive(Debug, Clone, Copy, PartialEq, Eq)]
pub enum MessageRole {
    User,
    Assistant,
    System,
}

impl MessageRole {
    /// The name of the role in a prompt.
    pub open spec fn label(self) -> Seq<char> {
        match self {
            MessageRole::User => "用户"@,
            MessageRole::Assistant => "助手"@,
            MessageRole::System => "系统"@,
        }
    }

    /// The name of the role in a prompt.
    pub fn as_label(&self) -> (r: &'static str)
        ensures
            r@ == self.label(),
    {
        match self {
            MessageRole::User => "用户",
            MessageRole::Assistant => "助手",
            MessageRole::System => "系统",
        }
    }
}

/// One message of the log. `timestamp` is in milliseconds since the Unix
/// epoch.
#[derive(Debug, Clone, PartialEq, Eq)]
pub struct ConversationMessage {
    pub role: MessageRole,
    pub content: String,
    pub timestamp: i64,
    pub screenshot: Option<String>,
}

impl DeepView for ConversationMessage {
    type V = (MessageRole, Seq<char>, i64, Option<Seq<char>>);

    open spec fn deep_view(&self) -> (MessageRole, Seq<char>, i64, Option<Seq<char>>) {
        (self.role, self.content@, self.timestamp, opt_text(self.screenshot))
    }
}

impl ConversationMessage {
    /// A copy of this message.
    pub fn copy(&self) -> (r: ConversationMessage)
        ensures
            r == *self,
    {
        ConversationMessage {
            role: self.role,
            content: self.content.clone(),
            timestamp: self.timestamp,
            screenshot: match &self.screenshot {
                Some(s) => Some(s.clone()),
                None => None,
            },
        }
    }
}

/// The log of a conversation, which never holds more than `max_messages`
/// messages once a message has been added: the oldest leaves first.
#[derive(Debug, Clone, PartialEq, Eq)]
pub struct ConversationContext {
    pub messages: Vec<ConversationMessage>,
    pub max_messages: usize,
}

/// The log after `m` has been added to a log that holds `old` and is
/// limited to `max` messages: `m` comes last, and the first message leaves
/// where the limit is exceeded.
pub open spec fn after_add(
    old: Seq<ConversationMessage>,
    m: ConversationMessage,
    max: usize,
) -> Seq<ConversationMessage> {
    if old.len() + 1 > max {
        old.push(m).drop_first()
    } else {
        old.push(m)
    }
}

/// `after_add` on the values of the messages.
pub open spec fn after_add_view(
    old: Seq<(MessageRole, Seq<char>, i64, Option<Seq<char>>)>,
    m: (MessageRole, Seq<char>, i64, Option<Seq<char>>),
    max: usize,
) -> Seq<(MessageRole, Seq<char>, i64, Option<Seq<char>>)> {
    if old.len() + 1 > max {
        old.push(m).drop_first()
    } else {
        old.push(m)
    }
}

/// The last `n` messages of a log, or all of them where it holds fewer.
pub open spec fn recent(log: Seq<ConversationMessage>, n: usize) -> Seq<ConversationMessage> {
    if log.len() <= n {
        log
    } else {
        log.subrange(log.len() - n, log.len() as int)
    }
}

/// The lines of a prompt that show the messages `log[..k]`: the label of
/// the role, a colon, the content, and a line break for each.
pub open spec fn history_lines(log: Seq<ConversationMessage>, k: int) -> Seq<char>
    decreases k,
{
    if k <= 0 || k > log.len() {
        Seq::empty()
    } else {
        history_lines(log, k - 1) + log[k - 1].role.label() + ": "@ + log[k - 1].content@ + "\n"@
    }
}

/// The prompt for a task: the task, and below it the given messages of
/// the log where there are any.
pub open spec fn prompt_for(task: Seq<char>, log: Seq<ConversationMessage>) -> Seq<char> {
    if log.len() == 0 {
        "任务: "@ + task + "\n\n"@
    } else {
        "任务: "@ + task + "\n\n"@ + "历史对话:\n"@ + history_lines(log, log.len() as int) + "\n"@
    }
}

impl ConversationContext {
    /// An empty log limited to `max_messages` messages.
    pub fn new(max_messages: usize) -> (r: Self)
        ensures
            r.messages@.len() == 0,
            r.max_messages == max_messages,
    {
        Self { messages: Vec::new(), max_messages }
    }

    /// Adds a message written at `now`; the oldest message leaves where
    /// the log would exceed its limit.
    pub fn add_message(
        &mut self,
        role: MessageRole,
        content: String,
        screenshot: Option<String>,
        now: i64,
    )
        ensures
            final(self).max_messages == old(self).max_messages,
            final(self).messages@ == after_add(
                old(self).messages@,
                ConversationMessage { role, content, timestamp: now, screenshot },
                old(self).max_messages,
            ),
            final(self).messages.deep_view() == after_add_view(
                old(self).messages.deep_view(),
                (role, content@, now, opt_text(screenshot)),
                old(self).max_messages,
            ),
    {
        let msg = ConversationMessage { role, content, timestamp: now, screenshot };
        self.messages.push(msg);
        if self.messages.len() > self.max_messages {
            let _ = self.messages.remove(0);
            proof {
                assert(self.messages@ =~= old(self).messages@.push(msg).drop_first());
            }
        }
        proof {
            assert(self.messages.deep_view() =~= after_add_view(
                old(self).messages.deep_view(),
                (role, content@, now, opt_text(screenshot)),
                old(self).max_messages,
            ));
        }
    }

    /// All messages of the log, oldest first.
    pub fn get_messages(&self) -> (r: Vec<ConversationMessage>)
        ensures
            r@ == self.messages@,
    {
        self.get_recent_messages(self.messages.len())
    }

    /// The last `n` messages of the log, oldest first.
    pub fn get_recent_messages(&self, n: usize) -> (r: Vec<ConversationMessage>)
        ensures
            r@ == recent(self.messages@, n),
    {
        let len = self.messages.len();
        let start: usize = if len <= n {
            0
        } else {
            len - n
        };
        let mut out: Vec<ConversationMessage> = Vec::new();
        let mut i: usize = start;
        while i < len
            invariant
                start <= i <= len,
                len == self.messages@.len(),
                out@ == self.messages@.subrange(start as int, i as int),
            decreases len - i,
        {
            out.push(self.messages[i].copy());
            proof {
                assert(out@ =~= self.messages@.subrange(start as int, i + 1));
            }
            i += 1;
        }
        proof {
            if len <= n {
                assert(self.messages@.subrange(0, len as int) =~= self.messages@);
            }
        }
        out
    }

    /// Empties the log.
    pub fn clear(&mut self)
        ensures
            final(self).messages@.len() == 0,
            final(self).max_messages == old(self).max_messages,
    {
        self.messages.clear();
    }

    /// The number of messages in the log.
    pub fn len(&self) -> (n: usize)
        ensures
            n == self.messages@.len(),
    {
        self.messages.len()
    }

    /// The prompt for a task, with the last ten messages of the log.
    pub fn build_prompt(&self, task: &str) -> (r: String)
        ensures
            r@ == prompt_for(task@, recent(self.messages@, 10)),
    {
        let log = self.get_recent_messages(10);
        let mut v = chars_of("任务: ");
        push_text(&mut v, task);
        push_text(&mut v, "\n\n");
        if log.len() > 0 {
            push_text(&mut v, "历史对话:\n");
            let ghost head = v@;
            let mut i: usize = 0;
            proof {
                assert(head + history_lines(log@, 0) =~= head);
            }
            while i < log.len()
                invariant
                    i <= log@.len(),
                    v@ == head + history_lines(log@, i as int),
                decreases log@.len() - i,
            {
                let ghost before = v@;
                push_text(&mut v, log[i].role.as_label());
                push_text(&mut v, ": ");
                push_text(&mut v, log[i].content.as_str());
                push_text(&mut v, "\n");
                proof {
                    assert(v@ =~= head + history_lines(log@, i + 1));
                }
                i += 1;
            }
            push_text(&mut v, "\n");
        }
        string_of(v.as_slice())
    }
}

impl Default for ConversationContext {
    /// An empty log limited to fifty messages.
    fn default() -> (r: Self)
        ensures
            r.messages@.len() == 0,
            r.max_messages == 50,
    {
        Self::new(50)
    }
}

} // verus!
