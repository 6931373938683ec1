//! The agent's control loop as a state machine.
//!
//! One iteration of a run is: check the bounds, capture the screen, query
//! the model, then either ask the model again (no action was found), end
//! the run (a finish was found) or execute the batch and record it. The
//! functions here take the decisions and keep the books; capturing,
//! querying and executing are done by the caller between them.

use vstd::prelude::*;
use crate::agent::actions::base::{description_of, kind_name, ActionEnum};
use crate::agent::actions::parse::action_views;
use crate::agent::context::conversation::{
    after_add_view, ConversationContext, MessageRole as LogRole,
};
use crate::agent::engine::state::{AgentConfig, AgentRuntime, AgentState};
use crate::agent::engine::traits::{
    opt_text, ActionResult, ActionView, AgentError, AgentFeedback, AgentStatus, ChatMessage,
    ExecutionStep, MessageRole, ModelResponse, ResultView, StepView,
};
use crate::error::AppError;
use crate::text::{chars_of, concat2, decimal, push_chars, push_decimal, push_text, string_of};

verus! {

/// Why the bound check ends a run.
#[derive(Debug, Clone, Copy, PartialEq, Eq)]
pub enum StopReason {
    /// The step counter has reached the largest number of steps.
    MaxSteps,
    /// Three responses in a row held no action.
    NoProgress,
    /// The run has taken longer than it may.
    Timeout,
}

/// What the bound check decides.
#[derive(Debug, Clone, Copy, PartialEq, Eq)]
pub enum StepDecision {
    /// The step begins: capture the screen and query the model.
    Capture,
    /// The run has ended as failed.
    Stop(StopReason),
    /// The agent is paused: no step begins until it is resumed.
    Hold,
    /// No run is under way: the agent is idle, or its run has ended.
    Ended,
}

/// What the agent decides on a response of the model.
#[derive(Debug, Clone, Copy, PartialEq, Eq)]
pub enum ResponseDecision {
    /// The response held no action: the model is asked again.
    Retry,
    /// The response held a finish: the run has ended as completed.
    Finished,
    /// The actions of the response are to be executed, in order.
    Execute,
}

/// The number of responses without an action, in a row, that ends a run.
pub const NO_ACTION_LIMIT: u32 = 3;

/// The bound that ends a run before a step begins, if any: the step limit
/// first, then the limit of responses without an action, then the time.
pub open spec fn stop_reason(
    step: usize,
    no_action: u32,
    elapsed_ms: u64,
    config: AgentConfig,
) -> Option<StopReason> {
    if step >= config.max_steps {
        Some(StopReason::MaxSteps)
    } else if no_action >= 3 {
        Some(StopReason::NoProgress)
    } else if elapsed_ms > config.max_execution_time * 1000 {
        Some(StopReason::Timeout)
    } else {
        None
    }
}

/// The cause that a failed run shows for a bound.
pub open spec fn stop_text(
    reason: StopReason,
    step: usize,
    no_action: u32,
    elapsed_ms: u64,
    config: AgentConfig,
) -> Seq<char> {
    match reason {
        StopReason::MaxSteps => "超过最大步数限制: "@ + decimal(step as nat),
        StopReason::NoProgress => "连续 "@ + decimal(no_action as nat) + " 次未返回有效操作，停止执行"@,
        StopReason::Timeout => "执行超时: "@ + decimal(elapsed_ms as nat) + "ms > "@ + decimal(
            (config.max_execution_time * 1000) as nat,
        ) + "ms"@,
    }
}

/// The first user message of a run.
pub open spec fn initial_user_text(task: Seq<char>) -> Seq<char> {
    "任务: "@ + task
        + "\n\n 请分析当前屏幕并决定 需要怎么操作。告诉我的操作尽量简洁 并且需要严格按照do(action= 格式回复 否则我无法解析"@
}

/// The user message that follows a response without an action.
pub open spec fn feedback_text() -> Seq<char> {
    "你的回复中没有包含 do(action=...) 格式的执行动作，我无法解析。\n\n请严格按照 do(action=ActionType, ...) 格式回复，例如：\n- do(action=\"Tap\", element=[x,y])\n- do(action=\"Type\", text=\"xxx\")\n- do(action=\"Swipe\", start=[x1,y1], end=[x2,y2])\n- do(action=\"Launch\", app=\"xxx\")\n- do(action=\"Back\")\n\n请重新分析屏幕并告诉我下一步操作。"@
}

/// The text of an optional reasoning, empty where there is none.
pub open spec fn reasoning_text(reasoning: Option<Seq<char>>) -> Seq<char> {
    match reasoning {
        Some(r) => r,
        None => Seq::empty(),
    }
}

/// The assistant message that ends a completed run.
pub open spec fn completion_text(content: Seq<char>, reasoning: Option<Seq<char>>) -> Seq<char> {
    "任务完成。"@ + content + "\n思考过程: "@ + reasoning_text(reasoning)
}

/// One line of the summary of a batch: the description and the kind.
pub open spec fn summary_line(a: ActionView) -> Seq<char> {
    description_of(a) + " ("@ + kind_name(a) + ")"@
}

/// The summary lines of the first `k` actions, one below the other.
pub open spec fn summary_lines(actions: Seq<ActionView>, k: int) -> Seq<char>
    decreases k,
{
    if k <= 0 || k > actions.len() {
        Seq::empty()
    } else if k == 1 {
        summary_line(actions[0])
    } else {
        summary_lines(actions, k - 1) + "\n"@ + summary_line(actions[k - 1])
    }
}

/// The assistant message that summarises a batch.
pub open spec fn batch_summary(actions: Seq<ActionView>, reasoning: Seq<char>) -> Seq<char> {
    "我决定执行 "@ + decimal(actions.len()) + " 个操作:\n"@ + summary_lines(
        actions,
        actions.len() as int,
    ) + "\n思考: "@ + reasoning
}

/// The word for an outcome: success or failure.
pub open spec fn status_word(r: ResultView) -> Seq<char> {
    if r.success {
        "成功"@
    } else {
        "失败"@
    }
}

/// The label of an outcome's message: detail or error.
pub open spec fn detail_label(r: ResultView) -> Seq<char> {
    if r.success {
        "详情: "@
    } else {
        "错误: "@
    }
}

/// The report of the outcome of the action with the one-based number
/// `number`.
pub open spec fn outcome_part(number: nat, a: ActionView, r: ResultView) -> Seq<char> {
    "- 操作 #"@ + decimal(number) + ": "@ + kind_name(a) + " ("@ + description_of(a)
        + ")\n  状态: "@ + status_word(r) + "\n  "@ + detail_label(r) + r.message + "\n  耗时: "@
        + decimal(r.duration_ms as nat) + "ms"@
}

/// The reports of the first `k` outcomes, one below the other.
pub open spec fn outcome_parts(actions: Seq<ActionView>, results: Seq<ResultView>, k: int) -> Seq<
    char,
>
    decreases k,
{
    if k <= 0 || k > actions.len() || k > results.len() {
        Seq::empty()
    } else if k == 1 {
        outcome_part(1, actions[0], results[0])
    } else {
        outcome_parts(actions, results, k - 1) + "\n"@ + outcome_part(
            k as nat,
            actions[k - 1],
            results[k - 1],
        )
    }
}

/// The user message that reports the outcomes of a batch.
pub open spec fn result_summary(
    step: usize,
    actions: Seq<ActionView>,
    results: Seq<ResultView>,
) -> Seq<char> {
    "操作结果（步骤 "@ + decimal(step as nat) + "）:\n"@ + outcome_parts(
        actions,
        results,
        actions.len() as int,
    ) + "\n\n请分析当前屏幕并决定下一步操作。"@
}

/// The line of the conversation log for one executed action.
pub open spec fn log_line(a: ActionView, r: ResultView) -> Seq<char> {
    "执行操作: "@ + kind_name(a) + " - "@ + status_word(r) + " ("@ + r.message + ")"@
}

/// The conversation log after the first `k` actions of a batch have been
/// entered, each as an assistant message with the screenshot of the step.
pub open spec fn log_after_batch(
    log: Seq<(LogRole, Seq<char>, i64, Option<Seq<char>>)>,
    actions: Seq<ActionView>,
    results: Seq<ResultView>,
    screenshot: Seq<char>,
    now: i64,
    max: usize,
    k: int,
) -> Seq<(LogRole, Seq<char>, i64, Option<Seq<char>>)>
    decreases k,
{
    if k <= 0 || k > actions.len() || k > results.len() {
        log
    } else {
        after_add_view(
            log_after_batch(log, actions, results, screenshot, now, max, k - 1),
            (LogRole::Assistant, log_line(actions[k - 1], results[k - 1]), now, Some(screenshot)),
            max,
        )
    }
}

/// The audit records of a batch: one for each action, in order, each with
/// the step at which the batch ran.
pub open spec fn batch_steps(
    actions: Seq<ActionView>,
    results: Seq<ResultView>,
    step: usize,
    now: i64,
    screenshot: Seq<char>,
    reasoning: Seq<char>,
) -> Seq<StepView> {
    Seq::new(
        actions.len(),
        |i: int|
            StepView {
                step_number: step,
                action_type: kind_name(actions[i]),
                action_description: description_of(actions[i]),
                result: results[i],
                timestamp: now,
                screenshot,
                reasoning,
            },
    )
}

/// Whether a batch holds a finish.
pub open spec fn has_finish(actions: Seq<ActionView>) -> bool {
    exists|i: int| 0 <= i < actions.len() && #[trigger] actions[i] is Finish
}

/// Whether a run is under way in a state and not paused.
pub open spec fn is_running(state: AgentState) -> bool {
    state is Initializing || state is Analyzing || state is Executing || state is Waiting
}

/// `n + 1`, or `n` where it is the largest value.
pub open spec fn next_usize(n: usize) -> usize {
    if n < usize::MAX {
        (n + 1) as usize
    } else {
        n
    }
}

/// `n + 1`, or `n` where it is the largest value.
pub open spec fn next_u32(n: u32) -> u32 {
    if n < u32::MAX {
        (n + 1) as u32
    } else {
        n
    }
}

/// What an agent reports of a state and a task.
pub open spec fn status_of(state: AgentState, task: Seq<char>, r: AgentStatus) -> bool {
    match state {
        AgentState::Idle => r is Idle,
        AgentState::Initializing => r matches AgentStatus::Running { task: t, step } && t@ == task
            && step == 0,
        AgentState::Analyzing { step: s } => r matches AgentStatus::Running { task: t, step }
            && t@ == task && step == s,
        AgentState::Executing { step: s, .. } => r matches AgentStatus::Running { task: t, step }
            && t@ == task && step == s,
        AgentState::Waiting { step: s, .. } => r matches AgentStatus::Running { task: t, step }
            && t@ == task && step == s,
        AgentState::Paused { step: s } => r matches AgentStatus::Paused { task: t, step } && t@
            == task && step == s,
        AgentState::Completed { steps: s, duration_ms: d } => r matches AgentStatus::Completed {
            task: t,
            steps,
            duration_ms,
        } && t@ == task && steps == s && duration_ms == d,
        AgentState::Failed { error: e, .. } => r matches AgentStatus::Failed { task: t, error }
            && t@ == task && error@ == e@,
    }
}

/// An agent for one device: the state of its run, the messages exchanged
/// with the model, and the count of responses without an action.
#[derive(Debug, Clone)]
pub struct PhoneAgent {
    pub id: String,
    pub runtime: AgentRuntime,
    pub conversation: ConversationContext,
    pub messages: Vec<ChatMessage>,
    pub no_action_count: u32,
}

impl PhoneAgent {
    /// Whether `other` differs from this agent in the state of the run at
    /// most.
    pub open spec fn same_but_state(self, other: PhoneAgent) -> bool {
        &&& other.id == self.id
        &&& other.runtime.config == self.runtime.config
        &&& other.runtime.current_task == self.runtime.current_task
        &&& other.runtime.execution_history == self.runtime.execution_history
        &&& other.runtime.step_counter == self.runtime.step_counter
        &&& other.runtime.start_time == self.runtime.start_time
        &&& other.conversation == self.conversation
        &&& other.messages == self.messages
        &&& other.no_action_count == self.no_action_count
    }

    /// Whether this agent is as an agent is made with the identifier
    /// `id` and the settings `config`: idle, at step zero, without task,
    /// audit trail or messages, with a log that holds at most fifty
    /// messages and is empty.
    pub open spec fn is_new(self, id: Seq<char>, config: AgentConfig) -> bool {
        &&& self.id@ == id
        &&& self.runtime.state is Idle
        &&& self.runtime.config == config
        &&& self.runtime.current_task is None
        &&& self.runtime.execution_history@.len() == 0
        &&& self.runtime.step_counter == 0
        &&& self.runtime.start_time is None
        &&& self.conversation.messages@.len() == 0
        &&& self.conversation.max_messages == 50
        &&& self.messages@.len() == 0
        &&& self.no_action_count == 0
    }

    /// Whether `other` is this agent after it started on `task` at the
    /// time `now`: initializing, with the task and the time of the start,
    /// at the step it was idle at, or at step zero with an empty audit
    /// trail after a run that had ended; no response without an action is
    /// counted, and the messages and the log are as they were.
    pub open spec fn started(self, other: PhoneAgent, task: Seq<char>, now: i64) -> bool {
        &&& other.id == self.id
        &&& other.runtime.state is Initializing
        &&& other.runtime.config == self.runtime.config
        &&& opt_text(other.runtime.current_task) == Some(task)
        &&& other.runtime.start_time == Some(now)
        &&& other.runtime.step_counter == (if self.runtime.state is Idle {
            self.runtime.step_counter
        } else {
            0
        })
        &&& self.runtime.state.is_terminal() ==> other.runtime.execution_history@.len() == 0
        &&& self.runtime.state is Idle ==> other.runtime.execution_history
            == self.runtime.execution_history
        &&& other.no_action_count == 0
        &&& other.messages == self.messages
        &&& other.conversation == self.conversation
    }

    /// Whether `other` is this agent after a stop: idle, at step zero,
    /// without task or audit trail; the settings, the messages, the log
    /// and the count of responses without an action are as they were.
    pub open spec fn stopped(self, other: PhoneAgent) -> bool {
        &&& other.id == self.id
        &&& other.runtime.state is Idle
        &&& other.runtime.config == self.runtime.config
        &&& other.runtime.current_task is None
        &&& other.runtime.execution_history@.len() == 0
        &&& other.runtime.step_counter == 0
        &&& other.runtime.start_time is None
        &&& other.messages == self.messages
        &&& other.conversation == self.conversation
        &&& other.no_action_count == self.no_action_count
    }

    /// An idle agent with an empty conversation, whose log holds at most
    /// fifty messages.
    pub fn new(id: String, config: AgentConfig) -> (r: Self)
        ensures
            r.id == id,
            r.is_new(id@, config),
    {
        Self {
            id,
            runtime: AgentRuntime::new(config),
            conversation: ConversationContext::new(50),
            messages: Vec::new(),
            no_action_count: 0,
        }
    }

    /// The identifier of the agent.
    pub fn id(&self) -> (r: &str)
        ensures
            r@ == self.id@,
    {
        self.id.as_str()
    }

    /// Begins the conversation anew with the system prompt.
    pub fn initialize_messages(&mut self, system_prompt: String)
        ensures
            final(self).messages.deep_view() == seq![(MessageRole::System, system_prompt@)],
            final(self).id == old(self).id,
            final(self).runtime == old(self).runtime,
            final(self).conversation == old(self).conversation,
            final(self).no_action_count == old(self).no_action_count,
    {
        self.messages.clear();
        self.messages.push(ChatMessage { role: MessageRole::System, content: system_prompt });
        proof {
            assert(self.messages.deep_view() =~= seq![(MessageRole::System, system_prompt@)]);
        }
    }

    /// Appends a message to the conversation.
    pub fn add_message(&mut self, role: MessageRole, content: String)
        ensures
            final(self).messages.deep_view() == old(self).messages.deep_view().push(
                (role, content@),
            ),
            final(self).id == old(self).id,
            final(self).runtime == old(self).runtime,
            final(self).conversation == old(self).conversation,
            final(self).no_action_count == old(self).no_action_count,
    {
        self.messages.push(ChatMessage { role, content });
        proof {
            assert(self.messages.deep_view() =~= old(self).messages.deep_view().push(
                (role, content@),
            ));
        }
    }

    /// Appends a user message to the conversation.
    pub fn add_user_message(&mut self, content: String)
        ensures
            final(self).messages.deep_view() == old(self).messages.deep_view().push(
                (MessageRole::User, content@),
            ),
            final(self).id == old(self).id,
            final(self).runtime == old(self).runtime,
            final(self).conversation == old(self).conversation,
            final(self).no_action_count == old(self).no_action_count,
    {
        self.add_message(MessageRole::User, content);
    }

    /// Appends an assistant message to the conversation.
    pub fn add_assistant_message(&mut self, content: String)
        ensures
            final(self).messages.deep_view() == old(self).messages.deep_view().push(
                (MessageRole::Assistant, content@),
            ),
            final(self).id == old(self).id,
            final(self).runtime == old(self).runtime,
            final(self).conversation == old(self).conversation,
            final(self).no_action_count == old(self).no_action_count,
    {
        self.add_message(MessageRole::Assistant, content);
    }

    /// Starts a run at the time `now`. An idle agent starts; an agent
    /// whose run has ended is reset and starts; any other agent refuses
    /// with `AlreadyRunning` and stays as it is. A started agent is
    /// initializing, at step zero, with an empty audit trail and no
    /// response without an action counted.
    pub fn start(&mut self, task: String, now: i64) -> (r: Result<String, AppError>)
        ensures
            match r {
                Ok(id) => {
                    &&& (old(self).runtime.state is Idle || old(self).runtime.state.is_terminal())
                    &&& id@ == old(self).id@
                    &&& old(self).started(*final(self), task@, now)
                    &&& final(self).runtime.current_task == Some(task)
                },
                Err(e) => {
                    &&& !(old(self).runtime.state is Idle || old(self).runtime.state.is_terminal())
                    &&& e == AppError::AgentError(AgentError::AlreadyRunning)
                    &&& *final(self) == *old(self)
                },
            },
    {
        let should_reset = match &self.runtime.state {
            AgentState::Completed { .. } => true,
            AgentState::Failed { .. } => true,
            _ => false,
        };
        let idle = match &self.runtime.state {
            AgentState::Idle => true,
            _ => false,
        };
        if !(should_reset || idle) {
            return Err(AppError::AgentError(AgentError::AlreadyRunning));
        }
        if should_reset {
            self.runtime.reset();
        }
        self.runtime.state = AgentState::Initializing;
        self.runtime.current_task = Some(task);
        self.runtime.start_time = Some(now);
        self.no_action_count = 0;
        Ok(self.id.clone())
    }

    /// Opens the conversation of a run: the system prompt, then the first
    /// user message, which states the task.
    pub fn open_conversation(&mut self, system_prompt: String, task: &str)
        ensures
            final(self).messages.deep_view() == seq![
                (MessageRole::System, system_prompt@),
                (MessageRole::User, initial_user_text(task@)),
            ],
            final(self).id == old(self).id,
            final(self).runtime == old(self).runtime,
            final(self).conversation == old(self).conversation,
            final(self).no_action_count == old(self).no_action_count,
    {
        self.initialize_messages(system_prompt);
        let text = concat2(
            concat2("任务: ", task).as_str(),
            "\n\n 请分析当前屏幕并决定 需要怎么操作。告诉我的操作尽量简洁 并且需要严格按照do(action= 格式回复 否则我无法解析",
        );
        self.add_user_message(text);
        proof {
            assert(self.messages.deep_view() =~= seq![
                (MessageRole::System, system_prompt@),
                (MessageRole::User, initial_user_text(task@)),
            ]);
        }
    }

    /// Ends the run as failed with the given cause, at the current step.
    pub fn fail(&mut self, error: String)
        ensures
            old(self).same_but_state(*final(self)),
            final(self).runtime.state == (AgentState::Failed {
                step: old(self).runtime.step_counter,
                error,
            }),
    {
        self.runtime.state = AgentState::Failed { step: self.runtime.step_counter, error };
    }

    /// Ends the run as completed after `steps` steps and `duration_ms`
    /// milliseconds.
    pub fn complete(&mut self, steps: usize, duration_ms: u64)
        ensures
            old(self).same_but_state(*final(self)),
            final(self).runtime.state == (AgentState::Completed { steps, duration_ms }),
    {
        self.runtime.state = AgentState::Completed { steps, duration_ms };
    }

    /// Ends the run as failed because the screen could not be captured.
    pub fn screenshot_failed(&mut self, error: &str)
        ensures
            old(self).same_but_state(*final(self)),
            final(self).runtime.state matches AgentState::Failed { step, error: e } && step == old(
                self,
            ).runtime.step_counter && e@ == "截图失败: "@ + error@,
    {
        self.fail(concat2("截图失败: ", error));
    }

    /// Ends the run as failed because the model could not be queried.
    pub fn model_failed(&mut self, error: &str)
        ensures
            old(self).same_but_state(*final(self)),
            final(self).runtime.state matches AgentState::Failed { step, error: e } && step == old(
                self,
            ).runtime.step_counter && e@ == "LLM 查询失败: "@ + error@,
    {
        self.fail(concat2("LLM 查询失败: ", error));
    }

    /// The bound check that opens every iteration, `elapsed_ms` after the
    /// run began. A paused agent holds, and an agent without a run under
    /// way has ended; neither is changed. Else, where a bound is reached
    /// the run ends as failed with the cause of the first bound reached,
    /// in the order step limit, limit of responses without an action,
    /// time limit; and where none is reached the agent is analyzing at
    /// the current step.
    pub fn next_step(&mut self, elapsed_ms: u64) -> (r: StepDecision)
        ensures
            old(self).same_but_state(*final(self)),
            old(self).runtime.state is Paused ==> {
                &&& r == StepDecision::Hold
                &&& final(self).runtime.state == old(self).runtime.state
            },
            old(self).runtime.state is Idle || old(self).runtime.state.is_terminal() ==> {
                &&& r == StepDecision::Ended
                &&& final(self).runtime.state == old(self).runtime.state
            },
            is_running(old(self).runtime.state) ==> match stop_reason(
                old(self).runtime.step_counter,
                old(self).no_action_count,
                elapsed_ms,
                old(self).runtime.config,
            ) {
                Some(reason) => {
                    &&& r == StepDecision::Stop(reason)
                    &&& final(self).runtime.state matches AgentState::Failed { step, error }
                    &&& step == old(self).runtime.step_counter
                    &&& error@ == stop_text(
                        reason,
                        old(self).runtime.step_counter,
                        old(self).no_action_count,
                        elapsed_ms,
                        old(self).runtime.config,
                    )
                },
                None => {
                    &&& r == StepDecision::Capture
                    &&& final(self).runtime.state == (AgentState::Analyzing {
                        step: old(self).runtime.step_counter,
                    })
                },
            },
    {
        match &self.runtime.state {
            AgentState::Paused { .. } => {
                return StepDecision::Hold;
            },
            AgentState::Idle => {
                return StepDecision::Ended;
            },
            AgentState::Completed { .. } => {
                return StepDecision::Ended;
            },
            AgentState::Failed { .. } => {
                return StepDecision::Ended;
            },
            _ => {},
        }
        let step = self.runtime.step_counter;
        if step >= self.runtime.config.max_steps {
            let mut v = chars_of("超过最大步数限制: ");
            push_decimal(&mut v, step as u64);
            self.fail(string_of(v.as_slice()));
            return StepDecision::Stop(StopReason::MaxSteps);
        }
        if self.no_action_count >= NO_ACTION_LIMIT {
            let mut v = chars_of("连续 ");
            push_decimal(&mut v, self.no_action_count as u64);
            push_text(&mut v, " 次未返回有效操作，停止执行");
            self.fail(string_of(v.as_slice()));
            return StepDecision::Stop(StopReason::NoProgress);
        }
        let limit: u128 = self.runtime.config.max_execution_time as u128 * 1000;
        if elapsed_ms as u128 > limit {
            let mut v = chars_of("执行超时: ");
            push_decimal(&mut v, elapsed_ms);
            push_text(&mut v, "ms > ");
            // The limit is below the elapsed time here, so it fits 64 bits.
            push_decimal(&mut v, limit as u64);
            push_text(&mut v, "ms");
            self.fail(string_of(v.as_slice()));
            return StepDecision::Stop(StopReason::Timeout);
        }
        self.runtime.state = AgentState::Analyzing { step };
        StepDecision::Capture
    }

    /// Takes in a response of the model, `elapsed_ms` after the run began.
    ///
    /// Without an action: the response and the standing feedback are added
    /// to the conversation, the count of responses without an action and
    /// the step counter advance, and the model is to be asked again. With
    /// a finish: the completion message is added and the run ends as
    /// completed at the current step; no action is executed. Else the
    /// count of responses without an action is reset and the batch is to
    /// be executed.
    pub fn on_response(&mut self, response: &ModelResponse, elapsed_ms: u64) -> (r:
        ResponseDecision)
        ensures
            final(self).id == old(self).id,
            final(self).conversation == old(self).conversation,
            final(self).runtime.config == old(self).runtime.config,
            final(self).runtime.current_task == old(self).runtime.current_task,
            final(self).runtime.execution_history == old(self).runtime.execution_history,
            final(self).runtime.start_time == old(self).runtime.start_time,
            response.actions@.len() == 0 ==> {
                &&& r == ResponseDecision::Retry
                &&& final(self).messages.deep_view() == old(self).messages.deep_view().push(
                    (MessageRole::Assistant, response.content@),
                ).push((MessageRole::User, feedback_text()))
                &&& final(self).no_action_count == next_u32(old(self).no_action_count)
                &&& final(self).runtime.step_counter == next_usize(old(self).runtime.step_counter)
                &&& final(self).runtime.state == old(self).runtime.state
            },
            response.actions@.len() > 0 && has_finish(action_views(response.actions@)) ==> {
                &&& r == ResponseDecision::Finished
                &&& final(self).messages.deep_view() == old(self).messages.deep_view().push(
                    (
                        MessageRole::Assistant,
                        completion_text(response.content@, opt_text(response.reasoning)),
                    ),
                )
                &&& final(self).no_action_count == 0
                &&& final(self).runtime.step_counter == old(self).runtime.step_counter
                &&& final(self).runtime.state == (AgentState::Completed {
                    steps: old(self).runtime.step_counter,
                    duration_ms: elapsed_ms,
                })
            },
            response.actions@.len() > 0 && !has_finish(action_views(response.actions@)) ==> {
                &&& r == ResponseDecision::Execute
                &&& final(self).messages == old(self).messages
                &&& final(self).no_action_count == 0
                &&& final(self).runtime.step_counter == old(self).runtime.step_counter
                &&& final(self).runtime.state == old(self).runtime.state
            },
    {
        if response.actions.len() == 0 {
            self.add_assistant_message(response.content.clone());
            self.add_user_message(
                "你的回复中没有包含 do(action=...) 格式的执行动作，我无法解析。\n\n请严格按照 do(action=ActionType, ...) 格式回复，例如：\n- do(action=\"Tap\", element=[x,y])\n- do(action=\"Type\", text=\"xxx\")\n- do(action=\"Swipe\", start=[x1,y1], end=[x2,y2])\n- do(action=\"Launch\", app=\"xxx\")\n- do(action=\"Back\")\n\n请重新分析屏幕并告诉我下一步操作。".to_owned(),
            );
            if self.no_action_count < u32::MAX {
                self.no_action_count = self.no_action_count + 1;
            }
            let _ = self.runtime.increment_step();
            return ResponseDecision::Retry;
        }
        self.no_action_count = 0;
        if holds_finish(&response.actions) {
            let mut v = chars_of("任务完成。");
            push_text(&mut v, response.content.as_str());
            push_text(&mut v, "\n思考过程: ");
            match &response.reasoning {
                Some(r) => {
                    push_text(&mut v, r.as_str());
                },
                None => {
                    proof {
                        assert(v@ + Seq::<char>::empty() =~= v@);
                    }
                },
            }
            self.add_assistant_message(string_of(v.as_slice()));
            let steps = self.runtime.step_counter;
            self.complete(steps, elapsed_ms);
            return ResponseDecision::Finished;
        }
        ResponseDecision::Execute
    }

    /// Stops the run and forgets it: the agent is idle again, at step
    /// zero, with an empty audit trail.
    pub fn stop(&mut self)
        ensures
            old(self).stopped(*final(self)),
    {
        self.runtime.reset();
    }

    /// Pauses an agent that is analyzing or executing, at its current
    /// step; any other agent refuses with `NotRunning` and stays as it is.
    pub fn pause(&mut self) -> (r: Result<(), AppError>)
        ensures
            old(self).same_but_state(*final(self)),
            match r {
                Ok(_) => old(self).runtime.state.is_active() && final(self).runtime.state == (
                AgentState::Paused { step: old(self).runtime.step_counter }),
                Err(e) => !old(self).runtime.state.is_active() && e == AppError::AgentError(
                    AgentError::NotRunning,
                ) && final(self).runtime.state == old(self).runtime.state,
            },
    {
        let active = match &self.runtime.state {
            AgentState::Analyzing { .. } => true,
            AgentState::Executing { .. } => true,
            _ => false,
        };
        if active {
            self.runtime.state = AgentState::Paused { step: self.runtime.step_counter };
            Ok(())
        } else {
            Err(AppError::AgentError(AgentError::NotRunning))
        }
    }

    /// Resumes a paused agent at the step it was paused at; any other
    /// agent refuses with `InvalidStateTransition` and stays as it is.
    pub fn resume(&mut self) -> (r: Result<(), AppError>)
        ensures
            old(self).same_but_state(*final(self)),
            match r {
                Ok(_) => old(self).runtime.state matches AgentState::Paused { step }
                    && final(self).runtime.state == (AgentState::Analyzing { step }),
                Err(e) => {
                    &&& !(old(self).runtime.state is Paused)
                    &&& final(self).runtime.state == old(self).runtime.state
                    &&& e matches AppError::AgentError(
                        AgentError::InvalidStateTransition(from, to),
                    )
                    &&& from@ == "NotPaused"@
                    &&& to@ == "Running"@
                },
            },
    {
        let paused_at = match &self.runtime.state {
            AgentState::Paused { step } => Some(*step),
            _ => None,
        };
        match paused_at {
            Some(step) => {
                self.runtime.state = AgentState::Analyzing { step };
                Ok(())
            },
            None => Err(
                AppError::AgentError(
                    AgentError::InvalidStateTransition("NotPaused".to_owned(), "Running".to_owned()),
                ),
            ),
        }
    }

    /// What the agent reports of itself: its state, with the task of the
    /// run, which is empty where no task is set.
    pub fn status(&self) -> (r: AgentStatus)
        ensures
            status_of(
                self.runtime.state,
                match self.runtime.current_task {
                    Some(t) => t@,
                    None => Seq::empty(),
                },
                r,
            ),
    {
        let task = match &self.runtime.current_task {
            Some(t) => t.clone(),
            None => String::new(),
        };
        match &self.runtime.state {
            AgentState::Idle => AgentStatus::Idle,
            AgentState::Initializing => AgentStatus::Running { task, step: 0 },
            AgentState::Analyzing { step } => AgentStatus::Running { task, step: *step },
            AgentState::Executing { step, .. } => AgentStatus::Running { task, step: *step },
            AgentState::Waiting { step, .. } => AgentStatus::Running { task, step: *step },
            AgentState::Paused { step } => AgentStatus::Paused { task, step: *step },
            AgentState::Completed { steps, duration_ms } => AgentStatus::Completed {
                task,
                steps: *steps,
                duration_ms: *duration_ms,
            },
            AgentState::Failed { error, .. } => AgentStatus::Failed { task, error: error.clone() },
        }
    }

    /// The audit trail of the run, oldest record first.
    pub fn history(&self) -> (r: Vec<ExecutionStep>)
        ensures
            r@ == self.runtime.execution_history@,
    {
        let mut out: Vec<ExecutionStep> = Vec::new();
        let mut i: usize = 0;
        while i < self.runtime.execution_history.len()
            invariant
                i <= self.runtime.execution_history@.len(),
                out@ == self.runtime.execution_history@.take(i as int),
            decreases self.runtime.execution_history@.len() - i,
        {
            out.push(self.runtime.execution_history[i].copy());
            proof {
                assert(out@ =~= self.runtime.execution_history@.take(i + 1));
            }
            i += 1;
        }
        proof {
            assert(self.runtime.execution_history@.take(
                self.runtime.execution_history@.len() as int,
            ) =~= self.runtime.execution_history@);
        }
        out
    }

    /// Takes in what the user says of the run. A correction becomes a user
    /// message that tells the model to adjust; praise and blame leave the
    /// agent as it is.
    pub fn feedback(&mut self, feedback: AgentFeedback)
        ensures
            final(self).id == old(self).id,
            final(self).runtime == old(self).runtime,
            final(self).conversation == old(self).conversation,
            final(self).no_action_count == old(self).no_action_count,
            match feedback {
                AgentFeedback::Correction { correct_action } => final(self).messages.deep_view()
                    == old(self).messages.deep_view().push(
                    (MessageRole::User, "请调整操作，正确的操作是: "@ + correct_action@),
                ),
                _ => final(self).messages == old(self).messages,
            },
    {
        match feedback {
            AgentFeedback::Correction { correct_action } => {
                self.add_user_message(concat2("请调整操作，正确的操作是: ", correct_action.as_str()));
            },
            _ => {},
        }
    }
}

/// The summary line of one action.
fn summary_line_of(action: &ActionEnum) -> (v: Vec<char>)
    ensures
        v@ == summary_line(action@),
{
    let mut v = chars_of(action.description().as_str());
    push_text(&mut v, " (");
    push_text(&mut v, action.action_type().as_str());
    push_text(&mut v, ")");
    v
}

/// The word for an outcome.
fn status_word_of(result: &ActionResult) -> (r: &'static str)
    ensures
        r@ == status_word(result.deep_view()),
{
    if result.success {
        "成功"
    } else {
        "失败"
    }
}

/// The report of one outcome.
fn outcome_part_of(number: usize, action: &ActionEnum, result: &ActionResult) -> (v: Vec<char>)
    ensures
        v@ == outcome_part(number as nat, action@, result.deep_view()),
{
    let mut v = chars_of("- 操作 #");
    push_decimal(&mut v, number as u64);
    push_text(&mut v, ": ");
    push_text(&mut v, action.action_type().as_str());
    push_text(&mut v, " (");
    push_text(&mut v, action.description().as_str());
    push_text(&mut v, ")\n  状态: ");
    push_text(&mut v, status_word_of(result));
    push_text(&mut v, "\n  ");
    if result.success {
        push_text(&mut v, "详情: ");
    } else {
        push_text(&mut v, "错误: ");
    }
    push_text(&mut v, result.message.as_str());
    push_text(&mut v, "\n  耗时: ");
    push_decimal(&mut v, result.duration_ms as u64);
    push_text(&mut v, "ms");
    v
}

/// The line of the conversation log for one executed action.
pub fn log_line_of(action: &ActionEnum, result: &ActionResult) -> (r: String)
    ensures
        r@ == log_line(action@, result.deep_view()),
{
    let mut v = chars_of("执行操作: ");
    push_text(&mut v, action.action_type().as_str());
    push_text(&mut v, " - ");
    push_text(&mut v, status_word_of(result));
    push_text(&mut v, " (");
    push_text(&mut v, result.message.as_str());
    push_text(&mut v, ")");
    string_of(v.as_slice())
}

/// The assistant message that summarises a batch.
pub fn batch_summary_of(actions: &Vec<ActionEnum>, reasoning: &str) -> (r: String)
    ensures
        r@ == batch_summary(action_views(actions@), reasoning@),
{
    let ghost views = action_views(actions@);
    let mut v = chars_of("我决定执行 ");
    push_decimal(&mut v, actions.len() as u64);
    push_text(&mut v, " 个操作:\n");
    let ghost head = v@;
    let mut i: usize = 0;
    proof {
        assert(head + summary_lines(views, 0) =~= head);
    }
    while i < actions.len()
        invariant
            i <= actions@.len(),
            views == action_views(actions@),
            v@ == head + summary_lines(views, i as int),
        decreases actions@.len() - i,
    {
        if i > 0 {
            push_text(&mut v, "\n");
        }
        let line = summary_line_of(&actions[i]);
        push_chars(&mut v, line.as_slice());
        proof {
            assert(views[i as int] == actions@[i as int]@);
            assert(v@ =~= head + summary_lines(views, i + 1));
        }
        i += 1;
    }
    push_text(&mut v, "\n思考: ");
    push_text(&mut v, reasoning);
    string_of(v.as_slice())
}

/// The user message that reports the outcomes of a batch run at `step`.
pub fn result_summary_of(step: usize, actions: &Vec<ActionEnum>, results: &Vec<ActionResult>) -> (r:
    String)
    requires
        actions@.len() == results@.len(),
    ensures
        r@ == result_summary(step, action_views(actions@), results.deep_view()),
{
    let ghost views = action_views(actions@);
    let ghost outcomes = results.deep_view();
    let mut v = chars_of("操作结果（步骤 ");
    push_decimal(&mut v, step as u64);
    push_text(&mut v, "）:\n");
    let ghost head = v@;
    let mut i: usize = 0;
    proof {
        assert(head + outcome_parts(views, outcomes, 0) =~= head);
    }
    while i < actions.len()
        invariant
            i <= actions@.len(),
            actions@.len() == results@.len(),
            views == action_views(actions@),
            outcomes == results.deep_view(),
            v@ == head + outcome_parts(views, outcomes, i as int),
        decreases actions@.len() - i,
    {
        if i > 0 {
            push_text(&mut v, "\n");
        }
        let part = outcome_part_of(i + 1, &actions[i], &results[i]);
        push_chars(&mut v, part.as_slice());
        proof {
            assert(views[i as int] == actions@[i as int]@);
            assert(outcomes[i as int] == results@[i as int].deep_view());
            assert(v@ =~= head + outcome_parts(views, outcomes, i + 1));
        }
        i += 1;
    }
    push_text(&mut v, "\n\n请分析当前屏幕并决定下一步操作。");
    string_of(v.as_slice())
}

impl PhoneAgent {
    /// Records a batch that was executed at the current step, at the time
    /// `now`: one audit record for each action, in order, each with the
    /// current step; one line of the conversation log for each; the
    /// assistant message that summarises the batch and the user message
    /// that reports the outcomes. The step counter advances by one. An
    /// agent whose run is under way is then executing the last action's
    /// kind; an agent that was paused, stopped or ended while the batch
    /// ran keeps its state, so that a pause holds the next iteration.
    pub fn record_batch(
        &mut self,
        actions: &Vec<ActionEnum>,
        results: &Vec<ActionResult>,
        screenshot: &str,
        reasoning: &str,
        now: i64,
    )
        requires
            actions@.len() == results@.len(),
        ensures
            final(self).id == old(self).id,
            final(self).no_action_count == old(self).no_action_count,
            final(self).runtime.config == old(self).runtime.config,
            final(self).runtime.current_task == old(self).runtime.current_task,
            final(self).runtime.start_time == old(self).runtime.start_time,
            final(self).runtime.step_counter == next_usize(old(self).runtime.step_counter),
            final(self).runtime.execution_history.deep_view() == old(
                self,
            ).runtime.execution_history.deep_view() + batch_steps(
                action_views(actions@),
                results.deep_view(),
                old(self).runtime.step_counter,
                now,
                screenshot@,
                reasoning@,
            ),
            final(self).messages.deep_view() == old(self).messages.deep_view().push(
                (MessageRole::Assistant, batch_summary(action_views(actions@), reasoning@)),
            ).push(
                (
                    MessageRole::User,
                    result_summary(
                        old(self).runtime.step_counter,
                        action_views(actions@),
                        results.deep_view(),
                    ),
                ),
            ),
            final(self).conversation.max_messages == old(self).conversation.max_messages,
            final(self).conversation.messages.deep_view() == log_after_batch(
                old(self).conversation.messages.deep_view(),
                action_views(actions@),
                results.deep_view(),
                screenshot@,
                now,
                old(self).conversation.max_messages,
                actions@.len() as int,
            ),
            actions@.len() == 0 || !is_running(old(self).runtime.state) ==> {
                final(self).runtime.state == old(self).runtime.state
            },
            actions@.len() > 0 && is_running(old(self).runtime.state) ==> {
                &&& final(self).runtime.state matches AgentState::Executing { step, action }
                &&& step == old(self).runtime.step_counter
                &&& action@ == kind_name(actions@.last()@)
            },
    {
        let step = self.runtime.step_counter;
        let running = match &self.runtime.state {
            AgentState::Initializing => true,
            AgentState::Analyzing { .. } => true,
            AgentState::Executing { .. } => true,
            AgentState::Waiting { .. } => true,
            _ => false,
        };
        let ghost views = action_views(actions@);
        let ghost outcomes = results.deep_view();
        let ghost history = self.runtime.execution_history.deep_view();
        let ghost log = self.conversation.messages.deep_view();
        let ghost max = self.conversation.max_messages;
        let ghost expected = batch_steps(views, outcomes, step, now, screenshot@, reasoning@);
        let mut i: usize = 0;
        proof {
            assert(history + expected.take(0) =~= history);
        }
        while i < actions.len()
            invariant
                i <= actions@.len(),
                actions@.len() == results@.len(),
                views == action_views(actions@),
                outcomes == results.deep_view(),
                expected == batch_steps(views, outcomes, step, now, screenshot@, reasoning@),
                self.id == old(self).id,
                self.no_action_count == old(self).no_action_count,
                self.messages == old(self).messages,
                self.runtime.config == old(self).runtime.config,
                self.runtime.current_task == old(self).runtime.current_task,
                self.runtime.start_time == old(self).runtime.start_time,
                self.runtime.step_counter == step,
                step == old(self).runtime.step_counter,
                self.conversation.max_messages == max,
                self.runtime.execution_history.deep_view() == history + expected.take(i as int),
                self.conversation.messages.deep_view() == log_after_batch(
                    log,
                    views,
                    outcomes,
                    screenshot@,
                    now,
                    max,
                    i as int,
                ),
                running == is_running(old(self).runtime.state),
                i == 0 || !running ==> self.runtime.state == old(self).runtime.state,
                i > 0 && running ==> (self.runtime.state matches AgentState::Executing {
                    step: s,
                    action,
                } && s == step && action@ == kind_name(actions@[i - 1]@)),
            decreases actions@.len() - i,
        {
            let action = &actions[i];
            let result = &results[i];
            proof {
                assert(views[i as int] == action@);
                assert(outcomes[i as int] == result.deep_view());
            }
            if running {
                self.runtime.state = AgentState::Executing { step, action: action.action_type() };
            }
            let record = ExecutionStep {
                step_number: step,
                action_type: action.action_type(),
                action_description: action.description(),
                result: result.copy(),
                timestamp: now,
                screenshot: screenshot.to_owned(),
                reasoning: reasoning.to_owned(),
            };
            let ghost before = self.runtime.execution_history.deep_view();
            self.runtime.add_step(record);
            proof {
                assert(self.runtime.execution_history.deep_view() =~= before.push(
                    record.deep_view(),
                ));
                assert(record.deep_view() == expected[i as int]);
                assert(history + expected.take(i + 1) =~= (history + expected.take(i as int)).push(
                    expected[i as int],
                ));
            }
            self.conversation.add_message(
                LogRole::Assistant,
                log_line_of(action, result),
                Some(screenshot.to_owned()),
                now,
            );
            i += 1;
        }
        proof {
            assert(expected.take(expected.len() as int) =~= expected);
        }
        self.add_assistant_message(batch_summary_of(actions, reasoning));
        self.add_user_message(result_summary_of(step, actions, results));
        let _ = self.runtime.increment_step();
    }
}

/// Whether a batch holds a finish.
pub fn holds_finish(actions: &Vec<ActionEnum>) -> (b: bool)
    ensures
        b == has_finish(action_views(actions@)),
{
    let mut i: usize = 0;
    while i < actions.len()
        invariant
            i <= actions@.len(),
            forall|j: int| 0 <= j < i ==> !(#[trigger] action_views(actions@)[j] is Finish),
        decreases actions@.len() - i,
    {
        match &actions[i] {
            ActionEnum::Finish(_) => {
                proof {
                    assert(action_views(actions@)[i as int] is Finish);
                }
                return true;
            },
            _ => {},
        }
        i += 1;
    }
    false
}

/// The run ends at the bound check of step `max_steps`, whatever the other
/// bounds say, and no earlier step is refused for the step limit.
pub proof fn lemma_step_limit(step: usize, no_action: u32, elapsed_ms: u64, config: AgentConfig)
    ensures
        step >= config.max_steps ==> stop_reason(step, no_action, elapsed_ms, config) == Some(
            StopReason::MaxSteps,
        ),
        step < config.max_steps ==> stop_reason(step, no_action, elapsed_ms, config) != Some(
            StopReason::MaxSteps,
        ),
{
}

/// After three responses without an action in a row, counted from none,
/// the next bound check ends the run: for want of progress where the step
/// limit is not reached first.
pub proof fn lemma_three_empty_responses(step: usize, elapsed_ms: u64, config: AgentConfig)
    ensures
        next_u32(next_u32(next_u32(0))) == 3,
        stop_reason(step, 3, elapsed_ms, config) is Some,
        step < config.max_steps ==> stop_reason(step, 3, elapsed_ms, config) == Some(
            StopReason::NoProgress,
        ),
{
}

} // verus!

verus! {

/// Every batch that is recorded adds as many records to the audit trail as
/// it holds actions, and each of them bears the step at which the batch
/// ran.
pub proof fn lemma_batch_records(
    actions: Seq<ActionView>,
    results: Seq<ResultView>,
    step: usize,
    now: i64,
    screenshot: Seq<char>,
    reasoning: Seq<char>,
)
    ensures
        batch_steps(actions, results, step, now, screenshot, reasoning).len() == actions.len(),
        forall|i: int|
            0 <= i < actions.len() ==> (#[trigger] batch_steps(
                actions,
                results,
                step,
                now,
                screenshot,
                reasoning,
            )[i]).step_number == step,
{
}

} // verus!
