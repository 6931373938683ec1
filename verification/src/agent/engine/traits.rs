//! The data that actions, agents and model clients exchange.

use vstd::prelude::*;
use crate::agent::actions::base::ActionEnum;
use crate::agent::actions::input::KeyCode;
use crate::agent::actions::swipe::ScrollDirection;
use crate::text::{chars_of, concat2, decimal, push_decimal, push_text, string_of};

verus! {

/// The mathematical value of an action: the action with every string taken
/// as its sequence of characters.
pub enum ActionView {
    Tap { x: u32, y: u32, description: Option<Seq<char>> },
    LongPress { x: u32, y: u32, duration_ms: u32, description: Option<Seq<char>> },
    DoubleTap { x: u32, y: u32, description: Option<Seq<char>> },
    Swipe {
        start_x: u32,
        start_y: u32,
        end_x: u32,
        end_y: u32,
        duration_ms: u32,
        description: Option<Seq<char>>,
    },
    Scroll {
        direction: ScrollDirection,
        distance_pct: u32,
        duration_ms: u32,
        description: Option<Seq<char>>,
    },
    Type { text: Seq<char>, description: Option<Seq<char>> },
    PressKey { keycode: KeyCode, description: Option<Seq<char>> },
    Back { description: Option<Seq<char>> },
    Home { description: Option<Seq<char>> },
    Recent { description: Option<Seq<char>> },
    Notification { description: Option<Seq<char>> },
    Launch { package: Seq<char>, activity: Option<Seq<char>>, description: Option<Seq<char>> },
    Wait { duration_ms: u32, reason: Option<Seq<char>> },
    Screenshot { description: Option<Seq<char>> },
    Finish { result: Seq<char>, success: bool },
}

/// The characters of an optional string.
pub open spec fn opt_text(s: Option<String>) -> Option<Seq<char>> {
    match s {
        Some(t) => Some(t@),
        None => None,
    }
}

/// The outcome of executing one action.
#[derive(Debug, Clone, PartialEq, Eq)]
pub struct ActionResult {
    pub success: bool,
    pub message: String,
    pub duration_ms: u32,
    pub screenshot_before: Option<String>,
    pub screenshot_after: Option<String>,
}

/// The mathematical value of an [`ActionResult`].
pub struct ResultView {
    pub success: bool,
    pub message: Seq<char>,
    pub duration_ms: u32,
    pub screenshot_before: Option<Seq<char>>,
    pub screenshot_after: Option<Seq<char>>,
}

impl DeepView for ActionResult {
    type V = ResultView;

    open spec fn deep_view(&self) -> ResultView {
        ResultView {
            success: self.success,
            message: self.message@,
            duration_ms: self.duration_ms,
            screenshot_before: opt_text(self.screenshot_before),
            screenshot_after: opt_text(self.screenshot_after),
        }
    }
}

/// A copy of an optional string.
pub fn copy_opt_text(s: &Option<String>) -> (r: Option<String>)
    ensures
        r == *s,
{
    match s {
        Some(t) => Some(t.clone()),
        None => None,
    }
}

impl ActionResult {
    /// A copy of this outcome.
    pub fn copy(&self) -> (r: Self)
        ensures
            r == *self,
    {
        Self {
            success: self.success,
            message: self.message.clone(),
            duration_ms: self.duration_ms,
            screenshot_before: copy_opt_text(&self.screenshot_before),
            screenshot_after: copy_opt_text(&self.screenshot_after),
        }
    }

    /// A successful outcome without screenshots.
    pub fn success(message: String, duration_ms: u32) -> (r: Self)
        ensures
            r.success,
            r.message == message,
            r.duration_ms == duration_ms,
            r.screenshot_before is None,
            r.screenshot_after is None,
    {
        Self { success: true, message, duration_ms, screenshot_before: None, screenshot_after: None }
    }

    /// A failed outcome without screenshots.
    pub fn failure(message: String, duration_ms: u32) -> (r: Self)
        ensures
            !r.success,
            r.message == message,
            r.duration_ms == duration_ms,
            r.screenshot_before is None,
            r.screenshot_after is None,
    {
        Self {
            success: false,
            message,
            duration_ms,
            screenshot_before: None,
            screenshot_after: None,
        }
    }
}

/// Why an action's parameters are not acceptable.
#[derive(Debug, Clone, PartialEq, Eq)]
pub enum ActionError {
    InvalidParameters(String),
    OutOfBounds { x: u32, y: u32 },
    InvalidText(String),
    DurationTooShort(u32),
    DurationTooLong(u32),
}

/// The mathematical value of an [`ActionError`].
pub enum ActionFault {
    InvalidParameters(Seq<char>),
    OutOfBounds { x: u32, y: u32 },
    InvalidText(Seq<char>),
    DurationTooShort(u32),
    DurationTooLong(u32),
}

impl View for ActionError {
    type V = ActionFault;

    open spec fn view(&self) -> ActionFault {
        match *self {
            ActionError::InvalidParameters(s) => ActionFault::InvalidParameters(s@),
            ActionError::OutOfBounds { x, y } => ActionFault::OutOfBounds { x, y },
            ActionError::InvalidText(s) => ActionFault::InvalidText(s@),
            ActionError::DurationTooShort(d) => ActionFault::DurationTooShort(d),
            ActionError::DurationTooLong(d) => ActionFault::DurationTooLong(d),
        }
    }
}

impl ActionFault {
    /// The text shown to the user for this fault.
    pub open spec fn text(self) -> Seq<char> {
        match self {
            ActionFault::InvalidParameters(s) => "无效的参数: "@ + s,
            ActionFault::OutOfBounds { x, y } => "坐标超出边界: ("@ + decimal(x as nat) + ", "@
                + decimal(y as nat) + ")"@,
            ActionFault::InvalidText(s) => "文本包含无效字符: "@ + s,
            ActionFault::DurationTooShort(d) => "持续时间过短: "@ + decimal(d as nat) + "ms"@,
            ActionFault::DurationTooLong(d) => "持续时间过长: "@ + decimal(d as nat) + "ms"@,
        }
    }
}

impl ActionError {
    /// The text shown to the user for this error.
    pub fn message(&self) -> (r: String)
        ensures
            r@ == self@.text(),
    {
        match self {
            ActionError::InvalidParameters(s) => concat2("无效的参数: ", s.as_str()),
            ActionError::OutOfBounds { x, y } => {
                let mut v = chars_of("坐标超出边界: (");
                push_decimal(&mut v, *x as u64);
                push_text(&mut v, ", ");
                push_decimal(&mut v, *y as u64);
                push_text(&mut v, ")");
                string_of(v.as_slice())
            },
            ActionError::InvalidText(s) => concat2("文本包含无效字符: ", s.as_str()),
            ActionError::DurationTooShort(d) => {
                let mut v = chars_of("持续时间过短: ");
                push_decimal(&mut v, *d as u64);
                push_text(&mut v, "ms");
                string_of(v.as_slice())
            },
            ActionError::DurationTooLong(d) => {
                let mut v = chars_of("持续时间过长: ");
                push_decimal(&mut v, *d as u64);
                push_text(&mut v, "ms");
                string_of(v.as_slice())
            },
        }
    }
}

/// A lifecycle violation of an agent.
#[derive(Debug, Clone, PartialEq, Eq)]
pub enum AgentError {
    NotFound(String),
    DeviceNotFound(String),
    ValidationError(String),
    ConnectionError(String),
    TimeoutError(String),
    AlreadyRunning,
    NotRunning,
    MaxStepsExceeded(usize),
    ExecutionTimeout(u64),
    TaskFailed(String),
    InvalidStateTransition(String, String),
    RecoveryFailed(String),
}

impl AgentError {
    /// A copy of this error.
    pub fn copy(&self) -> (r: Self)
        ensures
            r == *self,
    {
        match self {
            AgentError::NotFound(s) => AgentError::NotFound(s.clone()),
            AgentError::DeviceNotFound(s) => AgentError::DeviceNotFound(s.clone()),
            AgentError::ValidationError(s) => AgentError::ValidationError(s.clone()),
            AgentError::ConnectionError(s) => AgentError::ConnectionError(s.clone()),
            AgentError::TimeoutError(s) => AgentError::TimeoutError(s.clone()),
            AgentError::AlreadyRunning => AgentError::AlreadyRunning,
            AgentError::NotRunning => AgentError::NotRunning,
            AgentError::MaxStepsExceeded(n) => AgentError::MaxStepsExceeded(*n),
            AgentError::ExecutionTimeout(n) => AgentError::ExecutionTimeout(*n),
            AgentError::TaskFailed(s) => AgentError::TaskFailed(s.clone()),
            AgentError::InvalidStateTransition(a, b) => AgentError::InvalidStateTransition(
                a.clone(),
                b.clone(),
            ),
            AgentError::RecoveryFailed(s) => AgentError::RecoveryFailed(s.clone()),
        }
    }

    /// The text shown to the user for this error.
    pub open spec fn text(self) -> Seq<char> {
        match self {
            AgentError::NotFound(s) => "Agent 未找到: "@ + s@,
            AgentError::DeviceNotFound(s) => "设备未找到: "@ + s@,
            AgentError::ValidationError(s) => "验证错误: "@ + s@,
            AgentError::ConnectionError(s) => "连接错误: "@ + s@,
            AgentError::TimeoutError(s) => "超时错误: "@ + s@,
            AgentError::AlreadyRunning => "Agent 已在运行"@,
            AgentError::NotRunning => "Agent 未运行"@,
            AgentError::MaxStepsExceeded(n) => "超过最大步数: "@ + decimal(n as nat),
            AgentError::ExecutionTimeout(n) => "执行超时: "@ + decimal(n as nat) + " 秒"@,
            AgentError::TaskFailed(s) => "任务失败: "@ + s@,
            AgentError::InvalidStateTransition(a, b) => "无效的状态转换: 从 "@ + a@ + " 到 "@ + b@,
            AgentError::RecoveryFailed(s) => "恢复失败: "@ + s@,
        }
    }

    /// The text shown to the user for this error.
    pub fn message(&self) -> (r: String)
        ensures
            r@ == self.text(),
    {
        match self {
            AgentError::NotFound(s) => concat2("Agent 未找到: ", s.as_str()),
            AgentError::DeviceNotFound(s) => concat2("设备未找到: ", s.as_str()),
            AgentError::ValidationError(s) => concat2("验证错误: ", s.as_str()),
            AgentError::ConnectionError(s) => concat2("连接错误: ", s.as_str()),
            AgentError::TimeoutError(s) => concat2("超时错误: ", s.as_str()),
            AgentError::AlreadyRunning => "Agent 已在运行".to_owned(),
            AgentError::NotRunning => "Agent 未运行".to_owned(),
            AgentError::MaxStepsExceeded(n) => {
                let mut v = chars_of("超过最大步数: ");
                push_decimal(&mut v, *n as u64);
                string_of(v.as_slice())
            },
            AgentError::ExecutionTimeout(n) => {
                let mut v = chars_of("执行超时: ");
                push_decimal(&mut v, *n);
                push_text(&mut v, " 秒");
                string_of(v.as_slice())
            },
            AgentError::TaskFailed(s) => concat2("任务失败: ", s.as_str()),
            AgentError::InvalidStateTransition(a, b) => {
                let mut v = chars_of("无效的状态转换: 从 ");
                push_text(&mut v, a.as_str());
                push_text(&mut v, " 到 ");
                push_text(&mut v, b.as_str());
                string_of(v.as_slice())
            },
            AgentError::RecoveryFailed(s) => concat2("恢复失败: ", s.as_str()),
        }
    }
}

/// What an agent reports of itself to the outside.
#[derive(Debug, Clone, PartialEq, Eq)]
pub enum AgentStatus {
    Idle,
    Running { task: String, step: usize },
    Paused { task: String, step: usize },
    Completed { task: String, steps: usize, duration_ms: u64 },
    Failed { task: String, error: String },
}

/// One record of the audit trail: an action, its outcome and the step at
/// which it ran. `timestamp` is in milliseconds since the Unix epoch.
#[derive(Debug, Clone, PartialEq, Eq)]
pub struct ExecutionStep {
    pub step_number: usize,
    pub action_type: String,
    pub action_description: String,
    pub result: ActionResult,
    pub timestamp: i64,
    pub screenshot: String,
    pub reasoning: String,
}

/// The mathematical value of an [`ExecutionStep`].
pub struct StepView {
    pub step_number: usize,
    pub action_type: Seq<char>,
    pub action_description: Seq<char>,
    pub result: ResultView,
    pub timestamp: i64,
    pub screenshot: Seq<char>,
    pub reasoning: Seq<char>,
}

impl DeepView for ExecutionStep {
    type V = StepView;

    open spec fn deep_view(&self) -> StepView {
        StepView {
            step_number: self.step_number,
            action_type: self.action_type@,
            action_description: self.action_description@,
            result: self.result.deep_view(),
            timestamp: self.timestamp,
            screenshot: self.screenshot@,
            reasoning: self.reasoning@,
        }
    }
}

impl ExecutionStep {
    /// A copy of this record.
    pub fn copy(&self) -> (r: Self)
        ensures
            r == *self,
    {
        Self {
            step_number: self.step_number,
            action_type: self.action_type.clone(),
            action_description: self.action_description.clone(),
            result: self.result.copy(),
            timestamp: self.timestamp,
            screenshot: self.screenshot.clone(),
            reasoning: self.reasoning.clone(),
        }
    }
}

/// What a user may tell a running agent.
#[derive(Debug, Clone, PartialEq, Eq)]
pub enum AgentFeedback {
    Positive,
    Negative { reason: String },
    Correction { correct_action: String },
}

/// Who wrote a message of the conversation.
#[derive(Debug, Clone, Copy, PartialEq, Eq)]
pub enum MessageRole {
    System,
    User,
    Assistant,
}

/// One message of the conversation with the model.
#[derive(Debug, Clone, PartialEq, Eq)]
pub struct ChatMessage {
    pub role: MessageRole,
    pub content: String,
}

impl DeepView for ChatMessage {
    type V = (MessageRole, Seq<char>);

    open spec fn deep_view(&self) -> (MessageRole, Seq<char>) {
        (self.role, self.content@)
    }
}

impl ChatMessage {
    /// A copy of this message.
    pub fn copy(&self) -> (r: Self)
        ensures
            r == *self,
    {
        Self { role: self.role, content: self.content.clone() }
    }
}

/// What the model answered: the raw text, the actions parsed from it, and
/// the reasoning it gave. `confidence_permille` is the confidence in
/// thousandths, at most 1000.
#[derive(Debug, Clone)]
pub struct ModelResponse {
    pub content: String,
    pub actions: Vec<ActionEnum>,
    pub confidence_permille: u16,
    pub reasoning: Option<String>,
    pub tokens_used: u32,
}

/// A failure of the language model or of the way to it.
#[derive(Debug, Clone, PartialEq, Eq)]
pub enum ModelError {
    ApiError(String),
    ParseError(String),
    RateLimit,
    InvalidApiKey,
    NetworkError(String),
    Timeout,
}

impl ModelError {
    /// A copy of this error.
    pub fn copy(&self) -> (r: Self)
        ensures
            r == *self,
    {
        match self {
            ModelError::ApiError(s) => ModelError::ApiError(s.clone()),
            ModelError::ParseError(s) => ModelError::ParseError(s.clone()),
            ModelError::RateLimit => ModelError::RateLimit,
            ModelError::InvalidApiKey => ModelError::InvalidApiKey,
            ModelError::NetworkError(s) => ModelError::NetworkError(s.clone()),
            ModelError::Timeout => ModelError::Timeout,
        }
    }

    /// The text shown to the user for this error.
    pub open spec fn text(self) -> Seq<char> {
        match self {
            ModelError::ApiError(s) => "API 请求失败: "@ + s@,
            ModelError::ParseError(s) => "解析响应失败: "@ + s@,
            ModelError::RateLimit => "超出速率限制"@,
            ModelError::InvalidApiKey => "无效的 API 密钥"@,
            ModelError::NetworkError(s) => "网络错误: "@ + s@,
            ModelError::Timeout => "超时"@,
        }
    }

    /// The text shown to the user for this error.
    pub fn message(&self) -> (r: String)
        ensures
            r@ == self.text(),
    {
        match self {
            ModelError::ApiError(s) => concat2("API 请求失败: ", s.as_str()),
            ModelError::ParseError(s) => concat2("解析响应失败: ", s.as_str()),
            ModelError::RateLimit => "超出速率限制".to_owned(),
            ModelError::InvalidApiKey => "无效的 API 密钥".to_owned(),
            ModelError::NetworkError(s) => concat2("网络错误: ", s.as_str()),
            ModelError::Timeout => "超时".to_owned(),
        }
    }
}

/// What a model client says of the model behind it.
#[derive(Debug, Clone, PartialEq, Eq)]
pub struct ModelInfo {
    pub name: String,
    pub provider: String,
    pub supports_vision: bool,
    pub max_tokens: u32,
    pub context_window: u32,
}

/// One value of an operation's parameters.
#[derive(Debug, Clone, PartialEq, Eq)]
pub enum ParamValue {
    Bool(bool),
    /// A non-negative integer.
    Int(u64),
    Text(String),
    /// A list; each element is a non-negative integer or something
    /// else, which the list holds as none.
    List(Vec<Option<u64>>),
    /// Any value that no operation reads.
    Other,
}

/// The mathematical value of a [`ParamValue`].
pub enum ParamView {
    Bool(bool),
    Int(u64),
    Text(Seq<char>),
    List(Seq<Option<u64>>),
    Other,
}

impl View for ParamValue {
    type V = ParamView;

    open spec fn view(&self) -> ParamView {
        match *self {
            ParamValue::Bool(b) => ParamView::Bool(b),
            ParamValue::Int(n) => ParamView::Int(n),
            ParamValue::Text(s) => ParamView::Text(s@),
            ParamValue::List(l) => ParamView::List(l@),
            ParamValue::Other => ParamView::Other,
        }
    }
}

impl DeepView for ParamValue {
    type V = ParamView;

    open spec fn deep_view(&self) -> ParamView {
        self@
    }
}

impl ParamValue {
    /// A copy of this value.
    pub fn copy(&self) -> (r: ParamValue)
        ensures
            r@ == self@,
    {
        match self {
            ParamValue::Bool(b) => ParamValue::Bool(*b),
            ParamValue::Int(n) => ParamValue::Int(*n),
            ParamValue::Text(s) => ParamValue::Text(s.clone()),
            ParamValue::List(l) => {
                let mut out: Vec<Option<u64>> = Vec::new();
                let mut i: usize = 0;
                while i < l.len()
                    invariant
                        i <= l@.len(),
                        out@ == l@.take(i as int),
                    decreases l@.len() - i,
                {
                    out.push(l[i]);
                    proof {
                        assert(out@ =~= l@.take(i + 1));
                    }
                    i += 1;
                }
                proof {
                    assert(l@.take(l@.len() as int) =~= l@);
                }
                ParamValue::List(out)
            },
            ParamValue::Other => ParamValue::Other,
        }
    }
}

/// One named parameter.
#[derive(Debug, Clone, PartialEq, Eq)]
pub struct Param {
    pub key: String,
    pub value: ParamValue,
}

/// The map that a list of named parameters stands for: where a key occurs
/// more than once, the last occurrence counts.
pub open spec fn map_of(entries: Seq<Param>) -> Map<Seq<char>, ParamView>
    decreases entries.len(),
{
    if entries.len() == 0 {
        Map::empty()
    } else {
        map_of(entries.drop_last()).insert(entries.last().key@, entries.last().value@)
    }
}

/// The parameters of an operation: a map from names to values.
#[derive(Debug, Clone, PartialEq, Eq)]
pub struct Params {
    pub entries: Vec<Param>,
}

impl View for Params {
    type V = Map<Seq<char>, ParamView>;

    open spec fn view(&self) -> Map<Seq<char>, ParamView> {
        map_of(self.entries@)
    }
}

impl Params {
    /// No parameters.
    pub fn new() -> (r: Params)
        ensures
            r@ == Map::<Seq<char>, ParamView>::empty(),
    {
        Params { entries: Vec::new() }
    }

    /// Sets `key` to `value`, replacing what it had.
    pub fn insert(&mut self, key: String, value: ParamValue)
        ensures
            final(self)@ == old(self)@.insert(key@, value@),
    {
        self.entries.push(Param { key, value });
        proof {
            assert(self.entries@.drop_last() =~= old(self).entries@);
        }
    }

    /// The value of `key`, if it has one.
    pub fn get(&self, key: &str) -> (r: Option<&ParamValue>)
        ensures
            match r {
                Some(v) => self@.contains_key(key@) && self@[key@] == v@,
                None => !self@.contains_key(key@),
            },
    {
        let mut i: usize = self.entries.len();
        proof {
            assert(self.entries@.take(i as int) =~= self.entries@);
        }
        while i > 0
            invariant
                i <= self.entries@.len(),
                map_of(self.entries@).contains_key(key@) == map_of(
                    self.entries@.take(i as int),
                ).contains_key(key@),
                map_of(self.entries@).contains_key(key@) ==> map_of(self.entries@)[key@] == map_of(
                    self.entries@.take(i as int),
                )[key@],
            decreases i,
        {
            let ghost prefix = self.entries@.take(i as int);
            proof {
                assert(prefix.drop_last() =~= self.entries@.take(i - 1));
                assert(prefix.last() == self.entries@[i - 1]);
            }
            i -= 1;
            if crate::text::same_text(self.entries[i].key.as_str(), key) {
                return Some(&self.entries[i].value);
            }
        }
        None
    }

    /// Whether `key` has a value.
    pub fn contains_key(&self, key: &str) -> (b: bool)
        ensures
            b == self@.contains_key(key@),
    {
        self.get(key).is_some()
    }

    /// These parameters without `key`.
    pub fn without(&self, key: &str) -> (r: Params)
        ensures
            r@ == self@.remove(key@),
    {
        let mut out: Vec<Param> = Vec::new();
        let mut i: usize = 0;
        proof {
            assert(map_of(out@) =~= map_of(self.entries@.take(0)).remove(key@));
        }
        while i < self.entries.len()
            invariant
                i <= self.entries@.len(),
                map_of(out@) == map_of(self.entries@.take(i as int)).remove(key@),
            decreases self.entries@.len() - i,
        {
            let ghost next = self.entries@.take(i + 1);
            proof {
                assert(next.drop_last() =~= self.entries@.take(i as int));
                assert(next.last() == self.entries@[i as int]);
            }
            if !crate::text::same_text(self.entries[i].key.as_str(), key) {
                let ghost before = out@;
                out.push(Param { key: self.entries[i].key.clone(), value: self.entries[i].value.copy() });
                proof {
                    assert(out@.drop_last() =~= before);
                    assert(map_of(out@) =~= map_of(next).remove(key@));
                }
            } else {
                proof {
                    assert(map_of(out@) =~= map_of(next).remove(key@));
                }
            }
            i += 1;
        }
        proof {
            assert(self.entries@.take(self.entries@.len() as int) =~= self.entries@);
        }
        Params { entries: out }
    }

    /// A copy of these parameters.
    pub fn copy(&self) -> (r: Params)
        ensures
            r@ == self@,
    {
        let mut out: Vec<Param> = Vec::new();
        let mut i: usize = 0;
        while i < self.entries.len()
            invariant
                i <= self.entries@.len(),
                map_of(out@) == map_of(self.entries@.take(i as int)),
            decreases self.entries@.len() - i,
        {
            let ghost next = self.entries@.take(i + 1);
            let ghost before = out@;
            out.push(Param { key: self.entries[i].key.clone(), value: self.entries[i].value.copy() });
            proof {
                assert(next.drop_last() =~= self.entries@.take(i as int));
                assert(out@.drop_last() =~= before);
            }
            i += 1;
        }
        proof {
            assert(self.entries@.take(self.entries@.len() as int) =~= self.entries@);
        }
        Params { entries: out }
    }
}

/// An operation as a model wrote it: the kind, the named parameters, and
/// the text it was read from.
#[derive(Debug, Clone, PartialEq, Eq)]
pub struct ParsedAction {
    pub action_type: String,
    pub parameters: Params,
    pub reasoning: String,
}

} // verus!
