//! From a parsed operation to a validated action, and what to do after
//! each attempt to execute it.

use vstd::prelude::*;
use crate::agent::actions::base::{fault_of, ActionEnum};
use crate::agent::actions::parse::{action_from, list_of, opt_action};
use crate::agent::actions::system::{app_name_to_package, package_for};
use crate::agent::engine::traits::{
    ActionResult, ParamValue, ParamView, Params, ParsedAction, ResultView,
};
use crate::agent::executor::retry::{
    after_failure, AfterFailure, RetryConfig, RetryStrategy,
};
use crate::error::AppError;
use crate::text::{chars_of, concat2, parse_u64, push_text, same_text, string_of, unsigned_of};

verus! {

/// `secs` seconds in milliseconds, or the largest 64-bit value where that
/// does not fit.
pub open spec fn millis_of(secs: nat) -> u64 {
    if secs * 1000 > u64::MAX {
        u64::MAX
    } else {
        (secs * 1000) as u64
    }
}

/// The parameters with the point under `list_key` spread out: the key is
/// removed, and where it held a list whose first two elements are
/// integers, these are entered under `x_key` and `y_key`.
pub open spec fn with_point(
    p: Map<Seq<char>, ParamView>,
    list_key: Seq<char>,
    x_key: Seq<char>,
    y_key: Seq<char>,
) -> Map<Seq<char>, ParamView> {
    match list_of(p, list_key) {
        Some(l) => if l.len() >= 2 && l[0] is Some && l[1] is Some {
            p.remove(list_key).insert(x_key, ParamView::Int(l[0]->0)).insert(
                y_key,
                ParamView::Int(l[1]->0),
            )
        } else {
            p.remove(list_key)
        },
        None => p.remove(list_key),
    }
}

/// The parameters with `key` set to `value` where `key` has no value.
pub open spec fn with_default(
    p: Map<Seq<char>, ParamView>,
    key: Seq<char>,
    value: ParamView,
) -> Map<Seq<char>, ParamView> {
    if p.contains_key(key) {
        p
    } else {
        p.insert(key, value)
    }
}

/// The duration in milliseconds that a value under `duration` stands for:
/// a number of seconds, given as an integer or as a text that
/// `str::parse` reads as one; one second for anything else.
pub open spec fn duration_ms_of(v: ParamView) -> u64 {
    match v {
        ParamView::Int(n) => millis_of(n as nat),
        ParamView::Text(t) => match unsigned_of(t, u64::MAX as nat) {
            Some(n) => millis_of(n),
            None => 1000,
        },
        _ => 1000,
    }
}

/// The parameters of a wait in the form the action takes: `duration` in
/// seconds becomes `duration_ms`, which is one second where neither is
/// given, and `message` becomes `reason`.
pub open spec fn wait_adapted(p: Map<Seq<char>, ParamView>) -> Map<Seq<char>, ParamView> {
    let a = if p.contains_key("duration"@) {
        p.remove("duration"@).insert(
            "duration_ms"@,
            ParamView::Int(duration_ms_of(p["duration"@])),
        )
    } else {
        p
    };
    let b = with_default(a, "duration_ms"@, ParamView::Int(1000));
    if b.contains_key("message"@) {
        b.remove("message"@).insert("reason"@, b["message"@])
    } else {
        b
    }
}

/// The parameters of an operation in the form its action takes:
/// `element=[x,y]` becomes `x` and `y` for the touch actions; `start` and
/// `end` become the four coordinates of a swipe, whose duration is 500 ms
/// where none is given; `app` becomes the `package` it stands for, which
/// is an error for an unknown alias; a wait is adapted as `wait_adapted`
/// says. Other kinds keep their parameters.
pub open spec fn adapted(kind: Seq<char>, p: Map<Seq<char>, ParamView>) -> Result<
    Map<Seq<char>, ParamView>,
    Seq<char>,
> {
    if kind == "tap"@ || kind == "long_press"@ || kind == "double_tap"@ {
        Ok(with_point(p, "element"@, "x"@, "y"@))
    } else if kind == "swipe"@ {
        Ok(
            with_default(
                with_point(
                    with_point(p, "start"@, "start_x"@, "start_y"@),
                    "end"@,
                    "end_x"@,
                    "end_y"@,
                ),
                "duration_ms"@,
                ParamView::Int(500),
            ),
        )
    } else if kind == "launch"@ {
        if p.contains_key("app"@) {
            match p["app"@] {
                ParamView::Text(app) => match package_for(app) {
                    Some(package) => Ok(
                        p.remove("app"@).insert("package"@, ParamView::Text(package)),
                    ),
                    None => Err("无法识别的应用名称: "@ + app),
                },
                _ => Ok(p.remove("app"@)),
            }
        } else {
            Ok(p)
        }
    } else if kind == "wait"@ {
        Ok(wait_adapted(p))
    } else {
        Ok(p)
    }
}

/// The action that a parsed operation stands for, ready to be executed,
/// or the text of the error: the parameters are adapted, the action is
/// built, and the action is validated.
pub open spec fn prepared(kind: Seq<char>, p: Map<Seq<char>, ParamView>) -> Result<
    crate::agent::engine::traits::ActionView,
    Seq<char>,
> {
    match adapted(kind, p) {
        Err(text) => Err("参数转换失败: "@ + ("未知错误: "@ + text)),
        Ok(q) => match action_from(kind, q) {
            None => Err("创建 Action 失败: 未知的操作类型或缺少参数: "@ + kind),
            Some(a) => match fault_of(a) {
                Some(fault) => Err("操作验证失败: "@ + fault.text()),
                None => Ok(a),
            },
        },
    }
}

/// What follows an attempt to execute an action.
#[derive(Debug, Clone, PartialEq, Eq)]
pub enum AttemptVerdict {
    /// The attempt succeeded: its result is the result of the execution.
    Done,
    /// The attempt failed and is worth another: wait for the delay, where
    /// there is one, and execute again.
    Retry { delay_ms: Option<u64> },
    /// The attempt failed and was the last: the execution ends with this
    /// error, which is the error of the attempt.
    Failed { error: AppError },
}

/// The text of the failure of an attempt: the text of the device's error,
/// or of the error that stands for a result without success.
pub open spec fn failure_text(outcome: Result<ActionResult, AppError>) -> Seq<char> {
    match outcome {
        Ok(result) => "未知错误: "@ + result.message@,
        Err(e) => e.text(),
    }
}

/// Whether an attempt succeeded: it gave a result, and the result says so.
pub open spec fn succeeded(outcome: Result<ActionResult, AppError>) -> bool {
    outcome matches Ok(result) && result.success
}

fn spread_point(p: Params, list_key: &str, x_key: &str, y_key: &str) -> (r: Params)
    ensures
        r@ == with_point(p@, list_key@, x_key@, y_key@),
{
    let point: Option<(u64, u64)> = match p.get(list_key) {
        Some(ParamValue::List(l)) => if l.len() >= 2 {
            match (l[0], l[1]) {
                (Some(x), Some(y)) => Some((x, y)),
                _ => None,
            }
        } else {
            None
        },
        _ => None,
    };
    let mut q = p.without(list_key);
    match point {
        Some(pt) => {
            q.insert(x_key.to_owned(), ParamValue::Int(pt.0));
            q.insert(y_key.to_owned(), ParamValue::Int(pt.1));
        },
        None => {},
    }
    q
}

fn set_default(p: Params, key: &str, value: ParamValue) -> (r: Params)
    ensures
        r@ == with_default(p@, key@, value@),
{
    let mut q = p;
    if !q.contains_key(key) {
        q.insert(key.to_owned(), value);
    }
    q
}

fn to_millis(secs: u64) -> (r: u64)
    ensures
        r == millis_of(secs as nat),
{
    if secs > 18_446_744_073_709_551 {
        0xffff_ffff_ffff_ffff
    } else {
        secs * 1000
    }
}

fn adapt_wait(p: Params) -> (r: Params)
    ensures
        r@ == wait_adapted(p@),
{
    let duration: Option<u64> = match p.get("duration") {
        Some(ParamValue::Int(n)) => Some(to_millis(*n)),
        Some(ParamValue::Text(t)) => {
            let v = chars_of(t.as_str());
            match parse_u64(v.as_slice()) {
                Some(n) => Some(to_millis(n)),
                None => Some(1000),
            }
        },
        Some(_) => Some(1000),
        None => None,
    };
    let a = match duration {
        Some(ms) => {
            let mut q = p.without("duration");
            q.insert("duration_ms".to_owned(), ParamValue::Int(ms));
            q
        },
        None => p,
    };
    let b = set_default(a, "duration_ms", ParamValue::Int(1000));
    let message: Option<ParamValue> = match b.get("message") {
        Some(v) => Some(v.copy()),
        None => None,
    };
    match message {
        Some(v) => {
            let mut q = b.without("message");
            q.insert("reason".to_owned(), v);
            q
        },
        None => b,
    }
}

/// The result that stands for the execution of an action in the batch of
/// a step: the result of the execution, or a failed result without
/// duration that carries the text of the error with which it ended.
pub open spec fn batch_result(outcome: Result<ActionResult, AppError>) -> ResultView {
    match outcome {
        Ok(result) => result.deep_view(),
        Err(e) => ResultView {
            success: false,
            message: e.text(),
            duration_ms: 0,
            screenshot_before: None,
            screenshot_after: None,
        },
    }
}

/// The result that stands for the execution of an action in the batch of
/// a step, so that an action that failed is recorded and the batch goes
/// on.
pub fn result_of_execution(outcome: Result<ActionResult, AppError>) -> (r: ActionResult)
    ensures
        r.deep_view() == batch_result(outcome),
{
    match outcome {
        Ok(result) => result,
        Err(e) => ActionResult::failure(e.message(), 0),
    }
}

/// The executor of actions: it validates, and decides after each attempt
/// whether to go on.
#[derive(Debug, Clone, PartialEq, Eq)]
pub struct ActionHandler {
    pub retry: RetryConfig,
}

impl ActionHandler {
    /// An executor with the default retry configuration.
    pub fn new() -> (r: Self)
        ensures
            r.retry.max_attempts == 3,
            r.retry.strategy == (RetryStrategy::ExponentialBackoff {
                initial_delay_ms: 1000,
                max_delay_ms: 10000,
                multiplier_permille: 2000,
            }),
            r.retry.retryable_errors@.len() == 0,
    {
        Self { retry: RetryConfig::default() }
    }

    /// This executor with `max_retries` retries after the first attempt.
    pub fn with_max_retries(self, max_retries: u32) -> (r: Self)
        ensures
            r.retry.max_attempts == (if max_retries == u32::MAX {
                u32::MAX
            } else {
                (max_retries + 1) as u32
            }),
            r.retry.strategy == self.retry.strategy,
            r.retry.retryable_errors == self.retry.retryable_errors,
    {
        Self {
            retry: RetryConfig {
                max_attempts: max_retries.saturating_add(1),
                strategy: self.retry.strategy,
                retryable_errors: self.retry.retryable_errors,
            },
        }
    }

    /// This executor with a fixed delay between attempts.
    pub fn with_retry_delay(self, delay_ms: u64) -> (r: Self)
        ensures
            r.retry.max_attempts == self.retry.max_attempts,
            r.retry.strategy == (RetryStrategy::FixedDelay { delay_ms }),
            r.retry.retryable_errors == self.retry.retryable_errors,
    {
        Self {
            retry: RetryConfig {
                max_attempts: self.retry.max_attempts,
                strategy: RetryStrategy::FixedDelay { delay_ms },
                retryable_errors: self.retry.retryable_errors,
            },
        }
    }

    /// The parameters of an operation in the form its action takes.
    pub fn convert_action_params(&self, action_type: &str, params: Params) -> (r: Result<
        Params,
        AppError,
    >)
        ensures
            match r {
                Ok(q) => adapted(action_type@, params@) == Ok::<
                    Map<Seq<char>, ParamView>,
                    Seq<char>,
                >(q@),
                Err(e) => e matches AppError::Unknown(text) && adapted(action_type@, params@)
                    == Err::<Map<Seq<char>, ParamView>, Seq<char>>(text@),
            },
    {
        if same_text(action_type, "tap") || same_text(action_type, "long_press") || same_text(
            action_type,
            "double_tap",
        ) {
            Ok(spread_point(params, "element", "x", "y"))
        } else if same_text(action_type, "swipe") {
            let a = spread_point(params, "start", "start_x", "start_y");
            let b = spread_point(a, "end", "end_x", "end_y");
            Ok(set_default(b, "duration_ms", ParamValue::Int(500)))
        } else if same_text(action_type, "launch") {
            let app: Option<Option<String>> = match params.get("app") {
                Some(ParamValue::Text(app)) => Some(Some(app.clone())),
                Some(_) => Some(None),
                None => None,
            };
            match app {
                Some(Some(name)) => match app_name_to_package(name.as_str()) {
                    Some(package) => {
                        let mut q = params.without("app");
                        q.insert("package".to_owned(), ParamValue::Text(package));
                        Ok(q)
                    },
                    None => Err(AppError::Unknown(concat2("无法识别的应用名称: ", name.as_str()))),
                },
                Some(None) => Ok(params.without("app")),
                None => Ok(params),
            }
        } else if same_text(action_type, "wait") {
            Ok(adapt_wait(params))
        } else {
            Ok(params)
        }
    }

    /// The action that a parsed operation stands for, ready to be
    /// executed: its parameters are adapted, the action is built and
    /// validated. A failure of any of the three is an error and final:
    /// nothing is retried.
    pub fn prepare_parsed_action(&self, parsed: &ParsedAction) -> (r: Result<ActionEnum, AppError>)
        ensures
            match r {
                Ok(a) => prepared(parsed.action_type@, parsed.parameters@) == Ok::<
                    crate::agent::engine::traits::ActionView,
                    Seq<char>,
                >(a@),
                Err(e) => e matches AppError::Unknown(text) && prepared(
                    parsed.action_type@,
                    parsed.parameters@,
                ) == Err::<crate::agent::engine::traits::ActionView, Seq<char>>(text@),
            },
    {
        let params = match self.convert_action_params(
            parsed.action_type.as_str(),
            parsed.parameters.copy(),
        ) {
            Ok(q) => q,
            Err(e) => {
                return Err(AppError::Unknown(concat2("参数转换失败: ", e.message().as_str())));
            },
        };
        let adapted_action = ParsedAction {
            action_type: parsed.action_type.clone(),
            parameters: params,
            reasoning: parsed.reasoning.clone(),
        };
        let action = match ActionEnum::from_parsed(adapted_action) {
            Some(a) => a,
            None => {
                return Err(
                    AppError::Unknown(
                        concat2("创建 Action 失败: 未知的操作类型或缺少参数: ", parsed.action_type.as_str()),
                    ),
                );
            },
        };
        match action.validate() {
            Ok(_) => Ok(action),
            Err(e) => Err(AppError::Unknown(concat2("操作验证失败: ", e.message().as_str()))),
        }
    }

    /// Checks an action before its first attempt: an action that
    /// validation refuses is not executed at all.
    pub fn check_before_execution(&self, action: &ActionEnum) -> (r: Result<(), AppError>)
        ensures
            match r {
                Ok(_) => fault_of(action@) is None,
                Err(e) => fault_of(action@) matches Some(fault) && e matches AppError::Unknown(
                    text,
                ) && text@ == "操作验证失败: "@ + fault.text(),
            },
    {
        match action.validate() {
            Ok(_) => Ok(()),
            Err(e) => Err(AppError::Unknown(concat2("操作验证失败: ", e.message().as_str()))),
        }
    }

    /// What follows the attempt with the index `attempt`, counted from 0.
    /// An attempt that gave a result with success ends the execution. Any
    /// other attempt has failed, with the device's error or with the
    /// message of its result: where the error is worth another attempt
    /// and attempts are left, the execution goes on after the delay of
    /// the policy; else it ends with the error of this attempt.
    pub fn after_attempt(&self, attempt: u32, outcome: &Result<ActionResult, AppError>) -> (r:
        AttemptVerdict)
        ensures
            succeeded(*outcome) ==> r == AttemptVerdict::Done,
            !succeeded(*outcome) ==> match after_failure(
                self.retry.max_attempts,
                self.retry.strategy,
                self.retry.retryable_errors.deep_view(),
                attempt,
                failure_text(*outcome),
            ) {
                AfterFailure::Retry { delay_ms } => r == (AttemptVerdict::Retry { delay_ms }),
                _ => r matches AttemptVerdict::Failed { error } && error.text() == failure_text(
                    *outcome,
                ),
            },
    {
        let error = match outcome {
            Ok(result) => {
                if result.success {
                    return AttemptVerdict::Done;
                }
                AppError::Unknown(result.message.clone())
            },
            Err(e) => e.copy(),
        };
        let message = error.message();
        match self.retry.on_failure(attempt, message.as_str()) {
            AfterFailure::Retry { delay_ms } => AttemptVerdict::Retry { delay_ms },
            _ => AttemptVerdict::Failed { error },
        }
    }
}

} // verus!
