use scrcpy_rs::agent::actions::base::ActionEnum;
use scrcpy_rs::agent::actions::touch::TapAction;
use scrcpy_rs::agent::engine::traits::{ActionResult, ParamValue, Params, ParsedAction};
use scrcpy_rs::agent::executor::handler::{result_of_execution, ActionHandler, AttemptVerdict};
use scrcpy_rs::agent::executor::retry::{mentions_lowered, AfterFailure, RetryConfig, RetryStrategy};
use scrcpy_rs::error::AppError;

fn params(entries: Vec<(&str, ParamValue)>) -> Params {
    let mut p = Params::new();
    for (k, v) in entries {
        p.insert(k.to_string(), v);
    }
    p
}

#[test]
fn test_convert_tap_params() {
    let handler = ActionHandler::new();
    let p = params(vec![("element", ParamValue::List(vec![Some(500), Some(800)]))]);
    let result = handler.convert_action_params("tap", p).unwrap();
    assert_eq!(result.get("x"), Some(&ParamValue::Int(500)));
    assert_eq!(result.get("y"), Some(&ParamValue::Int(800)));
    assert!(result.get("element").is_none());
}

#[test]
fn test_convert_swipe_params() {
    let handler = ActionHandler::new();
    let p = params(vec![
        ("start", ParamValue::List(vec![Some(100), Some(200)])),
        ("end", ParamValue::List(vec![Some(300), Some(400)])),
    ]);
    let result = handler.convert_action_params("swipe", p).unwrap();
    assert_eq!(result.get("start_x"), Some(&ParamValue::Int(100)));
    assert_eq!(result.get("start_y"), Some(&ParamValue::Int(200)));
    assert_eq!(result.get("end_x"), Some(&ParamValue::Int(300)));
    assert_eq!(result.get("end_y"), Some(&ParamValue::Int(400)));
    assert_eq!(result.get("duration_ms"), Some(&ParamValue::Int(500)));
}

#[test]
fn test_convert_launch_params() {
    let handler = ActionHandler::new();
    let p = params(vec![("app", ParamValue::Text("微信".to_string()))]);
    let result = handler.convert_action_params("launch", p).unwrap();
    assert_eq!(result.get("package"), Some(&ParamValue::Text("com.tencent.mm".to_string())));
    assert!(result.get("app").is_none());
}

#[test]
fn test_convert_type_params() {
    let handler = ActionHandler::new();
    let p = params(vec![("text", ParamValue::Text("Hello World".to_string()))]);
    let result = handler.convert_action_params("type", p).unwrap();
    assert_eq!(result.get("text"), Some(&ParamValue::Text("Hello World".to_string())));
}

#[test]
fn test_convert_wait_params() {
    let handler = ActionHandler::new();
    let p = params(vec![
        ("duration", ParamValue::Int(1)),
        ("message", ParamValue::Text("应用正在加载中，请稍等。".to_string())),
    ]);
    let result = handler.convert_action_params("wait", p).unwrap();
    assert_eq!(result.get("duration_ms"), Some(&ParamValue::Int(1000)));
    assert_eq!(
        result.get("reason"),
        Some(&ParamValue::Text("应用正在加载中，请稍等。".to_string()))
    );
    assert!(result.get("duration").is_none());
    assert!(result.get("message").is_none());
}

#[test]
fn test_convert_wait_params_with_string_duration() {
    let handler = ActionHandler::new();
    let p = params(vec![("duration", ParamValue::Text("2".to_string()))]);
    let result = handler.convert_action_params("wait", p).unwrap();
    assert_eq!(result.get("duration_ms"), Some(&ParamValue::Int(2000)));
}

#[test]
fn conversion_edge_cases() {
    let handler = ActionHandler::new();
    let r = handler.convert_action_params("launch", params(vec![("app", ParamValue::Text("zzz".into()))]));
    assert_eq!(r, Err(AppError::Unknown("无法识别的应用名称: zzz".to_string())));
    let r = handler
        .convert_action_params("wait", params(vec![("duration", ParamValue::Text("soon".into()))]))
        .unwrap();
    assert_eq!(r.get("duration_ms"), Some(&ParamValue::Int(1000)));
    let r = handler.convert_action_params("wait", params(vec![])).unwrap();
    assert_eq!(r.get("duration_ms"), Some(&ParamValue::Int(1000)));
    let r = handler
        .convert_action_params("wait", params(vec![("duration", ParamValue::Int(u64::MAX))]))
        .unwrap();
    assert_eq!(r.get("duration_ms"), Some(&ParamValue::Int(u64::MAX)));
    let r = handler
        .convert_action_params("double_tap", params(vec![("element", ParamValue::List(vec![Some(1)]))]))
        .unwrap();
    assert!(r.get("element").is_none());
    assert!(r.get("x").is_none());
    let r = handler
        .convert_action_params("back", params(vec![("element", ParamValue::List(vec![Some(1), Some(2)]))]))
        .unwrap();
    assert_eq!(r.get("element"), Some(&ParamValue::List(vec![Some(1), Some(2)])));
}

#[test]
fn parameters_behave_as_a_map() {
    let mut p = Params::new();
    assert!(p.get("a").is_none());
    p.insert("a".into(), ParamValue::Int(1));
    p.insert("b".into(), ParamValue::Bool(true));
    p.insert("a".into(), ParamValue::Other);
    assert_eq!(p.get("a"), Some(&ParamValue::Other));
    assert!(p.contains_key("b"));
    let q = p.without("a");
    assert!(!q.contains_key("a"));
    assert_eq!(q.get("b"), Some(&ParamValue::Bool(true)));
    assert_eq!(p.copy().get("a"), Some(&ParamValue::Other));
}

#[test]
fn test_exponential_backoff() {
    let strategy = RetryStrategy::exponential(1000, 10000, 2000);
    assert_eq!(strategy.next_delay(0), Some(1000));
    assert_eq!(strategy.next_delay(1), Some(2000));
    assert_eq!(strategy.next_delay(2), Some(4000));
    assert_eq!(strategy.next_delay(3), Some(8000));
    assert_eq!(strategy.next_delay(4), Some(10000));
}

#[test]
fn test_fixed_delay() {
    let strategy = RetryStrategy::fixed(2000);
    assert_eq!(strategy.next_delay(0), Some(2000));
    assert_eq!(strategy.next_delay(1), Some(2000));
    assert_eq!(strategy.next_delay(2), Some(2000));
}

#[test]
fn delays_of_every_policy() {
    assert_eq!(RetryStrategy::Immediate.next_delay(7), Some(0));
    assert_eq!(RetryStrategy::Never.next_delay(0), None);
    assert_eq!(RetryStrategy::default(), RetryStrategy::exponential(1000, 10000, 2000));
    let slow = RetryStrategy::exponential(3, u64::MAX, 1500);
    assert_eq!(slow.next_delay(1), Some(4));
    assert_eq!(slow.next_delay(2), Some(6));
    assert_eq!(slow.next_delay(3), Some(9));
    let shrinking = RetryStrategy::exponential(1000, 5000, 500);
    assert_eq!(shrinking.next_delay(3), Some(125));
    assert_eq!(shrinking.next_delay(u32::MAX), Some(0));
    let huge = RetryStrategy::exponential(u64::MAX, u64::MAX, u32::MAX);
    assert_eq!(huge.next_delay(u32::MAX), Some(u64::MAX));
    let stuck = RetryStrategy::exponential(1, 100, 1000);
    assert_eq!(stuck.next_delay(u32::MAX), Some(1));
}

#[test]
fn which_errors_are_retried() {
    let all = RetryConfig::new(3, RetryStrategy::Immediate);
    assert!(all.is_retryable("anything"));
    let some = RetryConfig::new(3, RetryStrategy::Immediate)
        .with_retryable_errors(vec!["Timeout".to_string(), "busy".to_string()]);
    assert!(some.is_retryable("connection timeout"));
    assert!(some.is_retryable("Device BUSY"));
    assert!(!some.is_retryable("permission denied"));
    assert_eq!(some.on_failure(0, "permission denied"), AfterFailure::GiveUp);
    assert_eq!(some.on_failure(0, "busy"), AfterFailure::Retry { delay_ms: Some(0) });
    assert_eq!(some.on_failure(1, "busy"), AfterFailure::Retry { delay_ms: Some(0) });
    assert_eq!(some.on_failure(2, "busy"), AfterFailure::Exhausted { delay_ms: Some(0) });
    assert_eq!(some.on_failure(u32::MAX, "busy"), AfterFailure::Exhausted { delay_ms: Some(0) });
    let d = RetryConfig::default();
    assert_eq!(d.max_attempts, 3);
    assert!(d.retryable_errors.is_empty());
}

#[test]
fn what_follows_an_attempt() {
    let handler = ActionHandler::new();
    let ok = Ok(ActionResult::success("fine".to_string(), 1));
    assert_eq!(handler.after_attempt(0, &ok), AttemptVerdict::Done);
    let soft = Ok(ActionResult::failure("nope".to_string(), 1));
    assert_eq!(handler.after_attempt(0, &soft), AttemptVerdict::Retry { delay_ms: Some(1000) });
    assert_eq!(handler.after_attempt(1, &soft), AttemptVerdict::Retry { delay_ms: Some(2000) });
    assert_eq!(
        handler.after_attempt(2, &soft),
        AttemptVerdict::Failed { error: AppError::Unknown("nope".to_string()) }
    );
    let hard: Result<ActionResult, AppError> = Err(AppError::AdbError("gone".to_string()));
    assert_eq!(
        handler.after_attempt(2, &hard),
        AttemptVerdict::Failed { error: AppError::AdbError("gone".to_string()) }
    );
    let one = ActionHandler::new().with_max_retries(0).with_retry_delay(5);
    assert_eq!(one.retry.max_attempts, 1);
    assert_eq!(one.retry.strategy, RetryStrategy::FixedDelay { delay_ms: 5 });
    assert_eq!(
        one.after_attempt(0, &hard),
        AttemptVerdict::Failed { error: AppError::AdbError("gone".to_string()) }
    );
    assert_eq!(ActionHandler::new().with_max_retries(u32::MAX).retry.max_attempts, u32::MAX);
}

#[test]
fn operations_are_prepared_or_refused() {
    let handler = ActionHandler::new();
    let op = |kind: &str, p: Params| ParsedAction {
        action_type: kind.to_string(),
        parameters: p,
        reasoning: String::new(),
    };
    let tap = handler
        .prepare_parsed_action(&op("tap", params(vec![("element", ParamValue::List(vec![Some(3), Some(4)]))])))
        .unwrap();
    assert_eq!(tap, ActionEnum::Tap(TapAction { x: 3, y: 4, description: None }));
    assert_eq!(
        handler.prepare_parsed_action(&op("launch", params(vec![("app", ParamValue::Text("zz".into()))]))),
        Err(AppError::Unknown("参数转换失败: 未知错误: 无法识别的应用名称: zz".to_string()))
    );
    assert_eq!(
        handler.prepare_parsed_action(&op("fly", params(vec![]))),
        Err(AppError::Unknown("创建 Action 失败: 未知的操作类型或缺少参数: fly".to_string()))
    );
    assert_eq!(
        handler
            .prepare_parsed_action(&op("tap", params(vec![("element", ParamValue::List(vec![Some(3), Some(40000)]))]))),
        Err(AppError::Unknown("操作验证失败: 坐标超出边界: (3, 40000)".to_string()))
    );
    let bad = ActionEnum::Tap(TapAction { x: 20000, y: 1, description: None });
    assert_eq!(
        handler.check_before_execution(&bad),
        Err(AppError::Unknown("操作验证失败: 坐标超出边界: (20000, 1)".to_string()))
    );
    let good = ActionEnum::Tap(TapAction { x: 2, y: 1, description: None });
    assert_eq!(handler.check_before_execution(&good), Ok(()));
}

#[test]
fn an_execution_that_failed_is_a_failed_result() {
    let done = ActionResult::success("ok".to_string(), 12);
    assert_eq!(result_of_execution(Ok(done.clone())), done);
    let failed = result_of_execution(Err(AppError::AdbError("no device".to_string())));
    assert!(!failed.success);
    assert_eq!(failed.message, AppError::AdbError("no device".to_string()).message());
    assert_eq!(failed.duration_ms, 0);
    assert_eq!(failed.screenshot_before, None);
    assert_eq!(failed.screenshot_after, None);
}

#[test]
fn patterns_are_found_as_written_or_lowered() {
    let c = |s: &str| s.chars().collect::<Vec<char>>();
    assert!(mentions_lowered(&c("Timeout!"), &c("Timeout"), &c("x"), &c("y")));
    assert!(mentions_lowered(&c("TIMEOUT!"), &c("Timeout"), &c("timeout!"), &c("timeout")));
    assert!(!mentions_lowered(&c("TIMEOUT!"), &c("Timeout"), &c("TIMEOUT!"), &c("Timeout")));
    assert!(!mentions_lowered(&c("refused"), &c("timeout"), &c("refused"), &c("timeout")));
}
