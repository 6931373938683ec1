use scrcpy_rs::agent::actions::base::ActionEnum;
use scrcpy_rs::agent::actions::system::{FinishAction, WaitAction};
use scrcpy_rs::agent::actions::touch::TapAction;
use scrcpy_rs::agent::context::conversation::MessageRole as LogRole;
use scrcpy_rs::agent::engine::agent::{
    batch_summary_of, log_line_of, result_summary_of, PhoneAgent, ResponseDecision, StepDecision,
    StopReason,
};
use scrcpy_rs::agent::engine::state::{AgentConfig, AgentRuntime, AgentState};
use scrcpy_rs::agent::engine::traits::{
    ActionResult, AgentError, AgentFeedback, AgentStatus, ChatMessage, MessageRole, ModelResponse,
};
use scrcpy_rs::agent::llm::client::model_response;
use scrcpy_rs::error::AppError;

fn agent(max_steps: usize) -> PhoneAgent {
    let mut config = AgentConfig::default();
    config.max_steps = max_steps;
    PhoneAgent::new("agent-1".to_string(), config)
}

fn empty_response() -> ModelResponse {
    model_response("I am thinking about it".to_string(), 0)
}

fn tap(x: u32) -> ActionEnum {
    ActionEnum::Tap(TapAction { x, y: 1, description: None })
}

#[test]
fn three_empty_responses_end_the_run_as_failed() {
    let mut a = agent(50);
    assert_eq!(a.start("task".to_string(), 1000), Ok("agent-1".to_string()));
    a.open_conversation("system".to_string(), "task");
    for step in 0..3 {
        assert_eq!(a.next_step(10), StepDecision::Capture);
        assert_eq!(a.runtime.state, AgentState::Analyzing { step });
        assert_eq!(a.on_response(&empty_response(), 20), ResponseDecision::Retry);
    }
    assert_eq!(a.next_step(30), StepDecision::Stop(StopReason::NoProgress));
    assert_eq!(
        a.runtime.state,
        AgentState::Failed { step: 3, error: "连续 3 次未返回有效操作，停止执行".to_string() }
    );
    assert_eq!(a.history().len(), 0);
    assert_eq!(a.messages.len(), 2 + 6);
    assert_eq!(a.messages[2].role, MessageRole::Assistant);
    assert_eq!(a.messages[2].content, "I am thinking about it");
    assert_eq!(a.messages[3].role, MessageRole::User);
    assert!(a.messages[3].content.starts_with("你的回复中没有包含 do(action=...) 格式的执行动作"));
    assert!(a.messages[3].content.ends_with("请重新分析屏幕并告诉我下一步操作。"));
    assert_eq!(
        a.status(),
        AgentStatus::Failed {
            task: "task".to_string(),
            error: "连续 3 次未返回有效操作，停止执行".to_string()
        }
    );
}

#[test]
fn an_action_resets_the_count_of_empty_responses() {
    let mut a = agent(50);
    a.start("t".to_string(), 0).unwrap();
    a.on_response(&empty_response(), 0);
    a.on_response(&empty_response(), 0);
    assert_eq!(a.no_action_count, 2);
    let r = model_response("do(action=\"Back\")".to_string(), 0);
    assert_eq!(a.on_response(&r, 0), ResponseDecision::Execute);
    assert_eq!(a.no_action_count, 0);
    assert_eq!(a.runtime.step_counter, 2);
}

#[test]
fn the_step_limit_ends_the_run_when_the_next_step_would_start() {
    let mut a = agent(2);
    a.start("t".to_string(), 0).unwrap();
    for step in 0..2 {
        assert_eq!(a.next_step(0), StepDecision::Capture);
        let actions = vec![tap(step)];
        let results = vec![ActionResult::success("ok".to_string(), 1)];
        a.record_batch(&actions, &results, "shot", "why", 5);
    }
    assert_eq!(a.next_step(0), StepDecision::Stop(StopReason::MaxSteps));
    assert_eq!(
        a.runtime.state,
        AgentState::Failed { step: 2, error: "超过最大步数限制: 2".to_string() }
    );
    assert_eq!(a.history().len(), 2);

    let mut none = agent(0);
    none.start("t".to_string(), 0).unwrap();
    assert_eq!(none.next_step(0), StepDecision::Stop(StopReason::MaxSteps));
}

#[test]
fn the_time_limit_ends_the_run() {
    let mut a = agent(50);
    a.start("t".to_string(), 0).unwrap();
    assert_eq!(a.next_step(300_000), StepDecision::Capture);
    assert_eq!(a.next_step(300_001), StepDecision::Stop(StopReason::Timeout));
    assert_eq!(
        a.runtime.state,
        AgentState::Failed { step: 0, error: "执行超时: 300001ms > 300000ms".to_string() }
    );
}

#[test]
fn bounds_are_checked_in_order() {
    let mut a = agent(1);
    a.start("t".to_string(), 0).unwrap();
    a.on_response(&empty_response(), 0);
    a.on_response(&empty_response(), 0);
    a.on_response(&empty_response(), 0);
    assert_eq!(a.next_step(u64::MAX), StepDecision::Stop(StopReason::MaxSteps));
    let mut b = agent(50);
    b.start("t".to_string(), 0).unwrap();
    b.no_action_count = 3;
    assert_eq!(b.next_step(u64::MAX), StepDecision::Stop(StopReason::NoProgress));
}

#[test]
fn a_batch_is_recorded_action_by_action() {
    let mut a = agent(50);
    a.start("t".to_string(), 0).unwrap();
    a.open_conversation("sys".to_string(), "t");
    a.on_response(&empty_response(), 0);
    assert_eq!(a.next_step(0), StepDecision::Capture);
    let actions = vec![tap(1), tap(2), ActionEnum::Wait(WaitAction { duration_ms: 5, reason: None })];
    let results = vec![
        ActionResult::success("点击 (1, 1)".to_string(), 11),
        ActionResult::failure("broken".to_string(), 22),
        ActionResult::success("等待 5ms".to_string(), 5),
    ];
    a.record_batch(&actions, &results, "img", "because", 777);
    let history = a.history();
    assert_eq!(history.len(), 3);
    for (i, step) in history.iter().enumerate() {
        assert_eq!(step.step_number, 1);
        assert_eq!(step.action_type, actions[i].action_type());
        assert_eq!(step.action_description, actions[i].description());
        assert_eq!(step.result, results[i]);
        assert_eq!(step.timestamp, 777);
        assert_eq!(step.screenshot, "img");
        assert_eq!(step.reasoning, "because");
    }
    assert_eq!(a.runtime.step_counter, 2);
    assert_eq!(a.runtime.state, AgentState::Executing { step: 1, action: "wait".to_string() });
    let n = a.messages.len();
    assert_eq!(
        a.messages[n - 2],
        ChatMessage {
            role: MessageRole::Assistant,
            content: "我决定执行 3 个操作:\n点击 (1, 1) (tap)\n点击 (2, 1) (tap)\n等待 5ms (wait)\n思考: because"
                .to_string()
        }
    );
    assert_eq!(
        a.messages[n - 1],
        ChatMessage {
            role: MessageRole::User,
            content: "操作结果（步骤 1）:\n- 操作 #1: tap (点击 (1, 1))\n  状态: 成功\n  详情: 点击 (1, 1)\n  耗时: 11ms\n- 操作 #2: tap (点击 (2, 1))\n  状态: 失败\n  错误: broken\n  耗时: 22ms\n- 操作 #3: wait (等待 5ms)\n  状态: 成功\n  详情: 等待 5ms\n  耗时: 5ms\n\n请分析当前屏幕并决定下一步操作。"
                .to_string()
        }
    );
    let log = a.conversation.get_messages();
    assert_eq!(log.len(), 3);
    assert_eq!(log[1].role, LogRole::Assistant);
    assert_eq!(log[1].content, "执行操作: tap - 失败 (broken)");
    assert_eq!(log[1].screenshot, Some("img".to_string()));
    assert_eq!(log[1].timestamp, 777);
    assert_eq!(batch_summary_of(&vec![], "r"), "我决定执行 0 个操作:\n\n思考: r");
    assert_eq!(
        result_summary_of(0, &vec![], &vec![]),
        "操作结果（步骤 0）:\n\n\n请分析当前屏幕并决定下一步操作。"
    );
    assert_eq!(log_line_of(&actions[0], &results[0]), "执行操作: tap - 成功 (点击 (1, 1))");
}

#[test]
fn a_finish_completes_the_run_without_executing() {
    let mut a = agent(50);
    a.start("t".to_string(), 100).unwrap();
    a.next_step(0);
    let r = model_response(
        "<thinking>all done</thinking>\ndo(action=\"Back\")\nfinish(message=\"ok\")".to_string(),
        7,
    );
    assert_eq!(r.actions, vec![ActionEnum::Finish(FinishAction { result: "ok".into(), success: true })]);
    assert_eq!(a.on_response(&r, 4321), ResponseDecision::Finished);
    assert_eq!(a.runtime.state, AgentState::Completed { steps: 0, duration_ms: 4321 });
    assert_eq!(a.history().len(), 0);
    let last = a.messages.last().unwrap();
    assert_eq!(last.role, MessageRole::Assistant);
    assert_eq!(
        last.content,
        "任务完成。<thinking>all done</thinking>\ndo(action=\"Back\")\nfinish(message=\"ok\")\n思考过程: all done"
    );
    assert_eq!(
        a.status(),
        AgentStatus::Completed { task: "t".to_string(), steps: 0, duration_ms: 4321 }
    );
}

#[test]
fn starting_stopping_pausing_and_resuming() {
    let mut a = agent(50);
    assert_eq!(a.id(), "agent-1");
    assert_eq!(a.status(), AgentStatus::Idle);
    assert_eq!(a.pause(), Err(AppError::AgentError(AgentError::NotRunning)));
    assert_eq!(
        a.resume(),
        Err(AppError::AgentError(AgentError::InvalidStateTransition(
            "NotPaused".to_string(),
            "Running".to_string()
        )))
    );
    a.start("first".to_string(), 5).unwrap();
    assert_eq!(a.runtime.state, AgentState::Initializing);
    assert_eq!(a.status(), AgentStatus::Running { task: "first".to_string(), step: 0 });
    assert_eq!(a.start("again".to_string(), 6), Err(AppError::AgentError(AgentError::AlreadyRunning)));
    assert_eq!(a.runtime.current_task, Some("first".to_string()));
    a.next_step(0);
    assert_eq!(a.pause(), Ok(()));
    assert_eq!(a.runtime.state, AgentState::Paused { step: 0 });
    assert_eq!(a.next_step(u64::MAX), StepDecision::Hold);
    assert_eq!(a.runtime.state, AgentState::Paused { step: 0 });
    assert_eq!(a.status(), AgentStatus::Paused { task: "first".to_string(), step: 0 });
    assert_eq!(a.start("again".to_string(), 6), Err(AppError::AgentError(AgentError::AlreadyRunning)));
    assert_eq!(a.resume(), Ok(()));
    assert_eq!(a.runtime.state, AgentState::Analyzing { step: 0 });
    a.record_batch(&vec![tap(1)], &vec![ActionResult::success("x".into(), 1)], "s", "r", 1);
    a.screenshot_failed("no device");
    assert_eq!(
        a.runtime.state,
        AgentState::Failed { step: 1, error: "截图失败: no device".to_string() }
    );
    assert_eq!(a.start("second".to_string(), 9), Ok("agent-1".to_string()));
    assert_eq!(a.runtime.step_counter, 0);
    assert_eq!(a.history().len(), 0);
    assert_eq!(a.runtime.start_time, Some(9));
    a.model_failed("timeout");
    assert_eq!(
        a.runtime.state,
        AgentState::Failed { step: 0, error: "LLM 查询失败: timeout".to_string() }
    );
    assert_eq!(a.next_step(0), StepDecision::Ended);
    a.stop();
    assert_eq!(a.status(), AgentStatus::Idle);
    assert_eq!(a.runtime.current_task, None);
    assert_eq!(a.next_step(0), StepDecision::Ended);
    assert_eq!(a.status(), AgentStatus::Idle);
}

#[test]
fn feedback_with_a_correction_becomes_a_user_message() {
    let mut a = agent(50);
    a.feedback(AgentFeedback::Positive);
    a.feedback(AgentFeedback::Negative { reason: "bad".to_string() });
    assert!(a.messages.is_empty());
    a.feedback(AgentFeedback::Correction { correct_action: "do(action=\"Back\")".to_string() });
    assert_eq!(
        a.messages,
        vec![ChatMessage {
            role: MessageRole::User,
            content: "请调整操作，正确的操作是: do(action=\"Back\")".to_string()
        }]
    );
}

#[test]
fn the_conversation_opens_with_prompt_and_task() {
    let mut a = agent(50);
    a.open_conversation("be helpful".to_string(), "open the settings");
    assert_eq!(a.messages.len(), 2);
    assert_eq!(a.messages[0], ChatMessage { role: MessageRole::System, content: "be helpful".into() });
    assert_eq!(a.messages[1].role, MessageRole::User);
    assert_eq!(
        a.messages[1].content,
        "任务: open the settings\n\n 请分析当前屏幕并决定 需要怎么操作。告诉我的操作尽量简洁 并且需要严格按照do(action= 格式回复 否则我无法解析"
    );
    a.add_assistant_message("x".to_string());
    a.initialize_messages("new".to_string());
    assert_eq!(a.messages.len(), 1);
}

#[test]
fn the_runtime_counts_steps_and_time() {
    let mut r = AgentRuntime::new(AgentConfig::default());
    assert_eq!(r.elapsed_ms(100), 0);
    r.start_time = Some(1000);
    assert_eq!(r.elapsed_ms(1500), 500);
    assert_eq!(r.elapsed_ms(900), 0);
    r.start_time = Some(i64::MIN);
    assert_eq!(r.elapsed_ms(i64::MAX), u64::MAX);
    assert_eq!(r.increment_step(), 1);
    assert_eq!(r.current_step(), 1);
    r.step_counter = usize::MAX;
    assert_eq!(r.increment_step(), usize::MAX);
    r.reset();
    assert_eq!(r.current_step(), 0);
    assert_eq!(r.state, AgentState::Idle);
    let c = AgentConfig::default();
    assert_eq!((c.max_steps, c.max_execution_time, c.action_delay), (50, 300, 1000));
    assert_eq!((c.screenshot_quality, c.max_retries), (80, 3));
    assert_eq!(c.log_file, "logs/agent.log");
    assert_eq!(c.copy(), c);
}

#[test]
fn a_pause_taken_while_a_batch_runs_holds_the_next_step() {
    let mut a = agent(50);
    a.start("task".to_string(), 0).unwrap();
    assert_eq!(a.next_step(10), StepDecision::Capture);
    assert_eq!(a.pause(), Ok(()));
    a.record_batch(&vec![tap(1)], &vec![ActionResult::success("ok".into(), 3)], "shot", "why", 20);
    assert_eq!(a.runtime.state, AgentState::Paused { step: 0 });
    assert_eq!(a.runtime.execution_history.len(), 1);
    assert_eq!(a.runtime.step_counter, 1);
    assert_eq!(a.messages.len(), 2);
    assert_eq!(a.next_step(30), StepDecision::Hold);
    assert_eq!(a.resume(), Ok(()));
    assert_eq!(a.next_step(40), StepDecision::Capture);
    assert_eq!(a.runtime.state, AgentState::Analyzing { step: 1 });
}

#[test]
fn a_batch_recorded_after_a_stop_leaves_the_agent_idle() {
    let mut a = agent(50);
    a.start("task".to_string(), 0).unwrap();
    assert_eq!(a.next_step(10), StepDecision::Capture);
    a.stop();
    a.record_batch(&vec![tap(1)], &vec![ActionResult::success("ok".into(), 3)], "shot", "why", 20);
    assert_eq!(a.runtime.state, AgentState::Idle);
    assert_eq!(a.next_step(30), StepDecision::Ended);
    let mut b = agent(50);
    b.start("task".to_string(), 0).unwrap();
    b.record_batch(&vec![tap(1), tap(2)], &vec![ActionResult::success("ok".into(), 3), ActionResult::failure("no".into(), 4)], "shot", "why", 20);
    assert_eq!(b.runtime.state, AgentState::Executing { step: 0, action: "tap".to_string() });
}
