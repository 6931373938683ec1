use scrcpy_rs::agent::context::memory::ShortTermMemory;
use scrcpy_rs::agent::engine::agent_group::{AgentGroup, AgentGroupConfig};
use scrcpy_rs::agent::executor::handler::ActionHandler;
use scrcpy_rs::agent::executor::retry::{AfterFailure, RetryConfig, RetryStrategy};
use scrcpy_rs::agent::llm::types::ModelConfig;

fn sleep_ms(ms: u64) {
    let runtime = tokio::runtime::Builder::new_current_thread().enable_time().build().unwrap();
    runtime.block_on(async { tokio::time::sleep(std::time::Duration::from_millis(ms)).await });
}

/// Runs `operation` under `config` as the executor does: after each
/// failure the configuration says whether to wait and try again.
fn execute<T>(config: &RetryConfig, mut operation: impl FnMut() -> Result<T, String>) -> Result<T, String> {
    let mut attempt: u32 = 0;
    loop {
        match operation() {
            Ok(v) => return Ok(v),
            Err(e) => match config.on_failure(attempt, &e) {
                AfterFailure::GiveUp => return Err(e),
                AfterFailure::Retry { delay_ms } => {
                    sleep_ms(delay_ms.unwrap_or(0));
                    attempt += 1;
                }
                AfterFailure::Exhausted { delay_ms } => {
                    sleep_ms(delay_ms.unwrap_or(0));
                    return Err(e);
                }
            },
        }
    }
}

#[test]
fn test_memory_set_get() {
    let mut memory = ShortTermMemory::new(60);

    memory.set("test_key".to_string(), "test_value".to_string());

    let value = memory.get("test_key");
    assert_eq!(value, Some("test_value".to_string()));
}

#[test]
fn test_memory_expiration() {
    let mut memory = ShortTermMemory::new(1);

    memory.set("expiring_key".to_string(), "value".to_string());

    sleep_ms(2000);

    let value = memory.get("expiring_key");
    assert_eq!(value, None);
}

#[test]
fn memory_is_cleaned_by_the_clock() {
    let mut memory = ShortTermMemory::new(3600);
    memory.set_with_ttl("short".to_string(), "a".to_string(), 0);
    memory.set_with_ttl("long".to_string(), "b".to_string(), 3600);
    memory.set("plain".to_string(), "c".to_string());
    sleep_ms(20);
    assert_eq!(
        memory.get_all(),
        vec![("long".to_string(), "b".to_string()), ("plain".to_string(), "c".to_string())]
    );
    assert_eq!(memory.entries.len(), 3);
    memory.cleanup_expired();
    assert_eq!(memory.entries.len(), 2);
    assert_eq!(memory.entries[0].key, "long");
    assert_eq!(memory.get("short"), None);
    assert_eq!(memory.get("long"), Some("b".to_string()));
}

#[test]
fn test_agent_group_creation() {
    let config = AgentGroupConfig::default();
    let model_config = ModelConfig::default();
    let group = AgentGroup::new(config, model_config);

    assert!(!group.id().is_empty());
    assert_eq!(group.active_agent_count(), 0);
}

#[test]
fn test_action_handler_creation() {
    let handler = ActionHandler::new();
    assert_eq!(handler.retry.max_attempts, 3);
}

#[test]
fn test_retry_config_execute() {
    let config = RetryConfig {
        max_attempts: 3,
        strategy: RetryStrategy::Immediate,
        retryable_errors: vec![],
    };

    let mut attempts: u32 = 0;

    let result = execute(&config, || {
        attempts += 1;
        if attempts < 3 {
            Err::<(), _>("error".to_string())
        } else {
            Ok(())
        }
    });

    assert!(result.is_ok());
    assert_eq!(attempts, 3);
}

#[test]
fn retries_end_with_the_last_error() {
    let config = RetryConfig { max_attempts: 3, strategy: RetryStrategy::Immediate, retryable_errors: vec![] };
    let mut attempts: u32 = 0;
    let result = execute(&config, || {
        attempts += 1;
        Err::<(), _>(format!("error {}", attempts))
    });
    assert_eq!(result, Err("error 3".to_string()));
    assert_eq!(attempts, 3);

    let picky = RetryConfig {
        max_attempts: 3,
        strategy: RetryStrategy::Immediate,
        retryable_errors: vec!["timeout".to_string()],
    };
    let mut tries: u32 = 0;
    let refused = execute(&picky, || {
        tries += 1;
        Err::<(), _>("refused".to_string())
    });
    assert_eq!(refused, Err("refused".to_string()));
    assert_eq!(tries, 1);
}
