use scrcpy_rs::agent::api::socketio::AgentStartRequest;
use scrcpy_rs::agent::context::conversation::{ConversationContext, MessageRole};
use scrcpy_rs::agent::context::memory::{MemoryEntry, ShortTermMemory};
use scrcpy_rs::agent::engine::agent_group::{AgentGroup, AgentGroupConfig, AgentGroupEvent};
use scrcpy_rs::agent::engine::state::{AgentConfig, AgentState};
use scrcpy_rs::agent::engine::traits::{AgentError, ModelError};
use scrcpy_rs::agent::llm::types::ModelConfig;
use scrcpy_rs::agent::logger::{screenshot_bytes, AgentLogger};
use scrcpy_rs::api::api::{
    already_connected, connected, device_status, devices_response, directory_index, disconnect,
    get_mime_type, mime_type_of_lowered, web_asset_path, DeviceInfo, GREETING,
};
use scrcpy_rs::context::context::ScrcpyServer;
use scrcpy_rs::error::AppError;
use scrcpy_rs::logger::{DeviceLogger, LogLevel};
use scrcpy_rs::agent::actions::parse::matches_of;
use scrcpy_rs::agent::engine::traits::ParamValue;
use scrcpy_rs::agent::executor::device_wrapper::check_screenshot;
use scrcpy_rs::agent::llm::parser::{try_parse_do_action, try_parse_json_action};
use scrcpy_rs::agent::llm::prompts::get_main_system_prompt;
use scrcpy_rs::agent::pool::device_entry::DeviceEntry;
use scrcpy_rs::scrcpy::scrcpy::{device_name_from, device_name_of};
use scrcpy_rs::scrcpy::scrcpy::ScrcpyConnect;
use scrcpy_rs::text::{
    chars_of, char_is_space, concat2, concat3, contains, decimal_string, ends_with, find_from,
    parse_u32, parse_u64, same_text, trim_bounds, trim_char_bounds,
};

#[test]
fn the_log_keeps_the_newest_messages() {
    let mut c = ConversationContext::new(2);
    c.add_message(MessageRole::User, "one".to_string(), None, 1);
    c.add_message(MessageRole::Assistant, "two".to_string(), Some("img".to_string()), 2);
    c.add_message(MessageRole::System, "three".to_string(), None, 3);
    assert_eq!(c.len(), 2);
    let all = c.get_messages();
    assert_eq!(all[0].content, "two");
    assert_eq!(all[1].content, "three");
    assert_eq!(all[0].screenshot, Some("img".to_string()));
    assert_eq!(all[1].timestamp, 3);
    assert_eq!(c.get_recent_messages(1).len(), 1);
    assert_eq!(c.get_recent_messages(1)[0].content, "three");
    assert_eq!(c.get_recent_messages(5).len(), 2);
    assert_eq!(c.get_recent_messages(0).len(), 0);
    assert_eq!(c.build_prompt("go"), "任务: go\n\n历史对话:\n助手: two\n系统: three\n\n");
    c.clear();
    assert_eq!(c.build_prompt("go"), "任务: go\n\n");
    let mut none = ConversationContext::new(0);
    none.add_message(MessageRole::User, "x".to_string(), None, 1);
    assert_eq!(none.len(), 0);
    assert_eq!(ConversationContext::default().max_messages, 50);
    let mut many = ConversationContext::default();
    for i in 0..12 {
        many.add_message(MessageRole::User, format!("m{}", i), None, i);
    }
    let prompt = many.build_prompt("t");
    assert!(prompt.contains("用户: m2\n"));
    assert!(!prompt.contains("用户: m1\n"));
    assert!(prompt.ends_with("用户: m11\n\n"));
}

#[test]
fn memory_values_expire() {
    let mut m = ShortTermMemory::new(60);
    m.set_at("test_key".to_string(), "test_value".to_string(), 1_000);
    assert_eq!(m.get_at("test_key", 1_000), Some("test_value".to_string()));
    assert_eq!(m.get_at("test_key", 61_000), Some("test_value".to_string()));
    assert_eq!(m.get_at("test_key", 61_001), None);
    assert_eq!(m.get_at("other", 0), None);
    m.set_with_ttl_at("short".to_string(), "v".to_string(), 1, 0);
    m.set_at("test_key".to_string(), "newer".to_string(), 2_000);
    assert_eq!(m.entries.len(), 2);
    assert_eq!(m.get_at("test_key", 2_000), Some("newer".to_string()));
    assert_eq!(
        m.get_all_at(500),
        vec![("short".to_string(), "v".to_string()), ("test_key".to_string(), "newer".to_string())]
    );
    assert_eq!(m.get_all_at(1_001), vec![("test_key".to_string(), "newer".to_string())]);
    m.cleanup_expired_at(1_001);
    assert_eq!(m.entries.len(), 1);
    m.remove("test_key");
    assert!(m.entries.is_empty());
    m.set_with_ttl_at("far".to_string(), "v".to_string(), u64::MAX, i64::MAX);
    assert_eq!(m.entries[0].expires_at, Some(i64::MAX));
    assert_eq!(m.get_at("far", i64::MAX), Some("v".to_string()));
    m.clear();
    assert!(m.entries.is_empty());
    m.set("now".to_string(), "v".to_string());
    assert_eq!(m.entries[0].key, "now");
    assert!(!m.entries[0].is_expired());
    let forever = MemoryEntry { key: "k".into(), value: "v".into(), timestamp: 0, expires_at: None };
    assert!(!forever.is_expired_at(i64::MAX));
    assert!(!forever.is_expired());
    assert_eq!(ShortTermMemory::default().default_ttl_seconds, 3600);
}

#[test]
fn the_registry_of_endpoints() {
    let mut s = ScrcpyServer::new();
    assert!(!s.is_device_connected("A"));
    s.add_device("A".to_string(), ScrcpyConnect::new(1, 2));
    s.add_device("B".to_string(), ScrcpyConnect::new(3, 4));
    s.add_device("A".to_string(), ScrcpyConnect::new(5, 6));
    assert_eq!(s.get_device_connect("A"), Some(ScrcpyConnect::new(5, 6)));
    assert_eq!(s.get_device_connect("B").unwrap().get_port(), 3);
    s.remove_device("A");
    assert!(!s.is_device_connected("A"));
    assert!(s.is_device_connected("B"));
    assert_eq!(ScrcpyServer::default(), ScrcpyServer::new());
}

#[test]
fn answers_of_the_control_surface() {
    let mut s = ScrcpyServer::new();
    assert!(already_connected(&s, "A").is_none());
    let r = connected(&mut s, "A", ScrcpyConnect::new(4100, 27183));
    assert!(r.success);
    assert_eq!(r.message, "设备 A 连接成功");
    assert_eq!(r.data.unwrap().socketio_port, 4100);
    let r = already_connected(&s, "A").unwrap();
    assert_eq!(r.message, "设备 A 已连接");
    assert_eq!(r.data.unwrap().socketio_port, 4100);
    let (code, r) = device_status(&s, "A");
    assert_eq!(code, 200);
    assert_eq!(r.message, "获取设备状态成功");
    assert_eq!(r.data, Some(DeviceInfo { serial: "A".to_string(), status: "connected".to_string() }));
    let (code, r) = device_status(&s, "B");
    assert_eq!((code, r.success, r.message.as_str()), (404, false, "设备 B 未找到"));
    assert!(r.data.is_none());
    let (code, r) = disconnect(&mut s, "B");
    assert_eq!((code, r.success, r.message.as_str()), (400, false, "设备 B 未连接"));
    let (code, r) = disconnect(&mut s, "A");
    assert_eq!((code, r.success, r.message.as_str()), (200, true, "设备 A 断开连接成功"));
    assert_eq!(r.data, Some("A".to_string()));
    assert!(!s.is_device_connected("A"));
    let list = devices_response(vec![DeviceInfo { serial: "x".into(), status: "device".into() }]);
    assert_eq!(list.count, 1);
    assert_eq!(GREETING, "你好，欢迎使用 Axum Scrcpy API！");
    assert_eq!(AppError::DeviceNotFound("a".into()).status_code(), 404);
    assert_eq!(AppError::DeviceAlreadyConnected("a".into()).status_code(), 409);
    assert_eq!(AppError::DeviceNotConnected("a".into()).status_code(), 400);
    assert_eq!(AppError::AdbError("a".into()).status_code(), 500);
    assert_eq!(AppError::ScrcpyError("a".into()).status_code(), 500);
    assert_eq!(AppError::IoError("a".into()).status_code(), 500);
    assert_eq!(AppError::JsonError("a".into()).status_code(), 400);
    assert_eq!(AppError::Unknown("a".into()).status_code(), 500);
    assert_eq!(AppError::AgentError(AgentError::NotRunning).status_code(), 500);
    assert_eq!(AppError::ModelError(ModelError::Timeout).status_code(), 500);
}

#[test]
fn files_of_the_web_bundle() {
    assert_eq!(get_mime_type("index.HTML"), "text/html");
    assert_eq!(get_mime_type("a.htm"), "text/html");
    assert_eq!(get_mime_type("a.css"), "text/css");
    assert_eq!(get_mime_type("a.js"), "application/javascript");
    assert_eq!(get_mime_type("a.json"), "application/json");
    assert_eq!(get_mime_type("a.png"), "image/png");
    assert_eq!(get_mime_type("a.jpeg"), "image/jpeg");
    assert_eq!(get_mime_type("a.jpg"), "image/jpeg");
    assert_eq!(get_mime_type("a.gif"), "image/gif");
    assert_eq!(get_mime_type("a.svg"), "image/svg+xml");
    assert_eq!(get_mime_type("a.ico"), "image/x-icon");
    assert_eq!(get_mime_type("a.woff"), "font/woff");
    assert_eq!(get_mime_type("a.woff2"), "font/woff2");
    assert_eq!(get_mime_type("a.ttf"), "font/ttf");
    assert_eq!(get_mime_type("a.eot"), "application/vnd.ms-fontobject");
    assert_eq!(get_mime_type("a.mp4"), "video/mp4");
    assert_eq!(get_mime_type("a.webm"), "video/webm");
    assert_eq!(get_mime_type("a.mp3"), "audio/mpeg");
    assert_eq!(get_mime_type("a.wav"), "audio/wav");
    assert_eq!(get_mime_type("a.pdf"), "application/pdf");
    assert_eq!(get_mime_type("a.zip"), "application/zip");
    assert_eq!(get_mime_type("a.bin"), "application/octet-stream");
    assert_eq!(get_mime_type("html"), "application/octet-stream");
    assert_eq!(web_asset_path(""), "index.html");
    assert_eq!(web_asset_path("/"), "index.html");
    assert_eq!(web_asset_path("//js/app.js"), "js/app.js");
    assert_eq!(web_asset_path("docs"), "docs");
    assert_eq!(directory_index("docs"), Some("docs/index.html".to_string()));
    assert_eq!(directory_index("a.b"), None);
}

#[test]
fn error_texts() {
    assert_eq!(AppError::DeviceNotFound("a".into()).message(), "设备未找到: a");
    assert_eq!(AppError::DeviceAlreadyConnected("a".into()).message(), "设备已连接: a");
    assert_eq!(AppError::DeviceNotConnected("a".into()).message(), "设备未连接: a");
    assert_eq!(AppError::AdbError("a".into()).message(), "ADB 错误: a");
    assert_eq!(AppError::ScrcpyError("a".into()).message(), "Scrcpy 错误: a");
    assert_eq!(AppError::IoError("a".into()).message(), "IO 错误: a");
    assert_eq!(AppError::JsonError("a".into()).message(), "JSON 错误: a");
    assert_eq!(AppError::Unknown("a".into()).message(), "未知错误: a");
    assert_eq!(AppError::ModelError(ModelError::Timeout).message(), "超时");
    let agent = |e: AgentError| AppError::AgentError(e).message();
    assert_eq!(agent(AgentError::NotFound("a".into())), "Agent 未找到: a");
    assert_eq!(agent(AgentError::DeviceNotFound("a".into())), "设备未找到: a");
    assert_eq!(agent(AgentError::ValidationError("a".into())), "验证错误: a");
    assert_eq!(agent(AgentError::ConnectionError("a".into())), "连接错误: a");
    assert_eq!(agent(AgentError::TimeoutError("a".into())), "超时错误: a");
    assert_eq!(agent(AgentError::AlreadyRunning), "Agent 已在运行");
    assert_eq!(agent(AgentError::NotRunning), "Agent 未运行");
    assert_eq!(agent(AgentError::MaxStepsExceeded(50)), "超过最大步数: 50");
    assert_eq!(agent(AgentError::ExecutionTimeout(300)), "执行超时: 300 秒");
    assert_eq!(agent(AgentError::TaskFailed("a".into())), "任务失败: a");
    assert_eq!(
        agent(AgentError::InvalidStateTransition("A".into(), "B".into())),
        "无效的状态转换: 从 A 到 B"
    );
    assert_eq!(agent(AgentError::RecoveryFailed("a".into())), "恢复失败: a");
    let e = AppError::AgentError(AgentError::InvalidStateTransition("A".into(), "B".into()));
    assert_eq!(e.copy(), e);
}

#[test]
fn logs_and_their_files() {
    let mut log = AgentLogger::new("ag", "logs/agent");
    assert_eq!(log.log_file_path("2024-05-06"), "logs/agent/agent_ag_2024-05-06.jsonl");
    assert_eq!(log.screenshots_dir(), "logs/agent/screenshots");
    assert_eq!(
        log.screenshot_file_path("20240506_010203_004"),
        "logs/agent/screenshots/ag_step_20240506_010203_004.png"
    );
    assert_eq!(log.task_id_at(1700000000), "ag_1700000000");
    log.set_task_id("t".to_string());
    assert_eq!(log.current_task_id, Some("t".to_string()));
    log.clear_task_id();
    assert_eq!(log.current_task_id, None);
    assert_eq!(screenshot_bytes("aGk="), Ok(b"hi".to_vec()));
    assert_eq!(screenshot_bytes("data:image/png;base64,aGk="), Ok(b"hi".to_vec()));
    assert_eq!(
        screenshot_bytes("data:image/png;base64,data:image/png;base64,aGk="),
        Ok(b"hi".to_vec())
    );
    assert_eq!(screenshot_bytes("not base64!"), Err("Base64 解码失败".to_string()));
    assert_eq!(screenshot_bytes(""), Ok(vec![]));
    let d = DeviceLogger::new("SER");
    assert_eq!(d.log_path, "logs/ws_SER.log");
    assert_eq!(d.info("12:00", "hello"), "12:00 [SER] INFO  hello\n");
    assert_eq!(d.warn("12:00", "hello"), "12:00 [SER] WARN  hello\n");
    assert_eq!(d.error("12:00", "hello"), "12:00 [SER] ERROR hello\n");
    assert_eq!(d.debug("12:00", "hello"), "12:00 [SER] DEBUG hello\n");
    assert_eq!(d.line("t", LogLevel::Info, ""), "t [SER] INFO  \n");
    let r = AgentStartRequest { device_serial: "S".into(), task: "t".into() };
    assert!(r.is_complete());
    assert!(!AgentStartRequest { device_serial: "".into(), task: "t".into() }.is_complete());
}

#[test]
fn a_group_of_agents() {
    let mut g = AgentGroup::new(AgentGroupConfig::default(), ModelConfig::default());
    assert!(!g.id().is_empty());
    assert_eq!(g.active_agent_count(), 0);
    assert_eq!(
        g.create_agent_with_id("S", AgentConfig::default(), "a1".to_string()),
        Err(AppError::DeviceNotFound("S".to_string()))
    );
    g.register_device("S".to_string());
    g.register_device("S".to_string());
    g.register_device("T".to_string());
    assert_eq!(g.get_devices(), vec!["S".to_string(), "T".to_string()]);
    assert_eq!(g.create_agent_with_id("S", AgentConfig::default(), "a1".to_string()), Ok("a1".to_string()));
    assert_eq!(g.get_agent("a1"), Some(0));
    assert_eq!(g.get_agent("zz"), None);
    assert_eq!(
        g.start_agent("zz", "t".to_string(), 1),
        Err(AppError::AgentError(AgentError::NotFound("zz".to_string())))
    );
    assert_eq!(g.start_agent("a1", "t".to_string(), 1), Ok(()));
    assert_eq!(g.agents[0].runtime.state, AgentState::Initializing);
    assert_eq!(g.active_agent_count(), 1);
    assert_eq!(
        g.start_agent("a1", "t".to_string(), 1),
        Err(AppError::AgentError(AgentError::AlreadyRunning))
    );
    assert_eq!(g.stop_agent("a1"), Ok(()));
    assert_eq!(g.active_agent_count(), 0);
    assert_eq!(
        g.stop_agent("zz"),
        Err(AppError::AgentError(AgentError::NotFound("zz".to_string())))
    );
    assert_eq!(
        g.events,
        vec![
            AgentGroupEvent::AgentCreated { agent_id: "a1".into(), device_serial: "S".into() },
            AgentGroupEvent::AgentStarted { agent_id: "a1".into(), task: "t".into() },
            AgentGroupEvent::AgentStopped { agent_id: "a1".into() },
        ]
    );
    let ids = g.broadcast_task("all".to_string(), 5);
    assert_eq!(ids.len(), 2);
    assert_eq!(
        g.events[3..],
        [
            AgentGroupEvent::AgentCreated { agent_id: ids[0].clone(), device_serial: "S".into() },
            AgentGroupEvent::AgentStarted { agent_id: ids[0].clone(), task: "all".into() },
            AgentGroupEvent::AgentCreated { agent_id: ids[1].clone(), device_serial: "T".into() },
            AgentGroupEvent::AgentStarted { agent_id: ids[1].clone(), task: "all".into() },
        ]
    );
    assert_eq!(g.list_agents().len(), 3);
    assert_eq!(g.active_agent_count(), 2);
    assert_eq!(g.list_agents()[1], ids[0]);
    g.remove_agent(&ids[0]);
    g.remove_agent("zz");
    assert_eq!(g.list_agents(), vec!["a1".to_string(), ids[1].clone()]);
    g.unregister_device("S");
    assert_eq!(g.get_devices(), vec!["T".to_string()]);
    assert!(g.has_device("T"));
    let id = g.create_agent("T", AgentConfig::default()).unwrap();
    assert_eq!(id.len(), 36);
    let c = AgentGroupConfig::default();
    assert_eq!((c.max_concurrent_agents, c.task_queue_size, c.enable_event_broadcast), (5, 100, true));
}

#[test]
fn an_identifier_names_one_agent_of_a_group() {
    let mut g = AgentGroup::with_id("g".to_string(), AgentGroupConfig::default(), ModelConfig::default());
    g.register_device("S".to_string());
    g.register_device("T".to_string());
    g.create_agent_with_id("S", AgentConfig::default(), "a".to_string()).unwrap();
    g.create_agent_with_id("T", AgentConfig::default(), "b".to_string()).unwrap();
    g.start_agent("a", "first".to_string(), 1).unwrap();
    assert_eq!(g.agents[0].runtime.state, AgentState::Initializing);
    let mut other = AgentConfig::default();
    other.max_steps = 7;
    assert_eq!(g.create_agent_with_id("T", other.clone(), "a".to_string()), Ok("a".to_string()));
    assert_eq!(g.list_agents(), vec!["a".to_string(), "b".to_string()]);
    assert_eq!(g.agents[0].runtime.state, AgentState::Idle);
    assert_eq!(g.agents[0].runtime.config, other);
    assert_eq!(g.agents[1].runtime.config, AgentConfig::default());
    assert_eq!(g.events.len(), 4);
    assert_eq!(g.start_agent("a", "second".to_string(), 2), Ok(()));
    assert_eq!(g.agents[0].runtime.current_task, Some("second".to_string()));
    let ids = g.broadcast_task("all".to_string(), 3);
    assert_eq!(ids.len(), 2);
    assert_eq!(g.list_agents().len(), 4);
    for id in &ids {
        let at = g.get_agent(id).unwrap();
        assert_eq!(g.agents[at].runtime.state, AgentState::Initializing);
        assert_eq!(g.agents[at].runtime.current_task, Some("all".to_string()));
    }
    assert_eq!(g.agents[0].runtime.current_task, Some("second".to_string()));
    g.unregister_device("S");
    g.unregister_device("S");
    assert_eq!(g.get_devices(), vec!["T".to_string()]);
}

#[test]
fn calls_into_other_crates() {
    let ms = matches_of(r"(\w+)=(\d+)?", "a=1 b= c=22");
    assert_eq!(
        ms,
        vec![
            vec![Some("a=1".to_string()), Some("a".to_string()), Some("1".to_string())],
            vec![Some("b=".to_string()), Some("b".to_string()), None],
            vec![Some("c=22".to_string()), Some("c".to_string()), Some("22".to_string())],
        ]
    );
    assert_eq!(matches_of("(", "x"), Vec::<Vec<Option<String>>>::new());
    assert_eq!(matches_of("z", "x"), Vec::<Vec<Option<String>>>::new());
    assert_eq!(check_screenshot(Ok(true), &[0, 255, 16]), Ok("AP8Q".to_string()));
    assert_eq!(check_screenshot(Ok(true), &[]), Ok(String::new()));
    assert_eq!(screenshot_bytes("AP8Q"), Ok(vec![0, 255, 16]));
    assert!(screenshot_bytes("AP8").is_err());
    assert!(screenshot_bytes("%%").is_err());
    assert_eq!(device_name_of("héllo".as_bytes()), "héllo");
    assert_eq!(device_name_of(&[b'a', 0x80, b'b']), "a\u{fffd}b");
    assert_eq!(device_name_from("test-device\0\0\0"), "test-device");
    assert_eq!(device_name_from("a\0b\0"), "a\0b");
    assert_eq!(device_name_from("\0\0"), "");
    assert_eq!(mime_type_of_lowered("index.html"), "text/html");
    assert_eq!(mime_type_of_lowered("INDEX.HTML"), "application/octet-stream");
    assert_eq!(mime_type_of_lowered("a.woff2"), "font/woff2");
    let value = |text: &str| {
        let call = format!("do(action=x, v={})", text);
        try_parse_do_action(&call).unwrap().parameters.get("v").cloned()
    };
    assert_eq!(value("true"), Some(ParamValue::Bool(true)));
    assert_eq!(value("17"), Some(ParamValue::Int(17)));
    assert_eq!(value("-1"), Some(ParamValue::Other));
    assert_eq!(value("[1, 2, 3]"), Some(ParamValue::List(vec![Some(1), Some(2), Some(3)])));
    assert_eq!(value("[1, 2.5]"), Some(ParamValue::List(vec![Some(1), None])));
    assert_eq!(value("[1, 2, \"x\"]"), Some(ParamValue::List(vec![Some(1), Some(2), None])));
    assert_eq!(value("null"), Some(ParamValue::Other));
    assert_eq!(value("{a}"), Some(ParamValue::Text("{a}".to_string())));
    assert_eq!(value("tap"), Some(ParamValue::Text("tap".to_string())));
    let j = try_parse_json_action("{\"b\": [1, 2], \"action\": \"x\", \"t\": \"a b\"}").unwrap();
    assert_eq!(j.parameters.get("b"), Some(&ParamValue::List(vec![Some(1), Some(2)])));
    assert_eq!(j.parameters.get("t"), Some(&ParamValue::Text("a b".to_string())));
    assert!(try_parse_json_action("[1]").is_none());
    let mut e = DeviceEntry::new("S".to_string(), None, 0);
    e.touch();
    let first = e.last_used;
    assert!(first > 1_600_000_000_000);
    e.touch();
    assert!(e.last_used >= first);
    let prompt = get_main_system_prompt(1, 2);
    let date: String = prompt.chars().skip("#\nThe current date:  ".chars().count()).take(11).collect();
    assert!(date.contains('年') && date.contains('月') && date.ends_with('日'));
    let a = AgentGroup::new(AgentGroupConfig::default(), ModelConfig::default());
    let b = AgentGroup::new(AgentGroupConfig::default(), ModelConfig::default());
    assert_eq!(a.id().len(), 36);
    assert_ne!(a.id(), b.id());
}

#[test]
fn text_utilities() {
    assert_eq!(chars_of("a好"), vec!['a', '好']);
    assert!(char_is_space('\u{3000}'));
    assert!(char_is_space('\n'));
    assert!(!char_is_space('a'));
    assert!(!char_is_space('\u{200b}'));
    let s = chars_of("  \t ab c \u{a0}");
    assert_eq!(trim_bounds(&s, 0, s.len()), (4, 8));
    assert_eq!(trim_bounds(&s, 0, 3), (3, 3));
    let q = chars_of("\"\"a\"b\"");
    assert_eq!(trim_char_bounds(&q, 0, q.len(), '"'), (2, 5));
    let h = chars_of("abcabc");
    assert_eq!(find_from(&h, &chars_of("bc"), 0), Some(1));
    assert_eq!(find_from(&h, &chars_of("bc"), 2), Some(4));
    assert_eq!(find_from(&h, &chars_of("bc"), 5), None);
    assert_eq!(find_from(&h, &[], 6), Some(6));
    assert_eq!(find_from(&h, &[], 7), None);
    assert!(contains(&h, &chars_of("ca")));
    assert!(!contains(&h, &chars_of("cb")));
    assert!(ends_with(&h, &chars_of("abc")));
    assert!(!ends_with(&h, &chars_of("abcabca")));
    assert!(same_text("好", "好"));
    assert!(!same_text("a", "A"));
    assert_eq!(concat2("a", "b"), "ab");
    assert_eq!(concat3("a", "", "c"), "ac");
    assert_eq!(decimal_string(0), "0");
    assert_eq!(decimal_string(1090), "1090");
    assert_eq!(decimal_string(u64::MAX), "18446744073709551615");
    assert_eq!(parse_u64(&chars_of("18446744073709551615")), Some(u64::MAX));
    assert_eq!(parse_u64(&chars_of("18446744073709551616")), None);
    assert_eq!(parse_u64(&chars_of("+007")), Some(7));
    assert_eq!(parse_u64(&chars_of("")), None);
    assert_eq!(parse_u64(&chars_of("+")), None);
    assert_eq!(parse_u64(&chars_of("-1")), None);
    assert_eq!(parse_u64(&chars_of("1 ")), None);
    assert_eq!(parse_u64(&chars_of("１")), None);
    assert_eq!(parse_u32(&chars_of("4294967295")), Some(u32::MAX));
    assert_eq!(parse_u32(&chars_of("4294967296")), None);
}
