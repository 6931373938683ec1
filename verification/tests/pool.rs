use scrcpy_rs::agent::engine::state::{AgentConfig, AgentState};
use scrcpy_rs::agent::engine::traits::AgentError;
use scrcpy_rs::agent::llm::types::ModelConfig;
use scrcpy_rs::agent::pool::device_entry::{floor_seconds, whole_seconds, DeviceEntry};
use scrcpy_rs::agent::pool::device_pool::DevicePool;
use scrcpy_rs::agent::pool::types::{
    DevicePoolConfig, DevicePoolError, DevicePoolEvent, DeviceStatus,
};
use scrcpy_rs::agent::socket_server::{
    handle_agent_devices, handle_agent_start, handle_agent_stop, AgentSocketServer,
};
use scrcpy_rs::error::AppError;
use scrcpy_rs::scrcpy::scrcpy::ScrcpyConnect;

fn pool(max: usize) -> DevicePool {
    let mut config = DevicePoolConfig::default();
    config.max_connections = max;
    DevicePool::new(config, ModelConfig::default(), AgentConfig::default())
}

fn not_found(serial: &str) -> AppError {
    AppError::AgentError(AgentError::DeviceNotFound(serial.to_string()))
}

fn summary(p: &DevicePool) -> Vec<(String, Option<String>, Option<ScrcpyConnect>, bool, DeviceStatus, i64)> {
    p.devices
        .iter()
        .map(|d| (d.serial.clone(), d.name.clone(), d.scrcpy, d.agent.is_some(), d.status.clone(), d.last_used))
        .collect()
}

#[test]
fn registering_and_unregistering_leaves_the_pool_as_it_was() {
    let mut p = pool(10);
    p.register_device("A".to_string(), Some("first".to_string()), 1).unwrap();
    let before = summary(&p);
    p.register_device("S".to_string(), None, 2).unwrap();
    assert_eq!(p.list_devices(), vec!["A".to_string(), "S".to_string()]);
    p.unregister_device("S").unwrap();
    assert_eq!(summary(&p), before);
    assert_eq!(
        p.take_events(),
        vec![
            DevicePoolEvent::DeviceRegistered { serial: "A".to_string() },
            DevicePoolEvent::DeviceRegistered { serial: "S".to_string() },
            DevicePoolEvent::DeviceDisconnected { serial: "S".to_string() },
        ]
    );
    assert!(p.events.is_empty());
    assert_eq!(p.unregister_device("S"), Err(not_found("S")));
}

#[test]
fn registering_is_refused_for_a_full_pool_and_a_known_serial() {
    let mut p = pool(1);
    assert_eq!(p.register_device("A".to_string(), None, 1), Ok(()));
    assert_eq!(
        p.register_device("B".to_string(), None, 1),
        Err(AppError::AgentError(AgentError::ValidationError("已达最大连接数限制: 1".to_string())))
    );
    let mut q = pool(5);
    q.register_device("A".to_string(), None, 1).unwrap();
    assert_eq!(
        q.register_device("A".to_string(), None, 1),
        Err(AppError::AgentError(AgentError::ValidationError("设备已注册: A".to_string())))
    );
    assert_eq!(q.devices.len(), 1);
    let e = &q.devices[0];
    assert_eq!(e.status, DeviceStatus::Registered);
    assert_eq!((e.last_used, e.created_at), (1, 1));
    assert!(e.scrcpy.is_none() && e.agent.is_none() && e.current_task.is_none());
}

#[test]
fn connecting_twice_changes_nothing_the_second_time() {
    let mut p = pool(10);
    p.register_device("A".to_string(), None, 1).unwrap();
    assert_eq!(p.connect_device("missing", 1, 1), Err(not_found("missing")));
    assert_eq!(p.connect_device("A", 5000, 10), Ok(()));
    assert_eq!(p.devices[0].status, DeviceStatus::Connected);
    assert_eq!(p.devices[0].scrcpy, Some(ScrcpyConnect { port: 5000, scrcpy_server_port: 27183 }));
    assert_eq!(p.devices[0].last_used, 10);
    let before = summary(&p);
    let events = p.events.clone();
    assert_eq!(p.connect_device("A", 6000, 20), Ok(()));
    assert_eq!(summary(&p), before);
    assert_eq!(p.events, events);
    assert_eq!(events.last(), Some(&DevicePoolEvent::DeviceConnected { serial: "A".to_string() }));
}

#[test]
fn a_device_with_an_agent_is_busy_until_the_agent_is_released() {
    let mut p = pool(10);
    p.register_device("A".to_string(), None, 1).unwrap();
    let id = p.get_agent_with_id("A", 5000, "agent-7".to_string(), 2).unwrap();
    assert_eq!(id, "agent-7");
    assert_eq!(p.devices[0].status, DeviceStatus::Busy);
    assert!(p.devices[0].scrcpy.is_some());
    let agent = p.devices[0].agent.as_ref().unwrap();
    assert_eq!(agent.id, "agent-7");
    assert_eq!(agent.runtime.state, AgentState::Idle);
    assert_eq!(agent.runtime.config, AgentConfig::default());
    assert_eq!(p.get_agent_with_id("A", 1, "other".to_string(), 3), Ok("agent-7".to_string()));
    assert_eq!(p.devices[0].last_used, 3);
    assert_eq!(p.devices[0].status, DeviceStatus::Busy);
    assert_eq!(
        p.take_events(),
        vec![
            DevicePoolEvent::DeviceRegistered { serial: "A".to_string() },
            DevicePoolEvent::DeviceConnected { serial: "A".to_string() },
            DevicePoolEvent::AgentCreated { serial: "A".to_string(), agent_id: "agent-7".to_string() },
        ]
    );
    p.update_task_status("A", "agent-7".to_string(), "do it".to_string(), 4).unwrap();
    assert_eq!(p.devices[0].current_task, Some("do it".to_string()));
    assert_eq!(p.release_agent("A", 5), Ok(()));
    assert!(p.devices[0].agent.is_none());
    assert_eq!(p.devices[0].status, DeviceStatus::Connected);
    assert_eq!(p.devices[0].current_task_id, None);
    assert_eq!(p.devices[0].current_task, None);
    assert_eq!(
        p.take_events(),
        vec![
            DevicePoolEvent::TaskStarted { serial: "A".to_string(), task: "do it".to_string() },
            DevicePoolEvent::AgentDestroyed { serial: "A".to_string(), agent_id: "agent-7".to_string() },
        ]
    );
    assert_eq!(p.release_agent("A", 6), Ok(()));
    assert!(p.events.is_empty());
    assert_eq!(p.devices[0].status, DeviceStatus::Connected);
    assert_eq!(p.devices[0].last_used, 6);
    assert_eq!(p.release_agent("B", 6), Err(not_found("B")));
}

#[test]
fn releasing_without_an_agent_clears_the_device() {
    let mut p = pool(10);
    p.register_device("A".to_string(), None, 1).unwrap();
    p.update_task_status("A", "t1".to_string(), "task".to_string(), 2).unwrap();
    p.take_events();
    assert_eq!(p.release_agent("A", 3), Ok(()));
    assert_eq!(p.devices[0].status, DeviceStatus::Disconnected);
    assert!(p.devices[0].agent.is_none());
    assert_eq!(p.devices[0].current_task_id, None);
    assert_eq!(p.devices[0].current_task, None);
    assert_eq!(p.devices[0].last_used, 3);
    assert!(p.take_events().is_empty());
    p.connect_device("A", 1, 4).unwrap();
    p.update_task_status("A", "t2".to_string(), "task".to_string(), 5).unwrap();
    assert_eq!(p.devices[0].status, DeviceStatus::Busy);
    assert_eq!(p.release_agent("A", 6), Ok(()));
    assert_eq!(p.devices[0].status, DeviceStatus::Connected);
    assert_eq!(p.devices[0].current_task_id, None);
    assert!(p.devices[0].scrcpy.is_some());
    p.disconnect_device("A", 7).unwrap();
    assert_eq!(p.release_agent("A", 8), Ok(()));
    assert_eq!(p.devices[0].status, DeviceStatus::Disconnected);
}

#[test]
fn a_random_agent_id_is_a_uuid() {
    let mut p = pool(10);
    p.register_device("A".to_string(), None, 1).unwrap();
    let id = p.get_agent("A", 5000, 2).unwrap();
    assert_eq!(id.len(), 36);
    assert_eq!(id.matches('-').count(), 4);
    assert_eq!(p.get_agent("A", 5000, 3), Ok(id.clone()));
    p.register_device("B".to_string(), None, 1).unwrap();
    let other = p.get_agent("B", 5001, 2).unwrap();
    assert_ne!(id, other);
    assert_eq!(p.get_agent("C", 1, 1), Err(not_found("C")));
}

#[test]
fn disconnecting_drops_session_and_agent() {
    let mut p = pool(10);
    p.register_device("A".to_string(), None, 1).unwrap();
    p.get_agent_with_id("A", 5000, "x".to_string(), 2).unwrap();
    assert_eq!(p.disconnect_device("A", 9), Ok(()));
    let e = &p.devices[0];
    assert!(e.agent.is_none() && e.scrcpy.is_none());
    assert_eq!(e.status, DeviceStatus::Disconnected);
    assert_eq!(e.last_used, 9);
    assert_eq!(p.events.last(), Some(&DevicePoolEvent::DeviceDisconnected { serial: "A".to_string() }));
    assert_eq!(p.disconnect_device("zz", 9), Err(not_found("zz")));
}

#[test]
fn tasks_are_entered_and_left() {
    let mut p = pool(10);
    p.register_device("A".to_string(), None, 1).unwrap();
    p.update_task_status("A", "t1".to_string(), "task".to_string(), 2).unwrap();
    assert_eq!(p.devices[0].status, DeviceStatus::Busy);
    assert_eq!(p.devices[0].current_task_id, Some("t1".to_string()));
    assert!(p.devices[0].is_busy());
    p.mark_task_completed("A", "fine".to_string(), 3).unwrap();
    assert_eq!(p.devices[0].status, DeviceStatus::Connected);
    assert_eq!(p.devices[0].current_task_id, None);
    p.update_task_status("A", "t2".to_string(), "task".to_string(), 4).unwrap();
    p.mark_task_failed("A", "broken".to_string(), 5).unwrap();
    assert_eq!(p.devices[0].status, DeviceStatus::Connected);
    assert_eq!(p.devices[0].last_used, 5);
    let events = p.take_events();
    assert_eq!(
        events[2],
        DevicePoolEvent::TaskCompleted { serial: "A".to_string(), result: "fine".to_string() }
    );
    assert_eq!(
        events[4],
        DevicePoolEvent::TaskFailed { serial: "A".to_string(), error: "broken".to_string() }
    );
    assert_eq!(p.update_task_status("B", "t".into(), "t".into(), 1), Err(not_found("B")));
    assert_eq!(p.mark_task_completed("B", "t".into(), 1), Err(not_found("B")));
    assert_eq!(p.mark_task_failed("B", "t".into(), 1), Err(not_found("B")));
}

#[test]
fn idle_devices_are_disconnected_after_twice_the_threshold() {
    let mut p = pool(10);
    for s in ["idle", "recent", "agent", "task"] {
        p.register_device(s.to_string(), None, 0).unwrap();
        p.connect_device(s, 1, 0).unwrap();
    }
    p.get_agent_with_id("agent", 1, "a".to_string(), 0).unwrap();
    p.update_task_status("task", "t".to_string(), "t".to_string(), 0).unwrap();
    p.devices[1].touch_at(400_000);
    assert_eq!(p.cleanup_idle_devices(600_000), 0);
    assert_eq!(p.devices[0].status, DeviceStatus::Connected);
    assert_eq!(p.cleanup_idle_devices(601_000), 0);
    assert_eq!(p.devices[0].status, DeviceStatus::Disconnected);
    assert!(p.devices[0].scrcpy.is_none());
    assert_eq!(p.devices[0].last_used, 601_000);
    assert_eq!(p.devices[1].status, DeviceStatus::Connected);
    assert_eq!(p.devices[2].status, DeviceStatus::Busy);
    assert!(p.devices[2].agent.is_some());
    assert_eq!(p.devices[3].status, DeviceStatus::Busy);
    assert_eq!(
        p.health_check(),
        vec![
            ("idle".to_string(), false),
            ("recent".to_string(), true),
            ("agent".to_string(), true),
            ("task".to_string(), true),
        ]
    );
}

#[test]
fn what_the_pool_tells_of_its_devices() {
    let mut p = pool(10);
    p.register_device("A".to_string(), Some("phone".to_string()), 5_500).unwrap();
    let info = p.get_device_info("A", 9_499).unwrap();
    assert_eq!(info.serial, "A");
    assert_eq!(info.name, Some("phone".to_string()));
    assert_eq!(info.status, DeviceStatus::Registered);
    assert!(!info.has_agent);
    assert_eq!(info.last_used, 5);
    assert_eq!(info.idle_seconds, 3);
    assert!(p.get_device_info("B", 0).is_none());
    assert_eq!(p.get_all_devices_info(5_500)[0].idle_seconds, 0);
    assert_eq!(p.get_all_devices_status(), vec![("A".to_string(), DeviceStatus::Registered)]);
    assert_eq!(p.find("A"), Some(0));
    assert_eq!(p.find("a"), None);
}

#[test]
fn entries_and_times() {
    let mut e = DeviceEntry::new("S".to_string(), None, 1_000);
    assert_eq!(e.idle_seconds_at(2_999), 1);
    assert_eq!(e.idle_seconds_at(-1_500), -2);
    assert!(e.is_idle_at(0, 2_000));
    assert!(!e.is_idle_at(1, 2_000));
    assert!(!e.is_connected());
    e.set_status(DeviceStatus::Busy, 7);
    assert!(e.is_busy());
    assert_eq!(e.last_used, 7);
    e.start_task("id".to_string(), "t".to_string(), 8);
    assert!(!e.is_idle_at(0, 1_000_000));
    e.complete_task(9);
    assert_eq!(e.status, DeviceStatus::Connected);
    e.touch();
    assert!(e.last_used > 1_600_000_000_000);
    assert!(e.idle_seconds() >= 0);
    assert!(e.idle_seconds() < 5);
    assert!(!e.is_idle(60));
    assert_eq!(e.to_info().serial, "S");
    assert_eq!(whole_seconds(i64::MIN, i64::MAX), 18_446_744_073_709_551);
    assert_eq!(whole_seconds(i64::MAX, i64::MIN), -18_446_744_073_709_551);
    assert_eq!(floor_seconds(-1), -1);
    assert_eq!(floor_seconds(-1000), -1);
    assert_eq!(floor_seconds(-1001), -2);
    assert_eq!(floor_seconds(1999), 1);
    assert_eq!(floor_seconds(i64::MIN), -9_223_372_036_854_776);
}

#[test]
fn status_and_error_texts() {
    assert_eq!(DeviceStatus::Registered.to_text(), "已注册");
    assert_eq!(DeviceStatus::Connecting.to_text(), "连接中");
    assert_eq!(DeviceStatus::Connected.to_text(), "已连接");
    assert_eq!(DeviceStatus::Busy.to_text(), "忙碌");
    assert_eq!(DeviceStatus::Disconnected.to_text(), "已断开");
    assert_eq!(DeviceStatus::Offline.to_text(), "离线");
    assert_eq!(DeviceStatus::Error("boom".to_string()).to_text(), "错误: boom");
    assert_eq!(DevicePoolError::DeviceNotFound("a".into()).message(), "设备未找到: a");
    assert_eq!(DevicePoolError::DeviceAlreadyExists("a".into()).message(), "设备已存在: a");
    assert_eq!(DevicePoolError::ConnectionTimeout.message(), "连接超时");
    assert_eq!(DevicePoolError::ConnectionError("a".into()).message(), "连接失败: a");
    assert_eq!(DevicePoolError::MaxConnectionsReached(10).message(), "已达最大连接数限制: 10");
    assert_eq!(DevicePoolError::InvalidState("a".into()).message(), "设备状态错误: a");
    assert_eq!(DevicePoolError::AgentCreationFailed("a".into()).message(), "Agent 创建失败: a");
    let c = DevicePoolConfig::default();
    assert_eq!((c.max_connections, c.idle_cleanup_threshold, c.health_check_interval), (10, 300, 60));
    assert_eq!(c.connection_timeout, 30);
    assert!(c.auto_reconnect);
}

#[test]
fn the_agent_namespace() {
    let mut p = pool(10);
    let r = handle_agent_start(&mut p, "", "task", 1, 1);
    assert!(!r.success);
    assert_eq!(r.error, Some("缺少 device_serial 或 task 参数".to_string()));
    assert!(p.devices.is_empty());
    let r = handle_agent_start(&mut p, "S", "", 1, 1);
    assert!(!r.success);
    let r = handle_agent_start(&mut p, "S", "open settings", 5000, 10);
    assert!(r.success);
    assert_eq!(r.error, None);
    assert_eq!((r.device_serial.as_str(), r.task.as_str()), ("S", "open settings"));
    let id = r.agent_id.unwrap();
    let e = &p.devices[0];
    assert_eq!(e.status, DeviceStatus::Busy);
    assert_eq!(e.current_task_id, Some(id.clone()));
    assert_eq!(e.current_task, Some("open settings".to_string()));
    let agent = e.agent.as_ref().unwrap();
    assert_eq!(agent.id, id);
    assert_eq!(agent.runtime.state, AgentState::Initializing);
    let again = handle_agent_start(&mut p, "S", "another", 5000, 11);
    assert!(!again.success);
    assert_eq!(again.error, Some("Agent 已在运行".to_string()));
    let list = handle_agent_devices(&p, 20);
    assert!(list.success);
    assert_eq!(list.devices.len(), 1);
    assert!(list.devices[0].has_agent);
    let stop = handle_agent_stop(&mut p, "", 30);
    assert_eq!(stop.error, Some("缺少 device_serial 参数".to_string()));
    let stop = handle_agent_stop(&mut p, "T", 30);
    assert_eq!(stop.error, Some("设备未找到: T".to_string()));
    let stop = handle_agent_stop(&mut p, "S", 30);
    assert!(stop.success);
    assert!(p.devices[0].agent.is_none());
    assert_eq!(p.devices[0].status, DeviceStatus::Connected);
    let mut full = pool(0);
    let r = handle_agent_start(&mut full, "S", "t", 1, 1);
    assert_eq!(r.error, Some("设备未找到: S".to_string()));
    assert_eq!(AgentSocketServer::new(4000).port(), 4000);
}

#[test]
fn a_device_with_an_agent_stays_busy_after_its_task() {
    let mut p = pool(10);
    p.register_device("A".to_string(), None, 1).unwrap();
    p.get_agent_with_id("A", 7, "agent-1".to_string(), 2).unwrap();
    p.update_task_status("A", "t1".to_string(), "task".to_string(), 3).unwrap();
    p.mark_task_completed("A", "fine".to_string(), 4).unwrap();
    assert!(p.devices[0].agent.is_some());
    assert_eq!(p.devices[0].status, DeviceStatus::Busy);
    assert_eq!(p.devices[0].current_task_id, None);
    p.update_task_status("A", "t2".to_string(), "task".to_string(), 5).unwrap();
    p.mark_task_failed("A", "broken".to_string(), 6).unwrap();
    assert_eq!(p.devices[0].status, DeviceStatus::Busy);
    p.release_agent("A", 7).unwrap();
    assert!(p.devices[0].agent.is_none());
    assert_eq!(p.devices[0].status, DeviceStatus::Connected);
    assert_eq!(p.devices[0].last_used, 7);
}

#[test]
fn a_start_announces_what_it_did_and_leaves_the_other_devices() {
    let mut p = pool(10);
    p.register_device("other".to_string(), Some("O".to_string()), 1).unwrap();
    p.take_events();
    let other = format!("{:?}", p.devices[0]);
    let r = handle_agent_start(&mut p, "S", "open settings", 5000, 10);
    assert!(r.success);
    let id = r.agent_id.clone().unwrap();
    assert_eq!(p.devices.len(), 2);
    assert_eq!(format!("{:?}", p.devices[0]), other);
    assert_eq!(p.devices[1].serial, "S");
    assert_eq!(p.devices[1].name, None);
    assert_eq!(p.devices[1].created_at, 10);
    assert_eq!(p.devices[1].last_used, 10);
    assert_eq!(
        p.take_events(),
        vec![
            DevicePoolEvent::DeviceRegistered { serial: "S".to_string() },
            DevicePoolEvent::DeviceConnected { serial: "S".to_string() },
            DevicePoolEvent::AgentCreated { serial: "S".to_string(), agent_id: id.clone() },
            DevicePoolEvent::TaskStarted { serial: "S".to_string(), task: "open settings".to_string() },
        ]
    );
    let before = p.devices[1].clone();
    let again = handle_agent_start(&mut p, "S", "another", 6000, 20);
    assert!(!again.success);
    assert_eq!(again.error, Some("Agent 已在运行".to_string()));
    assert!(p.take_events().is_empty());
    assert_eq!(format!("{:?}", p.devices[0]), other);
    let mut touched = before.clone();
    touched.last_used = 20;
    assert_eq!(format!("{:?}", p.devices[1]), format!("{:?}", touched));
    p.devices[1].agent.as_mut().unwrap().complete(1, 5);
    let third = handle_agent_start(&mut p, "S", "third", 6000, 30);
    assert!(third.success);
    assert_eq!(third.agent_id, Some(id));
    assert_eq!(
        p.take_events(),
        vec![DevicePoolEvent::TaskStarted { serial: "S".to_string(), task: "third".to_string() }]
    );
    let mut full = pool(2);
    full.register_device("a".to_string(), None, 1).unwrap();
    full.register_device("b".to_string(), None, 1).unwrap();
    full.take_events();
    let kept = format!("{:?}", full.devices);
    let refused = handle_agent_start(&mut full, "c", "t", 1, 2);
    assert_eq!(refused.error, Some("设备未找到: c".to_string()));
    assert_eq!(format!("{:?}", full.devices), kept);
    assert!(full.events.is_empty());
}
