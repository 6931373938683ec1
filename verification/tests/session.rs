use scrcpy_rs::agent::logger::screenshot_bytes;
use scrcpy_rs::scrcpy::scrcpy::{
    control_reply, device_name_of, server_steps, touch_fields, ConnectPlan, ControlReply,
    DisconnectPlan, ReadOutcome, ReadState, ScrcpyConnect, ScrcpySessionTasks, ServerStep,
    StreamReader, TouchFields, SERVER_COMMAND,
};

fn meta(name: &str) -> Vec<u8> {
    let mut bytes = name.as_bytes().to_vec();
    bytes.resize(64, 0);
    bytes
}

#[test]
fn tasks_live_exactly_while_a_client_is_connected() {
    let mut s = ScrcpySessionTasks::new();
    assert_eq!(s.live_tasks(), 0);
    assert!(!s.is_session_running());
    assert_eq!(s.on_connect("a".to_string()), ConnectPlan::Start);
    assert_eq!(s.live_tasks(), 4);
    assert_eq!(s.on_connect("b".to_string()), ConnectPlan::Restart);
    assert_eq!(s.live_tasks(), 4);
    assert_eq!(s.connected_clients, vec!["a".to_string(), "b".to_string()]);
    assert_eq!(s.on_disconnect("b"), DisconnectPlan::Keep);
    assert_eq!(s.live_tasks(), 4);
    assert_eq!(s.connected_clients, vec!["a".to_string()]);
    assert_eq!(s.on_disconnect("unknown"), DisconnectPlan::Keep);
    assert_eq!(s.on_disconnect("a"), DisconnectPlan::Teardown);
    assert_eq!(s.live_tasks(), 0);
    assert!(s.connected_clients.is_empty());
    assert_eq!(s, ScrcpySessionTasks::default());
}

#[test]
fn a_restart_keeps_the_clients_and_forgets_the_stream() {
    let mut s = ScrcpySessionTasks::new();
    s.on_connect("a".to_string());
    s.control_socket_ready();
    s.set_device_meta("Pixel".to_string());
    assert!(s.control_ready);
    assert_eq!(s.on_connect("a".to_string()), ConnectPlan::Restart);
    assert_eq!(s.connected_clients, vec!["a".to_string()]);
    assert!(!s.control_ready);
    assert_eq!(s.device_meta, None);
    assert!(s.has_client("a"));
    assert!(!s.has_client("b"));
    s.abort_tasks_only();
    assert_eq!(s.live_tasks(), 0);
    assert_eq!(s.connected_clients.len(), 1);
    s.start_tasks();
    assert_eq!(s.live_tasks(), 4);
    assert!(s.remove_client("a"));
    s.add_client("z".to_string());
    s.add_client("z".to_string());
    assert_eq!(s.connected_clients.len(), 1);
    s.abort_all();
    assert_eq!(s, ScrcpySessionTasks::new());
}

#[test]
fn the_handshake_gives_name_and_frames() {
    let mut r = StreamReader::new();
    assert_eq!(r.wanted(), 1);
    assert_eq!(r.feed(&[0]), ReadOutcome::Ack { unexpected: false });
    assert_eq!(r.state, ReadState::ReadMeta);
    assert_eq!(r.wanted(), 64);
    assert_eq!(
        r.feed(&meta("test-device")),
        ReadOutcome::Meta { device_name: "test-device".to_string() }
    );
    assert_eq!(r.state, ReadState::ReadData);
    assert_eq!(r.wanted(), 8192);
    let video: Vec<u8> = (0..1024u32).map(|i| (i % 251) as u8).collect();
    match r.feed(&video) {
        ReadOutcome::Frame { payload } => {
            assert_eq!(screenshot_bytes(&payload), Ok(video.clone()));
        }
        other => panic!("expected a frame, got {:?}", other),
    }
    assert_eq!(r.feed(&[]), ReadOutcome::Closed);
    assert_eq!(r.state, ReadState::ReadData);
    assert_eq!(r.feed(b"hi"), ReadOutcome::Frame { payload: "aGk=".to_string() });
}

#[test]
fn a_second_client_sees_a_fresh_handshake() {
    let mut s = ScrcpySessionTasks::new();
    let mut reader = StreamReader::new();
    assert_eq!(s.on_connect("first".to_string()), ConnectPlan::Start);
    reader.feed(&[0]);
    if let ReadOutcome::Meta { device_name } = reader.feed(&meta("test-device")) {
        s.set_device_meta(device_name);
    }
    assert_eq!(s.device_meta, Some("test-device".to_string()));
    assert_eq!(s.on_connect("second".to_string()), ConnectPlan::Restart);
    assert_eq!(s.device_meta, None);
    let mut fresh = StreamReader::new();
    assert_eq!(fresh.feed(&[0]), ReadOutcome::Ack { unexpected: false });
    assert_eq!(
        fresh.feed(&meta("test-device")),
        ReadOutcome::Meta { device_name: "test-device".to_string() }
    );
}

#[test]
fn a_broken_handshake_fails_the_session() {
    let mut r = StreamReader::new();
    assert_eq!(r.feed(&[]), ReadOutcome::HandshakeFailed);
    assert_eq!(r.feed(&[0, 0]), ReadOutcome::HandshakeFailed);
    assert_eq!(r.state, ReadState::ReadAck);
    assert_eq!(r.feed(&[7]), ReadOutcome::Ack { unexpected: true });
    assert_eq!(r.feed(&[0; 63]), ReadOutcome::HandshakeFailed);
    assert_eq!(r.state, ReadState::ReadMeta);
    assert_eq!(r.feed(&[0; 64]), ReadOutcome::Meta { device_name: String::new() });
}

#[test]
fn a_failed_handshake_ends_the_tasks_until_a_client_connects() {
    let mut s = ScrcpySessionTasks::new();
    s.on_connect("a".to_string());
    s.on_handshake_failed();
    assert_eq!(s.live_tasks(), 0);
    assert_eq!(s.connected_clients, vec!["a".to_string()]);
    assert_eq!(s.on_connect("b".to_string()), ConnectPlan::Start);
    assert_eq!(s.live_tasks(), 4);
}

#[test]
fn device_names() {
    assert_eq!(device_name_of(&meta("小米 13")), "小米 13");
    assert_eq!(device_name_of(b"a\0b\0\0"), "a\0b");
    assert_eq!(device_name_of(&[0xff, b'x', 0]), "\u{fffd}x");
    assert_eq!(device_name_of(&[]), "");
}

#[test]
fn answers_to_control_packets() {
    assert_eq!(control_reply(true, None, 32), ControlReply::Ack { length: 32 });
    assert_eq!(
        control_reply(false, None, 32),
        ControlReply::Error { error: "control socket 未就绪".to_string(), length: 32 }
    );
    assert_eq!(
        control_reply(false, Some("x"), 1),
        ControlReply::Error { error: "control socket 未就绪".to_string(), length: 1 }
    );
    assert_eq!(
        control_reply(true, Some("BrokenPipe"), 5),
        ControlReply::Error { error: "写入失败: BrokenPipe".to_string(), length: 5 }
    );
}

#[test]
fn fields_of_a_touch_packet() {
    let mut data = vec![0u8; 32];
    data[1] = 2;
    data[10..14].copy_from_slice(&[0x38, 0x04, 0, 0]);
    data[14..18].copy_from_slice(&[0xff, 0xff, 0xff, 0xff]);
    data[22] = 0x12;
    data[23] = 0x34;
    assert_eq!(
        touch_fields(&data),
        Some(TouchFields { action: 2, x: 1080, y: u32::MAX, pressure: 0x1234 })
    );
    assert_eq!(touch_fields(&data[..23]), None);
    assert!(touch_fields(&data[..24]).is_some());
}

#[test]
fn steps_of_the_server_task() {
    let steps = server_steps("SER123", 27183, "sock-9");
    let text = |v: &[&str]| v.iter().map(|s| s.to_string()).collect::<Vec<String>>();
    assert_eq!(
        steps,
        vec![
            ServerStep::WriteJar { path: "/tmp/scrcpy-server-sock-9.jar".to_string() },
            ServerStep::Adb { args: text(&["-s", "SER123", "forward", "--remove-all"]), fatal: false },
            ServerStep::Adb {
                args: text(&["-s", "SER123", "forward", "tcp:27183", "localabstract:scrcpy"]),
                fatal: false
            },
            ServerStep::Adb {
                args: text(&[
                    "-s",
                    "SER123",
                    "push",
                    "/tmp/scrcpy-server-sock-9.jar",
                    "/data/local/tmp/scrcpy-server.jar"
                ]),
                fatal: true
            },
            ServerStep::Adb { args: text(&["-s", "SER123", "shell", SERVER_COMMAND]), fatal: false },
            ServerStep::RemoveFile { path: "/tmp/scrcpy-server-sock-9.jar".to_string() },
        ]
    );
    assert!(SERVER_COMMAND.contains("audio=false"));
    assert!(SERVER_COMMAND.contains("max_size=1920"));
    assert!(SERVER_COMMAND.contains("log_level=info"));
    assert!(SERVER_COMMAND.contains("tunnel_forward=true"));
    let c = ScrcpyConnect::new(4567, 27183);
    assert_eq!(c.get_port(), 4567);
}
