use scrcpy_rs::agent::actions::base::{ActionEnum, DeviceCommand};
use scrcpy_rs::agent::actions::input::{KeyCode, PressKeyAction, TypeAction};
use scrcpy_rs::agent::actions::navigation::{BackAction, HomeAction, NotificationAction, RecentAction};
use scrcpy_rs::agent::actions::swipe::{ScrollAction, ScrollDirection, SwipeAction};
use scrcpy_rs::agent::actions::parse::{direction_of_lowered, elements_of, normalize_lowered};
use scrcpy_rs::agent::actions::system::{
    app_name_to_package, get_app_packages, package_with_lowered, FinishAction, LaunchAction,
    ScreenshotAction, WaitAction,
};
use scrcpy_rs::agent::actions::touch::{DoubleTapAction, LongPressAction, TapAction};
use scrcpy_rs::agent::engine::traits::{
    ActionError, ActionResult, ParamValue, Params, ParsedAction,
};
use scrcpy_rs::error::AppError;

fn wait(duration_ms: u32) -> ActionEnum {
    ActionEnum::Wait(WaitAction { duration_ms, reason: None })
}

fn swipe(duration_ms: u32) -> ActionEnum {
    ActionEnum::Swipe(SwipeAction {
        start_x: 1,
        start_y: 2,
        end_x: 3,
        end_y: 4,
        duration_ms,
        description: None,
    })
}

fn params(entries: Vec<(&str, ParamValue)>) -> Params {
    parsed("", entries).parameters
}

fn parsed(kind: &str, entries: Vec<(&str, ParamValue)>) -> ParsedAction {
    let mut parameters = Params::new();
    for (k, v) in entries {
        parameters.insert(k.to_string(), v);
    }
    ParsedAction { action_type: kind.to_string(), parameters, reasoning: String::new() }
}

#[test]
fn wait_of_sixty_seconds_is_the_longest() {
    assert_eq!(wait(60000).validate(), Ok(()));
    assert_eq!(wait(60001).validate(), Err(ActionError::DurationTooLong(60001)));
    assert_eq!(wait(0).validate(), Ok(()));
}

#[test]
fn swipe_of_fifty_milliseconds_is_the_shortest() {
    assert_eq!(swipe(50).validate(), Ok(()));
    assert_eq!(swipe(49).validate(), Err(ActionError::DurationTooShort(49)));
    assert_eq!(swipe(5000).validate(), Ok(()));
    assert_eq!(swipe(5001).validate(), Err(ActionError::DurationTooLong(5001)));
}

#[test]
fn coordinates_above_ten_thousand_are_out_of_bounds() {
    let tap = |x, y| ActionEnum::Tap(TapAction { x, y, description: None });
    assert_eq!(tap(10000, 10000).validate(), Ok(()));
    assert_eq!(tap(10001, 0).validate(), Err(ActionError::OutOfBounds { x: 10001, y: 0 }));
    assert_eq!(tap(0, 10001).validate(), Err(ActionError::OutOfBounds { x: 0, y: 10001 }));
    let double = ActionEnum::DoubleTap(DoubleTapAction { x: 10001, y: 5, description: None });
    assert_eq!(double.validate(), Err(ActionError::OutOfBounds { x: 10001, y: 5 }));
    let out = ActionEnum::Swipe(SwipeAction {
        start_x: 5,
        start_y: 20000,
        end_x: 30000,
        end_y: 7,
        duration_ms: 10,
        description: None,
    });
    assert_eq!(out.validate(), Err(ActionError::OutOfBounds { x: 30000, y: 20000 }));
}

#[test]
fn long_press_lasts_between_a_tenth_and_ten_seconds() {
    let press = |x, duration_ms| {
        ActionEnum::LongPress(LongPressAction { x, y: 1, duration_ms, description: None })
    };
    assert_eq!(press(1, 100).validate(), Ok(()));
    assert_eq!(press(1, 99).validate(), Err(ActionError::DurationTooShort(99)));
    assert_eq!(press(1, 10000).validate(), Ok(()));
    assert_eq!(press(1, 10001).validate(), Err(ActionError::DurationTooLong(10001)));
    assert_eq!(press(10001, 5).validate(), Err(ActionError::OutOfBounds { x: 10001, y: 1 }));
}

#[test]
fn scroll_limits() {
    let scroll = |distance_pct, duration_ms| {
        ActionEnum::Scroll(ScrollAction {
            direction: ScrollDirection::Up,
            distance_pct,
            duration_ms,
            description: None,
        })
    };
    assert_eq!(scroll(1, 50).validate(), Ok(()));
    assert_eq!(scroll(100, 2000).validate(), Ok(()));
    assert_eq!(
        scroll(101, 100).validate(),
        Err(ActionError::InvalidParameters("距离百分比不能超过100".to_string()))
    );
    assert_eq!(
        scroll(0, 100).validate(),
        Err(ActionError::InvalidParameters("距离百分比不能小于1".to_string()))
    );
    assert_eq!(scroll(50, 49).validate(), Err(ActionError::DurationTooShort(49)));
    assert_eq!(scroll(50, 2001).validate(), Err(ActionError::DurationTooLong(2001)));
}

#[test]
fn typed_text_is_neither_empty_nor_too_long() {
    let text = |t: String| ActionEnum::Type(TypeAction { text: t, description: None });
    assert_eq!(
        text(String::new()).validate(),
        Err(ActionError::InvalidParameters("文本不能为空".to_string()))
    );
    assert_eq!(text("a".repeat(10000)).validate(), Ok(()));
    assert_eq!(
        text("a".repeat(10001)).validate(),
        Err(ActionError::InvalidParameters("文本过长".to_string()))
    );
    assert_eq!(
        text("好".repeat(3334)).validate(),
        Err(ActionError::InvalidParameters("文本过长".to_string()))
    );
    assert_eq!(text("好".repeat(3333)).validate(), Ok(()));
}

#[test]
fn launch_needs_a_package_or_a_known_alias() {
    let launch = |p: &str| {
        ActionEnum::Launch(LaunchAction { package: p.to_string(), activity: None, description: None })
    };
    assert_eq!(launch("com.example.app").validate(), Ok(()));
    assert_eq!(launch("微信").validate(), Ok(()));
    assert_eq!(launch("WeChat").validate(), Ok(()));
    assert_eq!(
        launch("").validate(),
        Err(ActionError::InvalidParameters("应用名称不能为空".to_string()))
    );
    assert_eq!(
        launch("nothing").validate(),
        Err(ActionError::InvalidParameters(
            "暂时没有 nothing 对应的包名 可以在Home页其他页面查找一下".to_string()
        ))
    );
}

#[test]
fn the_rest_is_always_valid() {
    let all = vec![
        ActionEnum::PressKey(PressKeyAction { keycode: KeyCode::Enter, description: None }),
        ActionEnum::Back(BackAction { description: None }),
        ActionEnum::Home(HomeAction { description: None }),
        ActionEnum::Recent(RecentAction { description: None }),
        ActionEnum::Notification(NotificationAction { description: None }),
        ActionEnum::Screenshot(ScreenshotAction { description: None }),
        ActionEnum::Finish(FinishAction { result: String::new(), success: false }),
    ];
    for a in all {
        assert_eq!(a.validate(), Ok(()));
        assert!(!a.is_reversible());
    }
}

#[test]
fn error_messages() {
    assert_eq!(ActionError::InvalidParameters("x".into()).message(), "无效的参数: x");
    assert_eq!(ActionError::OutOfBounds { x: 10, y: 205 }.message(), "坐标超出边界: (10, 205)");
    assert_eq!(ActionError::InvalidText("t".into()).message(), "文本包含无效字符: t");
    assert_eq!(ActionError::DurationTooShort(0).message(), "持续时间过短: 0ms");
    assert_eq!(ActionError::DurationTooLong(4294967295).message(), "持续时间过长: 4294967295ms");
}

#[test]
fn standard_descriptions() {
    let d = |a: ActionEnum| a.description();
    assert_eq!(d(ActionEnum::Tap(TapAction { x: 1, y: 20, description: None })), "点击 (1, 20)");
    assert_eq!(
        d(ActionEnum::Tap(TapAction { x: 1, y: 20, description: Some("mine".into()) })),
        "mine"
    );
    assert_eq!(
        d(ActionEnum::LongPress(LongPressAction { x: 1, y: 2, duration_ms: 300, description: None })),
        "长按 (1, 2) 300ms"
    );
    assert_eq!(
        d(ActionEnum::DoubleTap(DoubleTapAction { x: 7, y: 8, description: None })),
        "双击 (7, 8)"
    );
    assert_eq!(d(swipe(500)), "滑动 from (1,2) to (3,4) 500ms");
    assert_eq!(
        d(ActionEnum::Scroll(ScrollAction {
            direction: ScrollDirection::Left,
            distance_pct: 30,
            duration_ms: 200,
            description: None
        })),
        "滚动 Left 30% 200ms"
    );
    assert_eq!(
        d(ActionEnum::Type(TypeAction { text: "hi".into(), description: None })),
        "输入文本: hi"
    );
    assert_eq!(
        d(ActionEnum::PressKey(PressKeyAction { keycode: KeyCode::VolumeUp, description: None })),
        "按键: VolumeUp"
    );
    assert_eq!(d(ActionEnum::Back(BackAction { description: None })), "按下返回键");
    assert_eq!(d(ActionEnum::Home(HomeAction { description: None })), "按下 Home 键");
    assert_eq!(d(ActionEnum::Recent(RecentAction { description: None })), "打开最近任务");
    assert_eq!(d(ActionEnum::Notification(NotificationAction { description: None })), "打开通知栏");
    assert_eq!(
        d(ActionEnum::Launch(LaunchAction {
            package: "a.b".into(),
            activity: None,
            description: None
        })),
        "启动应用: a.b"
    );
    assert_eq!(d(wait(1500)), "等待 1500ms");
    assert_eq!(
        d(ActionEnum::Wait(WaitAction { duration_ms: 1, reason: Some("why".into()) })),
        "why"
    );
    assert_eq!(d(ActionEnum::Screenshot(ScreenshotAction { description: None })), "截图");
    assert_eq!(
        d(ActionEnum::Finish(FinishAction { result: "ok".into(), success: true })),
        "完成任务: ok"
    );
}

#[test]
fn estimated_durations() {
    assert_eq!(ActionEnum::Tap(TapAction { x: 1, y: 1, description: None }).estimated_duration(), 100);
    assert_eq!(swipe(500).estimated_duration(), 600);
    assert_eq!(swipe(u32::MAX).estimated_duration(), u32::MAX);
    assert_eq!(wait(1234).estimated_duration(), 1234);
    assert_eq!(
        ActionEnum::Launch(LaunchAction { package: "a.b".into(), activity: None, description: None })
            .estimated_duration(),
        2000
    );
    assert_eq!(
        ActionEnum::Finish(FinishAction { result: "".into(), success: true }).estimated_duration(),
        0
    );
    assert_eq!(
        ActionEnum::Notification(NotificationAction { description: None }).estimated_duration(),
        300
    );
}

#[test]
fn key_codes() {
    assert_eq!(KeyCode::Enter.to_android_keycode(), 66);
    assert_eq!(KeyCode::Backspace.to_android_keycode(), 67);
    assert_eq!(KeyCode::Home.to_android_keycode(), 3);
    assert_eq!(KeyCode::Camera.to_android_keycode(), 27);
    assert_eq!(KeyCode::from_android_keycode(111), KeyCode::Escape);
    assert_eq!(KeyCode::from_android_keycode(12345), KeyCode::Back);
}

#[test]
fn commands_for_the_device() {
    let scroll = ActionEnum::Scroll(ScrollAction {
        direction: ScrollDirection::Up,
        distance_pct: 50,
        duration_ms: 300,
        description: None,
    });
    assert_eq!(
        scroll.command(1080, 2400),
        DeviceCommand::Swipe { start_x: 540, start_y: 1800, end_x: 540, end_y: 600, duration_ms: 300 }
    );
    let right = ActionEnum::Scroll(ScrollAction {
        direction: ScrollDirection::Right,
        distance_pct: 50,
        duration_ms: 300,
        description: None,
    });
    assert_eq!(
        right.command(u32::MAX, 10),
        DeviceCommand::Swipe {
            start_x: 1073741823,
            start_y: 5,
            end_x: 3221225471,
            end_y: 5,
            duration_ms: 300
        }
    );
    assert_eq!(wait(7).command(1, 1), DeviceCommand::Sleep { duration_ms: 7 });
    assert_eq!(
        ActionEnum::PressKey(PressKeyAction { keycode: KeyCode::Tab, description: None }).command(1, 1),
        DeviceCommand::PressKey { keycode: 61 }
    );
    assert_eq!(
        ActionEnum::Finish(FinishAction { result: "x".into(), success: true }).command(1, 1),
        DeviceCommand::Nothing
    );
}

#[test]
fn app_names() {
    assert_eq!(app_name_to_package("微信"), Some("com.tencent.mm".to_string()));
    assert_eq!(app_name_to_package("Chrome"), Some("com.android.chrome".to_string()));
    assert_eq!(app_name_to_package("QQ音乐"), Some("com.tencent.qqmusic".to_string()));
    assert_eq!(app_name_to_package("org.example"), Some("org.example".to_string()));
    assert_eq!(app_name_to_package("unknown"), None);
    assert_eq!(get_app_packages().len(), 35);
    let launch = LaunchAction::from_app_name("淘宝").unwrap();
    assert_eq!(launch.package, "com.taobao.taobao");
    assert_eq!(launch.description, Some("启动应用: 淘宝".to_string()));
    assert!(LaunchAction::from_app_name("nothing").is_none());
    let alias = LaunchAction { package: "支付宝".into(), activity: None, description: None };
    assert_eq!(alias.resolve(), Ok("com.eg.android.AlipayGphone".to_string()));
    let bad = LaunchAction { package: "nothing".into(), activity: None, description: None };
    assert_eq!(
        bad.resolve(),
        Err(AppError::AdbError(
            "无法识别的应用名称: nothing，请使用完整的包名或已知的应用名称".to_string()
        ))
    );
}

#[test]
fn results() {
    let ok = ActionResult::success("done".to_string(), 12);
    assert!(ok.success);
    assert_eq!((ok.message.as_str(), ok.duration_ms), ("done", 12));
    assert_eq!((ok.screenshot_before, ok.screenshot_after), (None, None));
    let bad = ActionResult::failure("no".to_string(), 3);
    assert!(!bad.success);
    assert_eq!(bad.message, "no");

    let tap = ActionEnum::Tap(TapAction { x: 1, y: 2, description: None });
    assert_eq!(tap.outcome(5, None), ActionResult::success("点击 (1, 2)".to_string(), 5));
    let finish = ActionEnum::Finish(FinishAction { result: "bye".into(), success: false });
    assert_eq!(finish.outcome(99, None), ActionResult::failure("bye".to_string(), 0));
    let shot = ActionEnum::Screenshot(ScreenshotAction { description: None });
    let r = shot.outcome(8, Some("img".to_string()));
    assert_eq!(r.message, "截图成功");
    assert_eq!(r.screenshot_before, Some("img".to_string()));
    let launch =
        ActionEnum::Launch(LaunchAction { package: "微博".into(), activity: None, description: None });
    assert_eq!(launch.outcome(1, None).message, "启动应用: com.sina.weibo");
}

#[test]
fn operations_become_actions() {
    let a = ActionEnum::from_parsed(parsed("Tap", vec![("element", ParamValue::List(vec![Some(5), Some(6), Some(7)]))]));
    assert_eq!(a, Some(ActionEnum::Tap(TapAction { x: 5, y: 6, description: None })));
    let a = ActionEnum::from_parsed(parsed(
        "tap",
        vec![("x", ParamValue::Int(9)), ("y", ParamValue::Int(4294967296))],
    ));
    assert_eq!(a, Some(ActionEnum::Tap(TapAction { x: 9, y: u32::MAX, description: None })));
    assert_eq!(ActionEnum::from_parsed(parsed("tap", vec![("element", ParamValue::List(vec![Some(5)]))])), None);
    let a = ActionEnum::from_parsed(parsed("tap", vec![("element", ParamValue::List(vec![Some(5), Some(6), None]))]));
    assert_eq!(a, Some(ActionEnum::Tap(TapAction { x: 5, y: 6, description: None })));
    assert_eq!(
        ActionEnum::from_parsed(parsed(
            "tap",
            vec![("element", ParamValue::List(vec![Some(5), None])), ("x", ParamValue::Int(1)), ("y", ParamValue::Int(2))]
        )),
        None
    );
    let a = ActionEnum::from_parsed(parsed("long_press", vec![("element", ParamValue::List(vec![Some(1), Some(2)]))]));
    assert_eq!(
        a,
        Some(ActionEnum::LongPress(LongPressAction { x: 1, y: 2, duration_ms: 1000, description: None }))
    );
    let a = ActionEnum::from_parsed(parsed(
        "SWIPE",
        vec![
            ("start", ParamValue::List(vec![Some(1), Some(2)])),
            ("end", ParamValue::List(vec![Some(3), Some(4)])),
            ("duration_ms", ParamValue::Int(250)),
        ],
    ));
    assert_eq!(a, Some(swipe(250)));
    let a = ActionEnum::from_parsed(parsed(
        "scroll",
        vec![
            ("direction", ParamValue::Text("Down".into())),
            ("distance_pct", ParamValue::Int(40)),
            ("duration_ms", ParamValue::Int(300)),
        ],
    ));
    assert_eq!(
        a,
        Some(ActionEnum::Scroll(ScrollAction {
            direction: ScrollDirection::Down,
            distance_pct: 40,
            duration_ms: 300,
            description: None
        }))
    );
    let a = ActionEnum::from_parsed(parsed("type", vec![("text", ParamValue::Text("abc".into()))]));
    assert_eq!(a, Some(ActionEnum::Type(TypeAction { text: "abc".into(), description: None })));
    let a = ActionEnum::from_parsed(parsed("press_key", vec![("keycode", ParamValue::Int(66))]));
    assert_eq!(
        a,
        Some(ActionEnum::PressKey(PressKeyAction { keycode: KeyCode::Enter, description: None }))
    );
    for (kind, expected) in [
        ("back", ActionEnum::Back(BackAction { description: None })),
        ("Home", ActionEnum::Home(HomeAction { description: None })),
        ("recent", ActionEnum::Recent(RecentAction { description: None })),
        ("notification", ActionEnum::Notification(NotificationAction { description: None })),
        ("screenshot", ActionEnum::Screenshot(ScreenshotAction { description: None })),
    ] {
        assert_eq!(ActionEnum::from_parsed(parsed(kind, vec![])), Some(expected));
    }
    let a = ActionEnum::from_parsed(parsed("launch", vec![("package", ParamValue::Text("x".into()))]));
    assert_eq!(
        a,
        Some(ActionEnum::Launch(LaunchAction { package: "x".into(), activity: None, description: None }))
    );
    assert_eq!(
        ActionEnum::from_parsed(parsed("launch", vec![("app", ParamValue::Text("x".into()))])),
        None
    );
    let a = ActionEnum::from_parsed(parsed("wait", vec![]));
    assert_eq!(a, Some(wait(1000)));
    let a = ActionEnum::from_parsed(parsed(
        "wait",
        vec![("duration", ParamValue::Int(5)), ("reason", ParamValue::Text("r".into()))],
    ));
    assert_eq!(a, Some(ActionEnum::Wait(WaitAction { duration_ms: 5000, reason: Some("r".into()) })));
    let a = ActionEnum::from_parsed(parsed("wait", vec![("duration", ParamValue::Int(u64::MAX))]));
    assert_eq!(a, Some(wait(u32::MAX)));
    let a = ActionEnum::from_parsed(parsed("finish", vec![]));
    assert_eq!(
        a,
        Some(ActionEnum::Finish(FinishAction { result: "任务完成".into(), success: true }))
    );
    let a = ActionEnum::from_parsed(parsed(
        "finish",
        vec![("message", ParamValue::Text("m".into())), ("success", ParamValue::Bool(false))],
    ));
    assert_eq!(a, Some(ActionEnum::Finish(FinishAction { result: "m".into(), success: false })));
    assert_eq!(ActionEnum::from_parsed(parsed("fly", vec![])), None);
}

#[test]
fn every_kind_parses_to_its_variant_and_is_valid() {
    let cases = [
        ("do(action=\"Tap\", element=[1,2])", "tap"),
        ("do(action=\"Long_Press\", element=[1,2], duration_ms=400)", "long_press"),
        ("do(action=\"double_tap\", x=1, y=2)", "double_tap"),
        ("do(action=\"Swipe\", start=[1,2], end=[3,4])", "swipe"),
        ("do(action=\"Scroll\", direction=\"up\", distance_pct=10, duration_ms=100)", "scroll"),
        ("do(action=\"Type\", text=\"hello world\")", "type"),
        ("do(action=\"press_key\", keycode=4)", "press_key"),
        ("do(action=\"Back\")", "back"),
        ("do(action=\"Home\")", "home"),
        ("do(action=\"Recent\")", "recent"),
        ("do(action=\"Notification\")", "notification"),
        ("do(action=\"Launch\", app=\"设置\")", "launch"),
        ("do(action=\"Wait\", duration_ms=10)", "wait"),
        ("do(action=\"Screenshot\")", "screenshot"),
        ("do(action=\"Finish\", message=\"m\")", "finish"),
    ];
    for (text, kind) in cases {
        let (_, actions) = ActionEnum::parse_from_response(text);
        assert_eq!(actions.len(), 1, "{}", text);
        assert_eq!(actions[0].action_type(), kind);
        assert_eq!(actions[0].validate(), Ok(()));
    }
}

#[test]
fn kinds_directions_and_packages_from_lowered_text() {
    assert_eq!(normalize_lowered("doubletap".to_string()), "double_tap");
    assert_eq!(normalize_lowered("longpress".to_string()), "long_press");
    assert_eq!(normalize_lowered("presskey".to_string()), "press_key");
    assert_eq!(normalize_lowered("type_name".to_string()), "type");
    assert_eq!(normalize_lowered("tap".to_string()), "tap");
    assert_eq!(normalize_lowered("DoubleTap".to_string()), "DoubleTap");
    assert_eq!(direction_of_lowered("up"), Some(ScrollDirection::Up));
    assert_eq!(direction_of_lowered("down"), Some(ScrollDirection::Down));
    assert_eq!(direction_of_lowered("left"), Some(ScrollDirection::Left));
    assert_eq!(direction_of_lowered("right"), Some(ScrollDirection::Right));
    assert_eq!(direction_of_lowered("Up"), None);
    assert_eq!(package_with_lowered("WeChat", "wechat"), Some("com.tencent.mm".to_string()));
    assert_eq!(package_with_lowered("微信", "微信"), Some("com.tencent.mm".to_string()));
    assert_eq!(package_with_lowered("WeChat", "WeChat"), None);
    assert_eq!(package_with_lowered("com.Example.App", "com.example.app"), Some("com.Example.App".to_string()));
    assert_eq!(package_with_lowered("nothing", "nothing"), None);
}

#[test]
fn actions_from_resolved_kinds() {
    let p = params(vec![("distance_pct", ParamValue::Int(40)), ("duration_ms", ParamValue::Int(300))]);
    assert_eq!(
        ActionEnum::from_resolved("scroll", &p, Some(ScrollDirection::Left), None),
        Some(ActionEnum::Scroll(ScrollAction {
            direction: ScrollDirection::Left,
            distance_pct: 40,
            duration_ms: 300,
            description: None
        }))
    );
    assert_eq!(ActionEnum::from_resolved("scroll", &p, None, None), None);
    assert_eq!(
        ActionEnum::from_resolved("launch", &p, None, Some("com.tencent.mm".to_string())),
        Some(ActionEnum::Launch(LaunchAction {
            package: "com.tencent.mm".to_string(),
            activity: None,
            description: None
        }))
    );
    assert_eq!(ActionEnum::from_resolved("launch", &p, Some(ScrollDirection::Up), None), None);
    let point = params(vec![("element", ParamValue::List(vec![Some(100), Some(200)]))]);
    assert_eq!(
        ActionEnum::from_resolved("tap", &point, None, None),
        Some(ActionEnum::Tap(TapAction { x: 100, y: 200, description: None }))
    );
    assert_eq!(ActionEnum::from_resolved("Tap", &point, None, None), None);
    let wait = params(vec![("duration", ParamValue::Int(2))]);
    assert_eq!(
        ActionEnum::from_resolved("wait", &wait, None, None),
        Some(ActionEnum::Wait(WaitAction { duration_ms: 2000, reason: None }))
    );
    assert_eq!(elements_of(&vec![3, 4]), vec![Some(3), Some(4)]);
}
