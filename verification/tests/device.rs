use scrcpy_rs::agent::actions::base::DeviceCommand;
use scrcpy_rs::agent::executor::device_wrapper::{
    check_key, check_screenshot, check_shell, check_text, escape_text, parse_current_app,
    parse_screen_size, scale, CommandOutput, DeviceStep, ScrcpyDeviceWrapper,
};
use scrcpy_rs::error::AppError;
use scrcpy_rs::scrcpy::scrcpy::ScrcpyConnect;

fn device() -> ScrcpyDeviceWrapper {
    ScrcpyDeviceWrapper::new("SER".to_string(), "phone".to_string(), ScrcpyConnect::new(1, 2))
}

fn scaled_device() -> ScrcpyDeviceWrapper {
    let mut d = device();
    d.parse_and_store_resolution("Physical size: 1440x3200\nOverride size: 1080x2400");
    d
}

fn adb(words: &[&str]) -> DeviceStep {
    let mut args = vec!["-s".to_string(), "SER".to_string(), "shell".to_string()];
    args.extend(words.iter().map(|w| w.to_string()));
    DeviceStep::Adb { args }
}

fn failed(stdout: &str, stderr: &str, code: Option<i32>) -> Result<CommandOutput, String> {
    Ok(CommandOutput { success: false, code, stdout: stdout.to_string(), stderr: stderr.to_string() })
}

fn text_of(r: Result<(), AppError>) -> String {
    match r {
        Err(AppError::AdbError(m)) => m,
        other => panic!("expected a device error, got {:?}", other),
    }
}

#[test]
fn a_tap_is_delivered_in_physical_pixels() {
    let d = scaled_device();
    assert_eq!(d.physical_resolution, Some((1440, 3200)));
    assert_eq!(d.override_resolution, Some((1080, 2400)));
    assert_eq!(d.convert_to_physical_coords(540, 1200), (720, 1600));
    assert_eq!(
        d.tap_args(540, 1200),
        vec!["-s", "SER", "shell", "input", "tap", "720", "1600"]
    );
    assert_eq!(d.screen_size(), Ok((1080, 2400)));
}

#[test]
fn coordinates_are_rounded_to_the_nearest_pixel() {
    assert_eq!(scale(1, 3, 2), 2);
    assert_eq!(scale(1, 1, 2), 1);
    assert_eq!(scale(1, 1, 3), 0);
    assert_eq!(scale(2, 1, 3), 1);
    assert_eq!(scale(100, 1440, 1080), 133);
    assert_eq!(scale(101, 1440, 1080), 135);
    assert_eq!(scale(7, 5, 0), 7);
    assert_eq!(scale(u32::MAX, u32::MAX, 1), u32::MAX);
    assert_eq!(scale(u32::MAX, 1, u32::MAX), 1);
    assert_eq!(scale(0, 1440, 1080), 0);
}

#[test]
fn without_both_resolutions_coordinates_stay() {
    let mut d = device();
    assert_eq!(d.convert_to_physical_coords(540, 1200), (540, 1200));
    d.parse_and_store_resolution("Physical size: 1440x3200");
    assert_eq!(d.override_resolution, None);
    assert_eq!(d.convert_to_physical_coords(540, 1200), (540, 1200));
    assert_eq!(d.screen_size(), Ok((1440, 3200)));
    d.parse_and_store_resolution("nothing");
    assert_eq!(d.physical_resolution, None);
    assert_eq!(d.screen_size(), Err(AppError::AdbError("无法获取屏幕分辨率".to_string())));
}

#[test]
fn resolutions_are_read_strictly_and_the_last_line_counts() {
    let mut d = device();
    d.parse_and_store_resolution(
        "Physical size: 1x2\nPhysical size:  720 x 1600 \r\nOverride size: 10x20px\nOverride size: 0x0",
    );
    assert_eq!(d.physical_resolution, Some((720, 1600)));
    assert_eq!(d.override_resolution, Some((0, 0)));
    d.parse_and_store_resolution("Physical size: 1080\nOverride size: ax5");
    assert_eq!(d.physical_resolution, None);
    assert_eq!(d.override_resolution, None);
}

#[test]
fn screen_sizes() {
    assert_eq!(parse_screen_size("Physical size: 1440x3200\nOverride size: 1080x2400"), Ok((1440, 3200)));
    assert_eq!(parse_screen_size("Override size: 1080x2400"), Ok((1080, 2400)));
    assert_eq!(parse_screen_size("Physical size: 1440x3200px"), Ok((1440, 3200)));
    assert_eq!(parse_screen_size("Physical size: 0x3200\nOverride size: 5x6"), Ok((5, 6)));
    assert_eq!(parse_screen_size("size is 720x1280 here"), Ok((720, 1280)));
    assert_eq!(parse_screen_size("a x b\nx\n3x4"), Ok((3, 4)));
    assert_eq!(parse_screen_size("Physical size: 5x6 Physical size: 7x8"), Ok((5, 6)));
    assert_eq!(
        parse_screen_size("no size"),
        Err(AppError::AdbError("无法解析屏幕尺寸: no size".to_string()))
    );
    assert_eq!(
        parse_screen_size("99999999999x5"),
        Err(AppError::AdbError("无法解析屏幕尺寸: 99999999999x5".to_string()))
    );
    assert_eq!(parse_screen_size(""), Err(AppError::AdbError("无法解析屏幕尺寸: ".to_string())));
}

#[test]
fn text_is_escaped_for_the_shell() {
    assert_eq!(escape_text("a b"), "a%sb");
    assert_eq!(escape_text("x&y(z);|<>"), "x\\&y\\(z\\)\\;\\|\\<\\>");
    assert_eq!(escape_text("你好 %s"), "你好%s%s");
    assert_eq!(escape_text(""), "");
}

#[test]
fn steps_of_every_command() {
    let d = scaled_device();
    let steps = |c: DeviceCommand| d.steps_for(c, "hi there", "com.x");
    assert_eq!(steps(DeviceCommand::Tap { x: 540, y: 1200 }), vec![adb(&["input", "tap", "720", "1600"])]);
    assert_eq!(
        steps(DeviceCommand::DoubleTap { x: 540, y: 1200 }),
        vec![
            adb(&["input", "tap", "720", "1600"]),
            DeviceStep::Sleep { ms: 100 },
            adb(&["input", "tap", "720", "1600"]),
        ]
    );
    assert_eq!(
        steps(DeviceCommand::LongPress { x: 3, y: 6, duration_ms: 800 }),
        vec![adb(&["input", "swipe", "4", "8", "4", "8", "800"])]
    );
    assert_eq!(
        steps(DeviceCommand::Swipe { start_x: 0, start_y: 0, end_x: 1080, end_y: 2400, duration_ms: 500 }),
        vec![adb(&["input", "swipe", "0", "0", "1440", "3200", "500"])]
    );
    assert_eq!(steps(DeviceCommand::InputText), vec![adb(&["input", "text", "hi%sthere"])]);
    assert_eq!(steps(DeviceCommand::PressKey { keycode: 66 }), vec![adb(&["input", "keyevent", "66"])]);
    assert_eq!(steps(DeviceCommand::Back), vec![adb(&["input", "keyevent", "4"])]);
    assert_eq!(steps(DeviceCommand::Home), vec![adb(&["input", "keyevent", "3"])]);
    assert_eq!(steps(DeviceCommand::Recent), vec![adb(&["input", "keyevent", "187"])]);
    assert_eq!(
        steps(DeviceCommand::Notification),
        vec![adb(&["input", "swipe", "720", "0", "720", "667", "300"])]
    );
    assert_eq!(
        steps(DeviceCommand::LaunchApp),
        vec![
            adb(&["monkey", "-p", "com.x", "-c", "android.intent.category.LAUNCHER", "1"]),
            DeviceStep::Sleep { ms: 1000 },
        ]
    );
    assert_eq!(steps(DeviceCommand::Sleep { duration_ms: 42 }), vec![DeviceStep::Sleep { ms: 42 }]);
    assert_eq!(steps(DeviceCommand::Screenshot), vec![adb(&["screencap", "-p"])]);
    assert_eq!(steps(DeviceCommand::Nothing), vec![]);
    assert_eq!(d.wm_size_args(), vec!["-s", "SER", "shell", "wm size"]);
    assert_eq!(d.ping_args(), vec!["-s", "SER", "shell", "echo", "ping"]);
    assert_eq!(
        d.current_app_args(),
        vec!["-s", "SER", "shell", "dumpsys window windows | grep -E 'mCurrentFocus'"]
    );
    assert_eq!((d.serial(), d.name()), ("SER", "phone"));
}

#[test]
fn what_a_failed_launch_means() {
    let d = device();
    let ok = Ok(CommandOutput { success: true, code: Some(0), stdout: String::new(), stderr: String::new() });
    assert_eq!(d.check_launch("com.x", &ok), Ok(()));
    let m = text_of(d.check_launch("com.x", &failed("No package found", "", Some(1))));
    assert!(m.starts_with("启动应用失败：找不到应用 'com.x'\n\n可能的原因：\n1. 应用未安装"));
    assert!(m.ends_with("- 或使用支持的应用名称（如：微信、淘宝、抖音等）"));
    let m = text_of(d.check_launch("com.x", &failed("", "error: device offline", Some(1))));
    assert!(m.starts_with("设备连接失败：设备 'SER' 不可用\n\n"));
    let m = text_of(d.check_launch("com.x", &failed("", "permission denied", Some(1))));
    assert!(m.starts_with("权限不足：无法启动应用\n\n"));
    let m = text_of(d.check_launch("com.x", &failed("out", "err", Some(1))));
    assert_eq!(
        m,
        "启动应用失败：com.x\n\n应用包名：com.x\n错误详情：err\n\n建议：\n- 检查应用是否已安装\n- 尝试使用其他启动方式\n- 检查设备状态"
    );
    let m = text_of(d.check_launch("com.x", &failed("out", "", Some(1))));
    assert!(m.contains("错误详情：out\n"));
    let m = text_of(d.check_launch("com.x", &failed("", "", Some(-3))));
    assert!(m.contains("错误详情：未知错误 (退出码: Some(-3))\n"));
    let m = text_of(d.check_launch("com.x", &failed("", "", None)));
    assert!(m.contains("错误详情：未知错误 (退出码: None)\n"));
    let m = text_of(d.check_launch("com.x", &failed("", "", Some(i32::MIN))));
    assert!(m.contains("(退出码: Some(-2147483648))"));
    let m = text_of(d.check_launch("com.x", &Err("no adb".to_string())));
    assert_eq!(m, "ADB 命令执行失败: no adb");
}

#[test]
fn what_failed_input_commands_mean() {
    let d = scaled_device();
    let ok = Ok(CommandOutput { success: true, code: Some(0), stdout: " out \n".into(), stderr: String::new() });
    assert_eq!(d.check_tap(1, 2, &ok), Ok(()));
    let m = text_of(d.check_tap(540, 1200, &failed("", "boom", Some(1))));
    assert!(m.starts_with(
        "点击操作失败：命令执行失败\n\n坐标：(540, 1200)\n转换后物理坐标：(720, 1600)\n错误信息：boom\n\n"
    ));
    let m = text_of(d.check_tap(5, 6, &Err("gone".to_string())));
    assert!(m.starts_with("点击操作失败：无法执行 ADB 命令\n\n坐标：(5, 6)\n错误：gone\n\n建议：\n"));
    let m = text_of(d.check_swipe(0, 0, 1080, 2400, 300, &failed("", "e", None)));
    assert!(m.starts_with(
        "滑动操作失败：命令执行失败\n\n起点：(0, 0) -> 物理坐标：(0, 0)\n终点：(1080, 2400) -> 物理坐标：(1440, 3200)\n持续时间：300ms\n错误信息：e\n\n"
    ));
    let m = text_of(d.check_swipe(1, 2, 3, 4, 5, &Err("x".to_string())));
    assert!(m.starts_with("滑动操作失败：无法执行 ADB 命令\n\n起点：(1, 2)\n终点：(3, 4)\n持续时间：5ms\n错误：x\n"));
    assert_eq!(d.check_swipe(1, 2, 3, 4, 5, &ok), Ok(()));
    let m = text_of(check_text("hello", &failed("", "e", None)));
    assert!(m.starts_with("输入文本失败：命令执行失败\n\n文本内容：hello\n错误信息：e\n\n"));
    let m = text_of(check_text("hello", &Err("x".to_string())));
    assert!(m.starts_with("输入文本失败：无法执行 ADB 命令\n\n文本内容：hello\n错误：x\n\n"));
    assert_eq!(check_text("t", &ok), Ok(()));
    assert_eq!(check_key(&ok), Ok(()));
    assert_eq!(text_of(check_key(&failed("", "", None))), "按键命令执行失败");
    assert_eq!(text_of(check_key(&Err("x".to_string()))), "按键失败: x");
    assert_eq!(check_shell(&ok), Ok("out".to_string()));
    assert_eq!(
        check_shell(&failed("", "bad", None)),
        Err(AppError::AdbError("命令执行失败: bad".to_string()))
    );
    assert_eq!(
        check_shell(&Err("x".to_string())),
        Err(AppError::AdbError("执行命令失败: x".to_string()))
    );
    assert_eq!(check_screenshot(Ok(true), b"hello"), Ok("aGVsbG8=".to_string()));
    assert_eq!(
        check_screenshot(Ok(false), b"hello"),
        Err(AppError::AdbError("截图命令执行失败".to_string()))
    );
    assert_eq!(
        check_screenshot(Err("x".to_string()), b""),
        Err(AppError::AdbError("截图失败: x".to_string()))
    );
}

#[test]
fn the_app_in_front() {
    assert_eq!(
        parse_current_app("mCurrentFocus=Window{1a2b com.android.settings/com.android.settings.Settings}"),
        Ok("com.android.settings".to_string())
    );
    assert_eq!(parse_current_app("a /b"), Ok(String::new()));
    assert_eq!(
        parse_current_app("nospace/x"),
        Err(AppError::AdbError("无法解析当前应用包名".to_string()))
    );
    assert_eq!(
        parse_current_app("a/b c"),
        Err(AppError::AdbError("无法解析当前应用包名".to_string()))
    );
}
