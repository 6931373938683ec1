//! The closed set of actions, and what holds of every one of them.

use vstd::prelude::*;
use vstd::utf8::encode_utf8;
use crate::agent::actions::input::{KeyCode, PressKeyAction, TypeAction};
use crate::agent::actions::navigation::{BackAction, HomeAction, NotificationAction, RecentAction};
use crate::agent::actions::swipe::{scroll_swipe, ScrollAction, ScrollDirection, SwipeAction};
use crate::agent::actions::system::{
    is_package_name, launch_target, package_for, FinishAction, LaunchAction, ScreenshotAction,
    WaitAction,
};
use crate::agent::actions::touch::{DoubleTapAction, LongPressAction, TapAction};
use crate::agent::engine::traits::{
    opt_text, ActionError, ActionFault, ActionResult, ActionView, ResultView,
};
use crate::error::AppError;
use crate::text::{concat2, concat3, decimal};

verus! {

/// Every operation that an agent may perform against a device.
#[derive(Debug, Clone, PartialEq, Eq)]
pub enum ActionEnum {
    Tap(TapAction),
    LongPress(LongPressAction),
    DoubleTap(DoubleTapAction),
    Swipe(SwipeAction),
    Scroll(ScrollAction),
    Type(TypeAction),
    PressKey(PressKeyAction),
    Back(BackAction),
    Home(HomeAction),
    Recent(RecentAction),
    Notification(NotificationAction),
    Launch(LaunchAction),
    Wait(WaitAction),
    Screenshot(ScreenshotAction),
    Finish(FinishAction),
}

impl View for ActionEnum {
    type V = ActionView;

    open spec fn view(&self) -> ActionView {
        match *self {
            ActionEnum::Tap(a) => a@,
            ActionEnum::LongPress(a) => a@,
            ActionEnum::DoubleTap(a) => a@,
            ActionEnum::Swipe(a) => a@,
            ActionEnum::Scroll(a) => a@,
            ActionEnum::Type(a) => a@,
            ActionEnum::PressKey(a) => a@,
            ActionEnum::Back(a) => a@,
            ActionEnum::Home(a) => a@,
            ActionEnum::Recent(a) => a@,
            ActionEnum::Notification(a) => a@,
            ActionEnum::Launch(a) => a@,
            ActionEnum::Wait(a) => a@,
            ActionEnum::Screenshot(a) => a@,
            ActionEnum::Finish(a) => a@,
        }
    }
}

/// The name of an action's kind.
pub open spec fn kind_name(a: ActionView) -> Seq<char> {
    match a {
        ActionView::Tap { .. } => "tap"@,
        ActionView::LongPress { .. } => "long_press"@,
        ActionView::DoubleTap { .. } => "double_tap"@,
        ActionView::Swipe { .. } => "swipe"@,
        ActionView::Scroll { .. } => "scroll"@,
        ActionView::Type { .. } => "type"@,
        ActionView::PressKey { .. } => "press_key"@,
        ActionView::Back { .. } => "back"@,
        ActionView::Home { .. } => "home"@,
        ActionView::Recent { .. } => "recent"@,
        ActionView::Notification { .. } => "notification"@,
        ActionView::Launch { .. } => "launch"@,
        ActionView::Wait { .. } => "wait"@,
        ActionView::Screenshot { .. } => "screenshot"@,
        ActionView::Finish { .. } => "finish"@,
    }
}

/// Whether a coordinate is within the bound that validation accepts.
pub open spec fn coordinate_ok(c: u32) -> bool {
    c <= 10000
}

/// The fault that validation finds with a duration that must lie between
/// `min` and `max` milliseconds.
pub open spec fn duration_fault(d: u32, min: u32, max: u32) -> Option<ActionFault> {
    if d < min {
        Some(ActionFault::DurationTooShort(d))
    } else if d > max {
        Some(ActionFault::DurationTooLong(d))
    } else {
        None
    }
}

/// The larger of two coordinates.
pub open spec fn larger(a: u32, b: u32) -> u32 {
    if a >= b {
        a
    } else {
        b
    }
}

/// The fault that validation finds with an action, or none where the
/// action is acceptable. Coordinates must be at most 10000; a long press
/// lasts 100 to 10000 ms, a swipe 50 to 5000 ms, a scroll 50 to 2000 ms
/// over 1 to 100 percent, a wait at most 60000 ms; typed text is non-empty
/// and at most 10000 bytes long; a launched app is a package identifier or
/// a known alias.
pub open spec fn fault_of(a: ActionView) -> Option<ActionFault> {
    match a {
        ActionView::Tap { x, y, .. } => if coordinate_ok(x) && coordinate_ok(y) {
            None
        } else {
            Some(ActionFault::OutOfBounds { x, y })
        },
        ActionView::LongPress { x, y, duration_ms, .. } => if !(coordinate_ok(x) && coordinate_ok(
            y,
        )) {
            Some(ActionFault::OutOfBounds { x, y })
        } else {
            duration_fault(duration_ms, 100, 10000)
        },
        ActionView::DoubleTap { x, y, .. } => if coordinate_ok(x) && coordinate_ok(y) {
            None
        } else {
            Some(ActionFault::OutOfBounds { x, y })
        },
        ActionView::Swipe { start_x, start_y, end_x, end_y, duration_ms, .. } => if !(
        coordinate_ok(start_x) && coordinate_ok(start_y) && coordinate_ok(end_x) && coordinate_ok(
            end_y,
        )) {
            Some(
                ActionFault::OutOfBounds { x: larger(start_x, end_x), y: larger(start_y, end_y) },
            )
        } else {
            duration_fault(duration_ms, 50, 5000)
        },
        ActionView::Scroll { distance_pct, duration_ms, .. } => if distance_pct > 100 {
            Some(ActionFault::InvalidParameters("距离百分比不能超过100"@))
        } else if distance_pct < 1 {
            Some(ActionFault::InvalidParameters("距离百分比不能小于1"@))
        } else {
            duration_fault(duration_ms, 50, 2000)
        },
        ActionView::Type { text, .. } => if text.len() == 0 {
            Some(ActionFault::InvalidParameters("文本不能为空"@))
        } else if encode_utf8(text).len() > 10000 {
            Some(ActionFault::InvalidParameters("文本过长"@))
        } else {
            None
        },
        ActionView::Launch { package, .. } => if package.len() == 0 {
            Some(ActionFault::InvalidParameters("应用名称不能为空"@))
        } else if !is_package_name(package) && package_for(package) is None {
            Some(
                ActionFault::InvalidParameters(
                    "暂时没有 "@ + package + " 对应的包名 可以在Home页其他页面查找一下"@,
                ),
            )
        } else {
            None
        },
        ActionView::Wait { duration_ms, .. } => if duration_ms > 60000 {
            Some(ActionFault::DurationTooLong(duration_ms))
        } else {
            None
        },
        _ => None,
    }
}

/// Whether `r` is what validation owes for the action `a`: success exactly
/// where the action has no fault, else the fault.
pub open spec fn validated(r: Result<(), ActionError>, a: ActionView) -> bool {
    match r {
        Ok(_) => fault_of(a) is None,
        Err(e) => fault_of(a) == Some(e@),
    }
}

/// The text that describes an action in logs: the description it carries,
/// or a standard text made of its parameters.
pub open spec fn description_of(a: ActionView) -> Seq<char> {
    match a {
        ActionView::Tap { x, y, description } => match description {
            Some(d) => d,
            None => "点击 ("@ + decimal(x as nat) + ", "@ + decimal(y as nat) + ")"@,
        },
        ActionView::LongPress { x, y, duration_ms, description } => match description {
            Some(d) => d,
            None => "长按 ("@ + decimal(x as nat) + ", "@ + decimal(y as nat) + ") "@ + decimal(
                duration_ms as nat,
            ) + "ms"@,
        },
        ActionView::DoubleTap { x, y, description } => match description {
            Some(d) => d,
            None => "双击 ("@ + decimal(x as nat) + ", "@ + decimal(y as nat) + ")"@,
        },
        ActionView::Swipe { start_x, start_y, end_x, end_y, duration_ms, description } => match description {
            Some(d) => d,
            None => "滑动 from ("@ + decimal(start_x as nat) + ","@ + decimal(start_y as nat)
                + ") to ("@ + decimal(end_x as nat) + ","@ + decimal(end_y as nat) + ") "@
                + decimal(duration_ms as nat) + "ms"@,
        },
        ActionView::Scroll { direction, distance_pct, duration_ms, description } => match description {
            Some(d) => d,
            None => "滚动 "@ + direction.name() + " "@ + decimal(distance_pct as nat) + "% "@
                + decimal(duration_ms as nat) + "ms"@,
        },
        ActionView::Type { text, description } => match description {
            Some(d) => d,
            None => "输入文本: "@ + text,
        },
        ActionView::PressKey { keycode, description } => match description {
            Some(d) => d,
            None => "按键: "@ + keycode.name(),
        },
        ActionView::Back { description } => match description {
            Some(d) => d,
            None => "按下返回键"@,
        },
        ActionView::Home { description } => match description {
            Some(d) => d,
            None => "按下 Home 键"@,
        },
        ActionView::Recent { description } => match description {
            Some(d) => d,
            None => "打开最近任务"@,
        },
        ActionView::Notification { description } => match description {
            Some(d) => d,
            None => "打开通知栏"@,
        },
        ActionView::Launch { package, description, .. } => match description {
            Some(d) => d,
            None => "启动应用: "@ + package,
        },
        ActionView::Wait { duration_ms, reason } => match reason {
            Some(d) => d,
            None => "等待 "@ + decimal(duration_ms as nat) + "ms"@,
        },
        ActionView::Screenshot { description } => match description {
            Some(d) => d,
            None => "截图"@,
        },
        ActionView::Finish { result, .. } => "完成任务: "@ + result,
    }
}

/// `d + 100`, or the largest `u32` where that does not fit.
pub open spec fn plus_overhead(d: u32) -> u32 {
    if d + 100 > u32::MAX {
        u32::MAX
    } else {
        (d + 100) as u32
    }
}

/// How long an action is expected to take, in milliseconds.
pub open spec fn estimate(a: ActionView) -> u32 {
    match a {
        ActionView::Tap { .. } => 100,
        ActionView::LongPress { duration_ms, .. } => plus_overhead(duration_ms),
        ActionView::DoubleTap { .. } => 300,
        ActionView::Swipe { duration_ms, .. } => plus_overhead(duration_ms),
        ActionView::Scroll { duration_ms, .. } => plus_overhead(duration_ms),
        ActionView::Type { .. } => 200,
        ActionView::PressKey { .. } => 100,
        ActionView::Back { .. } => 100,
        ActionView::Home { .. } => 100,
        ActionView::Recent { .. } => 100,
        ActionView::Notification { .. } => 300,
        ActionView::Launch { .. } => 2000,
        ActionView::Wait { duration_ms, .. } => duration_ms,
        ActionView::Screenshot { .. } => 500,
        ActionView::Finish { .. } => 0,
    }
}

/// What a device is asked to do for an action. Text to type and the
/// package to launch are taken from the action itself.
#[derive(Debug, Clone, Copy, PartialEq, Eq)]
pub enum DeviceCommand {
    Tap { x: u32, y: u32 },
    LongPress { x: u32, y: u32, duration_ms: u32 },
    DoubleTap { x: u32, y: u32 },
    Swipe { start_x: u32, start_y: u32, end_x: u32, end_y: u32, duration_ms: u32 },
    InputText,
    PressKey { keycode: u32 },
    Back,
    Home,
    Recent,
    Notification,
    LaunchApp,
    Sleep { duration_ms: u32 },
    Screenshot,
    /// Nothing is asked of the device.
    Nothing,
}

/// The command that performs an action on a device whose logical screen
/// has the given size. The size only matters to a scroll.
pub open spec fn command_of(a: ActionView, width: u32, height: u32) -> DeviceCommand {
    match a {
        ActionView::Tap { x, y, .. } => DeviceCommand::Tap { x, y },
        ActionView::LongPress { x, y, duration_ms, .. } => DeviceCommand::LongPress {
            x,
            y,
            duration_ms,
        },
        ActionView::DoubleTap { x, y, .. } => DeviceCommand::DoubleTap { x, y },
        ActionView::Swipe { start_x, start_y, end_x, end_y, duration_ms, .. } => DeviceCommand::Swipe {
            start_x,
            start_y,
            end_x,
            end_y,
            duration_ms,
        },
        ActionView::Scroll { direction, duration_ms, .. } => {
            let p = scroll_swipe(direction, width, height);
            DeviceCommand::Swipe { start_x: p.0, start_y: p.1, end_x: p.2, end_y: p.3, duration_ms }
        },
        ActionView::Type { .. } => DeviceCommand::InputText,
        ActionView::PressKey { keycode, .. } => DeviceCommand::PressKey {
            keycode: keycode.android_keycode(),
        },
        ActionView::Back { .. } => DeviceCommand::Back,
        ActionView::Home { .. } => DeviceCommand::Home,
        ActionView::Recent { .. } => DeviceCommand::Recent,
        ActionView::Notification { .. } => DeviceCommand::Notification,
        ActionView::Launch { .. } => DeviceCommand::LaunchApp,
        ActionView::Wait { duration_ms, .. } => DeviceCommand::Sleep { duration_ms },
        ActionView::Screenshot { .. } => DeviceCommand::Screenshot,
        ActionView::Finish { .. } => DeviceCommand::Nothing,
    }
}

impl ActionEnum {
    /// The name of the action's kind.
    pub fn action_type(&self) -> (r: String)
        ensures
            r@ == kind_name(self@),
    {
        match self {
            ActionEnum::Tap(a) => a.action_type(),
            ActionEnum::LongPress(a) => a.action_type(),
            ActionEnum::DoubleTap(a) => a.action_type(),
            ActionEnum::Swipe(a) => a.action_type(),
            ActionEnum::Scroll(a) => a.action_type(),
            ActionEnum::Type(a) => a.action_type(),
            ActionEnum::PressKey(a) => a.action_type(),
            ActionEnum::Back(a) => a.action_type(),
            ActionEnum::Home(a) => a.action_type(),
            ActionEnum::Recent(a) => a.action_type(),
            ActionEnum::Notification(a) => a.action_type(),
            ActionEnum::Launch(a) => a.action_type(),
            ActionEnum::Wait(a) => a.action_type(),
            ActionEnum::Screenshot(a) => a.action_type(),
            ActionEnum::Finish(a) => a.action_type(),
        }
    }

    /// Checks the parameters of the action: `Ok` exactly where the action
    /// has no fault, else the fault found.
    pub fn validate(&self) -> (r: Result<(), ActionError>)
        ensures
            validated(r, self@),
    {
        match self {
            ActionEnum::Tap(a) => a.validate(),
            ActionEnum::LongPress(a) => a.validate(),
            ActionEnum::DoubleTap(a) => a.validate(),
            ActionEnum::Swipe(a) => a.validate(),
            ActionEnum::Scroll(a) => a.validate(),
            ActionEnum::Type(a) => a.validate(),
            ActionEnum::PressKey(a) => a.validate(),
            ActionEnum::Back(a) => a.validate(),
            ActionEnum::Home(a) => a.validate(),
            ActionEnum::Recent(a) => a.validate(),
            ActionEnum::Notification(a) => a.validate(),
            ActionEnum::Launch(a) => a.validate(),
            ActionEnum::Wait(a) => a.validate(),
            ActionEnum::Screenshot(a) => a.validate(),
            ActionEnum::Finish(a) => a.validate(),
        }
    }

    /// The text that describes the action in logs.
    pub fn description(&self) -> (r: String)
        ensures
            r@ == description_of(self@),
    {
        match self {
            ActionEnum::Tap(a) => a.description(),
            ActionEnum::LongPress(a) => a.description(),
            ActionEnum::DoubleTap(a) => a.description(),
            ActionEnum::Swipe(a) => a.description(),
            ActionEnum::Scroll(a) => a.description(),
            ActionEnum::Type(a) => a.description(),
            ActionEnum::PressKey(a) => a.description(),
            ActionEnum::Back(a) => a.description(),
            ActionEnum::Home(a) => a.description(),
            ActionEnum::Recent(a) => a.description(),
            ActionEnum::Notification(a) => a.description(),
            ActionEnum::Launch(a) => a.description(),
            ActionEnum::Wait(a) => a.description(),
            ActionEnum::Screenshot(a) => a.description(),
            ActionEnum::Finish(a) => a.description(),
        }
    }

    /// How long the action is expected to take, in milliseconds.
    pub fn estimated_duration(&self) -> (r: u32)
        ensures
            r == estimate(self@),
    {
        match self {
            ActionEnum::Tap(_) => 100,
            ActionEnum::LongPress(a) => a.duration_ms.saturating_add(100),
            ActionEnum::DoubleTap(_) => 300,
            ActionEnum::Swipe(a) => a.duration_ms.saturating_add(100),
            ActionEnum::Scroll(a) => a.duration_ms.saturating_add(100),
            ActionEnum::Type(_) => 200,
            ActionEnum::PressKey(_) => 100,
            ActionEnum::Back(_) => 100,
            ActionEnum::Home(_) => 100,
            ActionEnum::Recent(_) => 100,
            ActionEnum::Notification(_) => 300,
            ActionEnum::Launch(_) => 2000,
            ActionEnum::Wait(a) => a.duration_ms,
            ActionEnum::Screenshot(_) => 500,
            ActionEnum::Finish(_) => 0,
        }
    }

    /// No action can be undone.
    pub fn is_reversible(&self) -> (r: bool)
        ensures
            !r,
    {
        false
    }

    /// The command that performs the action on a device whose logical
    /// screen has the given size.
    pub fn command(&self, width: u32, height: u32) -> (r: DeviceCommand)
        ensures
            r == command_of(self@, width, height),
    {
        match self {
            ActionEnum::Tap(a) => DeviceCommand::Tap { x: a.x, y: a.y },
            ActionEnum::LongPress(a) => DeviceCommand::LongPress {
                x: a.x,
                y: a.y,
                duration_ms: a.duration_ms,
            },
            ActionEnum::DoubleTap(a) => DeviceCommand::DoubleTap { x: a.x, y: a.y },
            ActionEnum::Swipe(a) => DeviceCommand::Swipe {
                start_x: a.start_x,
                start_y: a.start_y,
                end_x: a.end_x,
                end_y: a.end_y,
                duration_ms: a.duration_ms,
            },
            ActionEnum::Scroll(a) => {
                let p = a.swipe_points(width, height);
                DeviceCommand::Swipe {
                    start_x: p.0,
                    start_y: p.1,
                    end_x: p.2,
                    end_y: p.3,
                    duration_ms: a.duration_ms,
                }
            },
            ActionEnum::Type(_) => DeviceCommand::InputText,
            ActionEnum::PressKey(a) => DeviceCommand::PressKey {
                keycode: a.keycode.to_android_keycode(),
            },
            ActionEnum::Back(_) => DeviceCommand::Back,
            ActionEnum::Home(_) => DeviceCommand::Home,
            ActionEnum::Recent(_) => DeviceCommand::Recent,
            ActionEnum::Notification(_) => DeviceCommand::Notification,
            ActionEnum::Launch(_) => DeviceCommand::LaunchApp,
            ActionEnum::Wait(a) => DeviceCommand::Sleep { duration_ms: a.duration_ms },
            ActionEnum::Screenshot(_) => DeviceCommand::Screenshot,
            ActionEnum::Finish(_) => DeviceCommand::Nothing,
        }
    }
}

/// The message of the result of an action that the device has performed:
/// the description that the action carries, else a standard text. For a
/// launch the standard text names the package that was started.
pub open spec fn result_message(a: ActionView) -> Seq<char> {
    match a {
        ActionView::Launch { package, description, .. } => match description {
            Some(d) => d,
            None => "启动应用: "@ + (match launch_target(package) {
                Some(target) => target,
                None => package,
            }),
        },
        ActionView::Screenshot { description } => match description {
            Some(d) => d,
            None => "截图成功"@,
        },
        ActionView::Finish { result, .. } => result,
        _ => description_of(a),
    }
}

/// The result of an action that the device has performed in `elapsed_ms`
/// milliseconds. A finish takes no time and succeeds as it says; a
/// screenshot carries the image.
pub open spec fn outcome_of(a: ActionView, elapsed_ms: u32, screenshot: Option<Seq<char>>) -> ResultView {
    match a {
        ActionView::Finish { result, success } => ResultView {
            success,
            message: result,
            duration_ms: 0,
            screenshot_before: None,
            screenshot_after: None,
        },
        ActionView::Screenshot { .. } => ResultView {
            success: true,
            message: result_message(a),
            duration_ms: elapsed_ms,
            screenshot_before: screenshot,
            screenshot_after: None,
        },
        _ => ResultView {
            success: true,
            message: result_message(a),
            duration_ms: elapsed_ms,
            screenshot_before: None,
            screenshot_after: None,
        },
    }
}

/// The text of the error for a launch whose app is not known.
pub open spec fn unknown_app_text(package: Seq<char>) -> Seq<char> {
    "无法识别的应用名称: "@ + package + "，请使用完整的包名或已知的应用名称"@
}

impl LaunchAction {
    /// The package to start, or the error for an app that is not known.
    pub fn resolve(&self) -> (r: Result<String, AppError>)
        ensures
            match r {
                Ok(package) => launch_target(self.package@) == Some(package@),
                Err(e) => launch_target(self.package@) is None && (e matches AppError::AdbError(
                    text,
                ) && text@ == unknown_app_text(self.package@)),
            },
    {
        match self.target_package() {
            Some(package) => Ok(package),
            None => Err(
                AppError::AdbError(
                    concat3("无法识别的应用名称: ", self.package.as_str(), "，请使用完整的包名或已知的应用名称"),
                ),
            ),
        }
    }
}

impl ActionEnum {
    /// The result of this action once the device has performed it in
    /// `elapsed_ms` milliseconds. `screenshot` is the image that a
    /// screenshot action captured.
    pub fn outcome(&self, elapsed_ms: u32, screenshot: Option<String>) -> (r: ActionResult)
        ensures
            r.deep_view() == outcome_of(self@, elapsed_ms, opt_text(screenshot)),
    {
        match self {
            ActionEnum::Finish(a) => ActionResult {
                success: a.success,
                message: a.result.clone(),
                duration_ms: 0,
                screenshot_before: None,
                screenshot_after: None,
            },
            ActionEnum::Screenshot(a) => ActionResult {
                success: true,
                message: match &a.description {
                    Some(d) => d.clone(),
                    None => "截图成功".to_owned(),
                },
                duration_ms: elapsed_ms,
                screenshot_before: screenshot,
                screenshot_after: None,
            },
            ActionEnum::Launch(a) => {
                let message = match &a.description {
                    Some(d) => d.clone(),
                    None => match a.target_package() {
                        Some(target) => concat2("启动应用: ", target.as_str()),
                        None => concat2("启动应用: ", a.package.as_str()),
                    },
                };
                ActionResult::success(message, elapsed_ms)
            },
            _ => ActionResult::success(self.description(), elapsed_ms),
        }
    }
}

} // verus!
