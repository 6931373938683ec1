//! The operations an agent may perform against a device.

pub mod base;
pub mod input;
pub mod navigation;
pub mod parse;
pub mod swipe;
pub mod system;
pub mod touch;

pub use base::{ActionEnum, DeviceCommand};
pub use input::{KeyCode, PressKeyAction, TypeAction};
pub use navigation::{BackAction, HomeAction, NotificationAction, RecentAction};
pub use swipe::{ScrollAction, ScrollDirection, SwipeAction};
pub use system::{
    app_name_to_package, get_app_packages, FinishAction, LaunchAction, ScreenshotAction, WaitAction,
};
pub use touch::{DoubleTapAction, LongPressAction, TapAction};
