//! The errors of the device commands, each with the text that guides the
//! user.

use vstd::prelude::*;
use crate::error::AppError;
use crate::text::{chars_of, decimal, push_decimal, push_text, string_of};

verus! {

/// Whether `e` is an error of an on-device command with the text `text`.
pub open spec fn is_adb_error(e: AppError, text: Seq<char>) -> bool {
    e matches AppError::AdbError(m) && m@ == text
}

/// The text of the error for a shell command that could not be run.
pub open spec fn shell_spawn_failure_text(cause: Seq<char>) -> Seq<char> {
    "执行命令失败: "@ + cause
}

/// The error for a shell command that could not be run.
pub fn shell_spawn_failure(cause: &str) -> (e: AppError)
    ensures
        is_adb_error(e, shell_spawn_failure_text(cause@)),
{
    let mut v = chars_of("执行命令失败: ");
    push_text(&mut v, cause);
    AppError::AdbError(string_of(v.as_slice()))
}

/// The text of the error for a shell command that ended in failure.
pub open spec fn shell_failure_text(stderr: Seq<char>) -> Seq<char> {
    "命令执行失败: "@ + stderr
}

/// The error for a shell command that ended in failure.
pub fn shell_failure(stderr: &str) -> (e: AppError)
    ensures
        is_adb_error(e, shell_failure_text(stderr@)),
{
    let mut v = chars_of("命令执行失败: ");
    push_text(&mut v, stderr);
    AppError::AdbError(string_of(v.as_slice()))
}

/// The text of the error for an output that shows no screen size.
pub open spec fn size_parse_failure_text(output: Seq<char>) -> Seq<char> {
    "无法解析屏幕尺寸: "@ + output
}

/// The error for an output that shows no screen size.
pub fn size_parse_failure(output: &str) -> (e: AppError)
    ensures
        is_adb_error(e, size_parse_failure_text(output@)),
{
    let mut v = chars_of("无法解析屏幕尺寸: ");
    push_text(&mut v, output);
    AppError::AdbError(string_of(v.as_slice()))
}

/// The text of the error for a screenshot command that could not be run.
pub open spec fn screenshot_spawn_failure_text(cause: Seq<char>) -> Seq<char> {
    "截图失败: "@ + cause
}

/// The error for a screenshot command that could not be run.
pub fn screenshot_spawn_failure(cause: &str) -> (e: AppError)
    ensures
        is_adb_error(e, screenshot_spawn_failure_text(cause@)),
{
    let mut v = chars_of("截图失败: ");
    push_text(&mut v, cause);
    AppError::AdbError(string_of(v.as_slice()))
}

/// The text of the error for a screenshot command that ended in failure.
pub open spec fn screenshot_failure_text() -> Seq<char> {
    "截图命令执行失败"@
}

/// The error for a screenshot command that ended in failure.
pub fn screenshot_failure() -> (e: AppError)
    ensures
        is_adb_error(e, screenshot_failure_text()),
{
    let mut v = chars_of("截图命令执行失败");
    AppError::AdbError(string_of(v.as_slice()))
}

/// The text of the error for a device whose resolution is not known.
pub open spec fn resolution_unknown_text() -> Seq<char> {
    "无法获取屏幕分辨率"@
}

/// The error for a device whose resolution is not known.
pub fn resolution_unknown() -> (e: AppError)
    ensures
        is_adb_error(e, resolution_unknown_text()),
{
    let mut v = chars_of("无法获取屏幕分辨率");
    AppError::AdbError(string_of(v.as_slice()))
}

/// The text of the error for a tap whose command could not be run.
pub open spec fn tap_spawn_failure_text(x: u32, y: u32, cause: Seq<char>) -> Seq<char> {
    "点击操作失败：无法执行 ADB 命令\n\n坐标：("@ + decimal(x as nat) + ", "@ + decimal(y as nat) + ")\n错误："@ + cause + "\n\n建议：\n- 检查设备连接\n- 检查坐标是否在屏幕范围内\n- 尝试重新连接设备"@
}

/// The error for a tap whose command could not be run.
pub fn tap_spawn_failure(x: u32, y: u32, cause: &str) -> (e: AppError)
    ensures
        is_adb_error(e, tap_spawn_failure_text(x, y, cause@)),
{
    let mut v = chars_of("点击操作失败：无法执行 ADB 命令\n\n坐标：(");
    push_decimal(&mut v, x as u64);
    push_text(&mut v, ", ");
    push_decimal(&mut v, y as u64);
    push_text(&mut v, ")\n错误：");
    push_text(&mut v, cause);
    push_text(&mut v, "\n\n建议：\n- 检查设备连接\n- 检查坐标是否在屏幕范围内\n- 尝试重新连接设备");
    AppError::AdbError(string_of(v.as_slice()))
}

/// The text of the error for a tap whose command ended in failure.
pub open spec fn tap_failure_text(x: u32, y: u32, physical_x: u32, physical_y: u32, stderr: Seq<char>) -> Seq<char> {
    "点击操作失败：命令执行失败\n\n坐标：("@ + decimal(x as nat) + ", "@ + decimal(y as nat) + ")\n转换后物理坐标：("@ + decimal(physical_x as nat) + ", "@ + decimal(physical_y as nat) + ")\n错误信息："@ + stderr + "\n\n可能的原因：\n1. 设备连接断开\n2. 坐标超出屏幕范围\n3. 屏幕锁定或应用无响应\n\n建议：\n- 检查设备连接状态\n- 确认坐标在屏幕范围内\n- 检查屏幕是否锁定\n- 尝试重新执行操作"@
}

/// The error for a tap whose command ended in failure.
pub fn tap_failure(x: u32, y: u32, physical_x: u32, physical_y: u32, stderr: &str) -> (e: AppError)
    ensures
        is_adb_error(e, tap_failure_text(x, y, physical_x, physical_y, stderr@)),
{
    let mut v = chars_of("点击操作失败：命令执行失败\n\n坐标：(");
    push_decimal(&mut v, x as u64);
    push_text(&mut v, ", ");
    push_decimal(&mut v, y as u64);
    push_text(&mut v, ")\n转换后物理坐标：(");
    push_decimal(&mut v, physical_x as u64);
    push_text(&mut v, ", ");
    push_decimal(&mut v, physical_y as u64);
    push_text(&mut v, ")\n错误信息：");
    push_text(&mut v, stderr);
    push_text(&mut v, "\n\n可能的原因：\n1. 设备连接断开\n2. 坐标超出屏幕范围\n3. 屏幕锁定或应用无响应\n\n建议：\n- 检查设备连接状态\n- 确认坐标在屏幕范围内\n- 检查屏幕是否锁定\n- 尝试重新执行操作");
    AppError::AdbError(string_of(v.as_slice()))
}

/// The text of the error for a swipe whose command could not be run.
pub open spec fn swipe_spawn_failure_text(start_x: u32, start_y: u32, end_x: u32, end_y: u32, duration_ms: u32, cause: Seq<char>) -> Seq<char> {
    "滑动操作失败：无法执行 ADB 命令\n\n起点：("@ + decimal(start_x as nat) + ", "@ + decimal(start_y as nat) + ")\n终点：("@ + decimal(end_x as nat) + ", "@ + decimal(end_y as nat) + ")\n持续时间："@ + decimal(duration_ms as nat) + "ms\n错误："@ + cause + "\n\n建议：\n- 检查设备连接\n- 检查坐标是否在屏幕范围内\n- 尝试重新连接设备"@
}

/// The error for a swipe whose command could not be run.
pub fn swipe_spawn_failure(start_x: u32, start_y: u32, end_x: u32, end_y: u32, duration_ms: u32, cause: &str) -> (e: AppError)
    ensures
        is_adb_error(e, swipe_spawn_failure_text(start_x, start_y, end_x, end_y, duration_ms, cause@)),
{
    let mut v = chars_of("滑动操作失败：无法执行 ADB 命令\n\n起点：(");
    push_decimal(&mut v, start_x as u64);
    push_text(&mut v, ", ");
    push_decimal(&mut v, start_y as u64);
    push_text(&mut v, ")\n终点：(");
    push_decimal(&mut v, end_x as u64);
    push_text(&mut v, ", ");
    push_decimal(&mut v, end_y as u64);
    push_text(&mut v, ")\n持续时间：");
    push_decimal(&mut v, duration_ms as u64);
    push_text(&mut v, "ms\n错误：");
    push_text(&mut v, cause);
    push_text(&mut v, "\n\n建议：\n- 检查设备连接\n- 检查坐标是否在屏幕范围内\n- 尝试重新连接设备");
    AppError::AdbError(string_of(v.as_slice()))
}

/// The text of the error for a swipe whose command ended in failure.
pub open spec fn swipe_failure_text(start_x: u32, start_y: u32, physical_start_x: u32, physical_start_y: u32, end_x: u32, end_y: u32, physical_end_x: u32, physical_end_y: u32, duration_ms: u32, stderr: Seq<char>) -> Seq<char> {
    "滑动操作失败：命令执行失败\n\n起点：("@ + decimal(start_x as nat) + ", "@ + decimal(start_y as nat) + ") -> 物理坐标：("@ + decimal(physical_start_x as nat) + ", "@ + decimal(physical_start_y as nat) + ")\n终点：("@ + decimal(end_x as nat) + ", "@ + decimal(end_y as nat) + ") -> 物理坐标：("@ + decimal(physical_end_x as nat) + ", "@ + decimal(physical_end_y as nat) + ")\n持续时间："@ + decimal(duration_ms as nat) + "ms\n错误信息："@ + stderr + "\n\n可能的原因：\n1. 设备连接断开\n2. 坐标超出屏幕范围\n3. 屏幕锁定或应用无响应\n4. 滑动距离过短或时间设置不当\n\n建议：\n- 检查设备连接状态\n- 确认坐标在屏幕范围内\n- 检查屏幕是否锁定\n- 尝试增加滑动距离或调整时间\n- 尝试重新执行操作"@
}

/// The error for a swipe whose command ended in failure.
pub fn swipe_failure(start_x: u32, start_y: u32, physical_start_x: u32, physical_start_y: u32, end_x: u32, end_y: u32, physical_end_x: u32, physical_end_y: u32, duration_ms: u32, stderr: &str) -> (e: AppError)
    ensures
        is_adb_error(e, swipe_failure_text(start_x, start_y, physical_start_x, physical_start_y, end_x, end_y, physical_end_x, physical_end_y, duration_ms, stderr@)),
{
    let mut v = chars_of("滑动操作失败：命令执行失败\n\n起点：(");
    push_decimal(&mut v, start_x as u64);
    push_text(&mut v, ", ");
    push_decimal(&mut v, start_y as u64);
    push_text(&mut v, ") -> 物理坐标：(");
    push_decimal(&mut v, physical_start_x as u64);
    push_text(&mut v, ", ");
    push_decimal(&mut v, physical_start_y as u64);
    push_text(&mut v, ")\n终点：(");
    push_decimal(&mut v, end_x as u64);
    push_text(&mut v, ", ");
    push_decimal(&mut v, end_y as u64);
    push_text(&mut v, ") -> 物理坐标：(");
    push_decimal(&mut v, physical_end_x as u64);
    push_text(&mut v, ", ");
    push_decimal(&mut v, physical_end_y as u64);
    push_text(&mut v, ")\n持续时间：");
    push_decimal(&mut v, duration_ms as u64);
    push_text(&mut v, "ms\n错误信息：");
    push_text(&mut v, stderr);
    push_text(&mut v, "\n\n可能的原因：\n1. 设备连接断开\n2. 坐标超出屏幕范围\n3. 屏幕锁定或应用无响应\n4. 滑动距离过短或时间设置不当\n\n建议：\n- 检查设备连接状态\n- 确认坐标在屏幕范围内\n- 检查屏幕是否锁定\n- 尝试增加滑动距离或调整时间\n- 尝试重新执行操作");
    AppError::AdbError(string_of(v.as_slice()))
}

/// The text of the error for a text input whose command could not be run.
pub open spec fn text_spawn_failure_text(text: Seq<char>, cause: Seq<char>) -> Seq<char> {
    "输入文本失败：无法执行 ADB 命令\n\n文本内容："@ + text + "\n错误："@ + cause + "\n\n建议：\n- 检查设备连接\n- 确认输入框已激活\n- 尝试重新连接设备"@
}

/// The error for a text input whose command could not be run.
pub fn text_spawn_failure(text: &str, cause: &str) -> (e: AppError)
    ensures
        is_adb_error(e, text_spawn_failure_text(text@, cause@)),
{
    let mut v = chars_of("输入文本失败：无法执行 ADB 命令\n\n文本内容：");
    push_text(&mut v, text);
    push_text(&mut v, "\n错误：");
    push_text(&mut v, cause);
    push_text(&mut v, "\n\n建议：\n- 检查设备连接\n- 确认输入框已激活\n- 尝试重新连接设备");
    AppError::AdbError(string_of(v.as_slice()))
}

/// The text of the error for a text input whose command ended in failure.
pub open spec fn text_failure_text(text: Seq<char>, stderr: Seq<char>) -> Seq<char> {
    "输入文本失败：命令执行失败\n\n文本内容："@ + text + "\n错误信息："@ + stderr + "\n\n可能的原因：\n1. 设备连接断开\n2. 没有激活的输入框\n3. 输入框不支持文本输入\n4. 特殊字符转义问题\n\n建议：\n- 确保输入框已激活（先点击输入框）\n- 检查设备连接状态\n- 尝试分段输入较长文本\n- 如果是特殊字符，尝试使用其他输入方式"@
}

/// The error for a text input whose command ended in failure.
pub fn text_failure(text: &str, stderr: &str) -> (e: AppError)
    ensures
        is_adb_error(e, text_failure_text(text@, stderr@)),
{
    let mut v = chars_of("输入文本失败：命令执行失败\n\n文本内容：");
    push_text(&mut v, text);
    push_text(&mut v, "\n错误信息：");
    push_text(&mut v, stderr);
    push_text(&mut v, "\n\n可能的原因：\n1. 设备连接断开\n2. 没有激活的输入框\n3. 输入框不支持文本输入\n4. 特殊字符转义问题\n\n建议：\n- 确保输入框已激活（先点击输入框）\n- 检查设备连接状态\n- 尝试分段输入较长文本\n- 如果是特殊字符，尝试使用其他输入方式");
    AppError::AdbError(string_of(v.as_slice()))
}

/// The text of the error for a key press whose command could not be run.
pub open spec fn key_spawn_failure_text(cause: Seq<char>) -> Seq<char> {
    "按键失败: "@ + cause
}

/// The error for a key press whose command could not be run.
pub fn key_spawn_failure(cause: &str) -> (e: AppError)
    ensures
        is_adb_error(e, key_spawn_failure_text(cause@)),
{
    let mut v = chars_of("按键失败: ");
    push_text(&mut v, cause);
    AppError::AdbError(string_of(v.as_slice()))
}

/// The text of the error for a key press whose command ended in failure.
pub open spec fn key_failure_text() -> Seq<char> {
    "按键命令执行失败"@
}

/// The error for a key press whose command ended in failure.
pub fn key_failure() -> (e: AppError)
    ensures
        is_adb_error(e, key_failure_text()),
{
    let mut v = chars_of("按键命令执行失败");
    AppError::AdbError(string_of(v.as_slice()))
}

/// The text of the error for a launch of a package that the device does not have.
pub open spec fn launch_not_installed_text(package: Seq<char>) -> Seq<char> {
    "启动应用失败：找不到应用 '"@ + package + "'\n\n可能的原因：\n1. 应用未安装\n2. 包名错误\n3. 应用名称不在支持列表中\n\n建议：\n- 检查应用是否已安装\n- 使用完整包名（如 com.tencent.mm）\n- 或使用支持的应用名称（如：微信、淘宝、抖音等）"@
}

/// The error for a launch of a package that the device does not have.
pub fn launch_not_installed(package: &str) -> (e: AppError)
    ensures
        is_adb_error(e, launch_not_installed_text(package@)),
{
    let mut v = chars_of("启动应用失败：找不到应用 '");
    push_text(&mut v, package);
    push_text(&mut v, "'\n\n可能的原因：\n1. 应用未安装\n2. 包名错误\n3. 应用名称不在支持列表中\n\n建议：\n- 检查应用是否已安装\n- 使用完整包名（如 com.tencent.mm）\n- 或使用支持的应用名称（如：微信、淘宝、抖音等）");
    AppError::AdbError(string_of(v.as_slice()))
}

/// The text of the error for a launch on a device that is not reachable.
pub open spec fn launch_device_unavailable_text(serial: Seq<char>) -> Seq<char> {
    "设备连接失败：设备 '"@ + serial + "' 不可用\n\n可能的原因：\n1. 设备未连接\n2. USB 调试未开启\n3. ADB 连接断开\n\n建议：\n- 检查设备是否连接\n- 重新连接设备\n- 重启 ADB 服务"@
}

/// The error for a launch on a device that is not reachable.
pub fn launch_device_unavailable(serial: &str) -> (e: AppError)
    ensures
        is_adb_error(e, launch_device_unavailable_text(serial@)),
{
    let mut v = chars_of("设备连接失败：设备 '");
    push_text(&mut v, serial);
    push_text(&mut v, "' 不可用\n\n可能的原因：\n1. 设备未连接\n2. USB 调试未开启\n3. ADB 连接断开\n\n建议：\n- 检查设备是否连接\n- 重新连接设备\n- 重启 ADB 服务");
    AppError::AdbError(string_of(v.as_slice()))
}

/// The text of the error for a launch that the device did not permit.
pub open spec fn launch_permission_denied_text() -> Seq<char> {
    "权限不足：无法启动应用\n\n可能的原因：\n1. ADB 权限不足\n2. 应用需要特殊权限\n\n建议：\n- 检查 ADB 调试权限\n- 尝试手动授权应用"@
}

/// The error for a launch that the device did not permit.
pub fn launch_permission_denied() -> (e: AppError)
    ensures
        is_adb_error(e, launch_permission_denied_text()),
{
    let mut v = chars_of("权限不足：无法启动应用\n\n可能的原因：\n1. ADB 权限不足\n2. 应用需要特殊权限\n\n建议：\n- 检查 ADB 调试权限\n- 尝试手动授权应用");
    AppError::AdbError(string_of(v.as_slice()))
}

/// The text of the error for a launch that failed for another reason.
pub open spec fn launch_failure_text(package: Seq<char>, detail: Seq<char>) -> Seq<char> {
    "启动应用失败："@ + package + "\n\n应用包名："@ + package + "\n错误详情："@ + detail + "\n\n建议：\n- 检查应用是否已安装\n- 尝试使用其他启动方式\n- 检查设备状态"@
}

/// The error for a launch that failed for another reason.
pub fn launch_failure(package: &str, detail: &str) -> (e: AppError)
    ensures
        is_adb_error(e, launch_failure_text(package@, detail@)),
{
    let mut v = chars_of("启动应用失败：");
    push_text(&mut v, package);
    push_text(&mut v, "\n\n应用包名：");
    push_text(&mut v, package);
    push_text(&mut v, "\n错误详情：");
    push_text(&mut v, detail);
    push_text(&mut v, "\n\n建议：\n- 检查应用是否已安装\n- 尝试使用其他启动方式\n- 检查设备状态");
    AppError::AdbError(string_of(v.as_slice()))
}

/// The text of the error for a launch whose command could not be run.
pub open spec fn launch_spawn_failure_text(cause: Seq<char>) -> Seq<char> {
    "ADB 命令执行失败: "@ + cause
}

/// The error for a launch whose command could not be run.
pub fn launch_spawn_failure(cause: &str) -> (e: AppError)
    ensures
        is_adb_error(e, launch_spawn_failure_text(cause@)),
{
    let mut v = chars_of("ADB 命令执行失败: ");
    push_text(&mut v, cause);
    AppError::AdbError(string_of(v.as_slice()))
}

/// The text of the error for an output that shows no current app.
pub open spec fn current_app_unknown_text() -> Seq<char> {
    "无法解析当前应用包名"@
}

/// The error for an output that shows no current app.
pub fn current_app_unknown() -> (e: AppError)
    ensures
        is_adb_error(e, current_app_unknown_text()),
{
    let mut v = chars_of("无法解析当前应用包名");
    AppError::AdbError(string_of(v.as_slice()))
}

} // verus!
