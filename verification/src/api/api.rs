//! The answers of the HTTP control surface.

use vstd::prelude::*;
use crate::context::context::ScrcpyServer;
use crate::scrcpy::scrcpy::ScrcpyConnect;
use crate::text::{
    chars_of, concat3, ends_with, find_char_from, finishes_with, first_char_index, lowercase,
    slice_chars, string_of, strip_front, strip_front_bound, to_lowercase, CharClass,
};

verus! {

/// A device as the list of devices shows it.
#[derive(Debug, Clone, PartialEq, Eq)]
pub struct DeviceInfo {
    pub serial: String,
    pub status: String,
}

/// The list of devices.
#[derive(Debug, Clone, PartialEq, Eq)]
pub struct DevicesResponse {
    pub devices: Vec<DeviceInfo>,
    pub count: usize,
}

/// The request to connect or to disconnect a device.
#[derive(Debug, Clone, PartialEq, Eq)]
pub struct ConnectDeviceRequest {
    pub serial: String,
}

/// Where the stream of a connected device is served.
#[derive(Debug, Clone, PartialEq, Eq)]
pub struct ConnectResponse {
    pub serial: String,
    pub socketio_port: u16,
}

/// The envelope of every structured answer.
#[derive(Debug, Clone, PartialEq, Eq)]
pub struct ApiResponse<T> {
    pub success: bool,
    pub message: String,
    pub data: Option<T>,
}

/// The greeting of the surface.
pub const GREETING: &'static str = "你好，欢迎使用 Axum Scrcpy API！";

/// The status code of a success.
pub const STATUS_OK: u16 = 200;

/// The status code of a request that does not fit the state.
pub const STATUS_BAD_REQUEST: u16 = 400;

/// The status code of an unknown device.
pub const STATUS_NOT_FOUND: u16 = 404;

/// The list of devices for the devices given.
pub fn devices_response(devices: Vec<DeviceInfo>) -> (r: DevicesResponse)
    ensures
        r.devices == devices,
        r.count == devices@.len(),
{
    let count = devices.len();
    DevicesResponse { devices, count }
}

/// The answer to a connect request for a device that is connected
/// already: its endpoint, and the word that it is connected. None where
/// the device is not connected, and is to be connected.
pub fn already_connected(server: &ScrcpyServer, serial: &str) -> (r: Option<
    ApiResponse<ConnectResponse>,
>)
    ensures
        match r {
            Some(answer) => {
                &&& server@.contains_key(serial@)
                &&& answer.success
                &&& answer.message@ == "设备 "@ + serial@ + " 已连接"@
                &&& answer.data matches Some(data)
                &&& data.serial@ == serial@
                &&& data.socketio_port == server@[serial@].port
            },
            None => !server@.contains_key(serial@),
        },
{
    match server.get_device_connect(serial) {
        Some(connect) => Some(
            ApiResponse {
                success: true,
                message: concat3("设备 ", serial, " 已连接"),
                data: Some(
                    ConnectResponse { serial: serial.to_owned(), socketio_port: connect.get_port() },
                ),
            },
        ),
        None => None,
    }
}

/// Enters a device that was connected just now, and answers the connect
/// request with its endpoint.
pub fn connected(server: &mut ScrcpyServer, serial: &str, connect: ScrcpyConnect) -> (r: ApiResponse<
    ConnectResponse,
>)
    ensures
        final(server)@ == old(server)@.insert(serial@, connect),
        r.success,
        r.message@ == "设备 "@ + serial@ + " 连接成功"@,
        r.data matches Some(data) && data.serial@ == serial@ && data.socketio_port == connect.port,
{
    server.add_device(serial.to_owned(), connect);
    ApiResponse {
        success: true,
        message: concat3("设备 ", serial, " 连接成功"),
        data: Some(ConnectResponse { serial: serial.to_owned(), socketio_port: connect.get_port() }),
    }
}

/// Answers a disconnect request: a device that is connected is removed,
/// with status 200; for any other device the answer is status 400, and
/// nothing changes.
pub fn disconnect(server: &mut ScrcpyServer, serial: &str) -> (r: (u16, ApiResponse<String>))
    ensures
        if old(server)@.contains_key(serial@) {
            &&& final(server)@ == old(server)@.remove(serial@)
            &&& r.0 == 200
            &&& r.1.success
            &&& r.1.message@ == "设备 "@ + serial@ + " 断开连接成功"@
            &&& r.1.data matches Some(s)
            &&& s@ == serial@
        } else {
            &&& final(server)@ == old(server)@
            &&& r.0 == 400
            &&& !r.1.success
            &&& r.1.message@ == "设备 "@ + serial@ + " 未连接"@
            &&& r.1.data is None
        },
{
    if !server.is_device_connected(serial) {
        return (
            STATUS_BAD_REQUEST,
            ApiResponse { success: false, message: concat3("设备 ", serial, " 未连接"), data: None },
        );
    }
    server.remove_device(serial);
    (
        STATUS_OK,
        ApiResponse {
            success: true,
            message: concat3("设备 ", serial, " 断开连接成功"),
            data: Some(serial.to_owned()),
        },
    )
}

/// Answers a status request: status 200 and `connected` for a device that
/// is connected, status 404 for any other.
pub fn device_status(server: &ScrcpyServer, serial: &str) -> (r: (u16, ApiResponse<DeviceInfo>))
    ensures
        if server@.contains_key(serial@) {
            &&& r.0 == 200
            &&& r.1.success
            &&& r.1.message@ == "获取设备状态成功"@
            &&& r.1.data matches Some(info)
            &&& info.serial@ == serial@
            &&& info.status@ == "connected"@
        } else {
            &&& r.0 == 404
            &&& !r.1.success
            &&& r.1.message@ == "设备 "@ + serial@ + " 未找到"@
            &&& r.1.data is None
        },
{
    if server.is_device_connected(serial) {
        (
            STATUS_OK,
            ApiResponse {
                success: true,
                message: "获取设备状态成功".to_owned(),
                data: Some(
                    DeviceInfo { serial: serial.to_owned(), status: "connected".to_owned() },
                ),
            },
        )
    } else {
        (
            STATUS_NOT_FOUND,
            ApiResponse { success: false, message: concat3("设备 ", serial, " 未找到"), data: None },
        )
    }
}

/// The MIME type of a file, by the ending of its path in lower case.
pub open spec fn mime_type_of(path: Seq<char>) -> Seq<char> {
    mime_type_lowered(lowercase(path))
}

/// The MIME type of a file, by the ending of its path, which is given in
/// lower case.
pub open spec fn mime_type_lowered(l: Seq<char>) -> Seq<char> {
    if finishes_with(l, ".html"@) || finishes_with(l, ".htm"@) {
        "text/html"@
    } else if finishes_with(l, ".css"@) {
        "text/css"@
    } else if finishes_with(l, ".js"@) {
        "application/javascript"@
    } else if finishes_with(l, ".json"@) {
        "application/json"@
    } else if finishes_with(l, ".png"@) {
        "image/png"@
    } else if finishes_with(l, ".jpg"@) || finishes_with(l, ".jpeg"@) {
        "image/jpeg"@
    } else if finishes_with(l, ".gif"@) {
        "image/gif"@
    } else if finishes_with(l, ".svg"@) {
        "image/svg+xml"@
    } else if finishes_with(l, ".ico"@) {
        "image/x-icon"@
    } else if finishes_with(l, ".woff"@) {
        "font/woff"@
    } else if finishes_with(l, ".woff2"@) {
        "font/woff2"@
    } else if finishes_with(l, ".ttf"@) {
        "font/ttf"@
    } else if finishes_with(l, ".eot"@) {
        "application/vnd.ms-fontobject"@
    } else if finishes_with(l, ".mp4"@) {
        "video/mp4"@
    } else if finishes_with(l, ".webm"@) {
        "video/webm"@
    } else if finishes_with(l, ".mp3"@) {
        "audio/mpeg"@
    } else if finishes_with(l, ".wav"@) {
        "audio/wav"@
    } else if finishes_with(l, ".pdf"@) {
        "application/pdf"@
    } else if finishes_with(l, ".zip"@) {
        "application/zip"@
    } else {
        "application/octet-stream"@
    }
}

fn ends(s: &[char], suffix: &str) -> (b: bool)
    ensures
        b == finishes_with(s@, suffix@),
{
    let e = chars_of(suffix);
    ends_with(s, e.as_slice())
}

/// The MIME type of a file, by the ending of its path.
pub fn get_mime_type(path: &str) -> (r: &'static str)
    ensures
        r@ == mime_type_of(path@),
{
    let lower = to_lowercase(path);
    mime_type_of_lowered(lower.as_str())
}

/// The MIME type of a file, by the ending of its path, which is given in
/// lower case.
pub fn mime_type_of_lowered(lower: &str) -> (r: &'static str)
    ensures
        r@ == mime_type_lowered(lower@),
{
    let l = chars_of(lower);
    if ends(l.as_slice(), ".html") || ends(l.as_slice(), ".htm") {
        "text/html"
    } else if ends(l.as_slice(), ".css") {
        "text/css"
    } else if ends(l.as_slice(), ".js") {
        "application/javascript"
    } else if ends(l.as_slice(), ".json") {
        "application/json"
    } else if ends(l.as_slice(), ".png") {
        "image/png"
    } else if ends(l.as_slice(), ".jpg") || ends(l.as_slice(), ".jpeg") {
        "image/jpeg"
    } else if ends(l.as_slice(), ".gif") {
        "image/gif"
    } else if ends(l.as_slice(), ".svg") {
        "image/svg+xml"
    } else if ends(l.as_slice(), ".ico") {
        "image/x-icon"
    } else if ends(l.as_slice(), ".woff") {
        "font/woff"
    } else if ends(l.as_slice(), ".woff2") {
        "font/woff2"
    } else if ends(l.as_slice(), ".ttf") {
        "font/ttf"
    } else if ends(l.as_slice(), ".eot") {
        "application/vnd.ms-fontobject"
    } else if ends(l.as_slice(), ".mp4") {
        "video/mp4"
    } else if ends(l.as_slice(), ".webm") {
        "video/webm"
    } else if ends(l.as_slice(), ".mp3") {
        "audio/mpeg"
    } else if ends(l.as_slice(), ".wav") {
        "audio/wav"
    } else if ends(l.as_slice(), ".pdf") {
        "application/pdf"
    } else if ends(l.as_slice(), ".zip") {
        "application/zip"
    } else {
        "application/octet-stream"
    }
}

/// The asset that a path under `/web/` asks for: the index page for the
/// empty path and for `/`, else the path without its leading slashes.
pub open spec fn web_asset(path: Seq<char>) -> Seq<char> {
    if path.len() == 0 || path == "/"@ {
        "index.html"@
    } else {
        strip_front(path, CharClass::Only('/'))
    }
}

/// Whether an asset that was not found may be a directory, whose index
/// page is then tried: its path holds no dot.
pub open spec fn may_be_directory(asset: Seq<char>) -> bool {
    first_char_index(asset, '.', 0) < 0
}

/// The asset that a path under `/web/` asks for.
pub fn web_asset_path(path: &str) -> (r: String)
    ensures
        r@ == web_asset(path@),
{
    if path.is_empty() || crate::text::same_text(path, "/") {
        return "index.html".to_owned();
    }
    let s = chars_of(path);
    let a = strip_front_bound(s.as_slice(), 0, s.len(), CharClass::Only('/'));
    proof {
        assert(s@.subrange(0, s@.len() as int) =~= s@);
    }
    let rest = slice_chars(s.as_slice(), a, s.len());
    string_of(rest.as_slice())
}

/// The index page to try for an asset that was not found, where the asset
/// may be a directory.
pub fn directory_index(asset: &str) -> (r: Option<String>)
    ensures
        match r {
            Some(index) => may_be_directory(asset@) && index@ == asset@ + "/index.html"@,
            None => !may_be_directory(asset@),
        },
{
    let s = chars_of(asset);
    match find_char_from(s.as_slice(), '.', 0) {
        Some(_) => None,
        None => Some(crate::text::concat2(asset, "/index.html")),
    }
}

} // verus!
